use vstd::prelude::*;

use crate::earn::deposit::DepositParams as LendingDeposit;
use crate::instruction::{Address, Instruction};

verus! {

/// The accounts of a deposit into a lending market.
#[derive(Clone, Copy, Debug)]
pub struct DepositParams {
    pub signer: Address,
    pub depositor_token_account: Address,
    pub recipient_token_account: Address,
    pub mint: Address,
    pub lending_admin: Address,
    pub lending: Address,
    pub f_token_mint: Address,
    pub supply_token_reserves_liquidity: Address,
    pub lending_supply_position_on_liquidity: Address,
    pub rate_model: Address,
    pub vault: Address,
    pub liquidity: Address,
    pub liquidity_program: Address,
    pub rewards_rate_model: Address,
    pub token_program: Address,
    pub associated_token_program: Address,
    pub system_program: Address,
    pub lending_program: Address,
}

impl DepositParams {
    /// The same accounts, as the lending market's own deposit call takes them.
    pub open spec fn spec_lending(self) -> LendingDeposit {
        LendingDeposit {
            signer: self.signer,
            depositor_token_account: self.depositor_token_account,
            recipient_token_account: self.recipient_token_account,
            mint: self.mint,
            lending_admin: self.lending_admin,
            lending: self.lending,
            f_token_mint: self.f_token_mint,
            supply_token_reserves_liquidity: self.supply_token_reserves_liquidity,
            lending_supply_position_on_liquidity: self.lending_supply_position_on_liquidity,
            rate_model: self.rate_model,
            vault: self.vault,
            liquidity: self.liquidity,
            liquidity_program: self.liquidity_program,
            rewards_rate_model: self.rewards_rate_model,
            token_program: self.token_program,
            associated_token_program: self.associated_token_program,
            system_program: self.system_program,
            lending_program: self.lending_program,
        }
    }

    fn lending(&self) -> (r: LendingDeposit)
        ensures
            r == self.spec_lending(),
    {
        LendingDeposit {
            signer: self.signer,
            depositor_token_account: self.depositor_token_account,
            recipient_token_account: self.recipient_token_account,
            mint: self.mint,
            lending_admin: self.lending_admin,
            lending: self.lending,
            f_token_mint: self.f_token_mint,
            supply_token_reserves_liquidity: self.supply_token_reserves_liquidity,
            lending_supply_position_on_liquidity: self.lending_supply_position_on_liquidity,
            rate_model: self.rate_model,
            vault: self.vault,
            liquidity: self.liquidity,
            liquidity_program: self.liquidity_program,
            rewards_rate_model: self.rewards_rate_model,
            token_program: self.token_program,
            associated_token_program: self.associated_token_program,
            system_program: self.system_program,
            lending_program: self.lending_program,
        }
    }

    /// The instruction that deposits `amount` of the underlying token.
    pub fn deposit_earn(&self, amount: u64) -> (r: Instruction)
        ensures
            r.program_id == self.lending_program,
            r.accounts@ == self.spec_lending().metas(),
            r.data@ == LendingDeposit::data(amount),
    {
        self.lending().deposit(amount)
    }
}

} // verus!
