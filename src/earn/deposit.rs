use vstd::prelude::*;

use crate::encoding::{push_u64, u64_le};
use crate::instruction::{readonly_meta, writable_meta, AccountMeta, Address, Instruction};

verus! {

/// Why a call into the lending program failed.
#[derive(Clone, Copy, Debug, PartialEq, Eq, Structural)]
pub enum ErrorCodes {
    CpiToLendingProgramFailed,
}

pub open spec fn deposit_discriminator() -> Seq<u8> {
    seq![242u8, 35, 198, 137, 82, 225, 242, 182]
}

fn get_deposit_discriminator() -> (r: Vec<u8>)
    ensures
        r@ == deposit_discriminator(),
{
    let r: Vec<u8> = vec![242, 35, 198, 137, 82, 225, 242, 182];
    assert(r@ =~= deposit_discriminator());
    r
}

/// The accounts of a deposit into a lending market.
#[derive(Clone, Copy, Debug)]
pub struct DepositParams {
    pub signer: Address,
    pub depositor_token_account: Address,
    pub recipient_token_account: Address,
    pub mint: Address,
    pub lending_admin: Address,
    pub lending: Address,
    pub f_token_mint: Address,
    pub supply_token_reserves_liquidity: Address,
    pub lending_supply_position_on_liquidity: Address,
    pub rate_model: Address,
    pub vault: Address,
    pub liquidity: Address,
    pub liquidity_program: Address,
    pub rewards_rate_model: Address,
    pub token_program: Address,
    pub associated_token_program: Address,
    pub system_program: Address,
    pub lending_program: Address,
}

impl DepositParams {
    /// The accounts in the order the lending program expects them.
    pub open spec fn metas(self) -> Seq<AccountMeta> {
        seq![
            writable_meta(self.signer, true),
            writable_meta(self.depositor_token_account, false),
            writable_meta(self.recipient_token_account, false),
            readonly_meta(self.mint, false),
            readonly_meta(self.lending_admin, false),
            writable_meta(self.lending, false),
            writable_meta(self.f_token_mint, false),
            writable_meta(self.supply_token_reserves_liquidity, false),
            writable_meta(self.lending_supply_position_on_liquidity, false),
            readonly_meta(self.rate_model, false),
            writable_meta(self.vault, false),
            writable_meta(self.liquidity, false),
            writable_meta(self.liquidity_program, false),
            readonly_meta(self.rewards_rate_model, false),
            readonly_meta(self.token_program, false),
            readonly_meta(self.associated_token_program, false),
            readonly_meta(self.system_program, false),
        ]
    }

    pub open spec fn data(amount: u64) -> Seq<u8> {
        deposit_discriminator() + u64_le(amount)
    }

    /// The instruction that deposits `amount` of the underlying token.
    pub fn deposit(&self, amount: u64) -> (r: Instruction)
        ensures
            r.program_id == self.lending_program,
            r.accounts@ == self.metas(),
            r.data@ == Self::data(amount),
    {
        let mut instruction_data = get_deposit_discriminator();
        push_u64(&mut instruction_data, amount);

        let account_metas: Vec<AccountMeta> = vec![
            AccountMeta::new(self.signer, true),
            AccountMeta::new(self.depositor_token_account, false),
            AccountMeta::new(self.recipient_token_account, false),
            AccountMeta::new_readonly(self.mint, false),
            AccountMeta::new_readonly(self.lending_admin, false),
            AccountMeta::new(self.lending, false),
            AccountMeta::new(self.f_token_mint, false),
            AccountMeta::new(self.supply_token_reserves_liquidity, false),
            AccountMeta::new(self.lending_supply_position_on_liquidity, false),
            AccountMeta::new_readonly(self.rate_model, false),
            AccountMeta::new(self.vault, false),
            AccountMeta::new(self.liquidity, false),
            AccountMeta::new(self.liquidity_program, false),
            AccountMeta::new_readonly(self.rewards_rate_model, false),
            AccountMeta::new_readonly(self.token_program, false),
            AccountMeta::new_readonly(self.associated_token_program, false),
            AccountMeta::new_readonly(self.system_program, false),
        ];
        assert(account_metas@ =~= self.metas());

        Instruction {
            program_id: self.lending_program,
            accounts: account_metas,
            data: instruction_data,
        }
    }
}

} // verus!
