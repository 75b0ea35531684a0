use vstd::prelude::*;

use crate::encoding::{
    i128_le, lemma_le_round_trip, le_value, pow256, push_i128, push_u16, push_u32,
    twos_complement_128, u16_le, u32_le,
};
use crate::instruction::{readonly_meta, writable_meta, AccountMeta, Address, Instruction};

verus! {

/// Why a call into the vaults program was not made or failed.
#[derive(Clone, Copy, Debug, PartialEq, Eq, Structural)]
pub enum VaultsCpiErrorCodes {
    CpiToVaultsProgramFailed,
    InvalidRemainingAccountsIndices,
    MissingClaimAccount,
}

/// How the vaults program moves tokens out to the recipient.
#[derive(Clone, Copy, Debug, PartialEq, Eq, Structural)]
pub enum TransferType {
    Normal,
    Claim,
}

impl TransferType {
    pub open spec fn spec_tag(self) -> u8 {
        match self {
            TransferType::Normal => 0,
            TransferType::Claim => 1,
        }
    }

    /// The byte that stands for this transfer type on the wire.
    pub fn tag(self) -> (r: u8)
        ensures
            r == self.spec_tag(),
    {
        match self {
            TransferType::Normal => 0,
            TransferType::Claim => 1,
        }
    }
}

pub open spec fn init_position_discriminator() -> Seq<u8> {
    seq![197u8, 20, 10, 1, 97, 160, 177, 91]
}

pub open spec fn operate_discriminator() -> Seq<u8> {
    seq![217u8, 106, 208, 99, 116, 151, 42, 135]
}

fn get_init_position_discriminator() -> (r: Vec<u8>)
    ensures
        r@ == init_position_discriminator(),
{
    let r: Vec<u8> = vec![197, 20, 10, 1, 97, 160, 177, 91];
    assert(r@ =~= init_position_discriminator());
    r
}

fn get_operate_discriminator() -> (r: Vec<u8>)
    ensures
        r@ == operate_discriminator(),
{
    let r: Vec<u8> = vec![217, 106, 208, 99, 116, 151, 42, 135];
    assert(r@ =~= operate_discriminator());
    r
}

/// The accounts of a call that opens a new position in a vault.
#[derive(Clone, Copy, Debug)]
pub struct InitPositionParams {
    pub signer: Address,
    pub vault_admin: Address,
    pub vault_state: Address,
    pub position: Address,
    pub position_mint: Address,
    pub position_token_account: Address,
    pub token_program: Address,
    pub associated_token_program: Address,
    pub system_program: Address,
    pub vaults_program: Address,
}

impl InitPositionParams {
    /// The accounts in the order the vaults program expects them.
    pub open spec fn metas(self) -> Seq<AccountMeta> {
        seq![
            writable_meta(self.signer, true),
            writable_meta(self.vault_admin, false),
            writable_meta(self.vault_state, false),
            writable_meta(self.position, false),
            writable_meta(self.position_mint, false),
            writable_meta(self.position_token_account, false),
            readonly_meta(self.token_program, false),
            readonly_meta(self.associated_token_program, false),
            readonly_meta(self.system_program, false),
        ]
    }

    pub open spec fn data(vault_id: u16, next_position_id: u32) -> Seq<u8> {
        init_position_discriminator() + u16_le(vault_id) + u32_le(next_position_id)
    }

    /// The instruction that opens position `next_position_id` in vault `vault_id`.
    pub fn init_position(&self, vault_id: u16, next_position_id: u32) -> (r: Instruction)
        ensures
            r.program_id == self.vaults_program,
            r.accounts@ == self.metas(),
            r.data@ == Self::data(vault_id, next_position_id),
    {
        let mut instruction_data = get_init_position_discriminator();
        push_u16(&mut instruction_data, vault_id);
        push_u32(&mut instruction_data, next_position_id);

        let account_metas: Vec<AccountMeta> = vec![
            AccountMeta::new(self.signer, true),
            AccountMeta::new(self.vault_admin, false),
            AccountMeta::new(self.vault_state, false),
            AccountMeta::new(self.position, false),
            AccountMeta::new(self.position_mint, false),
            AccountMeta::new(self.position_token_account, false),
            AccountMeta::new_readonly(self.token_program, false),
            AccountMeta::new_readonly(self.associated_token_program, false),
            AccountMeta::new_readonly(self.system_program, false),
        ];
        assert(account_metas@ =~= self.metas());

        Instruction {
            program_id: self.vaults_program,
            accounts: account_metas,
            data: instruction_data,
        }
    }
}

/// The one account that an optional account slot adds, if it is filled.
pub open spec fn optional_meta(a: Option<Address>) -> Seq<AccountMeta> {
    match a {
        Some(k) => seq![writable_meta(k, false)],
        None => Seq::empty(),
    }
}

/// The accounts that follow the fixed ones: each writable, none a signer.
pub open spec fn remaining_metas(rs: Seq<Address>) -> Seq<AccountMeta> {
    rs.map_values(|a: Address| writable_meta(a, false))
}

/// The option tag of a transfer type, then its own tag if present.
pub open spec fn transfer_type_bytes(t: Option<TransferType>) -> Seq<u8> {
    match t {
        Some(tt) => seq![1u8, tt.spec_tag()],
        None => seq![0u8],
    }
}

/// Every signed 128-bit value fits, as two's-complement bits, in sixteen bytes, and
/// those bytes read back to the same bits.
pub proof fn lemma_i128_round_trip(x: i128)
    ensures
        i128_le(x).len() == 16,
        le_value(i128_le(x)) == twos_complement_128(x),
{
    reveal_with_fuel(pow256, 17);
    assert(pow256(16) == 0x1_0000_0000_0000_0000_0000_0000_0000_0000);
    lemma_le_round_trip(twos_complement_128(x), 16);
}

/// In an operate instruction the collateral change stands in bytes 8 to 24 and the
/// debt change in bytes 24 to 40, each reading back to its two's-complement bits;
/// the transfer type, the index count and the indices follow.
pub proof fn lemma_operate_layout(
    new_col: i128,
    new_debt: i128,
    t: Option<TransferType>,
    indices: Seq<u8>,
)
    ensures
        ({
            let d = OperateParams::data(new_col, new_debt, t, indices);
            &&& d.len() == 40 + transfer_type_bytes(t).len() + 1 + indices.len()
            &&& d.subrange(0, 8) == operate_discriminator()
            &&& le_value(d.subrange(8, 24)) == twos_complement_128(new_col)
            &&& le_value(d.subrange(24, 40)) == twos_complement_128(new_debt)
            &&& d.subrange(40, d.len() as int) == transfer_type_bytes(t) + seq![indices.len() as u8]
                + indices
        }),
{
    lemma_i128_round_trip(new_col);
    lemma_i128_round_trip(new_debt);
    let d = OperateParams::data(new_col, new_debt, t, indices);
    assert(d.subrange(0, 8) =~= operate_discriminator());
    assert(d.subrange(8, 24) =~= i128_le(new_col));
    assert(d.subrange(24, 40) =~= i128_le(new_debt));
    assert(d.subrange(40, d.len() as int) =~= transfer_type_bytes(t) + seq![indices.len() as u8]
        + indices);
}

/// The accounts of a call that changes a position's collateral and debt.
#[derive(Clone, Copy, Debug)]
pub struct OperateParams {
    pub signer: Address,
    pub signer_supply_token_account: Address,
    pub signer_borrow_token_account: Address,
    pub recipient: Address,
    pub recipient_borrow_token_account: Address,
    pub recipient_supply_token_account: Address,
    pub vault_config: Address,
    pub vault_state: Address,
    pub supply_token: Address,
    pub borrow_token: Address,
    pub oracle: Address,
    pub position: Address,
    pub position_token_account: Address,
    pub current_position_tick: Address,
    pub final_position_tick: Address,
    pub current_position_tick_id: Address,
    pub final_position_tick_id: Address,
    pub new_branch: Address,
    pub supply_token_reserves_liquidity: Address,
    pub borrow_token_reserves_liquidity: Address,
    pub vault_supply_position_on_liquidity: Address,
    pub vault_borrow_position_on_liquidity: Address,
    pub supply_rate_model: Address,
    pub borrow_rate_model: Address,
    pub vault_supply_token_account: Address,
    pub vault_borrow_token_account: Address,
    pub supply_token_claim_account: Option<Address>,
    pub borrow_token_claim_account: Option<Address>,
    pub liquidity: Address,
    pub liquidity_program: Address,
    pub oracle_program: Address,
    pub supply_token_program: Address,
    pub borrow_token_program: Address,
    pub associated_token_program: Address,
    pub system_program: Address,
    pub vaults_program: Address,
}

/// What a position change is worth on the wire for a withdrawal or payback of `amount`:
/// the largest amount stands for "all of it".
pub open spec fn reduction(amount: u64) -> i128 {
    if amount == u64::MAX {
        i128::MIN
    } else {
        -(amount as int) as i128
    }
}

fn reduction_of(amount: u64) -> (r: i128)
    ensures
        r == reduction(amount),
{
    if amount == u64::MAX {
        i128::MIN
    } else {
        -(amount as i128)
    }
}

impl OperateParams {
    /// The fixed accounts that stand before the optional claim accounts.
    pub open spec fn head_metas(self) -> Seq<AccountMeta> {
        seq![
            writable_meta(self.signer, true),
            writable_meta(self.signer_supply_token_account, false),
            writable_meta(self.signer_borrow_token_account, false),
            readonly_meta(self.recipient, false),
            writable_meta(self.recipient_borrow_token_account, false),
            writable_meta(self.recipient_supply_token_account, false),
            writable_meta(self.vault_config, false),
            writable_meta(self.vault_state, false),
            readonly_meta(self.supply_token, false),
            readonly_meta(self.borrow_token, false),
            readonly_meta(self.oracle, false),
            writable_meta(self.position, false),
            readonly_meta(self.position_token_account, false),
            writable_meta(self.current_position_tick, false),
            writable_meta(self.final_position_tick, false),
            writable_meta(self.current_position_tick_id, false),
            writable_meta(self.final_position_tick_id, false),
            writable_meta(self.new_branch, false),
            writable_meta(self.supply_token_reserves_liquidity, false),
            writable_meta(self.borrow_token_reserves_liquidity, false),
            writable_meta(self.vault_supply_position_on_liquidity, false),
            writable_meta(self.vault_borrow_position_on_liquidity, false),
            writable_meta(self.supply_rate_model, false),
            writable_meta(self.borrow_rate_model, false),
            writable_meta(self.vault_supply_token_account, false),
            writable_meta(self.vault_borrow_token_account, false),
        ]
    }

    /// The claim accounts that are present, supply first.
    pub open spec fn claim_metas(self) -> Seq<AccountMeta> {
        optional_meta(self.supply_token_claim_account) + optional_meta(
            self.borrow_token_claim_account,
        )
    }

    /// The fixed accounts that stand after the claim accounts.
    pub open spec fn tail_metas(self) -> Seq<AccountMeta> {
        seq![
            writable_meta(self.liquidity, false),
            writable_meta(self.liquidity_program, false),
            readonly_meta(self.oracle_program, false),
            readonly_meta(self.supply_token_program, false),
            readonly_meta(self.borrow_token_program, false),
            readonly_meta(self.associated_token_program, false),
            readonly_meta(self.system_program, false),
        ]
    }

    /// All accounts of an operate call, in the order the vaults program expects them.
    pub open spec fn metas(self, rs: Seq<Address>) -> Seq<AccountMeta> {
        self.head_metas() + self.claim_metas() + self.tail_metas() + remaining_metas(rs)
    }

    pub open spec fn data(
        new_col: i128,
        new_debt: i128,
        t: Option<TransferType>,
        indices: Seq<u8>,
    ) -> Seq<u8> {
        operate_discriminator() + i128_le(new_col) + i128_le(new_debt) + transfer_type_bytes(t)
            + seq![indices.len() as u8] + indices
    }

    /// `r` is what an operate call with these arguments gives: the instruction when
    /// exactly three remaining-account indices are given, else the indices error.
    pub open spec fn operate_result(
        self,
        r: Result<Instruction, VaultsCpiErrorCodes>,
        new_col: i128,
        new_debt: i128,
        t: Option<TransferType>,
        indices: Seq<u8>,
        rs: Seq<Address>,
    ) -> bool {
        match r {
            Ok(ix) => {
                &&& indices.len() == 3
                &&& ix.program_id == self.vaults_program
                &&& ix.accounts@ == self.metas(rs)
                &&& ix.data@ == Self::data(new_col, new_debt, t, indices)
            },
            Err(e) => indices.len() != 3 && e == VaultsCpiErrorCodes::InvalidRemainingAccountsIndices,
        }
    }

    /// The instruction that sets the collateral change `new_col` and debt change
    /// `new_debt` of the position, with the given remaining accounts.
    pub fn operate(
        &self,
        new_col: i128,
        new_debt: i128,
        transfer_type: Option<TransferType>,
        remaining_accounts_indices: Vec<u8>,
        remaining_accounts: Vec<Address>,
    ) -> (r: Result<Instruction, VaultsCpiErrorCodes>)
        ensures
            self.operate_result(
                r,
                new_col,
                new_debt,
                transfer_type,
                remaining_accounts_indices@,
                remaining_accounts@,
            ),
    {
        if remaining_accounts_indices.len() != 3 {
            return Err(VaultsCpiErrorCodes::InvalidRemainingAccountsIndices);
        }
        let mut indices = remaining_accounts_indices;

        let mut instruction_data = get_operate_discriminator();
        push_i128(&mut instruction_data, new_col);
        push_i128(&mut instruction_data, new_debt);
        match transfer_type {
            Some(t) => {
                instruction_data.push(1);
                instruction_data.push(t.tag());
            },
            None => instruction_data.push(0),
        }
        instruction_data.push(indices.len() as u8);
        instruction_data.append(&mut indices);
        assert(instruction_data@ =~= Self::data(
            new_col,
            new_debt,
            transfer_type,
            remaining_accounts_indices@,
        ));

        let mut account_metas: Vec<AccountMeta> = vec![
            AccountMeta::new(self.signer, true),
            AccountMeta::new(self.signer_supply_token_account, false),
            AccountMeta::new(self.signer_borrow_token_account, false),
            AccountMeta::new_readonly(self.recipient, false),
            AccountMeta::new(self.recipient_borrow_token_account, false),
            AccountMeta::new(self.recipient_supply_token_account, false),
            AccountMeta::new(self.vault_config, false),
            AccountMeta::new(self.vault_state, false),
            AccountMeta::new_readonly(self.supply_token, false),
            AccountMeta::new_readonly(self.borrow_token, false),
            AccountMeta::new_readonly(self.oracle, false),
            AccountMeta::new(self.position, false),
            AccountMeta::new_readonly(self.position_token_account, false),
            AccountMeta::new(self.current_position_tick, false),
            AccountMeta::new(self.final_position_tick, false),
            AccountMeta::new(self.current_position_tick_id, false),
            AccountMeta::new(self.final_position_tick_id, false),
            AccountMeta::new(self.new_branch, false),
            AccountMeta::new(self.supply_token_reserves_liquidity, false),
            AccountMeta::new(self.borrow_token_reserves_liquidity, false),
            AccountMeta::new(self.vault_supply_position_on_liquidity, false),
            AccountMeta::new(self.vault_borrow_position_on_liquidity, false),
            AccountMeta::new(self.supply_rate_model, false),
            AccountMeta::new(self.borrow_rate_model, false),
            AccountMeta::new(self.vault_supply_token_account, false),
            AccountMeta::new(self.vault_borrow_token_account, false),
        ];
        assert(account_metas@ =~= self.head_metas());
        if let Some(claim_account) = self.supply_token_claim_account {
            account_metas.push(AccountMeta::new(claim_account, false));
        }
        if let Some(claim_account) = self.borrow_token_claim_account {
            account_metas.push(AccountMeta::new(claim_account, false));
        }
        assert(account_metas@ =~= self.head_metas() + self.claim_metas());
        let mut tail: Vec<AccountMeta> = vec![
            AccountMeta::new(self.liquidity, false),
            AccountMeta::new(self.liquidity_program, false),
            AccountMeta::new_readonly(self.oracle_program, false),
            AccountMeta::new_readonly(self.supply_token_program, false),
            AccountMeta::new_readonly(self.borrow_token_program, false),
            AccountMeta::new_readonly(self.associated_token_program, false),
            AccountMeta::new_readonly(self.system_program, false),
        ];
        assert(tail@ =~= self.tail_metas());
        account_metas.append(&mut tail);

        let ghost fixed = account_metas@;
        let mut i: usize = 0;
        while i < remaining_accounts.len()
            invariant
                i <= remaining_accounts@.len(),
                fixed == self.head_metas() + self.claim_metas() + self.tail_metas(),
                account_metas@ =~= fixed + remaining_metas(remaining_accounts@.subrange(0, i as int)),
            decreases remaining_accounts@.len() - i,
        {
            account_metas.push(AccountMeta::new(remaining_accounts[i], false));
            assert(remaining_accounts@.subrange(0, i + 1) =~= remaining_accounts@.subrange(
                0,
                i as int,
            ).push(remaining_accounts@[i as int]));
            i = i + 1;
        }
        assert(remaining_accounts@.subrange(0, i as int) =~= remaining_accounts@);

        Ok(
            Instruction {
                program_id: self.vaults_program,
                accounts: account_metas,
                data: instruction_data,
            },
        )
    }

    /// Adds `amount` of collateral.
    pub fn deposit(
        &self,
        amount: u64,
        remaining_accounts_indices: Vec<u8>,
        remaining_accounts: Vec<Address>,
    ) -> (r: Result<Instruction, VaultsCpiErrorCodes>)
        ensures
            self.operate_result(
                r,
                amount as i128,
                0,
                None,
                remaining_accounts_indices@,
                remaining_accounts@,
            ),
    {
        self.operate(
            amount as i128,
            0,
            None,
            remaining_accounts_indices,
            remaining_accounts,
        )
    }

    /// Takes out `amount` of collateral; the largest amount takes out all of it.
    pub fn withdraw(
        &self,
        amount: u64,
        transfer_type: Option<TransferType>,
        remaining_accounts_indices: Vec<u8>,
        remaining_accounts: Vec<Address>,
    ) -> (r: Result<Instruction, VaultsCpiErrorCodes>)
        ensures
            self.operate_result(
                r,
                reduction(amount),
                0,
                transfer_type,
                remaining_accounts_indices@,
                remaining_accounts@,
            ),
    {
        let withdraw_amount = reduction_of(amount);
        self.operate(
            withdraw_amount,
            0,
            transfer_type,
            remaining_accounts_indices,
            remaining_accounts,
        )
    }

    /// Borrows `amount` more.
    pub fn borrow(
        &self,
        amount: u64,
        transfer_type: Option<TransferType>,
        remaining_accounts_indices: Vec<u8>,
        remaining_accounts: Vec<Address>,
    ) -> (r: Result<Instruction, VaultsCpiErrorCodes>)
        ensures
            self.operate_result(
                r,
                0,
                amount as i128,
                transfer_type,
                remaining_accounts_indices@,
                remaining_accounts@,
            ),
    {
        self.operate(
            0,
            amount as i128,
            transfer_type,
            remaining_accounts_indices,
            remaining_accounts,
        )
    }

    /// Pays back `amount` of debt; the largest amount pays back all of it.
    pub fn payback(
        &self,
        amount: u64,
        remaining_accounts_indices: Vec<u8>,
        remaining_accounts: Vec<Address>,
    ) -> (r: Result<Instruction, VaultsCpiErrorCodes>)
        ensures
            self.operate_result(
                r,
                0,
                reduction(amount),
                None,
                remaining_accounts_indices@,
                remaining_accounts@,
            ),
    {
        let payback_amount = reduction_of(amount);
        self.operate(
            0,
            payback_amount,
            None,
            remaining_accounts_indices,
            remaining_accounts,
        )
    }

    /// Adds `deposit_amount` of collateral and borrows `borrow_amount` in one call.
    pub fn deposit_and_borrow(
        &self,
        deposit_amount: u64,
        borrow_amount: u64,
        transfer_type: Option<TransferType>,
        remaining_accounts_indices: Vec<u8>,
        remaining_accounts: Vec<Address>,
    ) -> (r: Result<Instruction, VaultsCpiErrorCodes>)
        ensures
            self.operate_result(
                r,
                deposit_amount as i128,
                borrow_amount as i128,
                transfer_type,
                remaining_accounts_indices@,
                remaining_accounts@,
            ),
    {
        self.operate(
            deposit_amount as i128,
            borrow_amount as i128,
            transfer_type,
            remaining_accounts_indices,
            remaining_accounts,
        )
    }

    /// Pays back debt and takes out collateral in one call; for either, the largest
    /// amount stands for all of it.
    pub fn payback_and_withdraw(
        &self,
        payback_amount: u64,
        withdraw_amount: u64,
        transfer_type: Option<TransferType>,
        remaining_accounts_indices: Vec<u8>,
        remaining_accounts: Vec<Address>,
    ) -> (r: Result<Instruction, VaultsCpiErrorCodes>)
        ensures
            self.operate_result(
                r,
                reduction(withdraw_amount),
                reduction(payback_amount),
                transfer_type,
                remaining_accounts_indices@,
                remaining_accounts@,
            ),
    {
        let payback = reduction_of(payback_amount);
        let withdraw = reduction_of(withdraw_amount);
        self.operate(
            withdraw,
            payback,
            transfer_type,
            remaining_accounts_indices,
            remaining_accounts,
        )
    }

}

} // verus!
