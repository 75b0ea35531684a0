use vstd::prelude::*;

use crate::encoding::{push_u64, u64_le};
use crate::instruction::{base58_address, parse_address, AccountRef, Address, Instruction};
use crate::instructions::{pass_on, passed_on_metas};

verus! {

/// The address of the swap program as bytes, if its base-58 text decodes to 32 bytes.
pub open spec fn raydium_program_bytes() -> Option<Seq<u8>> {
    base58_address("RaydiumProgram11111111111111111111111111111"@)
}

fn raydium_program_id() -> (r: Option<Address>)
    ensures
        r is Some <==> raydium_program_bytes() is Some,
        r matches Some(a) ==> raydium_program_bytes() == Some(a.bytes@),
{
    parse_address("RaydiumProgram11111111111111111111111111111")
}

pub open spec fn swap_data(amount_in: u64, min_amount_out: u64) -> Seq<u8> {
    seq![1u8] + u64_le(amount_in) + u64_le(min_amount_out)
}

/// The instruction that swaps `amount_in` for at least `min_amount_out`, passing
/// `remaining_accounts` on with their own flags; none when the swap program's
/// address does not decode.
pub fn raydium_swap_cpi(
    remaining_accounts: &Vec<AccountRef>,
    amount_in: u64,
    min_amount_out: u64,
) -> (r: Option<Instruction>)
    ensures
        r is Some <==> raydium_program_bytes() is Some,
        r matches Some(ix) ==> {
            &&& raydium_program_bytes() == Some(ix.program_id.bytes@)
            &&& ix.accounts@ == passed_on_metas(remaining_accounts@)
            &&& ix.data@ == swap_data(amount_in, min_amount_out)
        },
{
    let mut data: Vec<u8> = vec![1u8];
    push_u64(&mut data, amount_in);
    push_u64(&mut data, min_amount_out);
    assert(data@ =~= swap_data(amount_in, min_amount_out));

    let accounts = pass_on(remaining_accounts);
    match raydium_program_id() {
        Some(program_id) => Some(Instruction { program_id, accounts, data }),
        None => None,
    }
}

} // verus!
