use vstd::prelude::*;

use crate::encoding::{push_u64, u64_le};
use crate::instruction::{base58_address, parse_address, AccountRef, Address, Instruction};
use crate::instructions::{pass_on, passed_on_metas};

verus! {

/// The address of the lending program as bytes, if its base-58 text decodes to 32 bytes.
pub open spec fn jupiter_program_bytes() -> Option<Seq<u8>> {
    base58_address("JupiterProgram1111111111111111111111111111"@)
}

fn jupiter_program_id() -> (r: Option<Address>)
    ensures
        r is Some <==> jupiter_program_bytes() is Some,
        r matches Some(a) ==> jupiter_program_bytes() == Some(a.bytes@),
{
    parse_address("JupiterProgram1111111111111111111111111111")
}

pub open spec fn jupiter_deposit_data(amount: u64) -> Seq<u8> {
    seq![0u8] + u64_le(amount)
}

/// The instruction that deposits `amount`, passing `remaining_accounts` on with their
/// own flags; none when the lending program's address does not decode.
pub fn jupiter_deposit_cpi(remaining_accounts: &Vec<AccountRef>, amount: u64) -> (r: Option<
    Instruction,
>)
    ensures
        r is Some <==> jupiter_program_bytes() is Some,
        r matches Some(ix) ==> {
            &&& jupiter_program_bytes() == Some(ix.program_id.bytes@)
            &&& ix.accounts@ == passed_on_metas(remaining_accounts@)
            &&& ix.data@ == jupiter_deposit_data(amount)
        },
{
    let mut data: Vec<u8> = vec![0u8];
    push_u64(&mut data, amount);
    assert(data@ =~= jupiter_deposit_data(amount));

    let accounts = pass_on(remaining_accounts);
    match jupiter_program_id() {
        Some(program_id) => Some(Instruction { program_id, accounts, data }),
        None => None,
    }
}

} // verus!
