//! Calls that this program makes into a swap program and a lending program.

pub mod jupiter_deposit;
pub mod jupiter_earn;
pub mod raydium_swap;

use vstd::prelude::*;

use crate::instruction::{readonly_meta, writable_meta, AccountMeta, AccountRef};

verus! {

/// An account passed on to another program keeps the flags it arrived with.
pub open spec fn passed_on_meta(a: AccountRef) -> AccountMeta {
    if a.is_writable {
        writable_meta(a.key, a.is_signer)
    } else {
        readonly_meta(a.key, a.is_signer)
    }
}

pub open spec fn passed_on_metas(accounts: Seq<AccountRef>) -> Seq<AccountMeta> {
    accounts.map_values(|a: AccountRef| passed_on_meta(a))
}

/// The account list for passing `accounts` on, in their order.
pub(crate) fn pass_on(accounts: &Vec<AccountRef>) -> (r: Vec<AccountMeta>)
    ensures
        r@ == passed_on_metas(accounts@),
{
    let mut r: Vec<AccountMeta> = Vec::new();
    let mut i: usize = 0;
    while i < accounts.len()
        invariant
            i <= accounts@.len(),
            r@ =~= passed_on_metas(accounts@.subrange(0, i as int)),
        decreases accounts@.len() - i,
    {
        let acc = accounts[i];
        if acc.is_writable {
            r.push(AccountMeta::new(acc.key, acc.is_signer));
        } else {
            r.push(AccountMeta::new_readonly(acc.key, acc.is_signer));
        }
        assert(accounts@.subrange(0, i + 1) =~= accounts@.subrange(0, i as int).push(
            accounts@[i as int],
        ));
        i = i + 1;
    }
    assert(accounts@.subrange(0, i as int) =~= accounts@);
    r
}

} // verus!
