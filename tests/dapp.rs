use std::str::FromStr;

use anchor_lang::prelude::Pubkey;
use interact_dapp::instruction::{AccountMeta, AccountRef, Address};
use interact_dapp::instructions::jupiter_deposit::jupiter_deposit_cpi;
use interact_dapp::instructions::raydium_swap::raydium_swap_cpi;

fn addr(n: u8) -> Address {
    Address { bytes: [n; 32] }
}

fn accounts() -> Vec<AccountRef> {
    vec![
        AccountRef { key: addr(1), is_signer: true, is_writable: true },
        AccountRef { key: addr(2), is_signer: false, is_writable: false },
        AccountRef { key: addr(3), is_signer: true, is_writable: false },
        AccountRef { key: addr(4), is_signer: false, is_writable: true },
    ]
}

fn passed_on() -> Vec<AccountMeta> {
    accounts()
        .iter()
        .map(|a| AccountMeta { pubkey: a.key, is_signer: a.is_signer, is_writable: a.is_writable })
        .collect()
}

#[test]
fn raydium_swap_encodes_amounts_and_passes_accounts_on() {
    let ix = raydium_swap_cpi(&accounts(), 1000, 990).expect("the swap program address decodes");
    let mut data = vec![1u8];
    data.extend_from_slice(&1000u64.to_le_bytes());
    data.extend_from_slice(&990u64.to_le_bytes());
    assert_eq!(ix.data, data);
    assert_eq!(ix.accounts, passed_on());
}

#[test]
fn raydium_swap_program_id_is_decoded_base58() {
    let ix = raydium_swap_cpi(&vec![], 0, 0).expect("the swap program address decodes");
    let expected = Pubkey::from_str("RaydiumProgram11111111111111111111111111111").unwrap();
    assert_eq!(ix.program_id.bytes, expected.to_bytes());
    assert!(ix.accounts.is_empty());
    assert_eq!(ix.data, vec![1u8; 1].into_iter().chain([0u8; 16]).collect::<Vec<u8>>());
}

#[test]
fn jupiter_deposit_follows_address_decoding() {
    let decoded = Pubkey::from_str("JupiterProgram1111111111111111111111111111");
    let r = jupiter_deposit_cpi(&accounts(), 77);
    assert_eq!(r.is_some(), decoded.is_ok());
    if let (Some(ix), Ok(pk)) = (r, decoded) {
        assert_eq!(ix.program_id.bytes, pk.to_bytes());
        let mut data = vec![0u8];
        data.extend_from_slice(&77u64.to_le_bytes());
        assert_eq!(ix.data, data);
        assert_eq!(ix.accounts, passed_on());
    }
}

#[test]
fn jupiter_program_text_is_too_short_for_an_address() {
    assert!(jupiter_deposit_cpi(&accounts(), 1).is_none());
}
