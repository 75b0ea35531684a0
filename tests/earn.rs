use interact_dapp::earn::deposit::DepositParams;
use interact_dapp::earn::withdraw::WithdrawParams;
use interact_dapp::instruction::{AccountMeta, Address, Instruction};
use interact_dapp::instructions::jupiter_earn::deposit_earn::DepositParams as EarnDepositParams;

fn addr(n: u8) -> Address {
    Address { bytes: [n; 32] }
}

fn check_accounts(ix: &Instruction, writable: &[bool]) {
    assert_eq!(ix.accounts.len(), writable.len());
    for (i, w) in writable.iter().enumerate() {
        assert_eq!(ix.accounts[i], AccountMeta { pubkey: addr(i as u8 + 1), is_signer: i == 0, is_writable: *w });
    }
}

fn lending_deposit_params() -> DepositParams {
    DepositParams {
        signer: addr(1),
        depositor_token_account: addr(2),
        recipient_token_account: addr(3),
        mint: addr(4),
        lending_admin: addr(5),
        lending: addr(6),
        f_token_mint: addr(7),
        supply_token_reserves_liquidity: addr(8),
        lending_supply_position_on_liquidity: addr(9),
        rate_model: addr(10),
        vault: addr(11),
        liquidity: addr(12),
        liquidity_program: addr(13),
        rewards_rate_model: addr(14),
        token_program: addr(15),
        associated_token_program: addr(16),
        system_program: addr(17),
        lending_program: addr(77),
    }
}

#[test]
fn lending_deposit_encodes_amount() {
    let ix = lending_deposit_params().deposit(0x0102030405060708);
    assert_eq!(ix.program_id, addr(77));
    assert_eq!(ix.data, vec![242, 35, 198, 137, 82, 225, 242, 182, 8, 7, 6, 5, 4, 3, 2, 1]);
    check_accounts(&ix, &[true, true, true, false, false, true, true, true, true, false, true, true, true, false, false, false, false]);
}

#[test]
fn lending_deposit_of_zero_and_max() {
    let p = lending_deposit_params();
    assert_eq!(p.deposit(0).data[8..], [0u8; 8]);
    assert_eq!(p.deposit(u64::MAX).data[8..], [0xffu8; 8]);
}

#[test]
fn lending_withdraw_encodes_assets() {
    let p = WithdrawParams {
        signer: addr(1),
        owner_token_account: addr(2),
        recipient_token_account: addr(3),
        lending_admin: addr(4),
        lending: addr(5),
        mint: addr(6),
        f_token_mint: addr(7),
        supply_token_reserves_liquidity: addr(8),
        lending_supply_position_on_liquidity: addr(9),
        rate_model: addr(10),
        vault: addr(11),
        claim_account: addr(12),
        liquidity: addr(13),
        liquidity_program: addr(14),
        rewards_rate_model: addr(15),
        token_program: addr(16),
        associated_token_program: addr(17),
        system_program: addr(18),
        lending_program: addr(78),
    };
    let ix = p.withdraw(256);
    assert_eq!(ix.program_id, addr(78));
    assert_eq!(ix.data, vec![183, 18, 70, 156, 148, 109, 161, 34, 0, 1, 0, 0, 0, 0, 0, 0]);
    check_accounts(&ix, &[true, true, true, false, true, false, true, true, true, false, true, true, true, true, false, false, false, false]);
}

#[test]
fn deposit_earn_matches_lending_deposit() {
    let p = EarnDepositParams {
        signer: addr(1),
        depositor_token_account: addr(2),
        recipient_token_account: addr(3),
        mint: addr(4),
        lending_admin: addr(5),
        lending: addr(6),
        f_token_mint: addr(7),
        supply_token_reserves_liquidity: addr(8),
        lending_supply_position_on_liquidity: addr(9),
        rate_model: addr(10),
        vault: addr(11),
        liquidity: addr(12),
        liquidity_program: addr(13),
        rewards_rate_model: addr(14),
        token_program: addr(15),
        associated_token_program: addr(16),
        system_program: addr(17),
        lending_program: addr(77),
    };
    let ix = p.deposit_earn(12345);
    assert_eq!(ix, lending_deposit_params().deposit(12345));
    assert_eq!(ix.data[8..], 12345u64.to_le_bytes());
}
