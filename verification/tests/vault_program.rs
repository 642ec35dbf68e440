use solana_programs::pubkey::Pubkey;
use solana_programs::transfer::SystemTransfer;
use solana_programs::vault_program::{
    close, deposit, initialize, withdraw, Close, ErrorCode, Initialize, InitializeBumps, Payment,
    VaultState, Wallet,
};

fn key(b: u8) -> Pubkey {
    Pubkey::new([b; 32])
}

fn payment(amount: u64) -> Payment {
    Payment {
        signer: key(1),
        vault_state: VaultState { vault_bump: 254, state_bump: 253, amount },
        vault_state_key: key(2),
        vault: key(3),
    }
}

#[test]
fn initialize_records_bumps_and_empty_vault() {
    let mut accounts = Initialize {
        user: key(1),
        state: VaultState { vault_bump: 9, state_bump: 9, amount: 77 },
        vault: key(3),
    };
    let r = initialize(&mut accounts, &InitializeBumps { state: 250, vault: 251 });
    assert_eq!(r, Ok(()));
    assert_eq!(accounts.state, VaultState { vault_bump: 251, state_bump: 250, amount: 0 });
    assert_eq!(accounts.user, key(1));
    assert_eq!(accounts.vault, key(3));
}

#[test]
fn deposit_transfers_then_records() {
    let mut p = payment(100);
    let (t, r) = deposit(&mut p, 50);
    assert_eq!(r, Ok(()));
    assert_eq!(t, SystemTransfer { from: key(1), to: key(3), lamports: 50, signer_seeds: vec![] });
    assert_eq!(p.vault_state.amount, 150);
    assert_eq!(p.vault_state.vault_bump, 254);
}

#[test]
fn deposit_overflow_leaves_state() {
    let mut p = payment(u64::MAX - 5);
    let (t, r) = p.deposit(6);
    assert_eq!(r, Err(ErrorCode::Overflow));
    assert_eq!(t.lamports, 6);
    assert_eq!(p.vault_state.amount, u64::MAX - 5);
    let (_, r) = p.deposit(5);
    assert_eq!(r, Ok(()));
    assert_eq!(p.vault_state.amount, u64::MAX);
}

#[test]
fn withdraw_signs_with_vault_seeds() {
    let mut p = payment(100);
    let t = withdraw(&mut p, 40).unwrap();
    assert_eq!(t.from, key(3));
    assert_eq!(t.to, key(1));
    assert_eq!(t.lamports, 40);
    assert_eq!(t.signer_seeds, vec![b"vault".to_vec(), vec![2u8; 32], vec![254u8]]);
    assert_eq!(p.vault_state.amount, 60);
}

#[test]
fn withdraw_everything_then_nothing_left() {
    let mut p = payment(100);
    assert!(p.withdraw(100).is_ok());
    assert_eq!(p.vault_state.amount, 0);
    assert_eq!(p.withdraw(1), Err(ErrorCode::InsufficientFunds));
    assert_eq!(p.withdraw(0).map(|t| t.lamports), Ok(0));
}

#[test]
fn withdraw_more_than_recorded_fails() {
    let mut p = payment(10);
    assert_eq!(p.withdraw(11), Err(ErrorCode::InsufficientFunds));
    assert_eq!(p.vault_state.amount, 10);
}

#[test]
fn deposit_then_withdraw_restores_state() {
    let mut p = payment(7);
    let before = p;
    let (_, r) = p.deposit(1_000_000);
    assert_eq!(r, Ok(()));
    assert!(p.withdraw(1_000_000).is_ok());
    assert_eq!(p, before);
}

#[test]
fn withdraw_then_deposit_restores_state() {
    let mut p = payment(500);
    let before = p;
    assert!(p.withdraw(321).is_ok());
    let (_, r) = p.deposit(321);
    assert_eq!(r, Ok(()));
    assert_eq!(p, before);
}

#[test]
fn recorded_amount_follows_movements() {
    let mut p = payment(0);
    let _ = p.deposit(30);
    let _ = p.deposit(12);
    let _ = p.withdraw(20);
    assert_eq!(p.withdraw(23), Err(ErrorCode::InsufficientFunds));
    let _ = p.withdraw(22);
    assert_eq!(p.vault_state.amount, 30 + 12 - 20 - 22);
}

#[test]
fn close_moves_all_lamports_to_user() {
    let mut c = Close {
        user: Wallet { key: key(1), lamports: 5_000 },
        vault_state: VaultState { vault_bump: 1, state_bump: 2, amount: 3_000 },
        vault: Wallet { key: key(3), lamports: 3_000 },
    };
    assert_eq!(close(&mut c), Ok(()));
    assert_eq!(c.vault.lamports, 0);
    assert_eq!(c.user.lamports, 8_000);
    assert_eq!(c.user.key, key(1));
}

#[test]
fn close_empty_vault() {
    let mut c = Close {
        user: Wallet { key: key(1), lamports: 5 },
        vault_state: VaultState { vault_bump: 1, state_bump: 2, amount: 0 },
        vault: Wallet { key: key(3), lamports: 0 },
    };
    assert_eq!(c.close(), Ok(()));
    assert_eq!(c.user.lamports, 5);
}

#[test]
fn error_messages() {
    assert_eq!(ErrorCode::InsufficientFunds.message(), "Insufficient funds in vault");
    assert_eq!(ErrorCode::Overflow.message(), "Overflow error");
}
