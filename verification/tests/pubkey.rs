use solana_programs::nft_staking::UserAccount;
use solana_programs::pubkey::Pubkey;

#[test]
fn pubkey_seed_is_its_bytes() {
    let mut bytes = [0u8; 32];
    for (i, b) in bytes.iter_mut().enumerate() {
        *b = i as u8;
    }
    let k = Pubkey::new(bytes);
    assert_eq!(k.to_seed(), bytes.to_vec());
}

#[test]
fn user_account_fields() {
    let a = UserAccount { points: 10, amount_stacked: 2, bump: 255 };
    let b = a;
    assert_eq!(a, b);
    assert_eq!(b.points, 10);
}
