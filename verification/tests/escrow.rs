use solana_programs::escrow::{take, Escrow, Mint, Take};
use solana_programs::pubkey::Pubkey;

fn key(b: u8) -> Pubkey {
    Pubkey::new([b; 32])
}

fn accounts() -> Take {
    Take {
        taker: key(1),
        escrow: Escrow { seed: 0x0102_0304_0506_0708, maker: key(2), receive: 500, bump: 250 },
        escrow_key: key(3),
        maker: key(2),
        mint_a: Mint { key: key(4), decimals: 6 },
        mint_b: Mint { key: key(5), decimals: 9 },
        vault: key(6),
        taker_ata_a: key(7),
        taker_ata_b: key(8),
        maker_ata_b: key(9),
    }
}

#[test]
fn take_pays_maker_then_releases_vault() {
    let ts = take(&accounts(), 1234);
    assert_eq!(ts.len(), 2);
    let pay = &ts[0];
    assert_eq!(pay.from, key(8));
    assert_eq!(pay.to, key(9));
    assert_eq!(pay.mint, key(5));
    assert_eq!(pay.authority, key(1));
    assert_eq!(pay.amount, 1234);
    assert_eq!(pay.decimals, 9);
    assert!(pay.signer_seeds.is_empty());
    let release = &ts[1];
    assert_eq!(release.from, key(6));
    assert_eq!(release.to, key(7));
    assert_eq!(release.mint, key(4));
    assert_eq!(release.authority, key(3));
    assert_eq!(release.amount, 500);
    assert_eq!(release.decimals, 6);
}

#[test]
fn take_signs_with_escrow_seeds() {
    let ts = accounts().take(0);
    assert_eq!(
        ts[1].signer_seeds,
        vec![
            b"escrow".to_vec(),
            vec![2u8; 32],
            vec![8u8, 7, 6, 5, 4, 3, 2, 1],
            vec![250u8],
        ]
    );
    assert_eq!(ts[1].signer_seeds[2], 0x0102_0304_0506_0708u64.to_le_bytes().to_vec());
}

#[test]
fn take_amount_received_is_the_escrows() {
    let mut a = accounts();
    a.escrow.receive = u64::MAX;
    let ts = a.take(u64::MAX);
    assert_eq!(ts[0].amount, u64::MAX);
    assert_eq!(ts[1].amount, u64::MAX);
}
