use solana_programs::marketplace::{Listing, Marketplace, Purchase};
use solana_programs::pubkey::Pubkey;

fn key(b: u8) -> Pubkey {
    Pubkey::new([b; 32])
}

fn purchase(fee: u16, price: u64) -> Purchase {
    Purchase {
        taker: key(1),
        maker: key(2),
        marketplace: Marketplace { fee },
        listing: Listing { price },
        treasury: key(3),
    }
}

#[test]
fn send_sol_splits_price() {
    let ts = purchase(250, 1_000_000).send_sol();
    assert_eq!(ts.len(), 2);
    assert_eq!((ts[0].from, ts[0].to, ts[0].lamports), (key(1), key(2), 975_000));
    assert_eq!((ts[1].from, ts[1].to, ts[1].lamports), (key(1), key(3), 25_000));
    assert!(ts[0].signer_seeds.is_empty() && ts[1].signer_seeds.is_empty());
}

#[test]
fn fee_rounds_down() {
    let ts = purchase(250, 39).send_sol();
    assert_eq!(ts[1].lamports, 0);
    assert_eq!(ts[0].lamports, 39);
    let ts = purchase(3333, 7).send_sol();
    assert_eq!(ts[1].lamports, 2);
    assert_eq!(ts[0].lamports, 5);
}

#[test]
fn zero_and_full_fee() {
    let ts = purchase(0, 500).send_sol();
    assert_eq!((ts[0].lamports, ts[1].lamports), (500, 0));
    let ts = purchase(10_000, 500).send_sol();
    assert_eq!((ts[0].lamports, ts[1].lamports), (0, 500));
}

#[test]
fn shares_always_add_up_to_price() {
    for (fee, price) in [(1u16, 9_999u64), (500, 123_456_789), (9_999, 10_001), (10_000, u64::MAX / 10_000)] {
        let ts = purchase(fee, price).send_sol();
        assert_eq!(ts[0].lamports + ts[1].lamports, price);
        assert_eq!(ts[1].lamports as u128, fee as u128 * price as u128 / 10_000);
    }
}

#[test]
fn fee_computability() {
    assert!(purchase(10_000, u64::MAX / 10_000).fee_is_computable());
    assert!(!purchase(2, u64::MAX).fee_is_computable());
    assert!(!purchase(20_000, 100).fee_is_computable());
    assert!(purchase(10_001, 1).fee_is_computable());
    assert!(!purchase(10_001, 10_000).fee_is_computable());
    assert!(purchase(65_535, 0).fee_is_computable());
}
