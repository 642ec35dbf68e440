//! Buying a listed NFT on a marketplace: the buyer pays the listing price,
//! of which the marketplace keeps a fee in basis points in its treasury and
//! the seller receives the rest.

use vstd::prelude::*;

use crate::pubkey::Pubkey;
use crate::transfer::{no_seeds, SystemTransfer};

verus! {

/// The data of a marketplace account that a purchase reads.
#[derive(Clone, Copy, Debug, PartialEq, Eq)]
pub struct Marketplace {
    /// The marketplace's fee, in basis points (hundredths of a percent) of
    /// the price.
    pub fee: u16,
}

/// The data of a listing account that a purchase reads.
#[derive(Clone, Copy, Debug, PartialEq, Eq)]
pub struct Listing {
    /// The price in lamports.
    pub price: u64,
}

/// The accounts of a purchase.
#[derive(Clone, Copy, Debug, PartialEq, Eq)]
pub struct Purchase {
    pub taker: Pubkey,
    pub maker: Pubkey,
    pub marketplace: Marketplace,
    pub listing: Listing,
    pub treasury: Pubkey,
}

/// The marketplace's share of `price` at `fee_bps` basis points, rounded
/// down.
pub open spec fn marketplace_fee(fee_bps: u16, price: u64) -> int {
    (fee_bps as int * price as int) / 10000
}

/// Whether `send_sol` can compute the fee and the seller's share: the product
/// of fee and price fits in a `u64`, and the fee is at most the price.
pub open spec fn fee_computable(fee_bps: u16, price: u64) -> bool {
    &&& fee_bps as int * price as int <= u64::MAX
    &&& marketplace_fee(fee_bps, price) <= price
}

impl Purchase {
    /// Whether `send_sol` can compute the fee and the seller's share for this
    /// purchase; where it cannot, the instruction panics.
    pub fn fee_is_computable(&self) -> (ok: bool)
        ensures
            ok == fee_computable(self.marketplace.fee, self.listing.price),
            ok == (self.marketplace.fee as int * self.listing.price as int <= u64::MAX
                && (self.marketplace.fee as int * self.listing.price as int) / 10000 <= self.listing.price),
    {
        match (self.marketplace.fee as u64).checked_mul(self.listing.price) {
            Some(product) => product / 10000 <= self.listing.price,
            None => false,
        }
    }

    /// The two lamport transfers that pay for the listing, in order: the
    /// price less the marketplace fee from the buyer to the seller, then the
    /// fee from the buyer to the treasury.
    pub fn send_sol(&self) -> (transfers: Vec<SystemTransfer>)
        requires
            fee_computable(self.marketplace.fee, self.listing.price),
        ensures
            transfers.len() == 2,
            transfers[0].moves(
                self.taker,
                self.maker,
                (self.listing.price - marketplace_fee(self.marketplace.fee, self.listing.price)) as u64,
                Seq::empty(),
            ),
            transfers[1].moves(
                self.taker,
                self.treasury,
                marketplace_fee(self.marketplace.fee, self.listing.price) as u64,
                Seq::empty(),
            ),
            transfers[0].lamports + transfers[1].lamports == self.listing.price,
            10000 * transfers[1].lamports <= self.marketplace.fee as int * self.listing.price as int,
            (self.marketplace.fee as int) * (self.listing.price as int) < 10000 * (transfers[1].lamports + 1),
            transfers[0].from == self.taker && transfers[0].to == self.maker,
            transfers[1].from == self.taker && transfers[1].to == self.treasury,
            transfers[0].signer_seeds@.len() == 0 && transfers[1].signer_seeds@.len() == 0,
    {
        let product: u64 = (self.marketplace.fee as u64).checked_mul(self.listing.price).unwrap();
        let marketplace_fee: u64 = product.checked_div(10000u64).unwrap();
        let amount: u64 = self.listing.price.checked_sub(marketplace_fee).unwrap();
        proof {
            fee_is_floor(self.marketplace.fee, self.listing.price);
        }
        let to_maker = SystemTransfer {
            from: self.taker,
            to: self.maker,
            lamports: amount,
            signer_seeds: no_seeds(),
        };
        let to_treasury = SystemTransfer {
            from: self.taker,
            to: self.treasury,
            lamports: marketplace_fee,
            signer_seeds: no_seeds(),
        };
        let mut transfers: Vec<SystemTransfer> = Vec::new();
        transfers.push(to_maker);
        transfers.push(to_treasury);
        transfers
    }
}

/// The fee is the fee rate's share of the price rounded down: `fee` times
/// 10000 lies within 10000 below the product of rate and price.
pub proof fn fee_is_floor(fee_bps: u16, price: u64)
    ensures
        10000 * marketplace_fee(fee_bps, price) <= fee_bps as int * price as int,
        (fee_bps as int) * (price as int) < 10000 * (marketplace_fee(fee_bps, price) + 1),
        marketplace_fee(fee_bps, price) >= 0,
{
    let p: int = fee_bps as int * price as int;
    assert(p >= 0) by (nonlinear_arith)
        requires
            fee_bps >= 0,
            price >= 0,
            p == fee_bps as int * price as int,
    ;
    assert(10000 * (p / 10000) <= p < 10000 * (p / 10000 + 1)) by (nonlinear_arith)
        requires
            p >= 0,
    ;
}

/// With a rate of at most 100%, `send_sol` can compute the fee exactly
/// when the product of rate and price fits in a `u64`.
pub proof fn computable_when_product_fits(fee_bps: u16, price: u64)
    requires
        fee_bps <= 10000,
    ensures
        fee_computable(fee_bps, price) <==> fee_bps as int * price as int <= u64::MAX,
{
    fee_within_price(fee_bps, price);
}

/// A fee of at most 100% (10000 basis points) never exceeds the price, so
/// that `send_sol` needs only the product of fee and price to fit in a `u64`.
pub proof fn fee_within_price(fee_bps: u16, price: u64)
    requires
        fee_bps <= 10000,
    ensures
        0 <= marketplace_fee(fee_bps, price) <= price,
{
    assert(0 <= fee_bps as int * price as int <= 10000 * price as int) by (nonlinear_arith)
        requires
            fee_bps <= 10000,
    ;
    assert((fee_bps as int * price as int) / 10000 <= (10000 * price as int) / 10000) by (nonlinear_arith)
        requires
            0 <= fee_bps as int * price as int <= 10000 * price as int,
    ;
}

/// The fee never falls as the fee rate rises.
pub proof fn fee_monotonic_in_rate(low_bps: u16, high_bps: u16, price: u64)
    requires
        low_bps <= high_bps,
    ensures
        marketplace_fee(low_bps, price) <= marketplace_fee(high_bps, price),
{
    assert(low_bps as int * price as int <= high_bps as int * price as int) by (nonlinear_arith)
        requires
            low_bps <= high_bps,
    ;
    assert((low_bps as int * price as int) / 10000 <= (high_bps as int * price as int) / 10000) by (nonlinear_arith)
        requires
            low_bps as int * price as int <= high_bps as int * price as int,
            0 <= low_bps as int * price as int,
    ;
}

} // verus!
