//! The staking record of an NFT staking program.

use vstd::prelude::*;

verus! {

/// The data of a user's staking account.
#[derive(Clone, Copy, Debug, PartialEq, Eq)]
pub struct UserAccount {
    /// Reward points earned by staking.
    pub points: u32,
    /// Number of NFTs the user has staked.
    pub amount_stacked: u8,
    pub bump: u8,
}

} // verus!
