//! Verified instruction logic of a small family of Solana programs: a SOL
//! vault, a token escrow, an NFT marketplace purchase and an NFT staking
//! account.
//!
//! Each instruction is a function from the accounts' plain data to the new
//! account data and the transfers that the instruction asks the system or
//! token program to make. Performing those transfers is left to the caller.

pub mod pubkey;
pub mod transfer;
pub mod vault_program;
pub mod escrow;
pub mod marketplace;
pub mod nft_staking;
