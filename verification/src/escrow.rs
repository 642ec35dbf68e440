//! A two-token escrow: the maker locks tokens of mint A in a vault owned by
//! the escrow account; a taker pays tokens of mint B to the maker and
//! receives the locked tokens.

use vstd::prelude::*;

use crate::pubkey::Pubkey;
use crate::transfer::{no_seeds, seeds4, TokenTransfer};

verus! {

/// The data of an escrow account that `take` reads.
#[derive(Clone, Copy, Debug, PartialEq, Eq)]
pub struct Escrow {
    /// The number that the maker chose to tell their escrows apart.
    pub seed: u64,
    pub maker: Pubkey,
    /// The amount of mint A that the taker receives.
    pub receive: u64,
    /// Bump of the escrow address, derived from
    /// `["escrow", maker key, seed in little-endian]`.
    pub bump: u8,
}

/// A token mint: its address and the number of decimals of its amounts.
#[derive(Clone, Copy, Debug, PartialEq, Eq)]
pub struct Mint {
    pub key: Pubkey,
    pub decimals: u8,
}

/// The accounts of `take`.
#[derive(Clone, Copy, Debug, PartialEq, Eq)]
pub struct Take {
    pub taker: Pubkey,
    /// The data of the escrow account, and its address.
    pub escrow: Escrow,
    pub escrow_key: Pubkey,
    pub maker: Pubkey,
    pub mint_a: Mint,
    pub mint_b: Mint,
    /// The token account of mint A that the escrow owns.
    pub vault: Pubkey,
    pub taker_ata_a: Pubkey,
    pub taker_ata_b: Pubkey,
    pub maker_ata_b: Pubkey,
}

/// The ASCII bytes of `"escrow"`, the first seed of an escrow address.
pub open spec fn escrow_seed() -> Seq<u8> {
    seq![101u8, 115u8, 99u8, 114u8, 111u8, 119u8]
}

/// The seeds with which the program signs for an escrow account.
pub open spec fn escrow_signer_seeds(escrow: Escrow) -> Seq<Seq<u8>> {
    seq![
        escrow_seed(),
        escrow.maker@,
        vstd::bytes::spec_u64_to_le_bytes(escrow.seed),
        seq![escrow.bump],
    ]
}

/// The program signs for the escrow with the seeds from which the escrow
/// address is derived: the bytes of `"escrow"`, the maker's address bytes in
/// order, the eight bytes of the escrow's seed number from least to most
/// significant, and the escrow's bump.
pub proof fn escrow_signed_with_derivation_seeds(escrow: Escrow)
    ensures
        escrow_signer_seeds(escrow).len() == 4,
        escrow_signer_seeds(escrow)[0] == seq![101u8, 115u8, 99u8, 114u8, 111u8, 119u8],
        escrow_signer_seeds(escrow)[1] == escrow.maker.bytes@,
        escrow_signer_seeds(escrow)[2].len() == 8,
        vstd::bytes::spec_u64_from_le_bytes(escrow_signer_seeds(escrow)[2]) == escrow.seed,
        escrow_signer_seeds(escrow)[3] == seq![escrow.bump],
{
    vstd::bytes::lemma_auto_spec_u64_to_from_le_bytes();
}

impl Take {
    /// The two token transfers that `take` makes, in order: first
    /// `amount_b` of mint B from the taker to the maker, on the taker's
    /// authority; then the escrow's `receive` amount of mint A from the vault
    /// to the taker, on the escrow's authority and signed with its seeds.
    pub fn take(&self, amount_b: u64) -> (transfers: Vec<TokenTransfer>)
        ensures
            transfers.len() == 2,
            transfers[0].moves(
                self.taker_ata_b,
                self.maker_ata_b,
                self.mint_b.key,
                self.taker,
                amount_b,
                self.mint_b.decimals,
                Seq::empty(),
            ),
            transfers[1].moves(
                self.vault,
                self.taker_ata_a,
                self.mint_a.key,
                self.escrow_key,
                self.escrow.receive,
                self.mint_a.decimals,
                escrow_signer_seeds(self.escrow),
            ),
            transfers[0].from == self.taker_ata_b && transfers[0].to == self.maker_ata_b,
            transfers[0].mint == self.mint_b.key && transfers[0].authority == self.taker,
            transfers[0].amount == amount_b && transfers[0].decimals == self.mint_b.decimals,
            transfers[0].signer_seeds@.len() == 0,
            transfers[1].from == self.vault && transfers[1].to == self.taker_ata_a,
            transfers[1].mint == self.mint_a.key && transfers[1].authority == self.escrow_key,
            transfers[1].amount == self.escrow.receive && transfers[1].decimals == self.mint_a.decimals,
            transfers[1].signer_seeds@.len() == 4,
            transfers[1].signer_seeds@[0]@ == seq![101u8, 115u8, 99u8, 114u8, 111u8, 119u8],
            transfers[1].signer_seeds@[1]@ == self.escrow.maker.bytes@,
            transfers[1].signer_seeds@[2]@ == vstd::bytes::spec_u64_to_le_bytes(self.escrow.seed),
            transfers[1].signer_seeds@[3]@ == seq![self.escrow.bump],
    {
        let transfer_b_to_maker = TokenTransfer {
            from: self.taker_ata_b,
            to: self.maker_ata_b,
            mint: self.mint_b.key,
            authority: self.taker,
            amount: amount_b,
            decimals: self.mint_b.decimals,
            signer_seeds: no_seeds(),
        };
        let prefix = vec![101u8, 115u8, 99u8, 114u8, 111u8, 119u8];
        let bump = vec![self.escrow.bump];
        assert(prefix@ =~= escrow_seed());
        assert(bump@ =~= seq![self.escrow.bump]);
        let seeds = seeds4(
            prefix,
            self.escrow.maker.to_seed(),
            vstd::bytes::u64_to_le_bytes(self.escrow.seed),
            bump,
        );
        let transfer_a_to_taker = TokenTransfer {
            from: self.vault,
            to: self.taker_ata_a,
            mint: self.mint_a.key,
            authority: self.escrow_key,
            amount: self.escrow.receive,
            decimals: self.mint_a.decimals,
            signer_seeds: seeds,
        };
        let mut transfers: Vec<TokenTransfer> = Vec::new();
        transfers.push(transfer_b_to_maker);
        transfers.push(transfer_a_to_taker);
        transfers
    }
}

/// The `take` instruction.
pub fn take(accounts: &Take, amt: u64) -> (transfers: Vec<TokenTransfer>)
    ensures
        transfers.len() == 2,
        transfers[0].moves(
            accounts.taker_ata_b,
            accounts.maker_ata_b,
            accounts.mint_b.key,
            accounts.taker,
            amt,
            accounts.mint_b.decimals,
            Seq::empty(),
        ),
        transfers[1].moves(
            accounts.vault,
            accounts.taker_ata_a,
            accounts.mint_a.key,
            accounts.escrow_key,
            accounts.escrow.receive,
            accounts.mint_a.decimals,
            escrow_signer_seeds(accounts.escrow),
        ),
        transfers[0].from == accounts.taker_ata_b && transfers[0].to == accounts.maker_ata_b,
        transfers[0].mint == accounts.mint_b.key && transfers[0].authority == accounts.taker,
        transfers[0].amount == amt && transfers[0].decimals == accounts.mint_b.decimals,
        transfers[0].signer_seeds@.len() == 0,
        transfers[1].from == accounts.vault && transfers[1].to == accounts.taker_ata_a,
        transfers[1].mint == accounts.mint_a.key && transfers[1].authority == accounts.escrow_key,
        transfers[1].amount == accounts.escrow.receive && transfers[1].decimals == accounts.mint_a.decimals,
        transfers[1].signer_seeds@.len() == 4,
        transfers[1].signer_seeds@[0]@ == seq![101u8, 115u8, 99u8, 114u8, 111u8, 119u8],
        transfers[1].signer_seeds@[1]@ == accounts.escrow.maker.bytes@,
        transfers[1].signer_seeds@[2]@ == vstd::bytes::spec_u64_to_le_bytes(accounts.escrow.seed),
        transfers[1].signer_seeds@[3]@ == seq![accounts.escrow.bump],
{
    accounts.take(amt)
}

} // verus!
