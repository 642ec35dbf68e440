use vstd::prelude::*;

use crate::pubkey::Pubkey;

verus! {

/// A lamport transfer that an instruction asks the system program to make.
///
/// `signer_seeds` are the seeds with which the program signs for `from`, a
/// program-derived address; they are empty where `from` signs for itself.
#[derive(Clone, Debug, PartialEq, Eq)]
pub struct SystemTransfer {
    pub from: Pubkey,
    pub to: Pubkey,
    pub lamports: u64,
    pub signer_seeds: Vec<Vec<u8>>,
}

impl SystemTransfer {
    /// This transfer moves `lamports` from `from` to `to`, signed with `seeds`.
    pub open spec fn moves(self, from: Pubkey, to: Pubkey, lamports: u64, seeds: Seq<Seq<u8>>) -> bool {
        &&& self.from == from
        &&& self.to == to
        &&& self.lamports == lamports
        &&& self.signer_seeds.deep_view() == seeds
    }
}

/// A `transfer_checked` that an instruction asks the token program to make:
/// `amount` base units of `mint` (with `decimals` decimals) from the token
/// account `from` to the token account `to`, authorised by `authority`.
#[derive(Clone, Debug, PartialEq, Eq)]
pub struct TokenTransfer {
    pub from: Pubkey,
    pub to: Pubkey,
    pub mint: Pubkey,
    pub authority: Pubkey,
    pub amount: u64,
    pub decimals: u8,
    pub signer_seeds: Vec<Vec<u8>>,
}

impl TokenTransfer {
    /// This transfer moves `amount` of `mint` (with `decimals` decimals) from
    /// `from` to `to` on the authority of `authority`, signed with `seeds`.
    pub open spec fn moves(
        self,
        from: Pubkey,
        to: Pubkey,
        mint: Pubkey,
        authority: Pubkey,
        amount: u64,
        decimals: u8,
        seeds: Seq<Seq<u8>>,
    ) -> bool {
        &&& self.from == from
        &&& self.to == to
        &&& self.mint == mint
        &&& self.authority == authority
        &&& self.amount == amount
        &&& self.decimals == decimals
        &&& self.signer_seeds.deep_view() == seeds
    }
}

/// No seeds: the sending account signs for itself.
pub fn no_seeds() -> (seeds: Vec<Vec<u8>>)
    ensures
        seeds.deep_view() == Seq::<Seq<u8>>::empty(),
        seeds@.len() == 0,
{
    let seeds: Vec<Vec<u8>> = Vec::new();
    assert(seeds.deep_view() =~= Seq::<Seq<u8>>::empty());
    seeds
}

/// The seed list `[a, b, c]`.
pub fn seeds3(a: Vec<u8>, b: Vec<u8>, c: Vec<u8>) -> (seeds: Vec<Vec<u8>>)
    ensures
        seeds.deep_view() == seq![a@, b@, c@],
        seeds@.len() == 3,
        seeds@[0]@ == a@,
        seeds@[1]@ == b@,
        seeds@[2]@ == c@,
{
    let ghost (va, vb, vc) = (a@, b@, c@);
    let mut seeds: Vec<Vec<u8>> = Vec::new();
    seeds.push(a);
    seeds.push(b);
    seeds.push(c);
    assert(seeds@[0].deep_view() =~= va);
    assert(seeds@[1].deep_view() =~= vb);
    assert(seeds@[2].deep_view() =~= vc);
    assert(seeds.deep_view() =~= seq![va, vb, vc]);
    seeds
}

/// The seed list `[a, b, c, d]`.
pub fn seeds4(a: Vec<u8>, b: Vec<u8>, c: Vec<u8>, d: Vec<u8>) -> (seeds: Vec<Vec<u8>>)
    ensures
        seeds.deep_view() == seq![a@, b@, c@, d@],
        seeds@.len() == 4,
        seeds@[0]@ == a@,
        seeds@[1]@ == b@,
        seeds@[2]@ == c@,
        seeds@[3]@ == d@,
{
    let ghost (va, vb, vc, vd) = (a@, b@, c@, d@);
    let mut seeds: Vec<Vec<u8>> = Vec::new();
    seeds.push(a);
    seeds.push(b);
    seeds.push(c);
    seeds.push(d);
    assert(seeds@[0].deep_view() =~= va);
    assert(seeds@[1].deep_view() =~= vb);
    assert(seeds@[2].deep_view() =~= vc);
    assert(seeds@[3].deep_view() =~= vd);
    assert(seeds.deep_view() =~= seq![va, vb, vc, vd]);
    seeds
}

} // verus!
