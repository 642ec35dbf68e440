# solana_programs

Verified instruction logic of four small Anchor programs, written in Verus.

- `src/vault_program.rs`: a per-user SOL vault (initialize, deposit,
  withdraw, close) with its state account, errors and laws (deposit and
  withdrawal undo each other; the recorded amount equals the lamports held
  at first plus those deposited minus those withdrawn).
- `src/escrow.rs`: the `take` side of a two-token escrow.
- `src/marketplace.rs`: paying for a listed NFT, split between seller and
  marketplace treasury by a fee in basis points.
- `src/nft_staking.rs`: a staking account's data.
- `src/transfer.rs`, `src/pubkey.rs`: the transfers that instructions ask
  the system and token programs to make, and account addresses.

Each instruction returns the transfers to make, in order, with the seeds the
program signs with; `app/lib.rs` makes them through Anchor's cross-program
invocations and stores the new account data.
