//! A per-user SOL vault: the user deposits lamports into a vault account
//! derived from their state account, withdraws them again, and closes the
//! vault. The state account records how many lamports the vault holds.

use vstd::prelude::*;

use crate::pubkey::Pubkey;
use crate::transfer::{no_seeds, seeds3, SystemTransfer};

verus! {

/// The data of a vault's state account.
#[derive(Clone, Copy, Debug, PartialEq, Eq)]
pub struct VaultState {
    /// Bump of the vault address, derived from `["vault", state key]`.
    pub vault_bump: u8,
    /// Bump of the state address, derived from `["state", user key]`.
    pub state_bump: u8,
    /// Lamports deposited into the vault and not yet withdrawn.
    pub amount: u64,
}

/// Why a vault instruction fails.
#[derive(Clone, Copy, Debug, PartialEq, Eq, Structural)]
pub enum ErrorCode {
    /// A withdrawal asks for more than the vault holds.
    InsufficientFunds,
    /// The recorded amount would leave the range of `u64`.
    Overflow,
}

impl ErrorCode {
    /// The message that the program reports with this error.
    pub fn message(&self) -> (msg: &'static str)
        ensures
            *self == ErrorCode::InsufficientFunds ==> msg@ == "Insufficient funds in vault"@,
            *self == ErrorCode::Overflow ==> msg@ == "Overflow error"@,
    {
        match self {
            ErrorCode::InsufficientFunds => "Insufficient funds in vault",
            ErrorCode::Overflow => "Overflow error",
        }
    }
}

/// The bumps found for the two addresses that `initialize` creates.
#[derive(Clone, Copy, Debug, PartialEq, Eq)]
pub struct InitializeBumps {
    pub state: u8,
    pub vault: u8,
}

/// A lamport balance held by an account.
#[derive(Clone, Copy, Debug, PartialEq, Eq)]
pub struct Wallet {
    pub key: Pubkey,
    pub lamports: u64,
}

/// The accounts of `initialize`: the paying user, the new state account and
/// the vault address.
#[derive(Clone, Copy, Debug, PartialEq, Eq)]
pub struct Initialize {
    pub user: Pubkey,
    pub state: VaultState,
    pub vault: Pubkey,
}

/// The accounts of `deposit` and `withdraw`.
#[derive(Clone, Copy, Debug, PartialEq, Eq)]
pub struct Payment {
    pub signer: Pubkey,
    /// The data of the state account, and its address.
    pub vault_state: VaultState,
    pub vault_state_key: Pubkey,
    pub vault: Pubkey,
}

/// The accounts of `close`.
#[derive(Clone, Copy, Debug, PartialEq, Eq)]
pub struct Close {
    pub user: Wallet,
    pub vault_state: VaultState,
    pub vault: Wallet,
}

/// The ASCII bytes of `"vault"`, the first seed of a vault address.
pub open spec fn vault_seed() -> Seq<u8> {
    seq![118u8, 97u8, 117u8, 108u8, 116u8]
}

/// The seeds with which the program signs for the vault of the state
/// account `state_key`.
pub open spec fn vault_signer_seeds(state_key: Seq<u8>, vault_bump: u8) -> Seq<Seq<u8>> {
    seq![vault_seed(), state_key, seq![vault_bump]]
}

/// The state after `amount` lamports are recorded as deposited, or `None`
/// where the recorded amount would overflow.
pub open spec fn deposited(state: VaultState, amount: u64) -> Option<VaultState> {
    if state.amount + amount <= u64::MAX {
        Some(VaultState { amount: (state.amount + amount) as u64, ..state })
    } else {
        None
    }
}

/// The state after `amount` lamports are withdrawn, or `None` where the vault
/// records fewer than `amount`.
pub open spec fn withdrawn(state: VaultState, amount: u64) -> Option<VaultState> {
    if amount <= state.amount {
        Some(VaultState { amount: (state.amount - amount) as u64, ..state })
    } else {
        None
    }
}

impl Initialize {
    /// Records the bumps of the two new addresses and an empty vault.
    pub fn initialize(&mut self, bumps: &InitializeBumps) -> (r: Result<(), ErrorCode>)
        ensures
            r is Ok,
            final(self).state == (VaultState { vault_bump: bumps.vault, state_bump: bumps.state, amount: 0 }),
            final(self).user == old(self).user,
            final(self).vault == old(self).vault,
    {
        self.state.vault_bump = bumps.vault;
        self.state.state_bump = bumps.state;
        self.state.amount = 0;
        Ok(())
    }
}

impl Payment {
    /// Deposits `amount` lamports. The instruction first transfers them from
    /// the signer to the vault (the returned transfer) and then records them
    /// in the state account (the returned result); it fails with `Overflow`
    /// where the recorded amount would overflow, and then leaves the state as
    /// it was.
    pub fn deposit(&mut self, amount: u64) -> (out: (SystemTransfer, Result<(), ErrorCode>))
        ensures
            out.0.moves(old(self).signer, old(self).vault, amount, Seq::empty()),
            match deposited(old(self).vault_state, amount) {
                Some(s) => out.1 is Ok && final(self).vault_state == s,
                None => out.1 == Err::<(), ErrorCode>(ErrorCode::Overflow)
                    && final(self).vault_state == old(self).vault_state,
            },
            (old(self).vault_state.amount as int) + (amount as int) <= u64::MAX ==> out.1 is Ok
                && final(self).vault_state.amount == old(self).vault_state.amount + amount
                && final(self).vault_state.vault_bump == old(self).vault_state.vault_bump
                && final(self).vault_state.state_bump == old(self).vault_state.state_bump,
            (old(self).vault_state.amount as int) + (amount as int) > u64::MAX
                ==> out.1 == Err::<(), ErrorCode>(ErrorCode::Overflow)
                && final(self).vault_state == old(self).vault_state,
            out.0.from == old(self).signer && out.0.to == old(self).vault && out.0.lamports == amount,
            out.0.signer_seeds@.len() == 0,
            final(self).signer == old(self).signer,
            final(self).vault_state_key == old(self).vault_state_key,
            final(self).vault == old(self).vault,
    {
        let transfer = SystemTransfer {
            from: self.signer,
            to: self.vault,
            lamports: amount,
            signer_seeds: no_seeds(),
        };
        let recorded = match self.vault_state.amount.checked_add(amount) {
            Some(total) => {
                self.vault_state.amount = total;
                Ok(())
            },
            None => Err(ErrorCode::Overflow),
        };
        (transfer, recorded)
    }

    /// Withdraws `amount` lamports: fails with `InsufficientFunds` where the
    /// vault records fewer, and otherwise returns the transfer from the vault
    /// back to the signer, signed with the vault's seeds, and records the
    /// withdrawal. On failure the state is left as it was.
    pub fn withdraw(&mut self, amount: u64) -> (r: Result<SystemTransfer, ErrorCode>)
        ensures
            match withdrawn(old(self).vault_state, amount) {
                Some(s) => r matches Ok(t) && t.moves(
                    old(self).vault,
                    old(self).signer,
                    amount,
                    vault_signer_seeds(old(self).vault_state_key@, old(self).vault_state.vault_bump),
                ) && final(self).vault_state == s,
                None => r matches Err(e) && e == ErrorCode::InsufficientFunds
                    && final(self).vault_state == old(self).vault_state,
            },
            amount <= old(self).vault_state.amount ==> r is Ok
                && final(self).vault_state.amount == old(self).vault_state.amount - amount
                && final(self).vault_state.vault_bump == old(self).vault_state.vault_bump
                && final(self).vault_state.state_bump == old(self).vault_state.state_bump,
            amount > old(self).vault_state.amount
                ==> r == Err::<SystemTransfer, ErrorCode>(ErrorCode::InsufficientFunds)
                && final(self).vault_state == old(self).vault_state,
            r matches Ok(t) ==> t.from == old(self).vault && t.to == old(self).signer && t.lamports == amount
                && t.signer_seeds@.len() == 3
                && t.signer_seeds@[0]@ == seq![118u8, 97u8, 117u8, 108u8, 116u8]
                && t.signer_seeds@[1]@ == old(self).vault_state_key.bytes@
                && t.signer_seeds@[2]@ == seq![old(self).vault_state.vault_bump],
            final(self).signer == old(self).signer,
            final(self).vault_state_key == old(self).vault_state_key,
            final(self).vault == old(self).vault,
    {
        if self.vault_state.amount < amount {
            return Err(ErrorCode::InsufficientFunds);
        }
        let prefix = vec![118u8, 97u8, 117u8, 108u8, 116u8];
        let bump = vec![self.vault_state.vault_bump];
        assert(prefix@ =~= vault_seed());
        assert(bump@ =~= seq![self.vault_state.vault_bump]);
        let seeds = seeds3(prefix, self.vault_state_key.to_seed(), bump);
        assert(seeds.deep_view() == vault_signer_seeds(self.vault_state_key@, self.vault_state.vault_bump));
        let transfer = SystemTransfer {
            from: self.vault,
            to: self.signer,
            lamports: amount,
            signer_seeds: seeds,
        };
        match self.vault_state.amount.checked_sub(amount) {
            Some(rest) => {
                self.vault_state.amount = rest;
                Ok(transfer)
            },
            None => Err(ErrorCode::Overflow),
        }
    }
}

impl Close {
    /// Moves every lamport of the vault to the user.
    pub fn close(&mut self) -> (r: Result<(), ErrorCode>)
        requires
            old(self).user.lamports + old(self).vault.lamports <= u64::MAX,
        ensures
            r is Ok,
            final(self).vault.lamports == 0,
            final(self).user.lamports == old(self).user.lamports + old(self).vault.lamports,
            final(self).user.key == old(self).user.key,
            final(self).vault.key == old(self).vault.key,
            final(self).vault_state == old(self).vault_state,
    {
        let vault_bal: u64 = self.vault.lamports;
        self.vault.lamports = self.vault.lamports - vault_bal;
        self.user.lamports = self.user.lamports + vault_bal;
        Ok(())
    }
}

/// The `initialize` instruction.
pub fn initialize(accounts: &mut Initialize, bumps: &InitializeBumps) -> (r: Result<(), ErrorCode>)
    ensures
        r is Ok,
        final(accounts).state == (VaultState { vault_bump: bumps.vault, state_bump: bumps.state, amount: 0 }),
        final(accounts).user == old(accounts).user,
        final(accounts).vault == old(accounts).vault,
{
    accounts.initialize(bumps)
}

/// The `deposit` instruction.
pub fn deposit(accounts: &mut Payment, amount: u64) -> (out: (SystemTransfer, Result<(), ErrorCode>))
    ensures
        out.0.moves(old(accounts).signer, old(accounts).vault, amount, Seq::empty()),
        match deposited(old(accounts).vault_state, amount) {
            Some(s) => out.1 is Ok && final(accounts).vault_state == s,
            None => out.1 == Err::<(), ErrorCode>(ErrorCode::Overflow)
                && final(accounts).vault_state == old(accounts).vault_state,
        },
        (old(accounts).vault_state.amount as int) + (amount as int) <= u64::MAX ==> out.1 is Ok
            && final(accounts).vault_state.amount == old(accounts).vault_state.amount + amount
            && final(accounts).vault_state.vault_bump == old(accounts).vault_state.vault_bump
            && final(accounts).vault_state.state_bump == old(accounts).vault_state.state_bump,
        (old(accounts).vault_state.amount as int) + (amount as int) > u64::MAX
            ==> out.1 == Err::<(), ErrorCode>(ErrorCode::Overflow)
            && final(accounts).vault_state == old(accounts).vault_state,
        out.0.from == old(accounts).signer && out.0.to == old(accounts).vault && out.0.lamports == amount,
        out.0.signer_seeds@.len() == 0,
        final(accounts).signer == old(accounts).signer,
        final(accounts).vault_state_key == old(accounts).vault_state_key,
        final(accounts).vault == old(accounts).vault,
{
    accounts.deposit(amount)
}

/// The `withdraw` instruction.
pub fn withdraw(accounts: &mut Payment, amount: u64) -> (r: Result<SystemTransfer, ErrorCode>)
    ensures
        match withdrawn(old(accounts).vault_state, amount) {
            Some(s) => r matches Ok(t) && t.moves(
                old(accounts).vault,
                old(accounts).signer,
                amount,
                vault_signer_seeds(old(accounts).vault_state_key@, old(accounts).vault_state.vault_bump),
            ) && final(accounts).vault_state == s,
            None => r matches Err(e) && e == ErrorCode::InsufficientFunds
                && final(accounts).vault_state == old(accounts).vault_state,
        },
        amount <= old(accounts).vault_state.amount ==> r is Ok
            && final(accounts).vault_state.amount == old(accounts).vault_state.amount - amount
            && final(accounts).vault_state.vault_bump == old(accounts).vault_state.vault_bump
            && final(accounts).vault_state.state_bump == old(accounts).vault_state.state_bump,
        amount > old(accounts).vault_state.amount
            ==> r == Err::<SystemTransfer, ErrorCode>(ErrorCode::InsufficientFunds)
            && final(accounts).vault_state == old(accounts).vault_state,
        r matches Ok(t) ==> t.from == old(accounts).vault && t.to == old(accounts).signer && t.lamports == amount
            && t.signer_seeds@.len() == 3
            && t.signer_seeds@[0]@ == seq![118u8, 97u8, 117u8, 108u8, 116u8]
            && t.signer_seeds@[1]@ == old(accounts).vault_state_key.bytes@
            && t.signer_seeds@[2]@ == seq![old(accounts).vault_state.vault_bump],
        final(accounts).signer == old(accounts).signer,
        final(accounts).vault_state_key == old(accounts).vault_state_key,
        final(accounts).vault == old(accounts).vault,
{
    accounts.withdraw(amount)
}

/// The `close` instruction.
pub fn close(accounts: &mut Close) -> (r: Result<(), ErrorCode>)
    requires
        old(accounts).user.lamports + old(accounts).vault.lamports <= u64::MAX,
    ensures
        r is Ok,
        final(accounts).vault.lamports == 0,
        final(accounts).user.lamports == old(accounts).user.lamports + old(accounts).vault.lamports,
        final(accounts).user.key == old(accounts).user.key,
        final(accounts).vault.key == old(accounts).vault.key,
        final(accounts).vault_state == old(accounts).vault_state,
{
    accounts.close()
}

/// One recorded movement of lamports into or out of a vault.
#[derive(Clone, Copy, Debug, PartialEq, Eq)]
pub enum VaultOp {
    Deposit(u64),
    Withdraw(u64),
}

/// The state after one movement, or `None` where it fails.
pub open spec fn apply_op(state: VaultState, op: VaultOp) -> Option<VaultState> {
    match op {
        VaultOp::Deposit(amount) => deposited(state, amount),
        VaultOp::Withdraw(amount) => withdrawn(state, amount),
    }
}

/// The state after the movements `ops` in order, or `None` where one fails.
pub open spec fn replay(state: VaultState, ops: Seq<VaultOp>) -> Option<VaultState>
    decreases ops.len(),
{
    if ops.len() == 0 {
        Some(state)
    } else {
        match replay(state, ops.drop_last()) {
            Some(s) => apply_op(s, ops.last()),
            None => None,
        }
    }
}

/// The lamports that `ops` deposit.
pub open spec fn total_deposited(ops: Seq<VaultOp>) -> int
    decreases ops.len(),
{
    if ops.len() == 0 {
        0
    } else {
        total_deposited(ops.drop_last()) + match ops.last() {
            VaultOp::Deposit(amount) => amount as int,
            VaultOp::Withdraw(_) => 0,
        }
    }
}

/// The lamports that `ops` withdraw.
pub open spec fn total_withdrawn(ops: Seq<VaultOp>) -> int
    decreases ops.len(),
{
    if ops.len() == 0 {
        0
    } else {
        total_withdrawn(ops.drop_last()) + match ops.last() {
            VaultOp::Deposit(_) => 0,
            VaultOp::Withdraw(amount) => amount as int,
        }
    }
}

/// A deposit is recorded exactly when the new total fits in a `u64`, and
/// then the recorded amount rises by the deposit and nothing else changes.
pub proof fn deposit_recorded_iff_fits(state: VaultState, amount: u64)
    ensures
        deposited(state, amount) is Some <==> (state.amount as int) + (amount as int) <= u64::MAX,
        deposited(state, amount) matches Some(s) ==> s.amount == state.amount + amount
            && s.vault_bump == state.vault_bump && s.state_bump == state.state_bump,
{
}

/// A withdrawal is allowed exactly when the vault records at least the
/// amount asked for, and then the recorded amount falls by it and nothing
/// else changes.
pub proof fn withdrawal_allowed_iff_covered(state: VaultState, amount: u64)
    ensures
        withdrawn(state, amount) is Some <==> amount <= state.amount,
        withdrawn(state, amount) matches Some(s) ==> s.amount == state.amount - amount
            && s.vault_bump == state.vault_bump && s.state_bump == state.state_bump,
{
}

/// The program signs for the vault with the seeds from which the vault
/// address is derived: the bytes of `"vault"`, the state account's address
/// bytes in order, and the vault's bump.
pub proof fn vault_signed_with_derivation_seeds(state_key: Pubkey, vault_bump: u8)
    ensures
        vault_signer_seeds(state_key@, vault_bump).len() == 3,
        vault_signer_seeds(state_key@, vault_bump)[0] == seq![118u8, 97u8, 117u8, 108u8, 116u8],
        vault_signer_seeds(state_key@, vault_bump)[1] == state_key.bytes@,
        vault_signer_seeds(state_key@, vault_bump)[2] == seq![vault_bump],
{
}

/// Withdrawing the lamports just deposited gives back the state from before
/// the deposit.
pub proof fn deposit_then_withdraw(state: VaultState, amount: u64)
    requires
        deposited(state, amount) is Some,
    ensures
        withdrawn(deposited(state, amount).unwrap(), amount) == Some(state),
{
}

/// Depositing the lamports just withdrawn gives back the state from before
/// the withdrawal.
pub proof fn withdraw_then_deposit(state: VaultState, amount: u64)
    requires
        withdrawn(state, amount) is Some,
    ensures
        deposited(withdrawn(state, amount).unwrap(), amount) == Some(state),
{
}

/// Whatever deposits and withdrawals succeed in turn, the vault records the
/// lamports it held at first plus those deposited minus those withdrawn, never
/// more withdrawn than it held and received, and its bumps never change.
pub proof fn recorded_amount_balances(state: VaultState, ops: Seq<VaultOp>)
    requires
        replay(state, ops) is Some,
    ensures
        replay(state, ops).unwrap().amount == state.amount + total_deposited(ops) - total_withdrawn(ops),
        total_withdrawn(ops) <= state.amount + total_deposited(ops),
        replay(state, ops).unwrap().vault_bump == state.vault_bump,
        replay(state, ops).unwrap().state_bump == state.state_bump,
    decreases ops.len(),
{
    if ops.len() > 0 {
        recorded_amount_balances(state, ops.drop_last());
    }
}

} // verus!
