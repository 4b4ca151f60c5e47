//! The per-identity state record and the protocol's error taxonomy.

use vstd::prelude::*;

verus! {

/// A 32-byte account address, held as four little-endian words. The protocol
/// reads nothing of an address but its identity, so word-wise equality is all
/// that is ever asked of it.
#[derive(Clone, Copy, Debug, PartialEq, Eq, Structural)]
pub struct AccountId {
    pub w0: u64,
    pub w1: u64,
    pub w2: u64,
    pub w3: u64,
}

impl AccountId {
    /// The all-zero address, used where no account has been bound yet.
    pub fn zeroed() -> (r: AccountId)
        ensures
            r == (AccountId { w0: 0, w1: 0, w2: 0, w3: 0 }),
    {
        AccountId { w0: 0, w1: 0, w2: 0, w3: 0 }
    }
}

/// One per authorized identity: the current request/response cycle.
#[derive(Clone, Copy, Debug, PartialEq, Eq, Structural)]
pub struct RandomnessState {
    /// The sole principal permitted to operate on this record; fixed at creation.
    pub authorized_user: AccountId,
    /// Boolean reduction of the last revealed value.
    pub latest_result: bool,
    /// The last revealed random value, widened losslessly from its first byte.
    pub random_value: u128,
    /// The oracle commitment account this record is bound to.
    pub randomness_account: AccountId,
    /// Address-derivation bump of the record's own account; bookkeeping only.
    pub bump: u8,
    /// The slot the outstanding request was bound at; 0 means none yet.
    pub commit_slot: u64,
}

/// Why a request or a reveal was refused.
#[derive(Clone, Copy, Debug, PartialEq, Eq, Structural)]
pub enum ErrorCode {
    /// The caller is not the record's authorized identity.
    Unauthorized,
    /// The commitment offered to a request is not freshly one slot old.
    RandomnessAlreadyRevealed,
    /// The oracle has not yet published the reveal for the bound commitment.
    RandomnessNotResolved,
    /// The commitment offered to a reveal is not the one the record is bound to.
    RandomnessExpired,
}

} // verus!
