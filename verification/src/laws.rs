//! Laws of the commit-reveal state machine, proved over the transition
//! functions that the executable operations are specified by.

use vstd::prelude::*;

use crate::oracle::CommitmentView;
use crate::protocol::spec_fresh;
use crate::protocol::spec_outcome;
use crate::protocol::spec_request;
use crate::protocol::spec_reveal;
use crate::state::AccountId;
use crate::state::ErrorCode;
use crate::state::RandomnessState;

verus! {

/// Law: revealing a bound commitment that the oracle has not resolved reports
/// that and changes nothing, however often it is retried.
pub proof fn lemma_reveal_unresolved_idempotent(
    s: RandomnessState,
    user: AccountId,
    c: CommitmentView,
    slot1: u64,
    slot2: u64,
)
    requires
        user == s.authorized_user,
        c.seed_slot == s.commit_slot,
        slot1 != c.reveal_slot,
        slot2 != c.reveal_slot,
    ensures
        spec_reveal(s, user, c, slot1) == (
            s,
            Err::<(), ErrorCode>(ErrorCode::RandomnessNotResolved),
        ),
        spec_reveal(spec_reveal(s, user, c, slot1).0, user, c, slot2) == (
            s,
            Err::<(), ErrorCode>(ErrorCode::RandomnessNotResolved),
        ),
{
}

/// Law: the stored outcome of a successful reveal is a pure function of the
/// first revealed byte: the value is that byte widened losslessly, and the
/// boolean is whether that byte is even. Two reveals of byte strings with
/// equal first bytes store equal outcomes, whatever else differs.
pub proof fn lemma_reduction_deterministic(
    s1: RandomnessState,
    s2: RandomnessState,
    user1: AccountId,
    user2: AccountId,
    c1: CommitmentView,
    c2: CommitmentView,
    slot1: u64,
    slot2: u64,
)
    requires
        c1.value[0] == c2.value[0],
        spec_reveal(s1, user1, c1, slot1).1 is Ok,
        spec_reveal(s2, user2, c2, slot2).1 is Ok,
    ensures
        spec_reveal(s1, user1, c1, slot1).0.random_value == c1.value[0] as u128,
        spec_reveal(s1, user1, c1, slot1).0.latest_result == spec_outcome(c1.value[0]),
        spec_reveal(s1, user1, c1, slot1).0.random_value == spec_reveal(
            s2,
            user2,
            c2,
            slot2,
        ).0.random_value,
        spec_reveal(s1, user1, c1, slot1).0.latest_result == spec_reveal(
            s2,
            user2,
            c2,
            slot2,
        ).0.latest_result,
{
}

/// Law: once a new request has opened the next cycle, revealing with the
/// previous cycle's commitment is refused as expired and leaves the new
/// binding, and the whole record, untouched.
pub proof fn lemma_cycle_isolation(
    s: RandomnessState,
    user: AccountId,
    randomness_account: AccountId,
    c_old: CommitmentView,
    c_new: CommitmentView,
    reveal_slot: u64,
    request_slot: u64,
    retry_slot: u64,
)
    requires
        spec_reveal(s, user, c_old, reveal_slot).1 is Ok,
        spec_request(
            spec_reveal(s, user, c_old, reveal_slot).0,
            user,
            randomness_account,
            c_new,
            request_slot,
        ).1 is Ok,
        c_old.seed_slot != c_new.seed_slot,
    ensures
        ({
            let s1 = spec_reveal(s, user, c_old, reveal_slot).0;
            let s2 = spec_request(s1, user, randomness_account, c_new, request_slot).0;
            s2.commit_slot == c_new.seed_slot && spec_reveal(s2, user, c_old, retry_slot) == (
                s2,
                Err::<(), ErrorCode>(ErrorCode::RandomnessExpired),
            )
        }),
{
}

/// Law: a request against a commitment that is not exactly one slot old is
/// refused as already revealable and changes nothing, whoever else would have
/// been allowed it.
pub proof fn lemma_request_unfresh_rejected(
    s: RandomnessState,
    user: AccountId,
    randomness_account: AccountId,
    c: CommitmentView,
    current_slot: u64,
)
    requires
        user == s.authorized_user,
        !spec_fresh(c.seed_slot, current_slot),
    ensures
        spec_request(s, user, randomness_account, c, current_slot) == (
            s,
            Err::<(), ErrorCode>(ErrorCode::RandomnessAlreadyRevealed),
        ),
{
}

} // verus!

