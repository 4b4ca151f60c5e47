//! The commit-reveal state machine: when a request may bind a commitment,
//! when a reveal may consume it, and how the revealed bytes are reduced.

use vstd::prelude::*;

use crate::oracle::CommitmentView;
use crate::oracle::OracleCommitment;
use crate::oracle::parse_commitment;
use crate::oracle::parse_result;
use crate::state::AccountId;
use crate::state::ErrorCode;
use crate::state::RandomnessState;

verus! {

/// The freshness rule: a commitment may only be bound while it is exactly one
/// slot old, so that its reveal cannot already be known to the caller.
pub open spec fn spec_fresh(seed_slot: u64, current_slot: u64) -> bool {
    seed_slot + 1 == current_slot
}

/// The reduction rule: the outcome is whether the first revealed byte is even.
pub open spec fn spec_outcome(first_byte: u8) -> bool {
    first_byte % 2 == 0
}

/// What a request does to a record: the record after the call, and the result
/// reported to the caller. Errors leave the record as it was.
pub open spec fn spec_request(
    s: RandomnessState,
    user: AccountId,
    randomness_account: AccountId,
    c: CommitmentView,
    current_slot: u64,
) -> (RandomnessState, Result<(), ErrorCode>) {
    if user != s.authorized_user {
        (s, Err(ErrorCode::Unauthorized))
    } else if !spec_fresh(c.seed_slot, current_slot) {
        (s, Err(ErrorCode::RandomnessAlreadyRevealed))
    } else {
        (
            RandomnessState { commit_slot: c.seed_slot, randomness_account, ..s },
            Ok(()),
        )
    }
}

/// What a reveal does to a record: the record after the call, and the result
/// reported to the caller. Errors leave the record as it was.
pub open spec fn spec_reveal(
    s: RandomnessState,
    user: AccountId,
    c: CommitmentView,
    current_slot: u64,
) -> (RandomnessState, Result<(), ErrorCode>) {
    if user != s.authorized_user {
        (s, Err(ErrorCode::Unauthorized))
    } else if c.seed_slot != s.commit_slot {
        (s, Err(ErrorCode::RandomnessExpired))
    } else if current_slot != c.reveal_slot {
        (s, Err(ErrorCode::RandomnessNotResolved))
    } else {
        (
            RandomnessState {
                latest_result: spec_outcome(c.value[0]),
                random_value: c.value[0] as u128,
                ..s
            },
            Ok(()),
        )
    }
}

/// Creates the record for `user`: no outstanding binding, no outcome yet.
/// The identity binding is fixed for the record's lifetime.
pub fn initialize(user: AccountId, bump: u8) -> (r: RandomnessState)
    ensures
        r == (RandomnessState {
            authorized_user: user,
            latest_result: false,
            random_value: 0,
            randomness_account: AccountId { w0: 0, w1: 0, w2: 0, w3: 0 },
            bump,
            commit_slot: 0,
        }),
{
    RandomnessState {
        authorized_user: user,
        latest_result: false,
        random_value: 0,
        randomness_account: AccountId::zeroed(),
        bump,
        commit_slot: 0,
    }
}

/// Binds the record to a freshly published commitment. Only the record's
/// authorized identity may call; the commitment must be exactly one slot old,
/// else it is refused as already revealable. Success overwrites any prior
/// binding; failure changes nothing.
pub fn request_with_commitment(
    state: &mut RandomnessState,
    user: AccountId,
    randomness_account: AccountId,
    commitment: &OracleCommitment,
    current_slot: u64,
) -> (r: Result<(), ErrorCode>)
    ensures
        (*final(state), r) == spec_request(
            *old(state),
            user,
            randomness_account,
            commitment@,
            current_slot,
        ),
        r is Ok <==> user == old(state).authorized_user && spec_fresh(
            commitment.seed_slot,
            current_slot,
        ),
        user != old(state).authorized_user ==> r == Err::<(), ErrorCode>(ErrorCode::Unauthorized)
            && *final(state) == *old(state),
        user == old(state).authorized_user && !spec_fresh(commitment.seed_slot, current_slot)
            ==> r == Err::<(), ErrorCode>(ErrorCode::RandomnessAlreadyRevealed) && *final(state)
            == *old(state),
        r is Ok ==> *final(state) == (RandomnessState {
            commit_slot: commitment.seed_slot,
            randomness_account,
            ..*old(state)
        }),
{
    if user != state.authorized_user {
        return Err(ErrorCode::Unauthorized);
    }
    if !(current_slot > 0 && commitment.seed_slot == current_slot - 1) {
        return Err(ErrorCode::RandomnessAlreadyRevealed);
    }
    state.commit_slot = commitment.seed_slot;
    state.randomness_account = randomness_account;
    Ok(())
}

/// Consumes the bound commitment's reveal. Only the record's authorized
/// identity may call; the commitment must be the one the record is bound to,
/// else it is refused as expired; if the oracle has not revealed at this slot
/// the call reports that and changes nothing, and may be retried. On success
/// the first revealed byte is widened into `random_value` and its parity
/// becomes `latest_result`.
pub fn reveal_with_commitment(
    state: &mut RandomnessState,
    user: AccountId,
    commitment: &OracleCommitment,
    current_slot: u64,
) -> (r: Result<(), ErrorCode>)
    requires
        commitment.wf(),
    ensures
        (*final(state), r) == spec_reveal(*old(state), user, commitment@, current_slot),
        r is Ok <==> user == old(state).authorized_user && commitment.seed_slot == old(
            state,
        ).commit_slot && current_slot == commitment.reveal_slot,
        user != old(state).authorized_user ==> r == Err::<(), ErrorCode>(ErrorCode::Unauthorized)
            && *final(state) == *old(state),
        user == old(state).authorized_user && commitment.seed_slot != old(state).commit_slot ==> r
            == Err::<(), ErrorCode>(ErrorCode::RandomnessExpired) && *final(state) == *old(state),
        user == old(state).authorized_user && commitment.seed_slot == old(state).commit_slot
            && current_slot != commitment.reveal_slot ==> r == Err::<(), ErrorCode>(
            ErrorCode::RandomnessNotResolved,
        ) && *final(state) == *old(state),
        r is Ok ==> *final(state) == (RandomnessState {
            latest_result: spec_outcome(commitment.value@[0]),
            random_value: commitment.value@[0] as u128,
            ..*old(state)
        }),
{
    if user != state.authorized_user {
        return Err(ErrorCode::Unauthorized);
    }
    if commitment.seed_slot != state.commit_slot {
        return Err(ErrorCode::RandomnessExpired);
    }
    match commitment.get_value(current_slot) {
        None => Err(ErrorCode::RandomnessNotResolved),
        Some(revealed) => {
            let first: u8 = revealed[0];
            state.latest_result = first % 2 == 0;
            state.random_value = first as u128;
            Ok(())
        },
    }
}

/// Binds the record to the commitment whose account bytes are given, as
/// `request_with_commitment` does to the parsed commitment. The bytes must
/// parse as a commitment record; `try_request_randomness` is the entry for
/// bytes that may not.
pub fn request_randomness(
    state: &mut RandomnessState,
    user: AccountId,
    randomness_account: AccountId,
    randomness_account_data: &[u8],
    current_slot: u64,
) -> (r: Result<(), ErrorCode>)
    requires
        parse_result(randomness_account_data@) is Some,
    ensures
        (*final(state), r) == spec_request(
            *old(state),
            user,
            randomness_account,
            parse_result(randomness_account_data@).unwrap(),
            current_slot,
        ),
{
    match parse_commitment(randomness_account_data) {
        Some(commitment) => request_with_commitment(
            state,
            user,
            randomness_account,
            &commitment,
            current_slot,
        ),
        None => vstd::pervasive::unreached(),
    }
}

/// As `request_randomness`, for account bytes that may not parse: returns
/// `None`, changing nothing, where the bytes are no commitment record.
pub fn try_request_randomness(
    state: &mut RandomnessState,
    user: AccountId,
    randomness_account: AccountId,
    randomness_account_data: &[u8],
    current_slot: u64,
) -> (r: Option<Result<(), ErrorCode>>)
    ensures
        parse_result(randomness_account_data@) is None ==> r is None && *final(state) == *old(
            state,
        ),
        parse_result(randomness_account_data@) matches Some(c) ==> {
            let (s2, res) = spec_request(*old(state), user, randomness_account, c, current_slot);
            *final(state) == s2 && r == Some(res)
        },
{
    match parse_commitment(randomness_account_data) {
        Some(_) => Some(
            request_randomness(state, user, randomness_account, randomness_account_data, current_slot),
        ),
        None => None,
    }
}

/// Consumes the reveal of the commitment whose account bytes are given, as
/// `reveal_with_commitment` does to the parsed commitment. The bytes must
/// parse as a commitment record; `try_get_randomness` is the entry for bytes
/// that may not.
pub fn get_randomness(
    state: &mut RandomnessState,
    user: AccountId,
    randomness_account_data: &[u8],
    current_slot: u64,
) -> (r: Result<(), ErrorCode>)
    requires
        parse_result(randomness_account_data@) is Some,
    ensures
        (*final(state), r) == spec_reveal(
            *old(state),
            user,
            parse_result(randomness_account_data@).unwrap(),
            current_slot,
        ),
{
    match parse_commitment(randomness_account_data) {
        Some(commitment) => reveal_with_commitment(state, user, &commitment, current_slot),
        None => vstd::pervasive::unreached(),
    }
}

/// As `get_randomness`, for account bytes that may not parse: returns `None`,
/// changing nothing, where the bytes are no commitment record.
pub fn try_get_randomness(
    state: &mut RandomnessState,
    user: AccountId,
    randomness_account_data: &[u8],
    current_slot: u64,
) -> (r: Option<Result<(), ErrorCode>>)
    ensures
        parse_result(randomness_account_data@) is None ==> r is None && *final(state) == *old(
            state,
        ),
        parse_result(randomness_account_data@) matches Some(c) ==> {
            let (s2, res) = spec_reveal(*old(state), user, c, current_slot);
            *final(state) == s2 && r == Some(res)
        },
{
    match parse_commitment(randomness_account_data) {
        Some(_) => Some(get_randomness(state, user, randomness_account_data, current_slot)),
        None => None,
    }
}

impl RandomnessState {
    /// The boolean outcome of the last successful reveal.
    pub fn derived_outcome(&self) -> (r: bool)
        ensures
            r == self.latest_result,
    {
        self.latest_result
    }

    /// The raw value of the last successful reveal.
    pub fn raw_random_value(&self) -> (r: u128)
        ensures
            r == self.random_value,
    {
        self.random_value
    }
}

} // verus!
