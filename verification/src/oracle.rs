//! The oracle's published commitment, as the protocol reads it.
//!
//! The oracle account is parsed by the oracle's own library; of the parsed
//! record the protocol reads three things: the slot the committed seed was
//! fixed at, the slot the value is revealed at, and the revealed value itself.
//! `OracleCommitment` holds exactly those, and `parse_commitment` is the one
//! trusted crossing into the oracle's code.

use vstd::prelude::*;

verus! {

/// What a parsed oracle commitment looks like to a specification.
pub struct CommitmentView {
    /// The slot at which the oracle's committed seed was fixed.
    pub seed_slot: u64,
    /// The slot at which the committed value is revealed.
    pub reveal_slot: u64,
    /// The revealed random bytes.
    pub value: Seq<u8>,
}

/// A parsed oracle commitment: the fields of the oracle's published record
/// that the protocol reads.
pub struct OracleCommitment {
    /// The slot at which the oracle's committed seed was fixed.
    pub seed_slot: u64,
    /// The slot at which the committed value is revealed.
    pub reveal_slot: u64,
    /// The revealed random bytes.
    pub value: Vec<u8>,
}

impl View for OracleCommitment {
    type V = CommitmentView;

    open spec fn view(&self) -> CommitmentView {
        CommitmentView {
            seed_slot: self.seed_slot,
            reveal_slot: self.reveal_slot,
            value: self.value@,
        }
    }
}

impl OracleCommitment {
    /// The oracle publishes a 32-byte value.
    pub open spec fn wf(&self) -> bool {
        self.value@.len() == 32
    }

    /// The oracle's resolution rule: the committed value is readable exactly
    /// at its reveal slot; at any other slot it is not yet resolved.
    pub fn get_value(&self, clock_slot: u64) -> (r: Option<&Vec<u8>>)
        ensures
            r is Some <==> clock_slot == self.reveal_slot,
            r matches Some(v) ==> v@ == self.value@,
    {
        if clock_slot == self.reveal_slot {
            Some(&self.value)
        } else {
            None
        }
    }
}

/// What the oracle's parser makes of a byte string: `None` where the bytes
/// are not a valid commitment record, the record's fields otherwise. The
/// outcome is a function of the bytes alone.
pub uninterp spec fn parse_result(data: Seq<u8>) -> Option<CommitmentView>;

/// Relies on `switchboard_on_demand::accounts::RandomnessAccountData::parse`:
/// it checks the account discriminator and length and casts the remaining
/// bytes to the record, so the outcome depends on the bytes alone; the record
/// holds a 32-byte value. `bytemuck::cast_slice_mut` only realigns the buffer
/// the parser reads, so that its alignment check cannot fail.
#[verifier::external_body]
pub fn parse_commitment(data: &[u8]) -> (r: Option<OracleCommitment>)
    ensures
        r matches Some(c) ==> parse_result(data@) == Some(c@) && c.value@.len() == 32,
        r is None ==> parse_result(data@) is None,
{
    let n: usize = data.len();
    let mut words: Vec<u64> = vec![0u64; n / 8 + 1];
    let bytes: &mut [u8] = bytemuck::cast_slice_mut(&mut words);
    bytes[..n].copy_from_slice(data);
    let cell = std::cell::RefCell::new(&mut bytes[..n]);
    let parsed = match switchboard_on_demand::accounts::RandomnessAccountData::parse(cell.borrow()) {
        Ok(p) => Some(OracleCommitment {
            seed_slot: p.seed_slot,
            reveal_slot: p.reveal_slot,
            value: p.value.to_vec(),
        }),
        Err(_) => None,
    };
    parsed
}

} // verus!
