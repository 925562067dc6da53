use vstd::prelude::*;
use crate::pubkey::{Pubkey, parse_pubkey, pubkey_from_base58};

verus! {

/// Leading bytes of the phase protocol's "revert staged approve phase" operation.
pub const REVERT_STAGED_APPROVE_PHASE_DATA: [u8; 8] = [138, 129, 29, 173, 82, 210, 89, 168];

/// Leading bytes of the phase protocol's "revert staged complete phase" operation.
pub const REVERT_STAGED_COMPLETE_PHASE_DATA: [u8; 8] = [180, 24, 255, 165, 254, 132, 50, 222];

/// Leading bytes of the phase protocol's "revert staged resolution roadmap" operation.
pub const REVERT_STAGED_RESOLUTION_ROADMAP: [u8; 8] = [233, 116, 43, 231, 46, 145, 37, 131];

/// The vote-cast payload of the approve option.
pub const APPROVE_VOTE_DATA: [u8; 8] = [13, 0, 1, 0, 0, 0, 0, 100];

/// The phase protocol program.
#[derive(Debug, Clone, Copy)]
pub struct PhaseProtocolProgram;

impl PhaseProtocolProgram {
    /// The phase protocol program's address, decoded from its base58 text.
    pub fn id() -> (r: Option<Pubkey>)
        ensures
            r.is_some() == pubkey_from_base58("Di92bTGdAUgdfKJYAxC5dX5PJUqmqz3hP84LrHeHXz6M"@).is_some(),
            r matches Some(k) ==> pubkey_from_base58(
                "Di92bTGdAUgdfKJYAxC5dX5PJUqmqz3hP84LrHeHXz6M"@,
            ) == Some(k@),
    {
        parse_pubkey("Di92bTGdAUgdfKJYAxC5dX5PJUqmqz3hP84LrHeHXz6M")
    }
}

/// Whether `data` starts with the bytes of `prefix`.
pub open spec fn has_prefix(data: Seq<u8>, prefix: Seq<u8>) -> bool {
    prefix.len() <= data.len() && data.subrange(0, prefix.len() as int) == prefix
}

/// Whether instruction data starts with one of the phase protocol's operation markers.
pub open spec fn is_phase_vote_data(data: Seq<u8>) -> bool {
    has_prefix(data, REVERT_STAGED_APPROVE_PHASE_DATA@)
        || has_prefix(data, REVERT_STAGED_COMPLETE_PHASE_DATA@)
        || has_prefix(data, REVERT_STAGED_RESOLUTION_ROADMAP@)
}

/// Whether `data` starts with the eight bytes of `prefix`.
pub fn starts_with(data: &Vec<u8>, prefix: &[u8; 8]) -> (r: bool)
    ensures
        r == has_prefix(data@, prefix@),
{
    if data.len() < 8 {
        return false;
    }
    let mut i: usize = 0;
    while i < 8
        invariant
            i <= 8,
            8 <= data@.len(),
            prefix@.len() == 8,
            forall|j: int| 0 <= j < i ==> data@[j] == prefix@[j],
        decreases 8 - i,
    {
        if data[i] != prefix[i] {
            assert(data@.subrange(0, 8)[i as int] != prefix@[i as int]);
            return false;
        }
        i = i + 1;
    }
    assert(data@.subrange(0, 8) =~= prefix@);
    true
}

/// Whether instruction data starts with one of the phase protocol's operation markers.
pub fn is_phase_vote_discriminator(data: &Vec<u8>) -> (r: bool)
    ensures
        r == is_phase_vote_data(data@),
{
    starts_with(data, &REVERT_STAGED_APPROVE_PHASE_DATA)
        || starts_with(data, &REVERT_STAGED_COMPLETE_PHASE_DATA)
        || starts_with(data, &REVERT_STAGED_RESOLUTION_ROADMAP)
}

/// Whether a vote-cast payload is exactly the approve option's payload.
pub fn is_approve_vote(data: &Vec<u8>) -> (r: bool)
    ensures
        r == (data@ == APPROVE_VOTE_DATA@),
{
    let a = starts_with(data, &APPROVE_VOTE_DATA) && data.len() == 8;
    proof {
        assert(APPROVE_VOTE_DATA@.len() == 8);
        assert(data@.len() == 8 ==> data@ =~= data@.subrange(0, 8));
    }
    a
}

} // verus!
