//! The instruction of a vote and its wire format: one byte, the candidate.

use vstd::prelude::*;
use crate::error::VoteError;

verus! {

/// The instruction of a vote: the number of the chosen candidate.
#[derive(Debug, Clone, Copy, PartialEq, Eq, Structural)]
pub struct VoteCandidate {
    pub candidate: u8,
}

impl VoteCandidate {
    /// The instruction that a payload stands for: a payload is exactly one
    /// byte, which is the candidate.
    pub open spec fn decode(payload: Seq<u8>) -> Option<VoteCandidate> {
        if payload.len() == 1 {
            Some(VoteCandidate { candidate: payload[0] })
        } else {
            None
        }
    }

    /// The payload that stands for the instruction.
    pub open spec fn encode(self) -> Seq<u8> {
        seq![self.candidate]
    }

    /// Parses an instruction payload.
    pub fn try_from_slice(payload: &[u8]) -> (parsed: Result<VoteCandidate, VoteError>)
        ensures
            parsed == match VoteCandidate::decode(payload@) {
                Some(instruction) => Ok::<VoteCandidate, VoteError>(instruction),
                None => Err(VoteError::DecodeError),
            },
    {
        if payload.len() != 1 {
            return Err(VoteError::DecodeError);
        }
        Ok(VoteCandidate { candidate: payload[0] })
    }

    /// The payload that stands for the instruction.
    pub fn to_vec(&self) -> (payload: Vec<u8>)
        ensures
            payload@ == self.encode(),
    {
        let mut payload: Vec<u8> = Vec::new();
        payload.push(self.candidate);
        assert(payload@ =~= self.encode());
        payload
    }

    /// A payload written by `to_vec` parses back to the same instruction.
    pub proof fn lemma_round_trip(self)
        ensures
            VoteCandidate::decode(self.encode()) == Some(self),
    {
    }
}

} // verus!
