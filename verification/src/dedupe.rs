//! The dedupe record of one voter: whether that voter's ballot was counted.

use vstd::prelude::*;
use crate::error::VoteError;

verus! {

/// The record kept in a voter's dedupe account.
#[derive(Debug, Clone, Copy, PartialEq, Eq, Structural)]
pub struct VoteDedupe {
    pub voted: bool,
}

impl VoteDedupe {
    /// The record that account data stands for: the data is exactly one
    /// byte, and any value but zero means that the voter has voted.
    pub open spec fn decode(data: Seq<u8>) -> Option<VoteDedupe> {
        if data.len() == 1 {
            Some(VoteDedupe { voted: data[0] != 0 })
        } else {
            None
        }
    }

    /// The account data that stands for the record.
    pub open spec fn encode(self) -> Seq<u8> {
        seq![if self.voted { 1u8 } else { 0u8 }]
    }

    /// Parses the data of a dedupe account.
    pub fn try_from_slice(data: &[u8]) -> (parsed: Result<VoteDedupe, VoteError>)
        ensures
            parsed == match VoteDedupe::decode(data@) {
                Some(record) => Ok::<VoteDedupe, VoteError>(record),
                None => Err(VoteError::DecodeError),
            },
    {
        if data.len() != 1 {
            return Err(VoteError::DecodeError);
        }
        Ok(VoteDedupe { voted: data[0] != 0 })
    }

    /// The account data that stands for the record.
    pub fn to_vec(&self) -> (data: Vec<u8>)
        ensures
            data@ == self.encode(),
    {
        let mut data: Vec<u8> = Vec::new();
        data.push(if self.voted { 1 } else { 0 });
        assert(data@ =~= self.encode());
        data
    }

    /// Whether the voter's ballot was counted.
    pub fn has_voted(&self) -> (voted: bool)
        ensures
            voted == self.voted,
    {
        self.voted
    }

    /// Records that the voter's ballot was counted. Nothing resets the
    /// record.
    pub fn mark_voted(&mut self)
        ensures
            final(self).voted,
    {
        self.voted = true;
    }

    /// Data written by `to_vec` parses back to the same record.
    pub proof fn lemma_round_trip(self)
        ensures
            VoteDedupe::decode(self.encode()) == Some(self),
    {
    }
}

} // verus!
