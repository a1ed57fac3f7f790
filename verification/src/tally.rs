//! The tally: the two counters that all voters share.

use vstd::prelude::*;
use crate::error::VoteError;
use crate::wire::le_u32;
use crate::wire::lemma_le_u32_encodes;
use crate::wire::lemma_u32_le_decodes;
use crate::wire::push_u32;
use crate::wire::read_u32;
use crate::wire::u32_le;

verus! {

/// The record kept in the tally account: the ballots counted for each of
/// the two candidates.
#[derive(Debug, Clone, Copy, PartialEq, Eq, Structural)]
pub struct VoteCount {
    pub candidate1: u32,
    pub candidate2: u32,
}

impl VoteCount {
    /// The record that account data stands for: the data is exactly two
    /// little-endian words, `candidate1` then `candidate2`.
    pub open spec fn decode(data: Seq<u8>) -> Option<VoteCount> {
        if data.len() == 8 {
            Some(
                VoteCount {
                    candidate1: le_u32(data.subrange(0, 4)) as u32,
                    candidate2: le_u32(data.subrange(4, 8)) as u32,
                },
            )
        } else {
            None
        }
    }

    /// The account data that stands for the record.
    pub open spec fn encode(self) -> Seq<u8> {
        u32_le(self.candidate1) + u32_le(self.candidate2)
    }

    /// The number of ballots counted so far.
    pub open spec fn total(self) -> int {
        self.candidate1 + self.candidate2
    }

    /// Whether one more ballot for `candidate` still fits its counter.
    pub open spec fn has_room(self, candidate: u8) -> bool {
        &&& candidate == 1 ==> self.candidate1 < u32::MAX
        &&& candidate == 2 ==> self.candidate2 < u32::MAX
    }

    /// The tally after one more ballot for `candidate`, which is 1 or 2.
    pub open spec fn incremented(self, candidate: u8) -> VoteCount {
        if candidate == 1 {
            VoteCount { candidate1: (self.candidate1 + 1) as u32, candidate2: self.candidate2 }
        } else {
            VoteCount { candidate1: self.candidate1, candidate2: (self.candidate2 + 1) as u32 }
        }
    }

    /// Parses the data of the tally account.
    pub fn try_from_slice(data: &[u8]) -> (parsed: Result<VoteCount, VoteError>)
        ensures
            parsed == match VoteCount::decode(data@) {
                Some(count) => Ok::<VoteCount, VoteError>(count),
                None => Err(VoteError::DecodeError),
            },
    {
        if data.len() != 8 {
            return Err(VoteError::DecodeError);
        }
        let candidate1 = read_u32(data, 0);
        let candidate2 = read_u32(data, 4);
        Ok(VoteCount { candidate1, candidate2 })
    }

    /// The account data that stands for the record.
    pub fn to_vec(&self) -> (data: Vec<u8>)
        ensures
            data@ == self.encode(),
    {
        let mut data: Vec<u8> = Vec::new();
        push_u32(&mut data, self.candidate1);
        push_u32(&mut data, self.candidate2);
        assert(data@ =~= self.encode());
        data
    }

    /// Whether one more ballot for `candidate` still fits its counter.
    pub fn can_count(&self, candidate: u8) -> (room: bool)
        ensures
            room == self.has_room(candidate),
    {
        !(candidate == 1 && self.candidate1 == u32::MAX || candidate == 2 && self.candidate2
            == u32::MAX)
    }

    /// Counts one ballot for `candidate`. A candidate other than 1 and 2 is
    /// rejected and the tally stays as it was.
    pub fn increment(&mut self, candidate: u8) -> (counted: Result<(), VoteError>)
        requires
            old(self).has_room(candidate),
        ensures
            candidate == 1 || candidate == 2 ==> counted is Ok && *final(self) == old(self).incremented(candidate),
            candidate != 1 && candidate != 2 ==> counted == Err::<(), VoteError>(VoteError::InvalidCandidate) && *final(self) == *old(self),
    {
        if candidate == 1 {
            self.candidate1 = self.candidate1 + 1;
            Ok(())
        } else if candidate == 2 {
            self.candidate2 = self.candidate2 + 1;
            Ok(())
        } else {
            Err(VoteError::InvalidCandidate)
        }
    }

    /// Data written by `to_vec` parses back to the same record, and is eight
    /// bytes long.
    pub proof fn lemma_round_trip(self)
        ensures
            self.encode().len() == 8,
            VoteCount::decode(self.encode()) == Some(self),
    {
        lemma_u32_le_decodes(self.candidate1);
        lemma_u32_le_decodes(self.candidate2);
        assert(self.encode().subrange(0, 4) =~= u32_le(self.candidate1));
        assert(self.encode().subrange(4, 8) =~= u32_le(self.candidate2));
    }

    /// Data that parses is the encoding of what it parses to: no two
    /// different eight-byte records stand for the same tally.
    pub proof fn lemma_decode_is_exact(data: Seq<u8>)
        requires
            VoteCount::decode(data) is Some,
        ensures
            VoteCount::decode(data)->0.encode() == data,
    {
        lemma_le_u32_encodes(data.subrange(0, 4));
        lemma_le_u32_encodes(data.subrange(4, 8));
        assert(VoteCount::decode(data)->0.encode() =~= data);
    }

    /// One more ballot for a valid candidate raises that candidate's counter
    /// by one, leaves the other counter alone, and so raises the total by
    /// one.
    pub proof fn lemma_incremented(self, candidate: u8)
        requires
            candidate == 1 || candidate == 2,
            self.has_room(candidate),
        ensures
            candidate == 1 ==> self.incremented(candidate).candidate1 == self.candidate1 + 1
                && self.incremented(candidate).candidate2 == self.candidate2,
            candidate == 2 ==> self.incremented(candidate).candidate2 == self.candidate2 + 1
                && self.incremented(candidate).candidate1 == self.candidate1,
            self.incremented(candidate).total() == self.total() + 1,
    {
    }
}

} // verus!
