//! The vote for a host framework that has already checked the accounts:
//! the signer, the owners and the derived addresses are the framework's
//! business, and the accounts arrive as decoded records.

use vstd::prelude::*;
pub use crate::tally::VoteCount;

verus! {

/// The reasons for which the framework variant of the vote is rejected.
#[derive(Debug, Clone, Copy, PartialEq, Eq, Structural)]
pub enum ErrorCode {
    /// The voter's dedupe record says that a vote was already counted.
    AlreadyVoted,
    /// The candidate is neither 1 nor 2.
    InvalidateCandidate,
}

impl ErrorCode {
    /// The text that goes with each kind of rejection.
    pub open spec fn message_text(self) -> Seq<char> {
        match self {
            ErrorCode::AlreadyVoted => "Signer has already voted"@,
            ErrorCode::InvalidateCandidate => "Invalid candidate"@,
        }
    }

    /// A human-readable description of the rejection.
    pub fn message(&self) -> (text: String)
        ensures
            text@ == self.message_text(),
    {
        match self {
            ErrorCode::AlreadyVoted => "Signer has already voted".to_string(),
            ErrorCode::InvalidateCandidate => "Invalid candidate".to_string(),
        }
    }
}

/// The record kept in a voter's dedupe account.
#[derive(Debug, Clone, Copy, PartialEq, Eq, Structural)]
pub struct VoteDedupeAccount {
    pub has_voted: bool,
}

/// The records of the accounts of one vote: the shared tally and the
/// dedupe record of the voter who signed.
#[derive(Debug, Clone, Copy, PartialEq, Eq, Structural)]
pub struct Vote {
    pub vote_count_account: VoteCount,
    pub vote_dedupe_account: VoteDedupeAccount,
}

impl Vote {
    /// The records after a vote for `candidate`, or the reason for which
    /// they stay as they are: the voter must not have voted, and the
    /// candidate must be 1 or 2.
    pub open spec fn voted(self, candidate: u8) -> Result<Vote, ErrorCode> {
        if self.vote_dedupe_account.has_voted {
            Err(ErrorCode::AlreadyVoted)
        } else if candidate != 1 && candidate != 2 {
            Err(ErrorCode::InvalidateCandidate)
        } else {
            Ok(
                Vote {
                    vote_count_account: self.vote_count_account.incremented(candidate),
                    vote_dedupe_account: VoteDedupeAccount { has_voted: true },
                },
            )
        }
    }

    /// The counter that a vote for `candidate` would raise is below its
    /// maximum, if the vote gets that far.
    pub open spec fn has_room(self, candidate: u8) -> bool {
        !self.vote_dedupe_account.has_voted ==> self.vote_count_account.has_room(candidate)
    }

    /// Every vote that succeeds is counted exactly once: the voter's record
    /// goes from "not voted" to "voted", the counter of the candidate rises
    /// by one and the other counter stays.
    pub proof fn lemma_vote_is_counted_once(self, candidate: u8)
        requires
            self.voted(candidate) is Ok,
            self.has_room(candidate),
        ensures
            ({
                let after = self.voted(candidate)->Ok_0;
                &&& !self.vote_dedupe_account.has_voted
                &&& after.vote_dedupe_account.has_voted
                &&& candidate == 1 ==> after.vote_count_account.candidate1
                    == self.vote_count_account.candidate1 + 1 && after.vote_count_account.candidate2
                    == self.vote_count_account.candidate2
                &&& candidate == 2 ==> after.vote_count_account.candidate2
                    == self.vote_count_account.candidate2 + 1 && after.vote_count_account.candidate1
                    == self.vote_count_account.candidate1
                &&& after.vote_count_account.total() == self.vote_count_account.total() + 1
            }),
    {
    }

    /// A voter votes once: after a vote that was counted, a second vote on
    /// the same records is rejected with `AlreadyVoted`, whichever
    /// candidate it names.
    pub proof fn lemma_second_vote_is_rejected(self, candidate: u8, second_candidate: u8)
        requires
            self.voted(candidate) is Ok,
        ensures
            self.voted(candidate)->Ok_0.voted(second_candidate) == Err::<Vote, ErrorCode>(
                ErrorCode::AlreadyVoted,
            ),
    {
    }
}

/// Casts a vote on the records of accounts that the framework has checked.
/// The two bumps are the ones that the framework derived the addresses of
/// the two accounts with; the vote itself does not depend on them. On a
/// rejection both records stay as they were.
#[allow(unused_variables)]
pub fn vote(accounts: &mut Vote, vote_count_bump: u8, vote_dedupe_bump: u8, candidate: u8) -> (outcome: Result<(), ErrorCode>)
    requires
        old(accounts).has_room(candidate),
    ensures
        match old(accounts).voted(candidate) {
            Ok(after) => outcome is Ok && *final(accounts) == after,
            Err(rejection) => outcome == Err::<(), ErrorCode>(rejection) && *final(accounts) == *old(accounts),
        },
{
    if accounts.vote_dedupe_account.has_voted {
        return Err(ErrorCode::AlreadyVoted);
    }
    match accounts.vote_count_account.increment(candidate) {
        Ok(_) => {},
        Err(_) => {
            return Err(ErrorCode::InvalidateCandidate);
        },
    }
    accounts.vote_dedupe_account.has_voted = true;
    Ok(())
}

} // verus!
