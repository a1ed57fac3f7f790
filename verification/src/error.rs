//! Why a vote was turned down.

use vstd::prelude::*;

verus! {

/// The reasons for which a vote is rejected. Every rejection leaves the
/// accounts untouched.
#[derive(Debug, Clone, Copy, PartialEq, Eq, Structural)]
pub enum VoteError {
    /// The instruction payload, the account list or a stored record does not
    /// have the expected encoding.
    DecodeError,
    /// The voter did not sign the transaction.
    Unauthorized,
    /// The tally or the dedupe account is not owned by this program.
    WrongOwner,
    /// The dedupe account is not the one derived from the voter's identity.
    AddressMismatch,
    /// The dedupe account is not known to be exempt from rent.
    NotRentExempt,
    /// The voter's dedupe record says that a vote was already counted.
    AlreadyVoted,
    /// The candidate is neither 1 nor 2.
    InvalidCandidate,
}

impl VoteError {
    /// The text that goes with each kind of rejection.
    pub open spec fn message_text(self) -> Seq<char> {
        match self {
            VoteError::DecodeError => "malformed instruction or account data"@,
            VoteError::Unauthorized => "the voter has not signed"@,
            VoteError::WrongOwner => "account is not owned by the vote program"@,
            VoteError::AddressMismatch => "not the dedupe account of this voter"@,
            VoteError::NotRentExempt => "dedupe account is not rent exempt"@,
            VoteError::AlreadyVoted => "the voter has already voted"@,
            VoteError::InvalidCandidate => "invalid candidate"@,
        }
    }

    /// A human-readable description of the rejection.
    pub fn message(&self) -> (text: String)
        ensures
            text@ == self.message_text(),
    {
        match self {
            VoteError::DecodeError => "malformed instruction or account data".to_string(),
            VoteError::Unauthorized => "the voter has not signed".to_string(),
            VoteError::WrongOwner => "account is not owned by the vote program".to_string(),
            VoteError::AddressMismatch => "not the dedupe account of this voter".to_string(),
            VoteError::NotRentExempt => "dedupe account is not rent exempt".to_string(),
            VoteError::AlreadyVoted => "the voter has already voted".to_string(),
            VoteError::InvalidCandidate => "invalid candidate".to_string(),
        }
    }
}

} // verus!
