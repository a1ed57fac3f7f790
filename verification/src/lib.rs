//! A two-candidate ballot kept in ledger accounts.
//!
//! One shared tally account holds the two counters; one dedupe account per
//! voter records whether that voter has voted. A vote is a single state
//! transition over the accounts handed in with the instruction: it either
//! passes every check and updates the tally and the voter's dedupe record
//! together, or it fails and leaves every account as it was.

pub mod account;
pub mod anchor_vote;
pub mod dedupe;
pub mod error;
pub mod host;
pub mod instruction;
pub mod program;
pub mod rent;
pub mod tally;
pub mod validation;
pub mod wire;

pub use crate::anchor_vote::vote;
pub use crate::anchor_vote::ErrorCode;
pub use crate::anchor_vote::Vote;
pub use crate::anchor_vote::VoteDedupeAccount;
pub use crate::dedupe::VoteDedupe;
pub use crate::error::VoteError;
pub use crate::instruction::VoteCandidate;
pub use crate::program::process_instruction;
pub use crate::tally::VoteCount;
