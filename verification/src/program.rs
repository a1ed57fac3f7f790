//! The vote as one state transition over the accounts of a transaction.
//!
//! The account list names, in this order, the voter, the tally account, the
//! voter's dedupe account and the rent sysvar account. Accounts after the
//! fourth are not looked at.

use vstd::prelude::*;
use crate::account::views;
use crate::account::Account;
use crate::account::AccountView;
use crate::account::Address;
use crate::dedupe::VoteDedupe;
use crate::error::VoteError;
use crate::instruction::VoteCandidate;
use crate::tally::VoteCount;
use crate::validation::checked;
use crate::validation::dedupe_address;
use crate::validation::rent_exempt;
use crate::validation::validate_accounts;
use crate::validation::validate_with;

verus! {

/// The account `account` with its data replaced.
pub open spec fn with_data(account: AccountView, data: Seq<u8>) -> AccountView {
    AccountView {
        key: account.key,
        owner: account.owner,
        is_signer: account.is_signer,
        lamports: account.lamports,
        data,
    }
}

/// The ledger part of a vote on accounts that passed the checks: the voter
/// must not have voted, the candidate must be 1 or 2, and then the tally
/// account holds one ballot more for the candidate and the dedupe account
/// says that the voter has voted. Nothing else changes.
pub open spec fn recorded(accounts: Seq<AccountView>, candidate: u8) -> Result<Seq<AccountView>, VoteError>
    recommends
        accounts.len() >= 4,
{
    match VoteDedupe::decode(accounts[2].data) {
        None => Err(VoteError::DecodeError),
        Some(dedupe) => if dedupe.voted {
            Err(VoteError::AlreadyVoted)
        } else {
            match VoteCount::decode(accounts[1].data) {
                None => Err(VoteError::DecodeError),
                Some(count) => if candidate != 1 && candidate != 2 {
                    Err(VoteError::InvalidCandidate)
                } else {
                    Ok(
                        accounts.update(
                            1,
                            with_data(accounts[1], count.incremented(candidate).encode()),
                        ).update(2, with_data(accounts[2], (VoteDedupe { voted: true }).encode())),
                    )
                },
            }
        },
    }
}

/// The whole transition for given answers of the runtime: `derived` is the
/// address it derives for the voter's dedupe account, `exempt` whether it
/// finds the supplied dedupe account exempt from rent. The result is the
/// new content of the accounts, or the reason for which nothing changes.
pub open spec fn vote_transition(
    program_id: Seq<u8>,
    accounts: Seq<AccountView>,
    instruction_data: Seq<u8>,
    derived: Option<Seq<u8>>,
    exempt: bool,
) -> Result<Seq<AccountView>, VoteError> {
    match VoteCandidate::decode(instruction_data) {
        None => Err(VoteError::DecodeError),
        Some(instruction) => if accounts.len() < 4 {
            Err(VoteError::DecodeError)
        } else {
            match checked(program_id, accounts[0], accounts[1], accounts[2], derived, exempt) {
                Err(rejection) => Err(rejection),
                Ok(_) => recorded(accounts, instruction.candidate),
            }
        },
    }
}

/// The whole transition as the runtime decides it.
pub open spec fn vote_outcome(
    program_id: Seq<u8>,
    accounts: Seq<AccountView>,
    instruction_data: Seq<u8>,
) -> Result<Seq<AccountView>, VoteError> {
    vote_transition(
        program_id,
        accounts,
        instruction_data,
        dedupe_address(accounts[0].key, program_id),
        rent_exempt(accounts[3], accounts[2]),
    )
}

/// Whether the vote gets as far as counting the ballot, should the runtime
/// confirm the dedupe address and the rent exemption: the payload and the
/// two records can be read, the voter has signed and has not voted, and
/// both accounts belong to the program.
pub open spec fn may_count(
    program_id: Seq<u8>,
    accounts: Seq<AccountView>,
    instruction_data: Seq<u8>,
) -> bool {
    &&& accounts.len() >= 4
    &&& VoteCandidate::decode(instruction_data) is Some
    &&& accounts[0].is_signer
    &&& accounts[1].owner == program_id
    &&& accounts[2].owner == program_id
    &&& VoteDedupe::decode(accounts[2].data) == Some(VoteDedupe { voted: false })
    &&& VoteCount::decode(accounts[1].data) is Some
}

/// Where the vote may get as far as counting, the counter that the
/// instruction names is below its maximum. The counters are 32 bits wide,
/// and a vote is not defined beyond that.
pub open spec fn tally_has_room(
    program_id: Seq<u8>,
    accounts: Seq<AccountView>,
    instruction_data: Seq<u8>,
) -> bool {
    may_count(program_id, accounts, instruction_data) ==> VoteCount::decode(
        accounts[1].data,
    )->0.has_room(VoteCandidate::decode(instruction_data)->0.candidate)
}

/// Whether a vote on these accounts with this payload may be cast: tests
/// `tally_has_room`.
pub fn has_room_for(program_id: &Address, accounts: &Vec<Account>, instruction_data: &[u8]) -> (room: bool)
    ensures
        room == tally_has_room(program_id@, views(accounts@), instruction_data@),
{
    if accounts.len() < 4 {
        return true;
    }
    let candidate = match VoteCandidate::try_from_slice(instruction_data) {
        Ok(instruction) => instruction.candidate,
        Err(_) => {
            return true;
        },
    };
    if !accounts[0].is_signer || !accounts[1].owner.same_as(program_id) || !accounts[2].owner.same_as(
        program_id,
    ) {
        return true;
    }
    match VoteDedupe::try_from_slice(accounts[2].data.as_slice()) {
        Ok(dedupe) => {
            if dedupe.has_voted() {
                return true;
            }
        },
        Err(_) => {
            return true;
        },
    }
    match VoteCount::try_from_slice(accounts[1].data.as_slice()) {
        Ok(count) => count.can_count(candidate),
        Err(_) => true,
    }
}

/// Where the ledger part of a vote gets as far as counting, the counter of
/// the candidate is below its maximum.
pub open spec fn record_has_room(accounts: Seq<AccountView>, candidate: u8) -> bool {
    VoteDedupe::decode(accounts[2].data) == Some(VoteDedupe { voted: false }) ==> (VoteCount::decode(
        accounts[1].data,
    ) matches Some(count) ==> count.has_room(candidate))
}

/// Checks the voter's dedupe record, counts the ballot and marks the record,
/// on accounts that passed the checks. Both accounts change or neither.
pub fn record_vote(accounts: &mut Vec<Account>, candidate: u8) -> (outcome: Result<(), VoteError>)
    requires
        old(accounts).len() >= 4,
        record_has_room(views(old(accounts)@), candidate),
    ensures
        match recorded(views(old(accounts)@), candidate) {
            Ok(after) => outcome is Ok && views(final(accounts)@) == after,
            Err(rejection) => outcome == Err::<(), VoteError>(rejection) && *final(accounts) == *old(accounts),
        },
{
    let mut dedupe = VoteDedupe::try_from_slice(accounts[2].data.as_slice())?;
    if dedupe.has_voted() {
        return Err(VoteError::AlreadyVoted);
    }
    let mut vote_count = VoteCount::try_from_slice(accounts[1].data.as_slice())?;
    vote_count.increment(candidate)?;
    dedupe.mark_voted();
    let vote_count_data = vote_count.to_vec();
    let dedupe_data = dedupe.to_vec();
    accounts[1].data = vote_count_data;
    accounts[2].data = dedupe_data;
    assert(views(accounts@) =~= recorded(views(old(accounts)@), candidate)->Ok_0);
    Ok(())
}

/// Casts a vote for given answers of the runtime: `derived` is the address
/// that it derives for the voter's dedupe account, `exempt` whether it
/// finds the supplied dedupe account exempt from rent.
pub fn cast_vote(
    program_id: &Address,
    accounts: &mut Vec<Account>,
    instruction_data: &[u8],
    derived: &Option<Address>,
    exempt: bool,
) -> (outcome: Result<(), VoteError>)
    requires
        tally_has_room(program_id@, views(old(accounts)@), instruction_data@),
    ensures
        match vote_transition(
            program_id@,
            views(old(accounts)@),
            instruction_data@,
            match derived {
                Some(address) => Some(address@),
                None => None,
            },
            exempt,
        ) {
            Ok(after) => outcome is Ok && views(final(accounts)@) == after,
            Err(rejection) => outcome == Err::<(), VoteError>(rejection) && *final(accounts) == *old(accounts),
        },
{
    let candidate = VoteCandidate::try_from_slice(instruction_data)?.candidate;
    if accounts.len() < 4 {
        return Err(VoteError::DecodeError);
    }
    validate_with(program_id, &accounts[0], &accounts[1], &accounts[2], derived, exempt)?;
    record_vote(accounts, candidate)
}

/// Casts the vote that a transaction carries: parses the instruction, runs
/// the chain of checks on the accounts, and then counts the ballot and
/// marks the voter's dedupe record. On any failure no account changes.
pub fn process_instruction(
    program_id: &Address,
    accounts: &mut Vec<Account>,
    instruction_data: &[u8],
) -> (outcome: Result<(), VoteError>)
    requires
        tally_has_room(program_id@, views(old(accounts)@), instruction_data@),
    ensures
        match vote_outcome(program_id@, views(old(accounts)@), instruction_data@) {
            Ok(after) => outcome is Ok && views(final(accounts)@) == after,
            Err(rejection) => outcome == Err::<(), VoteError>(rejection) && *final(accounts) == *old(accounts),
        },
{
    let candidate = VoteCandidate::try_from_slice(instruction_data)?.candidate;
    if accounts.len() < 4 {
        return Err(VoteError::DecodeError);
    }
    validate_accounts(program_id, &accounts[0], &accounts[1], &accounts[2], &accounts[3])?;
    record_vote(accounts, candidate)
}

/// A first vote for a valid candidate is counted: while the voter's record
/// says "not voted" and the checks pass, a vote for candidate 1 or 2 raises
/// that candidate's counter by exactly one, leaves the other counter as it
/// was, and sets the voter's record to "voted". Every other account, and
/// everything but the data of the two accounts, stays as it was.
pub proof fn lemma_first_vote_is_counted(
    program_id: Seq<u8>,
    accounts: Seq<AccountView>,
    candidate: u8,
    derived: Option<Seq<u8>>,
    exempt: bool,
)
    requires
        candidate == 1 || candidate == 2,
        accounts.len() >= 4,
        checked(program_id, accounts[0], accounts[1], accounts[2], derived, exempt) is Ok,
        VoteDedupe::decode(accounts[2].data) == Some(VoteDedupe { voted: false }),
        VoteCount::decode(accounts[1].data) matches Some(count) && count.has_room(candidate),
    ensures
        vote_transition(program_id, accounts, seq![candidate], derived, exempt) matches Ok(after) && {
            let before = VoteCount::decode(accounts[1].data)->0;
            &&& after.len() == accounts.len()
            &&& VoteCount::decode(after[1].data) matches Some(count) && {
                &&& candidate == 1 ==> count.candidate1 == before.candidate1 + 1 && count.candidate2
                    == before.candidate2
                &&& candidate == 2 ==> count.candidate2 == before.candidate2 + 1 && count.candidate1
                    == before.candidate1
            }
            &&& VoteDedupe::decode(after[2].data) == Some(VoteDedupe { voted: true })
            &&& after[1] == with_data(accounts[1], after[1].data)
            &&& after[2] == with_data(accounts[2], after[2].data)
            &&& forall|i: int| 0 <= i < accounts.len() && i != 1 && i != 2 ==> after[i] == accounts[i]
        },
{
    let before = VoteCount::decode(accounts[1].data)->0;
    before.incremented(candidate).lemma_round_trip();
    (VoteDedupe { voted: true }).lemma_round_trip();
    assert(VoteCandidate::decode(seq![candidate]) == Some(VoteCandidate { candidate }));
}

/// A voter votes once: after a vote that was counted, a second vote of the
/// same voter on the accounts as the first one left them is rejected with
/// `AlreadyVoted`, whichever candidate it names.
pub proof fn lemma_second_vote_is_rejected(
    program_id: Seq<u8>,
    accounts: Seq<AccountView>,
    instruction_data: Seq<u8>,
    second_candidate: u8,
)
    requires
        vote_outcome(program_id, accounts, instruction_data) is Ok,
    ensures
        vote_outcome(
            program_id,
            vote_outcome(program_id, accounts, instruction_data)->Ok_0,
            seq![second_candidate],
        ) == Err::<Seq<AccountView>, VoteError>(VoteError::AlreadyVoted),
{
    let after = vote_outcome(program_id, accounts, instruction_data)->Ok_0;
    (VoteDedupe { voted: true }).lemma_round_trip();
    assert(after[2].data.len() == accounts[2].data.len());
    assert(VoteCandidate::decode(seq![second_candidate]) == Some(
        VoteCandidate { candidate: second_candidate },
    ));
}

/// A vote for a candidate other than 1 and 2 that passes the checks, from a
/// voter who has not voted, is rejected with `InvalidCandidate`.
pub proof fn lemma_invalid_candidate_is_rejected(
    program_id: Seq<u8>,
    accounts: Seq<AccountView>,
    candidate: u8,
    derived: Option<Seq<u8>>,
    exempt: bool,
)
    requires
        candidate != 1 && candidate != 2,
        accounts.len() >= 4,
        checked(program_id, accounts[0], accounts[1], accounts[2], derived, exempt) is Ok,
        VoteDedupe::decode(accounts[2].data) == Some(VoteDedupe { voted: false }),
        VoteCount::decode(accounts[1].data) is Some,
    ensures
        vote_transition(program_id, accounts, seq![candidate], derived, exempt) == Err::<
            Seq<AccountView>,
            VoteError,
        >(VoteError::InvalidCandidate),
{
    assert(VoteCandidate::decode(seq![candidate]) == Some(VoteCandidate { candidate }));
}

/// A signed vote on accounts of the program that names a dedupe account
/// other than the one derived for the voter is rejected with
/// `AddressMismatch`, whatever that account holds.
pub proof fn lemma_spoofed_dedupe_is_rejected(
    program_id: Seq<u8>,
    accounts: Seq<AccountView>,
    candidate: u8,
    derived: Option<Seq<u8>>,
    exempt: bool,
)
    requires
        accounts.len() >= 4,
        accounts[0].is_signer,
        accounts[1].owner == program_id,
        accounts[2].owner == program_id,
        derived != Some(accounts[2].key),
    ensures
        vote_transition(program_id, accounts, seq![candidate], derived, exempt) == Err::<
            Seq<AccountView>,
            VoteError,
        >(VoteError::AddressMismatch),
{
    assert(VoteCandidate::decode(seq![candidate]) == Some(VoteCandidate { candidate }));
}

/// A vote that the voter has not signed is rejected with `Unauthorized`,
/// whatever else the transaction holds.
pub proof fn lemma_unsigned_vote_is_rejected(
    program_id: Seq<u8>,
    accounts: Seq<AccountView>,
    candidate: u8,
    derived: Option<Seq<u8>>,
    exempt: bool,
)
    requires
        accounts.len() >= 4,
        !accounts[0].is_signer,
    ensures
        vote_transition(program_id, accounts, seq![candidate], derived, exempt) == Err::<
            Seq<AccountView>,
            VoteError,
        >(VoteError::Unauthorized),
{
    assert(VoteCandidate::decode(seq![candidate]) == Some(VoteCandidate { candidate }));
}

/// Every vote that succeeds is counted exactly once: the voter's record
/// goes from "not voted" to "voted", and the two counters together hold one
/// ballot more than before, unless the counter was at its maximum.
pub proof fn lemma_success_counts_one_ballot(
    program_id: Seq<u8>,
    accounts: Seq<AccountView>,
    instruction_data: Seq<u8>,
    derived: Option<Seq<u8>>,
    exempt: bool,
)
    requires
        vote_transition(program_id, accounts, instruction_data, derived, exempt) is Ok,
        tally_has_room(program_id, accounts, instruction_data),
    ensures
        ({
            let after = vote_transition(program_id, accounts, instruction_data, derived, exempt)->Ok_0;
            &&& VoteDedupe::decode(accounts[2].data) == Some(VoteDedupe { voted: false })
            &&& VoteDedupe::decode(after[2].data) == Some(VoteDedupe { voted: true })
            &&& VoteCount::decode(accounts[1].data) is Some
            &&& VoteCount::decode(after[1].data) is Some
            &&& VoteCount::decode(after[1].data)->0.total() == VoteCount::decode(
                accounts[1].data,
            )->0.total() + 1
        }),
{
    let candidate = VoteCandidate::decode(instruction_data)->0.candidate;
    let before = VoteCount::decode(accounts[1].data)->0;
    before.incremented(candidate).lemma_round_trip();
    before.lemma_incremented(candidate);
    (VoteDedupe { voted: true }).lemma_round_trip();
}

/// A record that says "voted" is never reset: whatever a transaction asks
/// for and whatever the runtime answers, a vote on a dedupe account that
/// holds "voted" is rejected, and a rejected vote changes no account.
pub proof fn lemma_voted_is_final(
    program_id: Seq<u8>,
    accounts: Seq<AccountView>,
    instruction_data: Seq<u8>,
    derived: Option<Seq<u8>>,
    exempt: bool,
)
    requires
        accounts.len() >= 4,
        VoteDedupe::decode(accounts[2].data) == Some(VoteDedupe { voted: true }),
    ensures
        vote_transition(program_id, accounts, instruction_data, derived, exempt) is Err,
{
}

} // verus!
