//! The checks that come before any change: who signed, who owns the
//! accounts, whose dedupe account was supplied, and whether it will last.

use vstd::prelude::*;
use crate::account::Account;
use crate::account::AccountView;
use crate::account::Address;
use crate::error::VoteError;
use crate::host::create_with_seed;
use crate::host::derived_address;
use crate::host::is_rent_sysvar;
use crate::host::rent_from_account;
use crate::host::rent_is_exempt;
use crate::host::rent_of_account;
use crate::rent::rent_sysvar_id;
use crate::rent::Rent;

verus! {

/// The address of the dedupe account of `voter` under the program
/// `program_id`: the one that the runtime derives from the voter's
/// identity, the seed `"vote_dedupe"` and the program's identity. `None`
/// where the runtime derives no address for that program.
pub open spec fn dedupe_address(voter: Seq<u8>, program_id: Seq<u8>) -> Option<Seq<u8>> {
    derived_address(voter, "vote_dedupe"@, program_id)
}

/// Whether the rent sysvar account `sysvar` shows that `dedupe` is exempt
/// from rent: `sysvar` is the runtime's rent account, the runtime reads
/// rent parameters from it and applies them to an account of that size, and
/// the balance of `dedupe` is at least the minimum balance.
pub open spec fn rent_exempt(sysvar: AccountView, dedupe: AccountView) -> bool {
    match rent_of_account(sysvar.key, sysvar.data) {
        Some(rent) => {
            &&& sysvar.key == rent_sysvar_id()
            &&& rent.applies_to(dedupe.data.len())
            &&& dedupe.lamports >= rent.minimum_balance(dedupe.data.len())
        },
        None => false,
    }
}

/// What the chain of checks answers for a voter, a tally account and a
/// dedupe account, given the address that the runtime derives for the voter
/// and whether the dedupe account is exempt from rent. The checks run in
/// this order and the first that fails decides.
pub open spec fn checked(
    program_id: Seq<u8>,
    voter: AccountView,
    tally: AccountView,
    dedupe: AccountView,
    derived: Option<Seq<u8>>,
    exempt: bool,
) -> Result<(), VoteError> {
    if !voter.is_signer {
        Err(VoteError::Unauthorized)
    } else if tally.owner != program_id || dedupe.owner != program_id {
        Err(VoteError::WrongOwner)
    } else if derived != Some(dedupe.key) {
        Err(VoteError::AddressMismatch)
    } else if !exempt {
        Err(VoteError::NotRentExempt)
    } else {
        Ok(())
    }
}

/// The voter must have signed the transaction.
pub fn validate_signer(account: &Account) -> (checked: Result<(), VoteError>)
    ensures
        checked == if account.is_signer {
            Ok::<(), VoteError>(())
        } else {
            Err(VoteError::Unauthorized)
        },
{
    if !account.is_signer {
        return Err(VoteError::Unauthorized);
    }
    Ok(())
}

/// The account must be owned by the program.
pub fn validate_owner_program(program_id: &Address, account: &Account) -> (checked: Result<(), VoteError>)
    ensures
        checked == if account@.owner == program_id@ {
            Ok::<(), VoteError>(())
        } else {
            Err(VoteError::WrongOwner)
        },
{
    if !account.owner.same_as(program_id) {
        return Err(VoteError::WrongOwner);
    }
    Ok(())
}

/// The dedupe account must be the one at the address `derived`.
pub fn validate_derived_address(derived: &Option<Address>, dedupe_account: &Account) -> (checked: Result<(), VoteError>)
    ensures
        checked == if derived matches Some(address) && address@ == dedupe_account@.key {
            Ok::<(), VoteError>(())
        } else {
            Err(VoteError::AddressMismatch)
        },
{
    match derived {
        Some(address) => {
            if address.same_as(&dedupe_account.key) {
                Ok(())
            } else {
                Err(VoteError::AddressMismatch)
            }
        },
        None => Err(VoteError::AddressMismatch),
    }
}

/// The dedupe account must be the one derived for the voter: a voter cannot
/// hand in the record of another voter, or a record under a free address.
pub fn validate_dedupe_address(program_id: &Address, voter_account: &Account, dedupe_account: &Account) -> (checked: Result<(), VoteError>)
    ensures
        checked == if dedupe_address(voter_account@.key, program_id@) == Some(dedupe_account@.key) {
            Ok::<(), VoteError>(())
        } else {
            Err(VoteError::AddressMismatch)
        },
{
    let derived = match create_with_seed(&voter_account.key, "vote_dedupe", program_id) {
        Ok(address) => Some(address),
        Err(_) => None,
    };
    validate_derived_address(&derived, dedupe_account)
}

/// The dedupe account must be exempt from rent by the given parameters:
/// the runtime applies them to an account of that size, and the balance is
/// at least the minimum balance.
pub fn validate_balance(rent: &Rent, dedupe_account: &Account) -> (checked: Result<(), VoteError>)
    ensures
        checked == if rent@.applies_to(dedupe_account@.data.len())
            && dedupe_account.lamports >= rent@.minimum_balance(dedupe_account@.data.len()) {
            Ok::<(), VoteError>(())
        } else {
            Err(VoteError::NotRentExempt)
        },
{
    let data_len = dedupe_account.data.len();
    if !rent.can_apply_to(data_len) {
        return Err(VoteError::NotRentExempt);
    }
    if !rent_is_exempt(rent, dedupe_account.lamports, data_len) {
        return Err(VoteError::NotRentExempt);
    }
    Ok(())
}

/// The dedupe account must be exempt from rent by the parameters in the
/// rent sysvar account, so that the record outlasts the vote. An account
/// that is not the rent sysvar, or from which the runtime reads no
/// parameters, exempts nothing.
pub fn validate_rent_exempt(sysvar_account: &Account, dedupe_account: &Account) -> (checked: Result<(), VoteError>)
    ensures
        checked == if rent_exempt(sysvar_account@, dedupe_account@) {
            Ok::<(), VoteError>(())
        } else {
            Err(VoteError::NotRentExempt)
        },
{
    let rent = match rent_from_account(sysvar_account) {
        Ok(rent) => rent,
        Err(_) => {
            return Err(VoteError::NotRentExempt);
        },
    };
    if !is_rent_sysvar(&sysvar_account.key) {
        return Err(VoteError::NotRentExempt);
    }
    validate_balance(&rent, dedupe_account)
}

/// The chain of checks for given answers of the runtime: `derived` is the
/// address it derives for the voter, `exempt` whether it finds the dedupe
/// account exempt from rent.
pub fn validate_with(
    program_id: &Address,
    voter_account: &Account,
    vote_count_account: &Account,
    dedupe_account: &Account,
    derived: &Option<Address>,
    exempt: bool,
) -> (outcome: Result<(), VoteError>)
    ensures
        outcome == checked(
            program_id@,
            voter_account@,
            vote_count_account@,
            dedupe_account@,
            match derived {
                Some(address) => Some(address@),
                None => None,
            },
            exempt,
        ),
{
    validate_signer(voter_account)?;
    validate_owner_program(program_id, vote_count_account)?;
    validate_owner_program(program_id, dedupe_account)?;
    validate_derived_address(derived, dedupe_account)?;
    if !exempt {
        return Err(VoteError::NotRentExempt);
    }
    Ok(())
}

/// The chain of checks on the accounts of a vote, with the runtime asked
/// for the derived address and for the rent exemption.
pub fn validate_accounts(
    program_id: &Address,
    voter_account: &Account,
    vote_count_account: &Account,
    dedupe_account: &Account,
    sysvar_account: &Account,
) -> (outcome: Result<(), VoteError>)
    ensures
        outcome == checked(
            program_id@,
            voter_account@,
            vote_count_account@,
            dedupe_account@,
            dedupe_address(voter_account@.key, program_id@),
            rent_exempt(sysvar_account@, dedupe_account@),
        ),
{
    validate_signer(voter_account)?;
    validate_owner_program(program_id, vote_count_account)?;
    validate_owner_program(program_id, dedupe_account)?;
    validate_dedupe_address(program_id, voter_account, dedupe_account)?;
    validate_rent_exempt(sysvar_account, dedupe_account)
}

} // verus!
