//! The calls into the ledger runtime's library.
//!
//! Nothing in this file is proved. Each contract says what the runtime's
//! function is taken to do; the rest of the crate is verified against these
//! contracts.

use vstd::prelude::*;
use solana_program::account_info::AccountInfo;
use solana_program::program_error::ProgramError;
use solana_program::pubkey::Pubkey;
use solana_program::pubkey::PubkeyError;
use solana_program::sysvar::SysvarSerialize;
use crate::account::Account;
use crate::account::Address;
use crate::rent::rent_sysvar_id;
use crate::rent::Rent;
use crate::rent::RentView;

verus! {

/// `PubkeyError`, the runtime's reason for deriving no address. Nothing is
/// claimed of its values.
#[verifier::external_type_specification]
#[verifier::external_body]
pub struct ExPubkeyError(PubkeyError);

/// `ProgramError`, the runtime's reason for reading no rent parameters.
/// Nothing is claimed of its values.
#[verifier::external_type_specification]
#[verifier::external_body]
pub struct ExProgramError(ProgramError);

/// The address that `Pubkey::create_with_seed` derives from a base address,
/// a seed and an owning program, or `None` where it refuses to derive one.
pub uninterp spec fn derived_address(base: Seq<u8>, seed: Seq<char>, owner: Seq<u8>) -> Option<Seq<u8>>;

/// The rent parameters that `Rent::from_account_info` reads from an account
/// with the given address and data, or `None` where it reads none.
pub uninterp spec fn rent_of_account(key: Seq<u8>, data: Seq<u8>) -> Option<RentView>;

/// `Pubkey::create_with_seed`: the address derived from `base`, `seed` and
/// `owner`. The contract claims only that the outcome is a function of the
/// three arguments.
#[verifier::external_body]
pub(crate) fn create_with_seed(base: &Address, seed: &str, owner: &Address) -> (derived: Result<Address, PubkeyError>)
    ensures
        match derived {
            Ok(address) => derived_address(base@, seed@, owner@) == Some(address@),
            Err(_) => derived_address(base@, seed@, owner@) is None,
        },
{
    let base = Pubkey::new_from_array(base.bytes);
    let owner = Pubkey::new_from_array(owner.bytes);
    let derived = Pubkey::create_with_seed(&base, seed, &owner)?;
    Ok(Address { bytes: derived.to_bytes() })
}

/// `sysvar::rent::check_id`: whether `key` is the address under which the
/// runtime publishes the rent parameters.
#[verifier::external_body]
pub(crate) fn is_rent_sysvar(key: &Address) -> (is: bool)
    ensures
        is == (key@ == rent_sysvar_id()),
{
    solana_program::sysvar::rent::check_id(&Pubkey::new_from_array(key.bytes))
}

/// `Rent::from_account_info`: the rent parameters stored in an account. The
/// contract claims that the outcome is a function of the account's address
/// and data, and that an account under any address but the rent sysvar's
/// is refused.
#[verifier::external_body]
#[allow(deprecated)]
pub(crate) fn rent_from_account(account: &Account) -> (rent: Result<Rent, ProgramError>)
    ensures
        match rent {
            Ok(rent) => rent_of_account(account@.key, account@.data) == Some(rent@),
            Err(_) => rent_of_account(account@.key, account@.data) is None,
        },
        account@.key != rent_sysvar_id() ==> rent is Err,
{
    let key = Pubkey::new_from_array(account.key.bytes);
    let owner = Pubkey::new_from_array(account.owner.bytes);
    let mut lamports = account.lamports;
    let mut data = account.data.clone();
    let info = AccountInfo::new(&key, account.is_signer, false, &mut lamports, &mut data, &owner, false);
    let rent = solana_program::rent::Rent::from_account_info(&info)?;
    Ok(Rent {
        lamports_per_byte: rent.lamports_per_byte,
        exemption_threshold: rent.exemption_threshold,
        burn_percent: rent.burn_percent,
    })
}

/// `Rent::is_exempt`: whether `balance` is at least the minimum balance of
/// an account with `data_len` bytes of data. On the inputs admitted here
/// the runtime computes that minimum in integers, as `minimum_balance`
/// states it; on others it panics, or goes through floating point.
#[verifier::external_body]
#[allow(deprecated)]
pub(crate) fn rent_is_exempt(rent: &Rent, balance: u64, data_len: usize) -> (exempt: bool)
    requires
        rent@.applies_to(data_len as nat),
    ensures
        exempt == (balance >= rent@.minimum_balance(data_len as nat)),
{
    let rent = solana_program::rent::Rent {
        lamports_per_byte: rent.lamports_per_byte,
        exemption_threshold: rent.exemption_threshold,
        burn_percent: rent.burn_percent,
    };
    rent.is_exempt(balance, data_len)
}

} // verus!
