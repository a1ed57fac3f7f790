//! The rent parameters of the runtime, and what they ask of an account.

use vstd::prelude::*;
use crate::account::Address;

verus! {

/// The rent parameters that the runtime publishes in the rent sysvar
/// account.
#[derive(Debug, Clone, Copy, PartialEq, Eq)]
pub struct Rent {
    /// The price of a stored byte.
    pub lamports_per_byte: u64,
    /// The factor on that price, as the eight little-endian bytes of a
    /// floating-point number. The runtime applies two factors, 1 and 2.
    pub exemption_threshold: [u8; 8],
    /// A share that the runtime no longer uses.
    pub burn_percent: u8,
}

/// The mathematical content of a [`Rent`].
pub struct RentView {
    pub lamports_per_byte: u64,
    pub exemption_threshold: Seq<u8>,
    pub burn_percent: u8,
}

impl View for Rent {
    type V = RentView;

    open spec fn view(&self) -> RentView {
        RentView {
            lamports_per_byte: self.lamports_per_byte,
            exemption_threshold: self.exemption_threshold@,
            burn_percent: self.burn_percent,
        }
    }
}

/// The eight bytes of the factor 1.
pub open spec fn threshold_one() -> Seq<u8> {
    seq![0u8, 0, 0, 0, 0, 0, 240, 63]
}

/// The eight bytes of the factor 2.
pub open spec fn threshold_two() -> Seq<u8> {
    seq![0u8, 0, 0, 0, 0, 0, 0, 64]
}

impl RentView {
    /// Whether the runtime applies these parameters to an account that
    /// stores `data_len` bytes: at most 10 MiB of data, the factor 1 or 2,
    /// and a price within the limit that goes with the factor.
    pub open spec fn applies_to(self, data_len: nat) -> bool {
        &&& data_len <= 10 * 1024 * 1024
        &&& {
            ||| self.exemption_threshold == threshold_one() && self.lamports_per_byte
                <= 1_759_197_129_867
            ||| self.exemption_threshold == threshold_two() && self.lamports_per_byte
                <= 879_598_564_933
        }
    }

    /// The least balance that exempts an account with `data_len` bytes of
    /// data from rent: the price of its data and of 128 bytes of overhead,
    /// times the factor.
    pub open spec fn minimum_balance(self, data_len: nat) -> int
        recommends
            self.applies_to(data_len),
    {
        if self.exemption_threshold == threshold_one() {
            (128 + data_len) * self.lamports_per_byte
        } else {
            2 * (128 + data_len) * self.lamports_per_byte
        }
    }
}

impl Rent {
    /// Whether the eight bytes of the threshold are six zero bytes followed
    /// by `b6` and `b7`.
    fn threshold_is(&self, b6: u8, b7: u8) -> (is: bool)
        ensures
            is == (self@.exemption_threshold == seq![0u8, 0, 0, 0, 0, 0, b6, b7]),
    {
        let threshold = &self.exemption_threshold;
        let is = threshold[0] == 0 && threshold[1] == 0 && threshold[2] == 0 && threshold[3] == 0
            && threshold[4] == 0 && threshold[5] == 0 && threshold[6] == b6 && threshold[7] == b7;
        proof {
            let expected = seq![0u8, 0, 0, 0, 0, 0, b6, b7];
            if is {
                assert(threshold@ =~= expected);
            } else {
                assert(expected[0] == 0 && expected[1] == 0 && expected[2] == 0 && expected[3] == 0
                    && expected[4] == 0 && expected[5] == 0 && expected[6] == b6 && expected[7]
                    == b7);
            }
        }
        is
    }

    /// Whether the runtime applies the parameters to an account that stores
    /// `data_len` bytes.
    pub fn can_apply_to(&self, data_len: usize) -> (applies: bool)
        ensures
            applies == self@.applies_to(data_len as nat),
    {
        if data_len > 10 * 1024 * 1024 {
            return false;
        }
        if self.threshold_is(240, 63) {
            self.lamports_per_byte <= 1_759_197_129_867
        } else if self.threshold_is(0, 64) {
            self.lamports_per_byte <= 879_598_564_933
        } else {
            false
        }
    }
}

/// The address under which the runtime publishes the rent parameters.
pub open spec fn rent_sysvar_id() -> Seq<u8> {
    seq![
        6u8, 167, 213, 23, 25, 44, 92, 81, 33, 140, 201, 76, 61, 74, 241, 127,
        88, 218, 238, 8, 155, 161, 253, 68, 227, 219, 217, 138, 0, 0, 0, 0,
    ]
}

/// The address under which the runtime publishes the rent parameters.
pub fn rent_sysvar() -> (address: Address)
    ensures
        address@ == rent_sysvar_id(),
{
    let address = Address {
        bytes: [
            6, 167, 213, 23, 25, 44, 92, 81, 33, 140, 201, 76, 61, 74, 241, 127,
            88, 218, 238, 8, 155, 161, 253, 68, 227, 219, 217, 138, 0, 0, 0, 0,
        ],
    };
    assert(address@ =~= rent_sysvar_id());
    address
}

} // verus!
