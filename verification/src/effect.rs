//! What an accepted operation asks of the ledger.
//!
//! An operation changes nothing itself. It answers with a list of effects
//! that the caller carries out in order, within one atomic unit: a
//! failure of any of them discards them all. Accounts are named by their
//! place in the operation's list of record handles.

use vstd::prelude::*;
use crate::authority::DerivedAuthority;
use crate::states::student_account::StudentAccount;
use crate::states::subject_account::SubjectAccount;
use crate::states::uni_account::UniAccount;
use crate::states::vire_account::VireAccount;

verus! {

/// A record of any of the four kinds.
#[derive(Clone, Copy, Debug, PartialEq, Eq)]
pub enum Record {
    Vire(VireAccount),
    Uni(UniAccount),
    Subject(SubjectAccount),
    Student(StudentAccount),
}

impl Record {
    /// The bytes that store the record.
    pub open spec fn encoding(&self) -> Seq<u8> {
        match *self {
            Record::Vire(record) => record.encoding(),
            Record::Uni(record) => record.encoding(),
            Record::Subject(record) => record.encoding(),
            Record::Student(record) => record.encoding(),
        }
    }

    /// The bytes to store for the record.
    pub fn to_bytes(&self) -> (data: Vec<u8>)
        ensures
            data@ == self.encoding(),
    {
        match self {
            Record::Vire(record) => record.to_bytes(),
            Record::Uni(record) => record.to_bytes(),
            Record::Subject(record) => record.to_bytes(),
            Record::Student(record) => record.to_bytes(),
        }
    }
}

/// One request to the ledger or to the token service.
#[allow(inconsistent_fields)]
#[derive(Clone, Copy, Debug, PartialEq, Eq)]
pub enum Effect {
    /// Allocate `space` bytes at account `to`, owned by this program and
    /// paid for by account `from`; `signer` is the authority over `to`.
    CreateAccount { from: usize, to: usize, space: u64, signer: DerivedAuthority },
    /// Replace the bytes of `account` by those of `record`.
    Store { account: usize, record: Record },
    /// Move `amount` units of `mint` between two token accounts, on the
    /// word of `authority`, who signed the call.
    TransferChecked { from: usize, mint: usize, to: usize, authority: usize, amount: u64 },
    /// Mint `amount` units of `mint` to a token account; `signer` is the
    /// authority over `mint_authority`.
    MintToChecked {
        mint: usize,
        account: usize,
        mint_authority: usize,
        amount: u64,
        decimals: u8,
        signer: DerivedAuthority,
    },
    /// Hand the freeze authority over a token account from `authority` to
    /// the address of `new_authority`. A `signer` is given where
    /// `authority` is a derived address.
    SetFreezeAuthority {
        account: usize,
        authority: usize,
        new_authority: usize,
        signer: Option<DerivedAuthority>,
    },
    /// Freeze a token account; `signer` is the authority over
    /// `freeze_authority`.
    FreezeAccount { account: usize, mint: usize, freeze_authority: usize, signer: DerivedAuthority },
    /// Thaw a token account; `signer` is the authority over
    /// `freeze_authority`.
    ThawAccount { account: usize, mint: usize, freeze_authority: usize, signer: DerivedAuthority },
}

} // verus!
