//! Derived addresses and the authority over them.
//!
//! A record lives at the address that the ledger derives from an ordered
//! tuple of byte strings, the seeds, followed by one more byte, the
//! discriminant. Nobody holds a key for such an address. A program acts
//! as the address by presenting the seeds and the discriminant again at
//! the moment of the call. The derivation itself is the ledger's: this
//! module says which byte strings go into it and checks what comes out.

use vstd::prelude::*;
use crate::codec::{le_u64, lemma_le_u64_of_u64_le, put_key, put_u64, same_key, u64_le, Pubkey};
use crate::error::VireError;

verus! {

/// The seeds of a record, without the discriminant.
#[derive(Clone, Copy, Debug, PartialEq, Eq)]
pub enum Seeds {
    /// The protocol record of an administrator.
    Vire { admin: Pubkey },
    /// The record of the institution that `admin` runs under a protocol.
    Uni { admin: Pubkey, vire: Pubkey },
    /// The record of an institution's subject with the given number.
    Subject { uni: Pubkey, subject_code: u64 },
    /// The record of a student's enrollment in a subject.
    Student { student: Pubkey, subject: Pubkey },
}

/// The capability to act as a derived address: its seeds and the
/// discriminant. It is made when it is needed and never stored.
#[derive(Clone, Copy, Debug, PartialEq, Eq)]
pub struct DerivedAuthority {
    pub seeds: Seeds,
    pub bump: u8,
}

/// The tag that starts the seeds of a protocol record: the letters `vire`.
pub open spec fn vire_tag() -> Seq<u8> {
    seq![118u8, 105u8, 114u8, 101u8]
}

/// The byte string that stands for a subject's number among the seeds
/// of its address: a single byte for a number up to 255, and the eight
/// bytes of the number, least significant first, for a larger one.
pub open spec fn subject_seed(code: u64) -> Seq<u8> {
    if code <= 255 {
        seq![code as u8]
    } else {
        u64_le(code)
    }
}

impl Seeds {
    /// The byte strings in the order in which the ledger hashes them.
    pub open spec fn byte_strings(&self) -> Seq<Seq<u8>> {
        match *self {
            Seeds::Vire { admin } => seq![vire_tag(), admin@],
            Seeds::Uni { admin, vire } => seq![admin@, vire@],
            Seeds::Subject { uni, subject_code } => seq![uni@, subject_seed(subject_code)],
            Seeds::Student { student, subject } => seq![student@, subject@],
        }
    }

    /// The byte strings to hand to the ledger when it is to search the
    /// discriminant itself.
    pub fn to_byte_strings(&self) -> (strings: Vec<Vec<u8>>)
        ensures
            strings.deep_view() == self.byte_strings(),
    {
        let mut first: Vec<u8> = Vec::new();
        let mut second: Vec<u8> = Vec::new();
        match self {
            Seeds::Vire { admin } => {
                first.push(118u8);
                first.push(105u8);
                first.push(114u8);
                first.push(101u8);
                put_key(&mut second, admin);
            },
            Seeds::Uni { admin, vire } => {
                put_key(&mut first, admin);
                put_key(&mut second, vire);
            },
            Seeds::Subject { uni, subject_code } => {
                put_key(&mut first, uni);
                if *subject_code <= 255 {
                    second.push(*subject_code as u8);
                } else {
                    put_u64(&mut second, *subject_code);
                }
            },
            Seeds::Student { student, subject } => {
                put_key(&mut first, student);
                put_key(&mut second, subject);
            },
        }
        let mut strings: Vec<Vec<u8>> = Vec::new();
        strings.push(first);
        strings.push(second);
        assert(strings.deep_view() =~~= self.byte_strings());
        strings
    }
}

impl DerivedAuthority {
    /// The seeds followed by the discriminant as a byte string of its own.
    pub open spec fn signer_seeds(&self) -> Seq<Seq<u8>> {
        self.seeds.byte_strings().push(seq![self.bump])
    }

    /// The byte strings to present to the ledger, to derive the address
    /// or to act as it.
    pub fn to_signer_seeds(&self) -> (strings: Vec<Vec<u8>>)
        ensures
            strings.deep_view() == self.signer_seeds(),
    {
        let mut strings = self.seeds.to_byte_strings();
        let mut last: Vec<u8> = Vec::new();
        last.push(self.bump);
        strings.push(last);
        assert(strings.deep_view() =~~= self.signer_seeds());
        strings
    }
}

/// Whether the address that the ledger derived is the supplied one.
pub open spec fn verifies(derived: Option<Pubkey>, supplied: Pubkey) -> bool {
    derived == Some(supplied)
}

/// Accepts a supplied address only if it is the derived one. Where the
/// ledger found no address for the seeds, nothing is accepted.
pub fn verify(derived: &Option<Pubkey>, supplied: &Pubkey) -> (r: Result<(), VireError>)
    ensures
        r is Ok <==> verifies(*derived, *supplied),
        r is Err ==> r == Err::<(), VireError>(VireError::AddressMismatch),
{
    match derived {
        Some(address) => {
            if same_key(address, supplied) {
                Ok(())
            } else {
                Err(VireError::AddressMismatch)
            }
        },
        None => Err(VireError::AddressMismatch),
    }
}

/// The authority that a search for the discriminant establishes over a
/// supplied address: the seeds with the discriminant found, if the
/// address found with it is the supplied one.
pub open spec fn authorized(seeds: Seeds, found: Option<(Pubkey, u8)>, supplied: Pubkey) -> Option<
    DerivedAuthority,
> {
    match found {
        Some((address, bump)) => if address == supplied {
            Some(DerivedAuthority { seeds, bump })
        } else {
            None
        },
        None => None,
    }
}

/// Makes the authority over a supplied address from the outcome of the
/// ledger's search for the discriminant of `seeds`. Where the search
/// found nothing, or found another address, there is no authority.
pub fn authorize(seeds: Seeds, found: &Option<(Pubkey, u8)>, supplied: &Pubkey) -> (r: Result<
    DerivedAuthority,
    VireError,
>)
    ensures
        (match r {
            Ok(authority) => authorized(seeds, *found, *supplied) == Some(authority),
            Err(e) => e == VireError::AddressMismatch && authorized(seeds, *found, *supplied)
                is None,
        }),
{
    match found {
        Some((address, bump)) => {
            if same_key(address, supplied) {
                Ok(DerivedAuthority { seeds, bump: *bump })
            } else {
                Err(VireError::AddressMismatch)
            }
        },
        None => Err(VireError::AddressMismatch),
    }
}

/// Whatever map the ledger derives addresses with: for the seeds and
/// the discriminant of an authority, verification accepts the address
/// that the map gives for them and no other, and accepts nothing where
/// the map gives none.
pub proof fn lemma_verify_accepts_what_derive_produces(
    derive: spec_fn(Seq<Seq<u8>>) -> Option<Pubkey>,
    authority: DerivedAuthority,
    supplied: Pubkey,
)
    ensures
        derive(authority.signer_seeds()) matches Some(address) ==> verifies(
            derive(authority.signer_seeds()),
            address,
        ),
        verifies(derive(authority.signer_seeds()), supplied) <==> derive(authority.signer_seeds())
            == Some(supplied),
        derive(authority.signer_seeds()) is None ==> !verifies(
            derive(authority.signer_seeds()),
            supplied,
        ),
{
}

/// An authority is established over the address that the search found,
/// with the discriminant that the search found, and over no other.
pub proof fn lemma_authorize_accepts_found_only(
    seeds: Seeds,
    address: Pubkey,
    bump: u8,
    supplied: Pubkey,
)
    ensures
        authorized(seeds, Some((address, bump)), address) == Some(
            DerivedAuthority { seeds, bump },
        ),
        authorized(seeds, Some((address, bump)), supplied) is Some ==> supplied == address,
        authorized(seeds, None, supplied) is None,
{
}

/// What an authority presents is always fit for derivation: three byte
/// strings, none empty and none longer than an address.
pub proof fn lemma_signer_seeds_fit(authority: DerivedAuthority)
    ensures
        authority.seeds.byte_strings().len() == 2,
        authority.signer_seeds().len() == 3,
        forall|i: int|
            0 <= i < 3 ==> 1 <= (#[trigger] authority.signer_seeds()[i]).len() <= 32,
{
    let strings = authority.signer_seeds();
    assert forall|i: int| 0 <= i < 3 implies 1 <= (#[trigger] strings[i]).len() <= 32 by {
        match authority.seeds {
            Seeds::Vire { admin } => {
                assert(strings[0] == vire_tag());
                assert(strings[1] == admin@);
            },
            Seeds::Uni { admin, vire } => {
                assert(strings[0] == admin@);
                assert(strings[1] == vire@);
            },
            Seeds::Subject { uni, subject_code } => {
                assert(strings[0] == uni@);
                assert(strings[1] == subject_seed(subject_code));
                lemma_le_u64_of_u64_le(subject_code);
            },
            Seeds::Student { student, subject } => {
                assert(strings[0] == student@);
                assert(strings[1] == subject@);
            },
        }
        assert(strings[2] == seq![authority.bump]);
    }
}

/// Different subject numbers stand among the seeds as different byte
/// strings, so no two subjects of one institution share their seeds.
pub proof fn lemma_subject_seed_is_injective(one: u64, other: u64)
    requires
        subject_seed(one) == subject_seed(other),
    ensures
        one == other,
{
    lemma_le_u64_of_u64_le(one);
    lemma_le_u64_of_u64_le(other);
    if one <= 255 && other <= 255 {
        assert(subject_seed(one)[0] == one as u8);
        assert(subject_seed(other)[0] == other as u8);
    } else if one > 255 && other > 255 {
        assert(le_u64(u64_le(one)) == le_u64(u64_le(other)));
    } else {
        assert(subject_seed(one).len() != subject_seed(other).len());
    }
}

/// Two authorities over the same seeds with different discriminants
/// present different byte strings: the ledger derives their addresses
/// from different inputs.
pub proof fn lemma_discriminant_is_hashed(a: DerivedAuthority, b: DerivedAuthority)
    requires
        a.bump != b.bump,
    ensures
        a.signer_seeds() != b.signer_seeds(),
{
    let sa = a.signer_seeds();
    let sb = b.signer_seeds();
    assert(sa.len() == 3 && sb.len() == 3);
    assert(sa[2] == seq![a.bump]);
    assert(sb[2] == seq![b.bump]);
    assert(sa[2][0] != sb[2][0]);
}

} // verus!
