//! A subject's catalog entry.
//!
//! Stored at the address derived from the institution's address and the
//! subject's sequence number.

use vstd::prelude::*;
use crate::codec::{cast_exact, key_at, key_of, le_u64, lemma_key_of_view, lemma_le_u64_of_u64_le,
    lemma_u64_le_of_le_u64, put_key, put_u64, u64_at, u64_le, Pubkey};
use crate::error::VireError;

verus! {

/// A subject: the institution that offers it, its sequence number
/// there, the tuition fee for all its semesters, how many semesters it
/// has and how many months a semester lasts.
#[derive(Clone, Copy, Debug, PartialEq, Eq)]
pub struct SubjectAccount {
    pub uni_key: Pubkey,
    pub subject_code: u64,
    pub tution_fee: u64,
    pub max_semester: u64,
    pub semester_months: u64,
    pub subject_bump: u8,
}

impl SubjectAccount {
    /// The size of the stored record in bytes.
    pub const LEN: usize = 65;

    /// The stored bytes: the institution's address at 0, the sequence
    /// number at 32, the tuition fee at 40, the number of semesters at
    /// 48, the months per semester at 56, the discriminant at 64.
    pub open spec fn encoding(&self) -> Seq<u8> {
        self.uni_key@ + u64_le(self.subject_code) + u64_le(self.tution_fee) + u64_le(
            self.max_semester,
        ) + u64_le(self.semester_months) + seq![self.subject_bump]
    }

    /// The record that `data` stores, if `data` has the record's size.
    pub open spec fn decoded(data: Seq<u8>) -> Option<SubjectAccount> {
        if data.len() == Self::LEN {
            Some(
                SubjectAccount {
                    uni_key: key_of(data.subrange(0, 32)),
                    subject_code: le_u64(data.subrange(32, 40)) as u64,
                    tution_fee: le_u64(data.subrange(40, 48)) as u64,
                    max_semester: le_u64(data.subrange(48, 56)) as u64,
                    semester_months: le_u64(data.subrange(56, 64)) as u64,
                    subject_bump: data[64],
                },
            )
        } else {
            None
        }
    }

    /// A record is what its own bytes store.
    pub proof fn lemma_decoded_encoding(self)
        ensures
            self.encoding().len() == Self::LEN,
            Self::decoded(self.encoding()) == Some(self),
    {
        let data = self.encoding();
        lemma_le_u64_of_u64_le(self.subject_code);
        lemma_le_u64_of_u64_le(self.tution_fee);
        lemma_le_u64_of_u64_le(self.max_semester);
        lemma_le_u64_of_u64_le(self.semester_months);
        lemma_key_of_view(self.uni_key);
        assert(data.subrange(0, 32) =~= self.uni_key@);
        assert(data.subrange(32, 40) =~= u64_le(self.subject_code));
        assert(data.subrange(40, 48) =~= u64_le(self.tution_fee));
        assert(data.subrange(48, 56) =~= u64_le(self.max_semester));
        assert(data.subrange(56, 64) =~= u64_le(self.semester_months));
    }

    /// Reads a record from the bytes stored for it.
    pub fn from_bytes(data: &[u8]) -> (r: Result<SubjectAccount, VireError>)
        ensures
            (match r {
                Ok(record) => Self::decoded(data@) == Some(record) && record.encoding() == data@,
                Err(e) => e == VireError::MalformedRecord && Self::decoded(data@) is None,
            }),
    {
        match cast_exact::<65>(data) {
            Ok(raw) => {
                let record = SubjectAccount {
                    uni_key: key_at(&raw, 0),
                    subject_code: u64_at(&raw, 32),
                    tution_fee: u64_at(&raw, 40),
                    max_semester: u64_at(&raw, 48),
                    semester_months: u64_at(&raw, 56),
                    subject_bump: raw[64],
                };
                proof {
                    lemma_key_of_view(record.uni_key);
                    lemma_u64_le_of_le_u64(data@.subrange(32, 40));
                    lemma_u64_le_of_le_u64(data@.subrange(40, 48));
                    lemma_u64_le_of_le_u64(data@.subrange(48, 56));
                    lemma_u64_le_of_le_u64(data@.subrange(56, 64));
                    assert(record.encoding() =~= data@);
                }
                Ok(record)
            },
            Err(_) => Err(VireError::MalformedRecord),
        }
    }

    /// Whether the subject can be paid for: a semester's fee is the
    /// tuition fee divided by the number of semesters, so there is at least
    /// one semester.
    pub open spec fn well_formed(self) -> bool {
        self.max_semester > 0
    }

    /// The bytes to store for this record.
    pub fn to_bytes(&self) -> (data: Vec<u8>)
        ensures
            data@ == self.encoding(),
    {
        let mut data: Vec<u8> = Vec::new();
        put_key(&mut data, &self.uni_key);
        put_u64(&mut data, self.subject_code);
        put_u64(&mut data, self.tution_fee);
        put_u64(&mut data, self.max_semester);
        put_u64(&mut data, self.semester_months);
        data.push(self.subject_bump);
        assert(data@ =~= self.encoding());
        data
    }
}

} // verus!
