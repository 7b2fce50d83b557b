//! An institution's record.
//!
//! Stored at the address derived from the administrator's address and the
//! protocol's address.

use vstd::prelude::*;
use crate::codec::{cast_exact, key_at, key_of, le_u64, lemma_key_of_view, lemma_le_u64_of_u64_le,
    lemma_u64_le_of_le_u64, put_key, put_u64, u64_at, u64_le, Pubkey};
use crate::error::VireError;

verus! {

/// An institution: its own address, the protocol it belongs to, its
/// sequence number there, and the numbers that its next subject and its
/// next enrollment get.
#[derive(Clone, Copy, Debug, PartialEq, Eq)]
pub struct UniAccount {
    pub uni_key: Pubkey,
    pub vire_key: Pubkey,
    pub uni_id: u64,
    pub subject_number: u64,
    pub student_number: u64,
    pub uni_bump: u8,
}

impl UniAccount {
    /// The size of the stored record in bytes.
    pub const LEN: usize = 89;

    /// The stored bytes: the institution's address at 0, the protocol's
    /// at 32, the sequence number at 64, the subject counter at 72, the
    /// enrollment counter at 80, the discriminant at 88.
    pub open spec fn encoding(&self) -> Seq<u8> {
        self.uni_key@ + self.vire_key@ + u64_le(self.uni_id) + u64_le(self.subject_number)
            + u64_le(self.student_number) + seq![self.uni_bump]
    }

    /// The record that `data` stores, if `data` has the record's size.
    pub open spec fn decoded(data: Seq<u8>) -> Option<UniAccount> {
        if data.len() == Self::LEN {
            Some(
                UniAccount {
                    uni_key: key_of(data.subrange(0, 32)),
                    vire_key: key_of(data.subrange(32, 64)),
                    uni_id: le_u64(data.subrange(64, 72)) as u64,
                    subject_number: le_u64(data.subrange(72, 80)) as u64,
                    student_number: le_u64(data.subrange(80, 88)) as u64,
                    uni_bump: data[88],
                },
            )
        } else {
            None
        }
    }

    /// A record is what its own bytes store.
    pub proof fn lemma_decoded_encoding(self)
        ensures
            self.encoding().len() == Self::LEN,
            Self::decoded(self.encoding()) == Some(self),
    {
        let data = self.encoding();
        lemma_le_u64_of_u64_le(self.uni_id);
        lemma_le_u64_of_u64_le(self.subject_number);
        lemma_le_u64_of_u64_le(self.student_number);
        lemma_key_of_view(self.uni_key);
        lemma_key_of_view(self.vire_key);
        assert(data.subrange(0, 32) =~= self.uni_key@);
        assert(data.subrange(32, 64) =~= self.vire_key@);
        assert(data.subrange(64, 72) =~= u64_le(self.uni_id));
        assert(data.subrange(72, 80) =~= u64_le(self.subject_number));
        assert(data.subrange(80, 88) =~= u64_le(self.student_number));
    }

    /// Reads a record from the bytes stored for it.
    pub fn from_bytes(data: &[u8]) -> (r: Result<UniAccount, VireError>)
        ensures
            (match r {
                Ok(record) => Self::decoded(data@) == Some(record) && record.encoding() == data@,
                Err(e) => e == VireError::MalformedRecord && Self::decoded(data@) is None,
            }),
    {
        match cast_exact::<89>(data) {
            Ok(raw) => {
                let record = UniAccount {
                    uni_key: key_at(&raw, 0),
                    vire_key: key_at(&raw, 32),
                    uni_id: u64_at(&raw, 64),
                    subject_number: u64_at(&raw, 72),
                    student_number: u64_at(&raw, 80),
                    uni_bump: raw[88],
                };
                proof {
                    lemma_key_of_view(record.uni_key);
                    lemma_key_of_view(record.vire_key);
                    lemma_u64_le_of_le_u64(data@.subrange(64, 72));
                    lemma_u64_le_of_le_u64(data@.subrange(72, 80));
                    lemma_u64_le_of_le_u64(data@.subrange(80, 88));
                    assert(record.encoding() =~= data@);
                }
                Ok(record)
            },
            Err(_) => Err(VireError::MalformedRecord),
        }
    }

    /// A new institution: it has no subjects and no enrollments yet.
    pub fn new(uni_key: Pubkey, vire_key: Pubkey, uni_id: u64, uni_bump: u8) -> (record: UniAccount)
        ensures
            record == (UniAccount {
                uni_key,
                vire_key,
                uni_id,
                subject_number: 0,
                student_number: 0,
                uni_bump,
            }),
    {
        UniAccount { uni_key, vire_key, uni_id, subject_number: 0, student_number: 0, uni_bump }
    }

    /// The institution after one more subject was added.
    pub open spec fn subject_registered(self) -> UniAccount {
        UniAccount { subject_number: (self.subject_number + 1) as u64, ..self }
    }

    /// The institution after one more student was enrolled.
    pub open spec fn student_registered(self) -> UniAccount {
        UniAccount { student_number: (self.student_number + 1) as u64, ..self }
    }

    /// Gives the next subject its number and counts it. The counter
    /// never wraps: at its largest value no subject can be added.
    pub fn register_subject(&self) -> (r: Result<(u64, UniAccount), VireError>)
        ensures
            (match r {
                Ok((code, next)) => self.subject_number < u64::MAX && code == self.subject_number
                    && next == self.subject_registered(),
                Err(e) => e == VireError::CounterOverflow && self.subject_number == u64::MAX,
            }),
    {
        match self.subject_number.checked_add(1) {
            Some(number) => {
                let next = UniAccount {
                    uni_key: self.uni_key,
                    vire_key: self.vire_key,
                    uni_id: self.uni_id,
                    subject_number: number,
                    student_number: self.student_number,
                    uni_bump: self.uni_bump,
                };
                Ok((self.subject_number, next))
            },
            None => Err(VireError::CounterOverflow),
        }
    }

    /// Gives the next enrollment its number and counts it.
    pub fn register_student(&self) -> (r: Result<(u64, UniAccount), VireError>)
        ensures
            (match r {
                Ok((id, next)) => self.student_number < u64::MAX && id == self.student_number
                    && next == self.student_registered(),
                Err(e) => e == VireError::CounterOverflow && self.student_number == u64::MAX,
            }),
    {
        match self.student_number.checked_add(1) {
            Some(number) => {
                let next = UniAccount {
                    uni_key: self.uni_key,
                    vire_key: self.vire_key,
                    uni_id: self.uni_id,
                    subject_number: self.subject_number,
                    student_number: number,
                    uni_bump: self.uni_bump,
                };
                Ok((self.student_number, next))
            },
            None => Err(VireError::CounterOverflow),
        }
    }

    /// The institution after `n` subjects were added to it one after
    /// another, if the counter could move on for each of them.
    pub open spec fn after_subjects(self, n: nat) -> Option<UniAccount>
        decreases n,
    {
        if n == 0 {
            Some(self)
        } else {
            match self.after_subjects((n - 1) as nat) {
                Some(before) => if before.subject_number == u64::MAX {
                    None
                } else {
                    Some(before.subject_registered())
                },
                None => None,
            }
        }
    }

    /// Subjects are numbered in the order in which they are added: after
    /// `n` subjects were added the counter has moved on by `n`, and each
    /// subject got the number at which the counter stood when it came. For
    /// a new institution, whose counter starts at 0, the counter then
    /// stands at `n`, and the subject added after `i` others has the
    /// number `i`.
    pub proof fn lemma_subjects_are_numbered_in_order(self, n: nat, i: nat)
        requires
            self.after_subjects(n) is Some,
            i <= n,
        ensures
            self.after_subjects(i) is Some,
            self.after_subjects(i).unwrap().subject_number == self.subject_number + i,
            self.after_subjects(n).unwrap().subject_number == self.subject_number + n,
            self.after_subjects(n).unwrap() == (UniAccount {
                subject_number: (self.subject_number + n) as u64,
                ..self
            }),
        decreases n,
    {
        if n > 0 {
            self.lemma_subjects_are_numbered_in_order((n - 1) as nat, if i < n {
                i
            } else {
                (n - 1) as nat
            });
        }
    }

    /// The bytes to store for this record.
    pub fn to_bytes(&self) -> (data: Vec<u8>)
        ensures
            data@ == self.encoding(),
    {
        let mut data: Vec<u8> = Vec::new();
        put_key(&mut data, &self.uni_key);
        put_key(&mut data, &self.vire_key);
        put_u64(&mut data, self.uni_id);
        put_u64(&mut data, self.subject_number);
        put_u64(&mut data, self.student_number);
        data.push(self.uni_bump);
        assert(data@ =~= self.encoding());
        data
    }
}

} // verus!
