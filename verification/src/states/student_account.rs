//! An enrollment's record.
//!
//! Stored at the address derived from the student's address and the
//! subject's address.

use vstd::prelude::*;
use crate::codec::{cast_exact, i64_at, i64_le, key_at, key_of, le_i64, le_u64, lemma_key_of_view,
    lemma_le_i64_of_i64_le, lemma_i64_le_of_le_i64, lemma_le_u64_of_u64_le,
    lemma_u64_le_of_le_u64, put_i64, put_key, put_u64, u64_at, u64_le, Pubkey};
use crate::error::VireError;
use crate::fees::{duration_elapsed, required_seconds};
use crate::states::subject_account::SubjectAccount;

verus! {

/// An enrollment: the student, the enrollment's sequence number at the
/// institution, when its clock started, and the semester counter.
#[derive(Clone, Copy, Debug, PartialEq, Eq)]
pub struct StudentAccount {
    pub student_key: Pubkey,
    pub student_id: u64,
    pub time_start: i64,
    pub semesters: u64,
    pub student_bump: u8,
}

impl StudentAccount {
    /// The size of the stored record in bytes.
    pub const LEN: usize = 57;

    /// The stored bytes: the student's address at 0, the sequence number
    /// at 32, the start timestamp at 40, the semester counter at 48, the
    /// discriminant at 56.
    pub open spec fn encoding(&self) -> Seq<u8> {
        self.student_key@ + u64_le(self.student_id) + i64_le(self.time_start) + u64_le(
            self.semesters,
        ) + seq![self.student_bump]
    }

    /// The record that `data` stores, if `data` has the record's size.
    pub open spec fn decoded(data: Seq<u8>) -> Option<StudentAccount> {
        if data.len() == Self::LEN {
            Some(
                StudentAccount {
                    student_key: key_of(data.subrange(0, 32)),
                    student_id: le_u64(data.subrange(32, 40)) as u64,
                    time_start: le_i64(data.subrange(40, 48)) as i64,
                    semesters: le_u64(data.subrange(48, 56)) as u64,
                    student_bump: data[56],
                },
            )
        } else {
            None
        }
    }

    /// A record is what its own bytes store.
    pub proof fn lemma_decoded_encoding(self)
        ensures
            self.encoding().len() == Self::LEN,
            Self::decoded(self.encoding()) == Some(self),
    {
        let data = self.encoding();
        lemma_le_u64_of_u64_le(self.student_id);
        lemma_le_i64_of_i64_le(self.time_start);
        lemma_le_u64_of_u64_le(self.semesters);
        lemma_key_of_view(self.student_key);
        assert(data.subrange(0, 32) =~= self.student_key@);
        assert(data.subrange(32, 40) =~= u64_le(self.student_id));
        assert(data.subrange(40, 48) =~= i64_le(self.time_start));
        assert(data.subrange(48, 56) =~= u64_le(self.semesters));
    }

    /// Reads a record from the bytes stored for it.
    pub fn from_bytes(data: &[u8]) -> (r: Result<StudentAccount, VireError>)
        ensures
            (match r {
                Ok(record) => Self::decoded(data@) == Some(record) && record.encoding() == data@,
                Err(e) => e == VireError::MalformedRecord && Self::decoded(data@) is None,
            }),
    {
        match cast_exact::<57>(data) {
            Ok(raw) => {
                let record = StudentAccount {
                    student_key: key_at(&raw, 0),
                    student_id: u64_at(&raw, 32),
                    time_start: i64_at(&raw, 40),
                    semesters: u64_at(&raw, 48),
                    student_bump: raw[56],
                };
                proof {
                    lemma_key_of_view(record.student_key);
                    lemma_u64_le_of_le_u64(data@.subrange(32, 40));
                    lemma_i64_le_of_le_i64(data@.subrange(40, 48));
                    lemma_u64_le_of_le_u64(data@.subrange(48, 56));
                    assert(record.encoding() =~= data@);
                }
                Ok(record)
            },
            Err(_) => Err(VireError::MalformedRecord),
        }
    }

    /// A new enrollment. It starts credited with its first semester, and
    /// its clock starts at `time_start`.
    pub fn new(student_key: Pubkey, student_id: u64, time_start: i64, student_bump: u8) -> (record:
        StudentAccount)
        ensures
            record == (StudentAccount {
                student_key,
                student_id,
                time_start,
                semesters: 1,
                student_bump,
            }),
    {
        StudentAccount { student_key, student_id, time_start, semesters: 1, student_bump }
    }

    /// The enrollment after the fee of one more semester was paid at time
    /// `now`, for a subject of `max_semester` semesters.
    ///
    /// A fee can be paid as long as the counter has not passed the number
    /// of semesters. The payment made while the counter stands at 1 sets
    /// the start of the clock; no later payment touches it.
    pub open spec fn semester_paid(self, max_semester: u64, now: Option<i64>) -> Result<
        StudentAccount,
        VireError,
    > {
        if self.semesters > max_semester {
            Err(VireError::SemesterLimitExceeded)
        } else if self.semesters == 1 && now is None {
            Err(VireError::ClockUnavailable)
        } else if self.semesters == u64::MAX {
            Err(VireError::CounterOverflow)
        } else {
            Ok(
                StudentAccount {
                    time_start: if self.semesters == 1 {
                        now.unwrap()
                    } else {
                        self.time_start
                    },
                    semesters: (self.semesters + 1) as u64,
                    ..self
                },
            )
        }
    }

    /// Counts the payment of one more semester.
    pub fn pay_semester(&self, max_semester: u64, now: Option<i64>) -> (r: Result<
        StudentAccount,
        VireError,
    >)
        ensures
            r == self.semester_paid(max_semester, now),
    {
        if self.semesters > max_semester {
            return Err(VireError::SemesterLimitExceeded);
        }
        let mut time_start: i64 = self.time_start;
        if self.semesters == 1 {
            match now {
                Some(timestamp) => {
                    time_start = timestamp;
                },
                None => {
                    return Err(VireError::ClockUnavailable);
                },
            }
        }
        match self.semesters.checked_add(1) {
            Some(semesters) => Ok(
                StudentAccount {
                    student_key: self.student_key,
                    student_id: self.student_id,
                    time_start,
                    semesters,
                    student_bump: self.student_bump,
                },
            ),
            None => Err(VireError::CounterOverflow),
        }
    }

    /// Whether the degree is complete at time `now`: the counter stands
    /// exactly at the subject's number of semesters, and the whole
    /// duration of the degree has passed since the clock started.
    pub open spec fn completed(self, subject: SubjectAccount, now: i64) -> bool {
        &&& self.semesters == subject.max_semester
        &&& now - self.time_start >= required_seconds(
            subject.max_semester as nat,
            subject.semester_months as nat,
        )
    }

    /// Checks whether the degree is complete at time `now`.
    pub fn is_completed(&self, subject: &SubjectAccount, now: i64) -> (done: bool)
        ensures
            done == self.completed(*subject, now),
    {
        self.semesters == subject.max_semester && duration_elapsed(
            self.time_start,
            now,
            subject.max_semester,
            subject.semester_months,
        )
    }

    /// The bytes to store for this record.
    pub fn to_bytes(&self) -> (data: Vec<u8>)
        ensures
            data@ == self.encoding(),
    {
        let mut data: Vec<u8> = Vec::new();
        put_key(&mut data, &self.student_key);
        put_u64(&mut data, self.student_id);
        put_i64(&mut data, self.time_start);
        put_u64(&mut data, self.semesters);
        data.push(self.student_bump);
        assert(data@ =~= self.encoding());
        data
    }
}

} // verus!
