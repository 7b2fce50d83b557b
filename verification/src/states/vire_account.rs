//! The protocol's root record.
//!
//! Stored at the address derived from the tag `"vire"` and the
//! administrator's address.

use vstd::prelude::*;
use crate::codec::{cast_exact, key_at, key_of, le_u64, lemma_key_of_view, lemma_le_u64_of_u64_le,
    lemma_u64_le_of_le_u64, put_key, put_u64, u64_at, u64_le, Pubkey};
use crate::error::VireError;

verus! {

/// The protocol registry: who administers it, the sequence number that
/// the next institution gets, and the two fee percentages.
#[derive(Clone, Copy, Debug, PartialEq, Eq)]
pub struct VireAccount {
    pub admin_key: Pubkey,
    pub uni_number: u64,
    pub transaction_fee_uni: u64,
    pub transaction_fee_student: u64,
    pub vire_bump: u8,
}

impl VireAccount {
    /// The size of the stored record in bytes.
    pub const LEN: usize = 57;

    /// The stored bytes: the administrator at 0, the institution counter
    /// at 32, the institution fee at 40, the student fee at 48, the
    /// discriminant at 56.
    pub open spec fn encoding(&self) -> Seq<u8> {
        self.admin_key@ + u64_le(self.uni_number) + u64_le(self.transaction_fee_uni) + u64_le(
            self.transaction_fee_student,
        ) + seq![self.vire_bump]
    }

    /// The record that `data` stores, if `data` has the record's size.
    pub open spec fn decoded(data: Seq<u8>) -> Option<VireAccount> {
        if data.len() == Self::LEN {
            Some(
                VireAccount {
                    admin_key: key_of(data.subrange(0, 32)),
                    uni_number: le_u64(data.subrange(32, 40)) as u64,
                    transaction_fee_uni: le_u64(data.subrange(40, 48)) as u64,
                    transaction_fee_student: le_u64(data.subrange(48, 56)) as u64,
                    vire_bump: data[56],
                },
            )
        } else {
            None
        }
    }

    /// A record is what its own bytes store.
    pub proof fn lemma_decoded_encoding(self)
        ensures
            self.encoding().len() == Self::LEN,
            Self::decoded(self.encoding()) == Some(self),
    {
        let data = self.encoding();
        lemma_le_u64_of_u64_le(self.uni_number);
        lemma_le_u64_of_u64_le(self.transaction_fee_uni);
        lemma_le_u64_of_u64_le(self.transaction_fee_student);
        lemma_key_of_view(self.admin_key);
        assert(data.subrange(0, 32) =~= self.admin_key@);
        assert(data.subrange(32, 40) =~= u64_le(self.uni_number));
        assert(data.subrange(40, 48) =~= u64_le(self.transaction_fee_uni));
        assert(data.subrange(48, 56) =~= u64_le(self.transaction_fee_student));
    }

    /// Reads a record from the bytes stored for it.
    pub fn from_bytes(data: &[u8]) -> (r: Result<VireAccount, VireError>)
        ensures
            (match r {
                Ok(record) => Self::decoded(data@) == Some(record) && record.encoding() == data@,
                Err(e) => e == VireError::MalformedRecord && Self::decoded(data@) is None,
            }),
    {
        match cast_exact::<57>(data) {
            Ok(raw) => {
                let record = VireAccount {
                    admin_key: key_at(&raw, 0),
                    uni_number: u64_at(&raw, 32),
                    transaction_fee_uni: u64_at(&raw, 40),
                    transaction_fee_student: u64_at(&raw, 48),
                    vire_bump: raw[56],
                };
                proof {
                    lemma_key_of_view(record.admin_key);
                    lemma_u64_le_of_le_u64(data@.subrange(32, 40));
                    lemma_u64_le_of_le_u64(data@.subrange(40, 48));
                    lemma_u64_le_of_le_u64(data@.subrange(48, 56));
                    assert(record.encoding() =~= data@);
                }
                Ok(record)
            },
            Err(_) => Err(VireError::MalformedRecord),
        }
    }

    /// A new protocol registry: the first institution gets the number 1.
    pub fn new(
        admin_key: Pubkey,
        transaction_fee_uni: u64,
        transaction_fee_student: u64,
        vire_bump: u8,
    ) -> (record: VireAccount)
        ensures
            record == (VireAccount {
                admin_key,
                uni_number: 1,
                transaction_fee_uni,
                transaction_fee_student,
                vire_bump,
            }),
    {
        VireAccount {
            admin_key,
            uni_number: 1,
            transaction_fee_uni,
            transaction_fee_student,
            vire_bump,
        }
    }

    /// The registry after one more institution joined.
    pub open spec fn uni_registered(self) -> VireAccount {
        VireAccount { uni_number: (self.uni_number + 1) as u64, ..self }
    }

    /// Gives the next institution its number and counts it. The counter
    /// never wraps: at its largest value no institution can join.
    pub fn register_uni(&self) -> (r: Result<(u64, VireAccount), VireError>)
        ensures
            (match r {
                Ok((id, next)) => self.uni_number < u64::MAX && id == self.uni_number && next
                    == self.uni_registered(),
                Err(e) => e == VireError::CounterOverflow && self.uni_number == u64::MAX,
            }),
    {
        match self.uni_number.checked_add(1) {
            Some(number) => {
                let next = VireAccount {
                    admin_key: self.admin_key,
                    uni_number: number,
                    transaction_fee_uni: self.transaction_fee_uni,
                    transaction_fee_student: self.transaction_fee_student,
                    vire_bump: self.vire_bump,
                };
                Ok((self.uni_number, next))
            },
            None => Err(VireError::CounterOverflow),
        }
    }

    /// The bytes to store for this record.
    pub fn to_bytes(&self) -> (data: Vec<u8>)
        ensures
            data@ == self.encoding(),
    {
        let mut data: Vec<u8> = Vec::new();
        put_key(&mut data, &self.admin_key);
        put_u64(&mut data, self.uni_number);
        put_u64(&mut data, self.transaction_fee_uni);
        put_u64(&mut data, self.transaction_fee_student);
        data.push(self.vire_bump);
        assert(data@ =~= self.encoding());
        data
    }
}

} // verus!
