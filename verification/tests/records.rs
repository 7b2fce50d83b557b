//! Byte layouts, integer codecs and the transitions of single records.

use vire::codec::{i64_at, key_at, put_i64, put_key, put_u64, same_key, u64_at};
use vire::error::VireError;
use vire::states::student_account::StudentAccount;
use vire::states::subject_account::SubjectAccount;
use vire::states::uni_account::UniAccount;
use vire::states::vire_account::VireAccount;

fn key(fill: u8) -> [u8; 32] {
    [fill; 32]
}

fn distinct_key() -> [u8; 32] {
    let mut key = [0u8; 32];
    for (i, byte) in key.iter_mut().enumerate() {
        *byte = i as u8 + 1;
    }
    key
}

#[test]
fn u64_is_read_least_significant_byte_first() {
    let bytes = [0xaa, 0x08, 0x07, 0x06, 0x05, 0x04, 0x03, 0x02, 0x01, 0xbb];
    assert_eq!(u64_at(&bytes, 1), 0x0102_0304_0506_0708);
    assert_eq!(u64_at(&[1, 0, 0, 0, 0, 0, 0, 0], 0), 1);
    assert_eq!(u64_at(&[0, 1, 0, 0, 0, 0, 0, 0], 0), 256);
    assert_eq!(u64_at(&[0xff; 8], 0), u64::MAX);
}

#[test]
fn u64_is_written_least_significant_byte_first() {
    let mut out = vec![9u8];
    put_u64(&mut out, 0x0102_0304_0506_0708);
    assert_eq!(out, vec![9, 0x08, 0x07, 0x06, 0x05, 0x04, 0x03, 0x02, 0x01]);
    let mut out = Vec::new();
    put_u64(&mut out, 100_000);
    assert_eq!(out, 100_000u64.to_le_bytes().to_vec());
    let mut out = Vec::new();
    put_u64(&mut out, u64::MAX);
    assert_eq!(out, vec![0xff; 8]);
}

#[test]
fn i64_uses_twos_complement() {
    assert_eq!(i64_at(&[0xff; 8], 0), -1);
    assert_eq!(i64_at(&[0, 0, 0, 0, 0, 0, 0, 0x80], 0), i64::MIN);
    assert_eq!(i64_at(&[0xff, 0xff, 0xff, 0xff, 0xff, 0xff, 0xff, 0x7f], 0), i64::MAX);
    assert_eq!(i64_at(&1_700_000_000i64.to_le_bytes(), 0), 1_700_000_000);
    for value in [0i64, 1, -1, -2, i64::MIN, i64::MAX, -1_700_000_000] {
        let mut out = Vec::new();
        put_i64(&mut out, value);
        assert_eq!(out, value.to_le_bytes().to_vec());
        assert_eq!(i64_at(&out, 0), value);
    }
}

#[test]
fn u64_round_trips() {
    for value in [0u64, 1, 255, 256, 65_535, 65_536, 1 << 32, (1 << 56) + 7, u64::MAX - 1, u64::MAX] {
        let mut out = Vec::new();
        put_u64(&mut out, value);
        assert_eq!(out.len(), 8);
        assert_eq!(u64_at(&out, 0), value);
    }
}

#[test]
fn keys_are_read_and_written_in_place() {
    let mut bytes = vec![0u8; 3];
    put_key(&mut bytes, &distinct_key());
    bytes.push(77);
    assert_eq!(bytes.len(), 36);
    assert_eq!(key_at(&bytes, 3), distinct_key());
    assert_eq!(key_at(&bytes, 4)[31], 77);
}

#[test]
fn keys_compare_by_all_their_bytes() {
    assert!(same_key(&key(3), &key(3)));
    assert!(!same_key(&key(3), &key(4)));
    let mut last_differs = key(3);
    last_differs[31] = 0;
    assert!(!same_key(&key(3), &last_differs));
    let mut first_differs = key(3);
    first_differs[0] = 0;
    assert!(!same_key(&key(3), &first_differs));
}

#[test]
fn record_sizes() {
    assert_eq!(VireAccount::LEN, 57);
    assert_eq!(UniAccount::LEN, 89);
    assert_eq!(SubjectAccount::LEN, 65);
    assert_eq!(StudentAccount::LEN, 57);
}

#[test]
fn vire_account_layout() {
    let record = VireAccount {
        admin_key: distinct_key(),
        uni_number: 0x0102,
        transaction_fee_uni: 5,
        transaction_fee_student: 3,
        vire_bump: 254,
    };
    let bytes = record.to_bytes();
    assert_eq!(bytes.len(), 57);
    assert_eq!(&bytes[0..32], &distinct_key());
    assert_eq!(&bytes[32..40], &[2, 1, 0, 0, 0, 0, 0, 0]);
    assert_eq!(&bytes[40..48], &[5, 0, 0, 0, 0, 0, 0, 0]);
    assert_eq!(&bytes[48..56], &[3, 0, 0, 0, 0, 0, 0, 0]);
    assert_eq!(bytes[56], 254);
    assert_eq!(VireAccount::from_bytes(&bytes), Ok(record));
}

#[test]
fn uni_account_layout() {
    let record = UniAccount {
        uni_key: distinct_key(),
        vire_key: key(9),
        uni_id: 1,
        subject_number: 0x0302,
        student_number: u64::MAX,
        uni_bump: 7,
    };
    let bytes = record.to_bytes();
    assert_eq!(bytes.len(), 89);
    assert_eq!(&bytes[0..32], &distinct_key());
    assert_eq!(&bytes[32..64], &key(9));
    assert_eq!(&bytes[64..72], &[1, 0, 0, 0, 0, 0, 0, 0]);
    assert_eq!(&bytes[72..80], &[2, 3, 0, 0, 0, 0, 0, 0]);
    assert_eq!(&bytes[80..88], &[0xff; 8]);
    assert_eq!(bytes[88], 7);
    assert_eq!(UniAccount::from_bytes(&bytes), Ok(record));
}

#[test]
fn subject_account_layout() {
    let record = SubjectAccount {
        uni_key: distinct_key(),
        subject_code: 2,
        tution_fee: 100_000,
        max_semester: 4,
        semester_months: 6,
        subject_bump: 255,
    };
    let bytes = record.to_bytes();
    assert_eq!(bytes.len(), 65);
    assert_eq!(&bytes[0..32], &distinct_key());
    assert_eq!(&bytes[32..40], &2u64.to_le_bytes());
    assert_eq!(&bytes[40..48], &[0xa0, 0x86, 0x01, 0, 0, 0, 0, 0]);
    assert_eq!(&bytes[48..56], &4u64.to_le_bytes());
    assert_eq!(&bytes[56..64], &6u64.to_le_bytes());
    assert_eq!(bytes[64], 255);
    assert_eq!(SubjectAccount::from_bytes(&bytes), Ok(record));
}

#[test]
fn student_account_layout() {
    let record = StudentAccount {
        student_key: distinct_key(),
        student_id: 12,
        time_start: -5,
        semesters: 1,
        student_bump: 0,
    };
    let bytes = record.to_bytes();
    assert_eq!(bytes.len(), 57);
    assert_eq!(&bytes[0..32], &distinct_key());
    assert_eq!(&bytes[32..40], &12u64.to_le_bytes());
    assert_eq!(&bytes[40..48], &[0xfb, 0xff, 0xff, 0xff, 0xff, 0xff, 0xff, 0xff]);
    assert_eq!(&bytes[48..56], &1u64.to_le_bytes());
    assert_eq!(bytes[56], 0);
    assert_eq!(StudentAccount::from_bytes(&bytes), Ok(record));
}

#[test]
fn records_of_another_size_are_malformed() {
    assert_eq!(VireAccount::from_bytes(&[0u8; 56]), Err(VireError::MalformedRecord));
    assert_eq!(VireAccount::from_bytes(&[0u8; 58]), Err(VireError::MalformedRecord));
    assert_eq!(VireAccount::from_bytes(&[]), Err(VireError::MalformedRecord));
    assert_eq!(UniAccount::from_bytes(&[0u8; 88]), Err(VireError::MalformedRecord));
    assert_eq!(UniAccount::from_bytes(&[0u8; 90]), Err(VireError::MalformedRecord));
    assert_eq!(SubjectAccount::from_bytes(&[0u8; 64]), Err(VireError::MalformedRecord));
    assert_eq!(SubjectAccount::from_bytes(&[0u8; 66]), Err(VireError::MalformedRecord));
    assert_eq!(StudentAccount::from_bytes(&[0u8; 56]), Err(VireError::MalformedRecord));
    assert_eq!(StudentAccount::from_bytes(&[0u8; 58]), Err(VireError::MalformedRecord));
    assert!(VireAccount::from_bytes(&[0u8; 57]).is_ok());
    assert!(UniAccount::from_bytes(&[0u8; 89]).is_ok());
    assert!(SubjectAccount::from_bytes(&[0u8; 65]).is_ok());
    assert!(StudentAccount::from_bytes(&[0u8; 57]).is_ok());
}

#[test]
fn decoding_reads_each_field_at_its_offset() {
    let mut bytes: Vec<u8> = (0..89u8).collect();
    bytes[88] = 200;
    let record = UniAccount::from_bytes(&bytes).unwrap();
    let first: Vec<u8> = (0..32u8).collect();
    let second: Vec<u8> = (32..64u8).collect();
    assert_eq!(record.uni_key.to_vec(), first);
    assert_eq!(record.vire_key.to_vec(), second);
    assert_eq!(record.uni_id, u64::from_le_bytes([64, 65, 66, 67, 68, 69, 70, 71]));
    assert_eq!(record.subject_number, u64::from_le_bytes([72, 73, 74, 75, 76, 77, 78, 79]));
    assert_eq!(record.student_number, u64::from_le_bytes([80, 81, 82, 83, 84, 85, 86, 87]));
    assert_eq!(record.uni_bump, 200);
    assert_eq!(record.to_bytes(), bytes);
}

#[test]
fn a_new_registry_counts_from_one() {
    let record = VireAccount::new(key(1), 5, 3, 250);
    assert_eq!(
        record,
        VireAccount {
            admin_key: key(1),
            uni_number: 1,
            transaction_fee_uni: 5,
            transaction_fee_student: 3,
            vire_bump: 250,
        }
    );
}

#[test]
fn the_registry_numbers_institutions_in_order() {
    let registry = VireAccount::new(key(1), 5, 3, 250);
    let (first, registry) = registry.register_uni().unwrap();
    let (second, registry) = registry.register_uni().unwrap();
    assert_eq!((first, second), (1, 2));
    assert_eq!(registry.uni_number, 3);
    assert_eq!(registry.admin_key, key(1));
    assert_eq!(registry.transaction_fee_uni, 5);
    assert_eq!(registry.transaction_fee_student, 3);
    assert_eq!(registry.vire_bump, 250);
}

#[test]
fn the_institution_counter_does_not_wrap() {
    let mut registry = VireAccount::new(key(1), 5, 3, 250);
    registry.uni_number = u64::MAX - 1;
    let (id, registry) = registry.register_uni().unwrap();
    assert_eq!(id, u64::MAX - 1);
    assert_eq!(registry.uni_number, u64::MAX);
    assert_eq!(registry.register_uni(), Err(VireError::CounterOverflow));
}

#[test]
fn a_new_institution_counts_from_zero() {
    let record = UniAccount::new(key(2), key(1), 1, 249);
    assert_eq!(
        record,
        UniAccount {
            uni_key: key(2),
            vire_key: key(1),
            uni_id: 1,
            subject_number: 0,
            student_number: 0,
            uni_bump: 249,
        }
    );
}

#[test]
fn subjects_are_numbered_in_order() {
    let mut uni = UniAccount::new(key(2), key(1), 1, 249);
    for expected in 0..5u64 {
        let (code, next) = uni.register_subject().unwrap();
        assert_eq!(code, expected);
        assert_eq!(next.subject_number, expected + 1);
        assert_eq!(next.student_number, 0);
        uni = next;
    }
    assert_eq!(uni.subject_number, 5);
}

#[test]
fn subjects_are_numbered_past_the_range_of_a_byte() {
    let mut uni = UniAccount::new(key(2), key(1), 1, 249);
    uni.subject_number = 255;
    let (code, next) = uni.register_subject().unwrap();
    assert_eq!(code, 255);
    assert_eq!(next.subject_number, 256);
    let (code, next) = next.register_subject().unwrap();
    assert_eq!(code, 256);
    assert_eq!(next.subject_number, 257);
    assert_eq!(next.student_number, 0);
    assert_eq!(next.uni_key, key(2));
}

#[test]
fn the_subject_counter_does_not_wrap() {
    let mut uni = UniAccount::new(key(2), key(1), 1, 249);
    uni.subject_number = u64::MAX - 1;
    let (code, next) = uni.register_subject().unwrap();
    assert_eq!(code, u64::MAX - 1);
    assert_eq!(next.subject_number, u64::MAX);
    assert_eq!(next.register_subject(), Err(VireError::CounterOverflow));
}

#[test]
fn enrollments_are_numbered_in_order() {
    let uni = UniAccount::new(key(2), key(1), 1, 249);
    let (first, uni) = uni.register_student().unwrap();
    let (second, uni) = uni.register_student().unwrap();
    assert_eq!((first, second), (0, 1));
    assert_eq!(uni.student_number, 2);
    assert_eq!(uni.subject_number, 0);
    let mut full = uni;
    full.student_number = u64::MAX;
    assert_eq!(full.register_student(), Err(VireError::CounterOverflow));
}

#[test]
fn a_new_enrollment_is_credited_with_one_semester() {
    let record = StudentAccount::new(key(3), 0, 1_000, 248);
    assert_eq!(
        record,
        StudentAccount {
            student_key: key(3),
            student_id: 0,
            time_start: 1_000,
            semesters: 1,
            student_bump: 248,
        }
    );
}

#[test]
fn the_first_payment_starts_the_clock() {
    let enrolled = StudentAccount::new(key(3), 0, 1_000, 248);
    let paid = enrolled.pay_semester(4, Some(5_000)).unwrap();
    assert_eq!(paid.semesters, 2);
    assert_eq!(paid.time_start, 5_000);
    let paid = paid.pay_semester(4, Some(9_000)).unwrap();
    assert_eq!(paid.semesters, 3);
    assert_eq!(paid.time_start, 5_000);
    let paid = paid.pay_semester(4, None).unwrap();
    assert_eq!(paid.semesters, 4);
    assert_eq!(paid.time_start, 5_000);
    assert_eq!(paid.student_key, key(3));
    assert_eq!(paid.student_id, 0);
    assert_eq!(paid.student_bump, 248);
}

#[test]
fn the_first_payment_needs_the_clock() {
    let enrolled = StudentAccount::new(key(3), 0, 1_000, 248);
    assert_eq!(enrolled.pay_semester(4, None), Err(VireError::ClockUnavailable));
}

#[test]
fn payments_stop_one_past_the_last_semester() {
    let mut student = StudentAccount::new(key(3), 0, 1_000, 248);
    student.semesters = 4;
    let paid = student.pay_semester(4, Some(1)).unwrap();
    assert_eq!(paid.semesters, 5);
    assert_eq!(paid.pay_semester(4, Some(2)), Err(VireError::SemesterLimitExceeded));
    student.semesters = 6;
    assert_eq!(student.pay_semester(4, Some(2)), Err(VireError::SemesterLimitExceeded));
}

#[test]
fn the_semester_counter_does_not_wrap() {
    let mut student = StudentAccount::new(key(3), 0, 1_000, 248);
    student.semesters = u64::MAX;
    assert_eq!(student.pay_semester(u64::MAX, Some(1)), Err(VireError::CounterOverflow));
    student.semesters = u64::MAX - 1;
    assert_eq!(student.pay_semester(u64::MAX, Some(1)).unwrap().semesters, u64::MAX);
}

#[test]
fn a_degree_is_complete_with_all_semesters_and_all_its_time() {
    let subject = SubjectAccount {
        uni_key: key(2),
        subject_code: 0,
        tution_fee: 100_000,
        max_semester: 4,
        semester_months: 6,
        subject_bump: 1,
    };
    let mut student = StudentAccount::new(key(3), 0, 1_000, 248);
    student.semesters = 4;
    let duration = 4 * 6 * 2_592_000;
    assert!(student.is_completed(&subject, 1_000 + duration));
    assert!(student.is_completed(&subject, 1_000 + duration + 1));
    assert!(!student.is_completed(&subject, 1_000 + duration - 1));
    student.semesters = 3;
    assert!(!student.is_completed(&subject, 1_000 + duration));
    student.semesters = 5;
    assert!(!student.is_completed(&subject, 1_000 + duration));
}
