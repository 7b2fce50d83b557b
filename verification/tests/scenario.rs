//! Whole courses of operations against a stand-in for the ledger.
//!
//! The stand-in keeps accounts and token balances in memory, derives
//! addresses with a toy hash, and carries out the effects of an accepted
//! operation all or none.

use std::collections::BTreeMap;
use vire::account::AccountInfo;
use vire::authority::{DerivedAuthority, Seeds};
use vire::effect::Effect;
use vire::error::VireError;
use vire::states::student_account::StudentAccount;
use vire::states::subject_account::SubjectAccount;
use vire::states::uni_account::UniAccount;
use vire::states::vire_account::VireAccount;
use vire::{address_request, process_instruction, AddressReply, AddressRequest};

type Key = [u8; 32];

const PROGRAM: Key = [200; 32];
const SYSTEM: Key = [0; 32];
const TOKEN: Key = [201; 32];
const ADMIN: Key = [1; 32];
const MINT: Key = [2; 32];
const TREASURY: Key = [4; 32];
const UNI_ADMIN: Key = [5; 32];
const UNI_FEES: Key = [6; 32];
const COLLECTION_MINT: Key = [8; 32];
const UNI_COLLECTION: Key = [9; 32];
const STUDENT: Key = [10; 32];
const CARD_MINT: Key = [12; 32];
const STUDENT_CARD: Key = [13; 32];
const STUDENT_FEES: Key = [14; 32];

const MONTH: i64 = 2_592_000;

#[derive(Debug, PartialEq)]
enum Failure {
    Refused(VireError),
    AlreadyAllocated,
    NotAllocated,
    InsufficientFunds,
    Unauthorized,
    Frozen,
}

#[derive(Clone, Default)]
struct Stored {
    owner: Key,
    data: Vec<u8>,
}

#[derive(Clone, Default)]
struct Card {
    amount: u64,
    frozen: bool,
    freeze_authority: Key,
}

#[derive(Clone, Default)]
struct Ledger {
    accounts: BTreeMap<Key, Stored>,
    balances: BTreeMap<Key, u64>,
    cards: BTreeMap<Key, Card>,
    now: i64,
}

/// A toy derivation: a 32-byte mix of the seeds. Discriminants whose mix
/// starts with a byte below 64 have no address, as some have none on a
/// real ledger.
fn derive(seeds: &[Vec<u8>]) -> Option<Key> {
    let mut state = [0x9e37_79b9_7f4a_7c15u64, 0xbf58_476d_1ce4_e5b9, 0x94d0_49bb_1331_11eb, 7];
    for seed in seeds {
        for lane in state.iter_mut() {
            *lane = lane.wrapping_mul(0x100_0000_01b3).wrapping_add(seed.len() as u64 + 1);
        }
        for (i, byte) in seed.iter().enumerate() {
            let lane = &mut state[i % 4];
            *lane = (*lane ^ *byte as u64).wrapping_mul(0x100_0000_01b3).rotate_left(23);
        }
    }
    let mut key = [0u8; 32];
    for round in 0..4 {
        let mixed = state[round] ^ state[(round + 1) % 4].rotate_left(17);
        key[round * 8..round * 8 + 8].copy_from_slice(&mixed.to_le_bytes());
    }
    if key[0] < 64 {
        None
    } else {
        Some(key)
    }
}

fn find(seeds: &Seeds) -> Option<(Key, u8)> {
    let mut bump = u8::MAX;
    loop {
        let authority = DerivedAuthority { seeds: *seeds, bump };
        if let Some(key) = derive(&authority.to_signer_seeds()) {
            return Some((key, bump));
        }
        if bump == 0 {
            return None;
        }
        bump -= 1;
    }
}

impl Ledger {
    fn view(&self, key: &Key, is_signer: bool) -> AccountInfo {
        let stored = self.accounts.get(key).cloned().unwrap_or(Stored { owner: SYSTEM, data: Vec::new() });
        AccountInfo { key: *key, owner: stored.owner, is_signer, data: stored.data }
    }

    fn signed_by(&self, handles: &[(Key, bool)], account: usize, signer: Option<&DerivedAuthority>) -> bool {
        match signer {
            Some(authority) => derive(&authority.to_signer_seeds()) == Some(handles[account].0),
            None => handles[account].1,
        }
    }

    fn apply(&mut self, handles: &[(Key, bool)], effect: &Effect) -> Result<(), Failure> {
        match effect {
            Effect::CreateAccount { from, to, space, signer } => {
                if !handles[*from].1 || !self.signed_by(handles, *to, Some(signer)) {
                    return Err(Failure::Unauthorized);
                }
                let target = self.accounts.entry(handles[*to].0).or_default();
                if !target.data.is_empty() || target.owner != SYSTEM {
                    return Err(Failure::AlreadyAllocated);
                }
                target.owner = PROGRAM;
                target.data = vec![0; *space as usize];
            }
            Effect::Store { account, record } => {
                let bytes = record.to_bytes();
                let target = self.accounts.get_mut(&handles[*account].0).ok_or(Failure::NotAllocated)?;
                if target.owner != PROGRAM || target.data.len() != bytes.len() {
                    return Err(Failure::NotAllocated);
                }
                target.data = bytes;
            }
            Effect::TransferChecked { from, mint, to, authority, amount } => {
                if handles[*mint].0 != MINT || !self.signed_by(handles, *authority, None) {
                    return Err(Failure::Unauthorized);
                }
                let source = self.balances.entry(handles[*from].0).or_default();
                if *source < *amount {
                    return Err(Failure::InsufficientFunds);
                }
                *source -= *amount;
                *self.balances.entry(handles[*to].0).or_default() += *amount;
            }
            Effect::MintToChecked { account, mint_authority, amount, decimals, signer, .. } => {
                if *decimals != 0 || !self.signed_by(handles, *mint_authority, Some(signer)) {
                    return Err(Failure::Unauthorized);
                }
                self.cards.entry(handles[*account].0).or_default().amount += *amount;
            }
            Effect::SetFreezeAuthority { account, authority, new_authority, signer } => {
                if !self.signed_by(handles, *authority, signer.as_ref()) {
                    return Err(Failure::Unauthorized);
                }
                let card = self.cards.entry(handles[*account].0).or_default();
                if card.freeze_authority != handles[*authority].0 {
                    return Err(Failure::Unauthorized);
                }
                card.freeze_authority = handles[*new_authority].0;
            }
            Effect::FreezeAccount { account, freeze_authority, signer, .. } => {
                if !self.signed_by(handles, *freeze_authority, Some(signer)) {
                    return Err(Failure::Unauthorized);
                }
                let card = self.cards.entry(handles[*account].0).or_default();
                if card.freeze_authority != handles[*freeze_authority].0 || card.frozen {
                    return Err(Failure::Frozen);
                }
                card.frozen = true;
            }
            Effect::ThawAccount { account, freeze_authority, signer, .. } => {
                if !self.signed_by(handles, *freeze_authority, Some(signer)) {
                    return Err(Failure::Unauthorized);
                }
                let card = self.cards.entry(handles[*account].0).or_default();
                if card.freeze_authority != handles[*freeze_authority].0 || !card.frozen {
                    return Err(Failure::Frozen);
                }
                card.frozen = false;
            }
        }
        Ok(())
    }

    /// One operation from request to commit.
    fn run(&mut self, handles: &[(Key, bool)], data: &[u8]) -> Result<Vec<Effect>, Failure> {
        let views: Vec<AccountInfo> =
            handles.iter().map(|(key, is_signer)| self.view(key, *is_signer)).collect();
        let request = address_request(&PROGRAM, &views, data).map_err(Failure::Refused)?;
        let reply = match request {
            AddressRequest::NotNeeded => AddressReply::NotNeeded,
            AddressRequest::Derive(authority) => {
                AddressReply::Derived(derive(&authority.to_signer_seeds()))
            }
            AddressRequest::Authorize(seeds) => AddressReply::Authorized(find(&seeds)),
        };
        let effects = process_instruction(&PROGRAM, &views, data, &reply, Some(self.now))
            .map_err(Failure::Refused)?;
        let mut next = self.clone();
        for effect in &effects {
            next.apply(handles, effect)?;
        }
        *self = next;
        Ok(effects)
    }

    fn registry(&self, key: &Key) -> VireAccount {
        VireAccount::from_bytes(&self.accounts[key].data).unwrap()
    }

    fn institution(&self, key: &Key) -> UniAccount {
        UniAccount::from_bytes(&self.accounts[key].data).unwrap()
    }

    fn subject(&self, key: &Key) -> SubjectAccount {
        SubjectAccount::from_bytes(&self.accounts[key].data).unwrap()
    }

    fn enrollment(&self, key: &Key) -> StudentAccount {
        StudentAccount::from_bytes(&self.accounts[key].data).unwrap()
    }

    fn balance(&self, key: &Key) -> u64 {
        self.balances.get(key).copied().unwrap_or(0)
    }
}

struct Campus {
    ledger: Ledger,
    vire: (Key, u8),
    uni: (Key, u8),
}

fn initialize_protocol(ledger: &mut Ledger, fee_uni: u64, fee_student: u64) -> (Key, u8) {
    let (vire, bump) = find(&Seeds::Vire { admin: ADMIN }).unwrap();
    let mut data = vec![0u8];
    data.extend_from_slice(&fee_uni.to_le_bytes());
    data.extend_from_slice(&fee_student.to_le_bytes());
    data.push(bump);
    let handles = [
        (ADMIN, true),
        (MINT, false),
        (vire, false),
        (TREASURY, false),
        (SYSTEM, false),
        (TOKEN, false),
    ];
    ledger.run(&handles, &data).unwrap();
    (vire, bump)
}

fn initialize_institution(ledger: &mut Ledger, admin: Key, vire: Key) -> Result<(Key, u8), Failure> {
    let (uni, bump) = find(&Seeds::Uni { admin, vire }).unwrap();
    let handles = [(admin, true), (uni, false), (vire, false), (SYSTEM, false)];
    ledger.run(&handles, &[1, bump])?;
    Ok((uni, bump))
}

fn add_subject(campus: &mut Campus, fee: u64, semesters: u64, months: u64) -> Result<Key, Failure> {
    let code = campus.ledger.institution(&campus.uni.0).subject_number;
    let (subject, bump) = find(&Seeds::Subject { uni: campus.uni.0, subject_code: code }).unwrap();
    let mut data = vec![2u8];
    data.extend_from_slice(&fee.to_le_bytes());
    data.extend_from_slice(&semesters.to_le_bytes());
    data.extend_from_slice(&months.to_le_bytes());
    data.push(bump);
    let handles = [
        (UNI_ADMIN, true),
        (MINT, false),
        (subject, false),
        (campus.uni.0, false),
        (UNI_FEES, false),
        (campus.vire.0, false),
        (TREASURY, false),
        (COLLECTION_MINT, false),
        (UNI_COLLECTION, false),
        (SYSTEM, false),
        (TOKEN, false),
    ];
    campus.ledger.run(&handles, &data)?;
    Ok(subject)
}

fn enroll(campus: &mut Campus, subject: Key) -> Result<Key, Failure> {
    let (enrollment, bump) = find(&Seeds::Student { student: STUDENT, subject }).unwrap();
    campus.ledger.cards.entry(STUDENT_CARD).or_default().freeze_authority = STUDENT;
    let handles = [
        (STUDENT, true),
        (enrollment, false),
        (subject, false),
        (campus.uni.0, false),
        (campus.vire.0, false),
        (CARD_MINT, false),
        (STUDENT_CARD, false),
        (SYSTEM, false),
        (TOKEN, false),
    ];
    campus.ledger.run(&handles, &[3, bump])?;
    Ok(enrollment)
}

fn pay(campus: &mut Campus, subject: Key, enrollment: Key) -> Result<Vec<Effect>, Failure> {
    let handles = [
        (STUDENT, true),
        (MINT, false),
        (campus.uni.0, false),
        (enrollment, false),
        (STUDENT_FEES, false),
        (subject, false),
        (campus.uni.0, false),
        (UNI_FEES, false),
        (campus.vire.0, false),
        (TREASURY, false),
        (SYSTEM, false),
        (TOKEN, false),
    ];
    campus.ledger.run(&handles, &[4])
}

fn unstake(campus: &mut Campus, subject: Key, enrollment: Key) -> Result<Vec<Effect>, Failure> {
    let handles = [
        (STUDENT, true),
        (enrollment, false),
        (subject, false),
        (CARD_MINT, false),
        (STUDENT_CARD, false),
        (SYSTEM, false),
        (TOKEN, false),
    ];
    campus.ledger.run(&handles, &[5])
}

fn campus() -> Campus {
    let mut ledger = Ledger { now: 1_700_000_000, ..Ledger::default() };
    ledger.balances.insert(UNI_FEES, 50_000);
    ledger.balances.insert(STUDENT_FEES, 500_000);
    let vire = initialize_protocol(&mut ledger, 5, 3);
    let uni = initialize_institution(&mut ledger, UNI_ADMIN, vire.0).unwrap();
    Campus { ledger, vire, uni }
}

#[test]
fn the_protocol_and_the_institution_are_set_up() {
    let campus = campus();
    assert_eq!(
        campus.ledger.registry(&campus.vire.0),
        VireAccount {
            admin_key: ADMIN,
            uni_number: 2,
            transaction_fee_uni: 5,
            transaction_fee_student: 3,
            vire_bump: campus.vire.1,
        }
    );
    assert_eq!(
        campus.ledger.institution(&campus.uni.0),
        UniAccount {
            uni_key: campus.uni.0,
            vire_key: campus.vire.0,
            uni_id: 1,
            subject_number: 0,
            student_number: 0,
            uni_bump: campus.uni.1,
        }
    );
    assert_eq!(campus.ledger.accounts[&campus.vire.0].owner, PROGRAM);
    assert_eq!(campus.ledger.accounts[&campus.uni.0].data.len(), 89);
}

#[test]
fn an_institution_cannot_be_registered_twice() {
    let mut campus = campus();
    let before = campus.ledger.registry(&campus.vire.0);
    assert_eq!(
        initialize_institution(&mut campus.ledger, UNI_ADMIN, campus.vire.0),
        Err(Failure::AlreadyAllocated)
    );
    assert_eq!(campus.ledger.registry(&campus.vire.0), before);
    assert_eq!(campus.ledger.institution(&campus.uni.0).uni_id, 1);
}

#[test]
fn institutions_are_numbered_in_the_order_of_their_registration() {
    let mut campus = campus();
    let (second, _) = initialize_institution(&mut campus.ledger, [21; 32], campus.vire.0).unwrap();
    let (third, _) = initialize_institution(&mut campus.ledger, [22; 32], campus.vire.0).unwrap();
    assert_eq!(campus.ledger.institution(&second).uni_id, 2);
    assert_eq!(campus.ledger.institution(&third).uni_id, 3);
    assert_eq!(campus.ledger.registry(&campus.vire.0).uni_number, 4);
}

#[test]
fn a_wrong_discriminant_is_rejected() {
    let mut ledger = Ledger::default();
    let (vire, bump) = find(&Seeds::Vire { admin: ADMIN }).unwrap();
    let handles = [
        (ADMIN, true),
        (MINT, false),
        (vire, false),
        (TREASURY, false),
        (SYSTEM, false),
        (TOKEN, false),
    ];
    for other in 0..=255u8 {
        if other == bump {
            continue;
        }
        let mut data = vec![0u8; 17];
        data.push(other);
        assert_eq!(ledger.run(&handles, &data), Err(Failure::Refused(VireError::AddressMismatch)));
    }
    let mut data = vec![0u8; 17];
    data.push(bump);
    assert!(ledger.run(&handles, &data).is_ok());
}

#[test]
fn subjects_are_numbered_from_zero_in_the_order_of_their_creation() {
    let mut campus = campus();
    let mut subjects = Vec::new();
    for n in 1..=6u64 {
        subjects.push(add_subject(&mut campus, 1_000 * n, n, 6).unwrap());
        assert_eq!(campus.ledger.institution(&campus.uni.0).subject_number, n);
    }
    for (i, subject) in subjects.iter().enumerate() {
        let record = campus.ledger.subject(subject);
        assert_eq!(record.subject_code, i as u64);
        assert_eq!(record.uni_key, campus.uni.0);
        assert_eq!(record.tution_fee, 1_000 * (i as u64 + 1));
        assert_eq!(record.max_semester, i as u64 + 1);
    }
    assert_eq!(campus.ledger.cards[&UNI_COLLECTION].amount, 6);
    assert_eq!(campus.ledger.institution(&campus.uni.0).student_number, 0);
}

#[test]
fn an_institution_can_add_more_than_256_subjects() {
    let mut campus = campus();
    let mut subjects = Vec::new();
    for n in 1..=260u64 {
        subjects.push(add_subject(&mut campus, 0, 1, 1).unwrap());
        assert_eq!(campus.ledger.institution(&campus.uni.0).subject_number, n);
    }
    for (i, subject) in subjects.iter().enumerate() {
        assert_eq!(campus.ledger.subject(subject).subject_code, i as u64);
    }
    let mut distinct = subjects.clone();
    distinct.sort();
    distinct.dedup();
    assert_eq!(distinct.len(), 260);
    assert_eq!(campus.ledger.cards[&UNI_COLLECTION].amount, 260);
}

#[test]
fn a_failed_transfer_undoes_the_whole_operation() {
    let mut campus = campus();
    campus.ledger.balances.insert(UNI_FEES, 4_999);
    assert_eq!(add_subject(&mut campus, 100_000, 4, 6), Err(Failure::InsufficientFunds));
    assert_eq!(campus.ledger.institution(&campus.uni.0).subject_number, 0);
    assert_eq!(campus.ledger.balance(&TREASURY), 0);
    assert_eq!(campus.ledger.accounts.len(), 2);
    campus.ledger.balances.insert(UNI_FEES, 5_000);
    let subject = add_subject(&mut campus, 100_000, 4, 6).unwrap();
    assert_eq!(campus.ledger.subject(&subject).subject_code, 0);
    assert_eq!(campus.ledger.balance(&UNI_FEES), 0);
    assert_eq!(campus.ledger.balance(&TREASURY), 5_000);
}

#[test]
fn a_degree_from_enrollment_to_the_last_payment() {
    let mut campus = campus();
    let subject = add_subject(&mut campus, 100_000, 4, 6).unwrap();
    assert_eq!(campus.ledger.balance(&TREASURY), 5_000);
    assert_eq!(campus.ledger.balance(&UNI_FEES), 45_000);
    assert_eq!(
        campus.ledger.subject(&subject),
        SubjectAccount {
            uni_key: campus.uni.0,
            subject_code: 0,
            tution_fee: 100_000,
            max_semester: 4,
            semester_months: 6,
            subject_bump: find(&Seeds::Subject { uni: campus.uni.0, subject_code: 0 }).unwrap().1,
        }
    );

    let enrollment = enroll(&mut campus, subject).unwrap();
    let enrolled_at = campus.ledger.now;
    let record = campus.ledger.enrollment(&enrollment);
    assert_eq!(record.student_key, STUDENT);
    assert_eq!(record.student_id, 0);
    assert_eq!(record.semesters, 1);
    assert_eq!(record.time_start, enrolled_at);
    assert_eq!(campus.ledger.institution(&campus.uni.0).student_number, 1);
    let card = campus.ledger.cards[&STUDENT_CARD].clone();
    assert_eq!(card.amount, 1);
    assert!(card.frozen);
    assert_eq!(card.freeze_authority, enrollment);

    campus.ledger.now += MONTH;
    let first_payment = campus.ledger.now;
    for paid in 1..=4u64 {
        let effects = pay(&mut campus, subject, enrollment).unwrap();
        assert_eq!(
            effects[0],
            Effect::TransferChecked { from: 4, mint: 1, to: 9, authority: 0, amount: 750 }
        );
        assert_eq!(
            effects[1],
            Effect::TransferChecked { from: 4, mint: 1, to: 7, authority: 0, amount: 25_000 }
        );
        assert_eq!(campus.ledger.balance(&TREASURY), 5_000 + 750 * paid);
        assert_eq!(campus.ledger.balance(&UNI_FEES), 45_000 + 25_000 * paid);
        assert_eq!(campus.ledger.balance(&STUDENT_FEES), 500_000 - 25_750 * paid);
        let record = campus.ledger.enrollment(&enrollment);
        assert_eq!(record.semesters, 1 + paid);
        assert_eq!(record.time_start, first_payment);
        campus.ledger.now += 6 * MONTH;
    }

    assert_eq!(
        pay(&mut campus, subject, enrollment),
        Err(Failure::Refused(VireError::SemesterLimitExceeded))
    );
    assert_eq!(campus.ledger.balance(&STUDENT_FEES), 500_000 - 4 * 25_750);
    assert_eq!(campus.ledger.enrollment(&enrollment).semesters, 5);

    // The counter now stands one past the number of semesters, and a
    // release asks for exactly that number: the credential stays frozen
    // however long the student waits.
    campus.ledger.now = first_payment + 48 * MONTH;
    assert_eq!(
        unstake(&mut campus, subject, enrollment),
        Err(Failure::Refused(VireError::NotYetEligible))
    );
    assert!(campus.ledger.cards[&STUDENT_CARD].frozen);
}

#[test]
fn a_credential_is_released_when_the_counter_stands_at_the_last_semester() {
    let mut campus = campus();
    let subject = add_subject(&mut campus, 100_000, 4, 6).unwrap();
    let enrollment = enroll(&mut campus, subject).unwrap();
    let first_payment = campus.ledger.now;
    for _ in 0..3 {
        pay(&mut campus, subject, enrollment).unwrap();
    }
    assert_eq!(campus.ledger.enrollment(&enrollment).semesters, 4);

    campus.ledger.now = first_payment + 24 * MONTH - 1;
    assert_eq!(
        unstake(&mut campus, subject, enrollment),
        Err(Failure::Refused(VireError::NotYetEligible))
    );
    assert!(campus.ledger.cards[&STUDENT_CARD].frozen);

    campus.ledger.now = first_payment + 48 * MONTH;
    let effects = unstake(&mut campus, subject, enrollment).unwrap();
    let authority = DerivedAuthority {
        seeds: Seeds::Student { student: STUDENT, subject },
        bump: find(&Seeds::Student { student: STUDENT, subject }).unwrap().1,
    };
    assert_eq!(
        effects,
        vec![
            Effect::ThawAccount { account: 4, mint: 3, freeze_authority: 1, signer: authority },
            Effect::SetFreezeAuthority {
                account: 4,
                authority: 1,
                new_authority: 0,
                signer: Some(authority),
            },
        ]
    );
    let card = campus.ledger.cards[&STUDENT_CARD].clone();
    assert!(!card.frozen);
    assert_eq!(card.freeze_authority, STUDENT);
    assert_eq!(card.amount, 1);

    assert_eq!(unstake(&mut campus, subject, enrollment), Err(Failure::Frozen));
}

#[test]
fn a_release_before_all_semesters_is_refused_whatever_the_time() {
    let mut campus = campus();
    let subject = add_subject(&mut campus, 100_000, 4, 6).unwrap();
    let enrollment = enroll(&mut campus, subject).unwrap();
    for paid in 0..3 {
        campus.ledger.now += 100 * MONTH;
        assert_eq!(
            unstake(&mut campus, subject, enrollment),
            Err(Failure::Refused(VireError::NotYetEligible))
        );
        assert_eq!(campus.ledger.enrollment(&enrollment).semesters, 1 + paid);
        pay(&mut campus, subject, enrollment).unwrap();
    }
}

#[test]
fn the_fees_of_a_degree_add_up() {
    for (tuition, semesters, percent) in [(100_000u64, 4u64, 3u64), (100_003, 3, 7), (999, 5, 100)] {
        let mut ledger = Ledger { now: 0, ..Ledger::default() };
        ledger.balances.insert(UNI_FEES, tuition);
        ledger.balances.insert(STUDENT_FEES, 10 * tuition);
        let vire = initialize_protocol(&mut ledger, 0, percent);
        let uni = initialize_institution(&mut ledger, UNI_ADMIN, vire.0).unwrap();
        let mut campus = Campus { ledger, vire, uni };
        let subject = add_subject(&mut campus, tuition, semesters, 1).unwrap();
        let enrollment = enroll(&mut campus, subject).unwrap();
        let share = tuition / semesters;
        let cut = share / 100 * percent;
        for _ in 0..semesters {
            pay(&mut campus, subject, enrollment).unwrap();
        }
        assert_eq!(campus.ledger.balance(&UNI_FEES), tuition + semesters * share);
        assert_eq!(campus.ledger.balance(&TREASURY), semesters * cut);
        assert_eq!(
            campus.ledger.balance(&STUDENT_FEES),
            10 * tuition - semesters * share - semesters * cut
        );
        assert!(semesters * share <= tuition);
        assert!(cut <= share);
    }
}
