//! Releasing the credential of a completed degree.

use vstd::prelude::*;
use crate::account::AccountInfo;
use crate::authority::{authorize, authorized, Seeds};
use crate::codec::Pubkey;
use crate::effect::Effect;
use crate::error::VireError;
use crate::fees::required_seconds;
use crate::states::student_account::StudentAccount;
use crate::states::subject_account::SubjectAccount;

verus! {

/// The seeds of the enrollment's address, whose discriminant the ledger
/// has to find, or why the operation is refused whatever the ledger
/// answers.
///
/// The handles are: the student, the enrollment, the subject, the
/// credential mint, the student's credential account, and the two
/// programs. The student signs, the enrollment and the subject are
/// records of this program, and the enrollment's counter stands exactly at
/// the subject's number of semesters.
pub open spec fn unstake_seeds_spec(program_id: Pubkey, accounts: Seq<AccountInfo>) -> Result<
    Seeds,
    VireError,
> {
    if accounts.len() != 7 {
        Err(VireError::MissingHandle)
    } else if !accounts[0].is_signer {
        Err(VireError::MissingAuthorization)
    } else if accounts[1].owner != program_id || accounts[2].owner != program_id {
        Err(VireError::WrongOwner)
    } else if StudentAccount::decoded(accounts[1].data@) is None || SubjectAccount::decoded(
        accounts[2].data@,
    ) is None {
        Err(VireError::MalformedRecord)
    } else if StudentAccount::decoded(accounts[1].data@).unwrap().semesters
        != SubjectAccount::decoded(accounts[2].data@).unwrap().max_semester {
        Err(VireError::NotYetEligible)
    } else {
        Ok(Seeds::Student { student: accounts[0].key, subject: accounts[2].key })
    }
}

/// What releasing the credential asks of the ledger, given the ledger's
/// time and the address and discriminant that the ledger found for the
/// seeds of `unstake_seeds_spec`.
///
/// Once the whole duration of the degree has passed, the enrollment thaws
/// the student's credential account and hands the freeze authority over
/// it back to the student.
pub open spec fn unstake_spec(
    program_id: Pubkey,
    accounts: Seq<AccountInfo>,
    found: Option<(Pubkey, u8)>,
    now: Option<i64>,
) -> Result<Seq<Effect>, VireError> {
    match unstake_seeds_spec(program_id, accounts) {
        Err(e) => Err(e),
        Ok(seeds) => {
            let student = StudentAccount::decoded(accounts[1].data@).unwrap();
            let subject = SubjectAccount::decoded(accounts[2].data@).unwrap();
            if now is None {
                Err(VireError::ClockUnavailable)
            } else if !student.completed(subject, now.unwrap()) {
                Err(VireError::NotYetEligible)
            } else if authorized(seeds, found, accounts[1].key) is None {
                Err(VireError::AddressMismatch)
            } else {
                let authority = authorized(seeds, found, accounts[1].key).unwrap();
                Ok(
                    seq![
                        Effect::ThawAccount {
                            account: 4,
                            mint: 3,
                            freeze_authority: 1,
                            signer: authority,
                        },
                        Effect::SetFreezeAuthority {
                            account: 4,
                            authority: 1,
                            new_authority: 0,
                            signer: Some(authority),
                        },
                    ],
                )
            }
        },
    }
}

/// Whether a list of handles has the shape that a release expects: the
/// right number of handles, the student's signature, and two records of
/// this program that decode.
pub open spec fn release_is_well_formed(program_id: Pubkey, accounts: Seq<AccountInfo>) -> bool {
    &&& accounts.len() == 7
    &&& accounts[0].is_signer
    &&& accounts[1].owner == program_id
    &&& accounts[2].owner == program_id
    &&& StudentAccount::decoded(accounts[1].data@) is Some
    &&& SubjectAccount::decoded(accounts[2].data@) is Some
}

/// No credential is released early. While semesters are unpaid the
/// release is refused whatever time has passed, and before the whole
/// duration of the degree has passed it is refused whatever the counter
/// says. Nor is one released once the counter has passed the number of
/// semesters.
pub proof fn lemma_no_early_release(
    program_id: Pubkey,
    accounts: Seq<AccountInfo>,
    found: Option<(Pubkey, u8)>,
    now: Option<i64>,
)
    requires
        release_is_well_formed(program_id, accounts),
    ensures
        ({
            let student = StudentAccount::decoded(accounts[1].data@).unwrap();
            let subject = SubjectAccount::decoded(accounts[2].data@).unwrap();
            let outcome = unstake_spec(program_id, accounts, found, now);
            let refused = Err::<Seq<Effect>, VireError>(VireError::NotYetEligible);
            &&& student.semesters < subject.max_semester ==> outcome == refused
            &&& student.semesters != subject.max_semester ==> outcome == refused
            &&& (now matches Some(time) && time - student.time_start < required_seconds(
                subject.max_semester as nat,
                subject.semester_months as nat,
            )) ==> outcome == refused
            &&& outcome is Ok ==> now is Some && student.completed(subject, now.unwrap())
        }),
{
}

/// A credential is released under the authority that the ledger's search
/// established and under no other: an accepted release was given the
/// enrollment's own address as the address found, and signs with the
/// discriminant found with it.
pub proof fn lemma_release_needs_the_found_address(
    program_id: Pubkey,
    accounts: Seq<AccountInfo>,
    found: Option<(Pubkey, u8)>,
    now: Option<i64>,
)
    requires
        unstake_spec(program_id, accounts, found, now) is Ok,
    ensures
        ({
            let effects = unstake_spec(program_id, accounts, found, now)->Ok_0;
            &&& found matches Some((address, bump))
            &&& address == accounts[1].key
            &&& effects[0] matches Effect::ThawAccount { signer, .. }
            &&& signer.bump == bump
            &&& signer.seeds == (Seeds::Student { student: accounts[0].key, subject: accounts[2].key })
        }),
{
}

/// Releasing the credential, on the list of record handles of the call.
pub trait Unstake {
    /// Which seeds the ledger has to find the address for before `unstake`.
    fn unstake_seeds(&self, program_id: &Pubkey) -> Result<Seeds, VireError>;

    /// The effects of the operation, or the reason why it is refused.
    fn unstake(&self, program_id: &Pubkey, found: &Option<(Pubkey, u8)>, now: Option<i64>) -> Result<
        Vec<Effect>,
        VireError,
    >;
}

/// What a release settles before the ledger is asked anything.
struct Prepared {
    seeds: Seeds,
    student: StudentAccount,
    subject: SubjectAccount,
}

/// Checks the handles and the semester counter, and reads the two
/// records.
fn prepare(accounts: &[AccountInfo], program_id: &Pubkey) -> (r: Result<Prepared, VireError>)
    ensures
        (match r {
            Ok(prepared) => {
                &&& unstake_seeds_spec(*program_id, accounts@) == Ok::<Seeds, VireError>(
                    prepared.seeds,
                )
                &&& StudentAccount::decoded(accounts@[1].data@) == Some(prepared.student)
                &&& SubjectAccount::decoded(accounts@[2].data@) == Some(prepared.subject)
            },
            Err(e) => unstake_seeds_spec(*program_id, accounts@) == Err::<Seeds, VireError>(e),
        }),
{
    if accounts.len() != 7 {
        return Err(VireError::MissingHandle);
    }
    if !accounts[0].is_signer {
        return Err(VireError::MissingAuthorization);
    }
    if !accounts[1].is_owned_by(program_id) || !accounts[2].is_owned_by(program_id) {
        return Err(VireError::WrongOwner);
    }
    let student = StudentAccount::from_bytes(accounts[1].data.as_slice())?;
    let subject = SubjectAccount::from_bytes(accounts[2].data.as_slice())?;
    if student.semesters != subject.max_semester {
        return Err(VireError::NotYetEligible);
    }
    Ok(
        Prepared {
            seeds: Seeds::Student { student: accounts[0].key, subject: accounts[2].key },
            student,
            subject,
        },
    )
}

impl Unstake for [AccountInfo] {
    fn unstake_seeds(&self, program_id: &Pubkey) -> (r: Result<Seeds, VireError>)
        ensures
            r == unstake_seeds_spec(*program_id, self@),
    {
        let prepared = prepare(self, program_id)?;
        Ok(prepared.seeds)
    }

    fn unstake(&self, program_id: &Pubkey, found: &Option<(Pubkey, u8)>, now: Option<i64>) -> (r:
        Result<Vec<Effect>, VireError>)
        ensures
            (match r {
                Ok(effects) => unstake_spec(*program_id, self@, *found, now) == Ok::<
                    Seq<Effect>,
                    VireError,
                >(effects@),
                Err(e) => unstake_spec(*program_id, self@, *found, now) == Err::<
                    Seq<Effect>,
                    VireError,
                >(e),
            }),
    {
        let prepared = prepare(self, program_id)?;
        let timestamp: i64 = match now {
            Some(timestamp) => timestamp,
            None => {
                return Err(VireError::ClockUnavailable);
            },
        };
        if !prepared.student.is_completed(&prepared.subject, timestamp) {
            return Err(VireError::NotYetEligible);
        }
        let authority = authorize(prepared.seeds, found, &self[1].key)?;
        let effects = vec![
            Effect::ThawAccount { account: 4, mint: 3, freeze_authority: 1, signer: authority },
            Effect::SetFreezeAuthority {
                account: 4,
                authority: 1,
                new_authority: 0,
                signer: Some(authority),
            },
        ];
        Ok(effects)
    }
}

} // verus!
