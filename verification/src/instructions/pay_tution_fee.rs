//! Paying the fee of one semester.

use vstd::prelude::*;
use crate::account::AccountInfo;
use crate::codec::same_key;
use crate::effect::{Effect, Record};
use crate::error::VireError;
use crate::fees::{checked_percent_fee, checked_semester_share, lemma_percent_fee_bounded,
    lemma_semester_shares_bounded, percent_fee, semester_share};
use crate::states::student_account::StudentAccount;
use crate::states::subject_account::SubjectAccount;
use crate::states::uni_account::UniAccount;
use crate::states::vire_account::VireAccount;

verus! {

/// What paying a semester's fee asks of the ledger, given the ledger's
/// time.
///
/// The handles are: the student, the fee mint, the institution's
/// administrator, the enrollment, the student's fee account, the subject,
/// the institution, the institution's fee account, the protocol, the
/// treasury, and the two programs. The student signs, and the
/// administrator's handle is the one that the institution's record names.
///
/// The fee of a semester is the tuition fee divided by the number of
/// semesters. The student pays the protocol its percentage of that fee,
/// and pays the fee itself to the institution. The enrollment's counter
/// moves on by one.
pub open spec fn pay_tution_fee_spec(accounts: Seq<AccountInfo>, now: Option<i64>) -> Result<
    Seq<Effect>,
    VireError,
> {
    if accounts.len() != 12 {
        Err(VireError::MissingHandle)
    } else if !accounts[0].is_signer {
        Err(VireError::MissingAuthorization)
    } else if VireAccount::decoded(accounts[8].data@) is None || UniAccount::decoded(
        accounts[6].data@,
    ) is None || SubjectAccount::decoded(accounts[5].data@) is None || StudentAccount::decoded(
        accounts[3].data@,
    ) is None {
        Err(VireError::MalformedRecord)
    } else {
        let vire = VireAccount::decoded(accounts[8].data@).unwrap();
        let uni = UniAccount::decoded(accounts[6].data@).unwrap();
        let subject = SubjectAccount::decoded(accounts[5].data@).unwrap();
        let student = StudentAccount::decoded(accounts[3].data@).unwrap();
        let share = semester_share(subject.tution_fee as nat, subject.max_semester as nat);
        let cut = percent_fee(share, vire.transaction_fee_student as nat);
        if accounts[2].key != uni.uni_key {
            Err(VireError::AddressMismatch)
        } else {
            match student.semester_paid(subject.max_semester, now) {
                Err(e) => Err(e),
                Ok(paid) => {
                    if subject.max_semester == 0 {
                        Err(VireError::DivisionHazard)
                    } else if cut > u64::MAX {
                        Err(VireError::ArithmeticOverflow)
                    } else {
                        Ok(
                            seq![
                                Effect::TransferChecked {
                                    from: 4,
                                    mint: 1,
                                    to: 9,
                                    authority: 0,
                                    amount: cut as u64,
                                },
                                Effect::TransferChecked {
                                    from: 4,
                                    mint: 1,
                                    to: 7,
                                    authority: 0,
                                    amount: share as u64,
                                },
                                Effect::Store { account: 3, record: Record::Student(paid) },
                            ],
                        )
                    }
                },
            }
        }
    }
}

/// Whether a list of handles has the shape that a payment expects: the
/// right number of handles, the student's signature, four records that
/// decode, and the administrator that the institution names.
pub open spec fn payment_is_well_formed(accounts: Seq<AccountInfo>) -> bool {
    &&& accounts.len() == 12
    &&& accounts[0].is_signer
    &&& VireAccount::decoded(accounts[8].data@) is Some
    &&& UniAccount::decoded(accounts[6].data@) is Some
    &&& SubjectAccount::decoded(accounts[5].data@) is Some
    &&& StudentAccount::decoded(accounts[3].data@) is Some
    &&& accounts[2].key == UniAccount::decoded(accounts[6].data@).unwrap().uni_key
}

/// A payment is refused once the counter has passed the number of
/// semesters, and accepted while the counter stands at that number: the
/// counter then moves one past it. The accepted case leaves out what else
/// can stop a payment: a first payment without the ledger's time, a
/// counter or a fee at the end of its range, a subject without semesters.
pub proof fn lemma_payment_at_the_limit(accounts: Seq<AccountInfo>, now: Option<i64>)
    requires
        payment_is_well_formed(accounts),
    ensures
        ({
            let subject = SubjectAccount::decoded(accounts[5].data@).unwrap();
            let student = StudentAccount::decoded(accounts[3].data@).unwrap();
            let vire = VireAccount::decoded(accounts[8].data@).unwrap();
            let share = semester_share(subject.tution_fee as nat, subject.max_semester as nat);
            let outcome = pay_tution_fee_spec(accounts, now);
            &&& student.semesters == subject.max_semester + 1 ==> outcome == Err::<
                Seq<Effect>,
                VireError,
            >(VireError::SemesterLimitExceeded)
            &&& student.semesters > subject.max_semester ==> outcome == Err::<
                Seq<Effect>,
                VireError,
            >(VireError::SemesterLimitExceeded)
            &&& {
                &&& student.semesters == subject.max_semester
                &&& 0 < subject.max_semester < u64::MAX
                &&& student.semesters == 1 ==> now is Some
                &&& percent_fee(share, vire.transaction_fee_student as nat) <= u64::MAX
            } ==> {
                &&& outcome is Ok
                &&& outcome->Ok_0.len() == 3
                &&& outcome->Ok_0[2] matches Effect::Store { account, record: Record::Student(paid) }
                &&& account == 3
                &&& paid.semesters == subject.max_semester + 1
            }
        }),
{
}

/// A subject with at least one semester never makes a payment fail on a
/// division.
pub proof fn lemma_no_division_hazard(accounts: Seq<AccountInfo>, now: Option<i64>)
    requires
        payment_is_well_formed(accounts),
        SubjectAccount::decoded(accounts[5].data@).unwrap().well_formed(),
    ensures
        pay_tution_fee_spec(accounts, now) != Err::<Seq<Effect>, VireError>(
            VireError::DivisionHazard,
        ),
{
}

/// What `calls` payments move in all, where each moves `share` to the
/// institution and `cut` to the protocol.
pub open spec fn total_paid(share: nat, cut: nat, calls: nat) -> nat
    decreases calls,
{
    if calls == 0 {
        0
    } else {
        total_paid(share, cut, (calls - 1) as nat) + share + cut
    }
}

/// Every accepted payment moves the same two amounts, whatever the
/// enrollment's counter: the protocol's percentage of a semester's fee
/// to the treasury, and the semester's fee to the institution.
pub proof fn lemma_payment_amounts(accounts: Seq<AccountInfo>, now: Option<i64>)
    requires
        pay_tution_fee_spec(accounts, now) is Ok,
    ensures
        ({
            let subject = SubjectAccount::decoded(accounts[5].data@).unwrap();
            let vire = VireAccount::decoded(accounts[8].data@).unwrap();
            let share = semester_share(subject.tution_fee as nat, subject.max_semester as nat);
            let cut = percent_fee(share, vire.transaction_fee_student as nat);
            let effects = pay_tution_fee_spec(accounts, now)->Ok_0;
            &&& effects[0] == Effect::TransferChecked {
                from: 4,
                mint: 1,
                to: 9,
                authority: 0,
                amount: cut as u64,
            }
            &&& effects[1] == Effect::TransferChecked {
                from: 4,
                mint: 1,
                to: 7,
                authority: 0,
                amount: share as u64,
            }
            &&& cut <= u64::MAX
            &&& share <= u64::MAX
        }),
{
}

/// The fees of a whole degree. For a tuition fee spread over `semesters`
/// semesters and a protocol percentage `percent`, the payments of all
/// semesters together move the semester's fee and the protocol's cut
/// once per semester. The institution never gets more than the tuition
/// fee, and with a percentage of at most a hundred no single transfer is
/// larger than a semester's fee.
pub proof fn lemma_fee_split(tuition: nat, semesters: nat, percent: nat)
    requires
        semesters > 0,
    ensures
        ({
            let share = semester_share(tuition, semesters);
            let cut = percent_fee(share, percent);
            &&& total_paid(share, cut, semesters) == semesters * share + semesters * cut
            &&& semesters * share <= tuition
            &&& percent <= 100 ==> cut <= share
        }),
{
    let share = semester_share(tuition, semesters);
    let cut = percent_fee(share, percent);
    lemma_total_paid(share, cut, semesters);
    lemma_semester_shares_bounded(tuition, semesters);
    if percent <= 100 {
        lemma_percent_fee_bounded(share, percent);
    }
}

/// The sum of equal payments is their number times one of them.
proof fn lemma_total_paid(share: nat, cut: nat, calls: nat)
    ensures
        total_paid(share, cut, calls) == calls * share + calls * cut,
    decreases calls,
{
    if calls == 0 {
        assert(calls * share + calls * cut == 0) by (nonlinear_arith)
            requires
                calls == 0,
        ;
    } else {
        let before = (calls - 1) as nat;
        lemma_total_paid(share, cut, before);
        assert(calls * share + calls * cut == before * share + before * cut + share + cut)
            by (nonlinear_arith)
            requires
                calls == before + 1,
        ;
    }
}

/// Paying a semester's fee, on the list of record handles of the call.
pub trait PayTutionFeeContext {
    /// The effects of the operation, or the reason why it is refused.
    fn pay_tution_fee(&self, now: Option<i64>) -> Result<Vec<Effect>, VireError>;
}

impl PayTutionFeeContext for [AccountInfo] {
    fn pay_tution_fee(&self, now: Option<i64>) -> (r: Result<Vec<Effect>, VireError>)
        ensures
            (match r {
                Ok(effects) => pay_tution_fee_spec(self@, now) == Ok::<Seq<Effect>, VireError>(
                    effects@,
                ),
                Err(e) => pay_tution_fee_spec(self@, now) == Err::<Seq<Effect>, VireError>(e),
            }),
    {
        if self.len() != 12 {
            return Err(VireError::MissingHandle);
        }
        if !self[0].is_signer {
            return Err(VireError::MissingAuthorization);
        }
        let vire = VireAccount::from_bytes(self[8].data.as_slice())?;
        let uni = UniAccount::from_bytes(self[6].data.as_slice())?;
        let subject = SubjectAccount::from_bytes(self[5].data.as_slice())?;
        let student = StudentAccount::from_bytes(self[3].data.as_slice())?;
        if !same_key(&self[2].key, &uni.uni_key) {
            return Err(VireError::AddressMismatch);
        }
        let paid = student.pay_semester(subject.max_semester, now)?;
        let share = checked_semester_share(subject.tution_fee, subject.max_semester)?;
        let cut = checked_percent_fee(share, vire.transaction_fee_student)?;
        let effects = vec![
            Effect::TransferChecked { from: 4, mint: 1, to: 9, authority: 0, amount: cut },
            Effect::TransferChecked { from: 4, mint: 1, to: 7, authority: 0, amount: share },
            Effect::Store { account: 3, record: Record::Student(paid) },
        ];
        Ok(effects)
    }
}

} // verus!
