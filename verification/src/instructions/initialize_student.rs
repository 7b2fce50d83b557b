//! Enrolling a student in a subject.

use vstd::prelude::*;
use crate::account::AccountInfo;
use crate::authority::{verifies, verify, DerivedAuthority, Seeds};
use crate::codec::{cast_exact, Pubkey};
use crate::effect::{Effect, Record};
use crate::error::VireError;
use crate::states::student_account::StudentAccount;
use crate::states::uni_account::UniAccount;

verus! {

/// The argument block of the operation: one byte.
#[derive(Clone, Copy, Debug, PartialEq, Eq)]
pub struct StudentArgs {
    bump: u8,
}

impl StudentArgs {
    /// The size of the argument block in bytes.
    pub const LEN: usize = 1;

    /// The discriminant, as contracts speak of it.
    pub closed spec fn spec_bump(&self) -> u8 {
        self.bump
    }

    /// The arguments that a block of the right size holds.
    pub closed spec fn decoded(value: Seq<u8>) -> Option<StudentArgs> {
        if value.len() == Self::LEN {
            Some(StudentArgs { bump: value[0] })
        } else {
            None
        }
    }

    /// A block holds arguments exactly when it is one byte long: the
    /// discriminant.
    pub proof fn lemma_decoded(value: Seq<u8>)
        ensures
            Self::decoded(value) is Some <==> value.len() == Self::LEN,
            Self::decoded(value) matches Some(args) ==> args.bump() == value[0],
    {
    }

    /// The discriminant of the enrollment's address.
    #[verifier::when_used_as_spec(spec_bump)]
    pub fn bump(&self) -> (bump: u8)
        ensures
            bump == self.bump(),
    {
        self.bump
    }

    /// Reads the block: the discriminant. A block of any other size is
    /// refused.
    pub fn try_from(value: &[u8]) -> (r: Result<StudentArgs, VireError>)
        ensures
            (match r {
                Ok(args) => {
                    &&& Self::decoded(value@) == Some(args)
                    &&& value@.len() == Self::LEN
                    &&& args.bump() == value@[0]
                },
                Err(e) => {
                    &&& e == VireError::InvalidInstruction
                    &&& Self::decoded(value@) is None
                    &&& value@.len() != Self::LEN
                },
            }),
    {
        match cast_exact::<1>(value) {
            Ok(raw) => Ok(StudentArgs { bump: raw[0] }),
            Err(_) => Err(VireError::InvalidInstruction),
        }
    }
}

/// The authority over the enrollment's address, or why the operation is
/// refused whatever the ledger answers.
///
/// The handles are: the student, the new enrollment, the subject, the
/// institution, the protocol, the credential mint, the student's
/// credential account, and the two programs. The student signs, and the
/// subject and the institution are records of this program.
pub open spec fn initialize_student_authority_spec(
    program_id: Pubkey,
    accounts: Seq<AccountInfo>,
    args: StudentArgs,
) -> Result<DerivedAuthority, VireError> {
    if accounts.len() != 9 {
        Err(VireError::MissingHandle)
    } else if !accounts[0].is_signer {
        Err(VireError::MissingAuthorization)
    } else if accounts[2].owner != program_id || accounts[3].owner != program_id {
        Err(VireError::WrongOwner)
    } else {
        Ok(
            DerivedAuthority {
                seeds: Seeds::Student { student: accounts[0].key, subject: accounts[2].key },
                bump: args.bump(),
            },
        )
    }
}

/// What enrolling a student asks of the ledger, given the address that
/// the ledger derived for the authority of
/// `initialize_student_authority_spec` and the ledger's time.
///
/// The new enrollment's handle is verified first. Then the institution's
/// record is read, the time is taken, and the institution's counter must
/// still be able to move on. The enrollment gets the counter as its
/// number and starts credited with its first semester; the counter moves
/// on. One credential token is minted to the student under the authority
/// of the enrollment. The student hands the freeze authority over the
/// credential account to the enrollment, which freezes the account at
/// once.
pub open spec fn initialize_student_spec(
    program_id: Pubkey,
    accounts: Seq<AccountInfo>,
    args: StudentArgs,
    derived: Option<Pubkey>,
    now: Option<i64>,
) -> Result<Seq<Effect>, VireError> {
    match initialize_student_authority_spec(program_id, accounts, args) {
        Err(e) => Err(e),
        Ok(authority) => {
            if !verifies(derived, accounts[1].key) {
                Err(VireError::AddressMismatch)
            } else if UniAccount::decoded(accounts[3].data@) is None {
                Err(VireError::MalformedRecord)
            } else if now is None {
                Err(VireError::ClockUnavailable)
            } else if UniAccount::decoded(accounts[3].data@).unwrap().student_number == u64::MAX {
                Err(VireError::CounterOverflow)
            } else {
                let uni = UniAccount::decoded(accounts[3].data@).unwrap();
                Ok(
                    seq![
                        Effect::CreateAccount {
                            from: 0,
                            to: 1,
                            space: StudentAccount::LEN as u64,
                            signer: authority,
                        },
                        Effect::Store {
                            account: 1,
                            record: Record::Student(
                                StudentAccount {
                                    student_key: accounts[0].key,
                                    student_id: uni.student_number,
                                    time_start: now.unwrap(),
                                    semesters: 1,
                                    student_bump: args.bump(),
                                },
                            ),
                        },
                        Effect::Store { account: 3, record: Record::Uni(uni.student_registered()) },
                        Effect::MintToChecked {
                            mint: 5,
                            account: 6,
                            mint_authority: 1,
                            amount: 1,
                            decimals: 0,
                            signer: authority,
                        },
                        Effect::SetFreezeAuthority {
                            account: 6,
                            authority: 0,
                            new_authority: 1,
                            signer: None,
                        },
                        Effect::FreezeAccount {
                            account: 6,
                            mint: 5,
                            freeze_authority: 1,
                            signer: authority,
                        },
                    ],
                )
            }
        },
    }
}

/// A student is enrolled at the enrollment's derived address or not at
/// all. Whatever else may be wrong with the call, where the handles are
/// well formed and the new enrollment's handle is not the address that
/// the ledger derived, or the ledger derived none, the operation is
/// refused for that reason; and an accepted operation was given the
/// derived address.
pub proof fn lemma_enrollment_needs_its_derived_address(
    program_id: Pubkey,
    accounts: Seq<AccountInfo>,
    args: StudentArgs,
    derived: Option<Pubkey>,
    now: Option<i64>,
)
    requires
        initialize_student_authority_spec(program_id, accounts, args) is Ok,
    ensures
        derived != Some(accounts[1].key) ==> initialize_student_spec(
            program_id,
            accounts,
            args,
            derived,
            now,
        ) == Err::<Seq<Effect>, VireError>(VireError::AddressMismatch),
        initialize_student_spec(program_id, accounts, args, derived, now) is Ok ==> derived
            == Some(accounts[1].key),
{
}

/// The enrollment that is stored names the student who signed, takes
/// the number at which the institution's counter stood, is credited with
/// one semester and starts its clock at the ledger's time; the counter that
/// is stored with it stands one higher. It is stored at the derived
/// address, in storage of the size of its record. The credential ends up
/// frozen under the authority of the enrollment.
pub proof fn lemma_stored_enrollment(
    program_id: Pubkey,
    accounts: Seq<AccountInfo>,
    args: StudentArgs,
    derived: Option<Pubkey>,
    now: Option<i64>,
)
    requires
        initialize_student_spec(program_id, accounts, args, derived, now) is Ok,
    ensures
        ({
            let effects = initialize_student_spec(program_id, accounts, args, derived, now)->Ok_0;
            let before = UniAccount::decoded(accounts[3].data@).unwrap();
            &&& effects.len() == 6
            &&& effects[0] matches Effect::CreateAccount { from: 0, to: 1, space, signer }
            &&& effects[1] matches Effect::Store { account: 1, record: Record::Student(student) }
            &&& student.encoding().len() == space
            &&& Some(accounts[1].key) == derived
            &&& accounts[0].is_signer
            &&& student.student_key == accounts[0].key
            &&& student.student_id == before.student_number
            &&& student.semesters == 1
            &&& Some(student.time_start) == now
            &&& effects[2] matches Effect::Store { account: 3, record: Record::Uni(after) }
            &&& after == before.student_registered()
            &&& after.student_number == before.student_number + 1
            &&& effects[5] == Effect::FreezeAccount { account: 6, mint: 5, freeze_authority: 1, signer }
        }),
{
    let effects = initialize_student_spec(program_id, accounts, args, derived, now)->Ok_0;
    match effects[1] {
        Effect::Store { record: Record::Student(student), .. } => {
            student.lemma_decoded_encoding();
        },
        _ => {},
    }
}

/// Enrolling a student, on the list of record handles of the call.
pub trait InitializeStudentContext {
    /// Which address the ledger has to derive before `initialize_student`.
    fn initialize_student_authority(&self, program_id: &Pubkey, args: &StudentArgs) -> Result<
        DerivedAuthority,
        VireError,
    >;

    /// The effects of the operation, or the reason why it is refused.
    fn initialize_student(
        &self,
        program_id: &Pubkey,
        args: &StudentArgs,
        derived: &Option<Pubkey>,
        now: Option<i64>,
    ) -> Result<Vec<Effect>, VireError>;
}

impl InitializeStudentContext for [AccountInfo] {
    fn initialize_student_authority(&self, program_id: &Pubkey, args: &StudentArgs) -> (r: Result<
        DerivedAuthority,
        VireError,
    >)
        ensures
            r == initialize_student_authority_spec(*program_id, self@, *args),
    {
        if self.len() != 9 {
            return Err(VireError::MissingHandle);
        }
        if !self[0].is_signer {
            return Err(VireError::MissingAuthorization);
        }
        if !self[2].is_owned_by(program_id) || !self[3].is_owned_by(program_id) {
            return Err(VireError::WrongOwner);
        }
        Ok(
            DerivedAuthority {
                seeds: Seeds::Student { student: self[0].key, subject: self[2].key },
                bump: args.bump,
            },
        )
    }

    fn initialize_student(
        &self,
        program_id: &Pubkey,
        args: &StudentArgs,
        derived: &Option<Pubkey>,
        now: Option<i64>,
    ) -> (r: Result<Vec<Effect>, VireError>)
        ensures
            (match r {
                Ok(effects) => initialize_student_spec(*program_id, self@, *args, *derived, now)
                    == Ok::<Seq<Effect>, VireError>(effects@),
                Err(e) => initialize_student_spec(*program_id, self@, *args, *derived, now)
                    == Err::<Seq<Effect>, VireError>(e),
            }),
    {
        let authority = self.initialize_student_authority(program_id, args)?;
        verify(derived, &self[1].key)?;
        let uni = UniAccount::from_bytes(self[3].data.as_slice())?;
        let time_start: i64 = match now {
            Some(timestamp) => timestamp,
            None => {
                return Err(VireError::ClockUnavailable);
            },
        };
        let (student_id, next_uni) = uni.register_student()?;
        let student = StudentAccount::new(self[0].key, student_id, time_start, args.bump);
        let effects = vec![
            Effect::CreateAccount {
                from: 0,
                to: 1,
                space: StudentAccount::LEN as u64,
                signer: authority,
            },
            Effect::Store { account: 1, record: Record::Student(student) },
            Effect::Store { account: 3, record: Record::Uni(next_uni) },
            Effect::MintToChecked {
                mint: 5,
                account: 6,
                mint_authority: 1,
                amount: 1,
                decimals: 0,
                signer: authority,
            },
            Effect::SetFreezeAuthority { account: 6, authority: 0, new_authority: 1, signer: None },
            Effect::FreezeAccount { account: 6, mint: 5, freeze_authority: 1, signer: authority },
        ];
        Ok(effects)
    }
}

} // verus!
