//! Adding a subject to an institution's catalog.

use vstd::prelude::*;
use crate::account::AccountInfo;
use crate::authority::{verifies, verify, DerivedAuthority, Seeds};
use crate::codec::{cast_exact, le_u64, lemma_u64_le_of_le_u64, u64_at, Pubkey};
use crate::effect::{Effect, Record};
use crate::error::VireError;
use crate::fees::{checked_percent_fee, percent_fee};
use crate::states::subject_account::SubjectAccount;
use crate::states::uni_account::UniAccount;
use crate::states::vire_account::VireAccount;

verus! {

/// The argument block of the operation: 25 bytes.
#[derive(Clone, Copy, Debug, PartialEq, Eq)]
pub struct SubjectArgs {
    tution_fee: u64,
    max_semester: u64,
    semester_months: u64,
    bump: u8,
}

impl SubjectArgs {
    /// The size of the argument block in bytes.
    pub const LEN: usize = 25;

    /// The tuition fee, as contracts speak of it.
    pub closed spec fn spec_tution_fee(&self) -> u64 {
        self.tution_fee
    }

    /// The number of semesters, as contracts speak of it.
    pub closed spec fn spec_max_semester(&self) -> u64 {
        self.max_semester
    }

    /// The months per semester, as contracts speak of them.
    pub closed spec fn spec_semester_months(&self) -> u64 {
        self.semester_months
    }

    /// The discriminant, as contracts speak of it.
    pub closed spec fn spec_bump(&self) -> u8 {
        self.bump
    }

    /// The arguments that a block of the right size holds.
    pub closed spec fn decoded(value: Seq<u8>) -> Option<SubjectArgs> {
        if value.len() == Self::LEN {
            Some(
                SubjectArgs {
                    tution_fee: le_u64(value.subrange(0, 8)) as u64,
                    max_semester: le_u64(value.subrange(8, 16)) as u64,
                    semester_months: le_u64(value.subrange(16, 24)) as u64,
                    bump: value[24],
                },
            )
        } else {
            None
        }
    }

    /// A block holds arguments exactly when it is 25 bytes long: the
    /// tuition fee at byte 0, the number of semesters at 8, the months per
    /// semester at 16, the discriminant at 24.
    pub proof fn lemma_decoded(value: Seq<u8>)
        ensures
            Self::decoded(value) is Some <==> value.len() == Self::LEN,
            (Self::decoded(value) matches Some(args) ==> {
                &&& args.tution_fee() == le_u64(value.subrange(0, 8))
                &&& args.max_semester() == le_u64(value.subrange(8, 16))
                &&& args.semester_months() == le_u64(value.subrange(16, 24))
                &&& args.bump() == value[24]
            }),
    {
        if value.len() == 25 {
            lemma_u64_le_of_le_u64(value.subrange(0, 8));
            lemma_u64_le_of_le_u64(value.subrange(8, 16));
            lemma_u64_le_of_le_u64(value.subrange(16, 24));
        }
    }

    /// The tuition fee for all semesters, in the smallest currency unit.
    #[verifier::when_used_as_spec(spec_tution_fee)]
    pub fn tution_fee(&self) -> (fee: u64)
        ensures
            fee == self.tution_fee(),
    {
        self.tution_fee
    }

    /// The number of semesters.
    #[verifier::when_used_as_spec(spec_max_semester)]
    pub fn max_semester(&self) -> (count: u64)
        ensures
            count == self.max_semester(),
    {
        self.max_semester
    }

    /// The number of months in a semester.
    #[verifier::when_used_as_spec(spec_semester_months)]
    pub fn semester_months(&self) -> (months: u64)
        ensures
            months == self.semester_months(),
    {
        self.semester_months
    }

    /// The discriminant of the new subject's address.
    #[verifier::when_used_as_spec(spec_bump)]
    pub fn bump(&self) -> (bump: u8)
        ensures
            bump == self.bump(),
    {
        self.bump
    }

    /// Reads the block: the tuition fee at byte 0, the number of
    /// semesters at 8, the months per semester at 16, the discriminant at
    /// 24. A block of any other size is refused.
    pub fn try_from(value: &[u8]) -> (r: Result<SubjectArgs, VireError>)
        ensures
            (match r {
                Ok(args) => {
                    &&& Self::decoded(value@) == Some(args)
                    &&& value@.len() == Self::LEN
                    &&& args.tution_fee() == le_u64(value@.subrange(0, 8))
                    &&& args.max_semester() == le_u64(value@.subrange(8, 16))
                    &&& args.semester_months() == le_u64(value@.subrange(16, 24))
                    &&& args.bump() == value@[24]
                },
                Err(e) => {
                    &&& e == VireError::InvalidInstruction
                    &&& Self::decoded(value@) is None
                    &&& value@.len() != Self::LEN
                },
            }),
    {
        match cast_exact::<25>(value) {
            Ok(raw) => Ok(
                SubjectArgs {
                    tution_fee: u64_at(&raw, 0),
                    max_semester: u64_at(&raw, 8),
                    semester_months: u64_at(&raw, 16),
                    bump: raw[24],
                },
            ),
            Err(_) => Err(VireError::InvalidInstruction),
        }
    }
}

/// The authority over the new subject's address, or why the operation
/// is refused whatever address the ledger derives.
///
/// The handles are: the institution's administrator, the fee mint, the
/// new subject, the institution, the institution's fee account, the
/// protocol, the treasury, the collection mint, the institution's
/// collection account, and the two programs. The administrator signs,
/// and the institution and the protocol are records of this program. The
/// subject's number, which is one of its seeds, is the number at which
/// the institution's counter stands.
pub open spec fn add_subject_authority_spec(
    program_id: Pubkey,
    accounts: Seq<AccountInfo>,
    args: SubjectArgs,
) -> Result<DerivedAuthority, VireError> {
    if accounts.len() != 11 {
        Err(VireError::MissingHandle)
    } else if !accounts[0].is_signer {
        Err(VireError::MissingAuthorization)
    } else if accounts[3].owner != program_id || accounts[5].owner != program_id {
        Err(VireError::WrongOwner)
    } else if UniAccount::decoded(accounts[3].data@) is None || VireAccount::decoded(
        accounts[5].data@,
    ) is None {
        Err(VireError::MalformedRecord)
    } else {
        Ok(
            DerivedAuthority {
                seeds: Seeds::Subject {
                    uni: accounts[3].key,
                    subject_code: UniAccount::decoded(accounts[3].data@).unwrap().subject_number,
                },
                bump: args.bump(),
            },
        )
    }
}

/// What adding a subject asks of the ledger, given the address that the
/// ledger derived for the authority of `add_subject_authority_spec`.
///
/// The new subject's handle is verified first. A subject has at least
/// one semester, because its fee will be divided by their number. The
/// subject gets the institution's counter as its number, and the counter
/// moves on. The institution pays the protocol its percentage of the
/// tuition fee, and one collection token is minted to the institution
/// under the authority of the new subject.
pub open spec fn add_subject_spec(
    program_id: Pubkey,
    accounts: Seq<AccountInfo>,
    args: SubjectArgs,
    derived: Option<Pubkey>,
) -> Result<Seq<Effect>, VireError> {
    match add_subject_authority_spec(program_id, accounts, args) {
        Err(e) => Err(e),
        Ok(authority) => {
            let uni = UniAccount::decoded(accounts[3].data@).unwrap();
            let vire = VireAccount::decoded(accounts[5].data@).unwrap();
            let fee = percent_fee(args.tution_fee() as nat, vire.transaction_fee_uni as nat);
            if !verifies(derived, accounts[2].key) {
                Err(VireError::AddressMismatch)
            } else if args.max_semester() == 0 {
                Err(VireError::DivisionHazard)
            } else if uni.subject_number == u64::MAX {
                Err(VireError::CounterOverflow)
            } else if fee > u64::MAX {
                Err(VireError::ArithmeticOverflow)
            } else {
                Ok(
                    seq![
                        Effect::CreateAccount {
                            from: 0,
                            to: 2,
                            space: SubjectAccount::LEN as u64,
                            signer: authority,
                        },
                        Effect::Store {
                            account: 2,
                            record: Record::Subject(
                                SubjectAccount {
                                    uni_key: accounts[3].key,
                                    subject_code: uni.subject_number,
                                    tution_fee: args.tution_fee(),
                                    max_semester: args.max_semester(),
                                    semester_months: args.semester_months(),
                                    subject_bump: args.bump(),
                                },
                            ),
                        },
                        Effect::Store { account: 3, record: Record::Uni(uni.subject_registered()) },
                        Effect::TransferChecked {
                            from: 4,
                            mint: 1,
                            to: 6,
                            authority: 0,
                            amount: fee as u64,
                        },
                        Effect::MintToChecked {
                            mint: 7,
                            account: 8,
                            mint_authority: 2,
                            amount: 1,
                            decimals: 0,
                            signer: authority,
                        },
                    ],
                )
            }
        },
    }
}

/// A subject is added at its derived address or not at all. Whatever
/// else may be wrong with the call, where the handles are well formed and
/// the new subject's handle is not the address that the ledger derived,
/// or the ledger derived none, the operation is refused for that reason;
/// and an accepted operation was given the derived address.
pub proof fn lemma_subject_needs_its_derived_address(
    program_id: Pubkey,
    accounts: Seq<AccountInfo>,
    args: SubjectArgs,
    derived: Option<Pubkey>,
)
    requires
        add_subject_authority_spec(program_id, accounts, args) is Ok,
    ensures
        derived != Some(accounts[2].key) ==> add_subject_spec(program_id, accounts, args, derived)
            == Err::<Seq<Effect>, VireError>(VireError::AddressMismatch),
        add_subject_spec(program_id, accounts, args, derived) is Ok ==> derived == Some(
            accounts[2].key,
        ),
{
}

/// Every subject that is stored has at least one semester, takes the
/// number at which the institution's counter stood, and names the
/// institution's address; the counter that is stored with it stands one
/// higher. The storage asked for at the subject's address is the size of
/// the subject's record.
pub proof fn lemma_stored_subject(
    program_id: Pubkey,
    accounts: Seq<AccountInfo>,
    args: SubjectArgs,
    derived: Option<Pubkey>,
)
    requires
        add_subject_spec(program_id, accounts, args, derived) is Ok,
    ensures
        ({
            let effects = add_subject_spec(program_id, accounts, args, derived)->Ok_0;
            let before = UniAccount::decoded(accounts[3].data@).unwrap();
            &&& effects.len() == 5
            &&& effects[0] matches Effect::CreateAccount { from: 0, to: 2, space, .. }
            &&& effects[1] matches Effect::Store { account: 2, record: Record::Subject(subject) }
            &&& subject.encoding().len() == space
            &&& subject.well_formed()
            &&& subject.subject_code == before.subject_number
            &&& subject.uni_key == accounts[3].key
            &&& effects[2] matches Effect::Store { account: 3, record: Record::Uni(after) }
            &&& after == before.subject_registered()
            &&& after.subject_number == before.subject_number + 1
            &&& before.after_subjects(1) == Some(after)
        }),
{
    let before = UniAccount::decoded(accounts[3].data@).unwrap();
    assert(before.after_subjects(0) == Some(before));
    reveal_with_fuel(UniAccount::after_subjects, 2);
    let effects = add_subject_spec(program_id, accounts, args, derived)->Ok_0;
    match effects[1] {
        Effect::Store { record: Record::Subject(subject), .. } => {
            subject.lemma_decoded_encoding();
        },
        _ => {},
    }
}

/// Subjects follow one another. Where the institution's record holds what
/// one accepted call asked to store, the subject of the next accepted
/// call gets the number one higher than the subject of the first.
pub proof fn lemma_consecutive_subjects(
    program_id: Pubkey,
    first: Seq<AccountInfo>,
    first_args: SubjectArgs,
    first_derived: Option<Pubkey>,
    second: Seq<AccountInfo>,
    second_args: SubjectArgs,
    second_derived: Option<Pubkey>,
)
    requires
        add_subject_spec(program_id, first, first_args, first_derived) is Ok,
        add_subject_spec(program_id, second, second_args, second_derived) is Ok,
        (add_subject_spec(program_id, first, first_args, first_derived)->Ok_0[2] matches Effect::Store {
            record,
            ..
        } && second[3].data@ == record.encoding()),
    ensures
        ({
            let earlier = add_subject_spec(program_id, first, first_args, first_derived)->Ok_0;
            let later = add_subject_spec(program_id, second, second_args, second_derived)->Ok_0;
            &&& earlier[1] matches Effect::Store { record: Record::Subject(one), .. }
            &&& later[1] matches Effect::Store { record: Record::Subject(next), .. }
            &&& next.subject_code == one.subject_code + 1
        }),
{
    let before = UniAccount::decoded(first[3].data@).unwrap();
    before.subject_registered().lemma_decoded_encoding();
}

/// Adding a subject, on the list of record handles of the call.
pub trait AddSubjectContext {
    /// Which address the ledger has to derive before `add_subject`.
    fn add_subject_authority(&self, program_id: &Pubkey, args: &SubjectArgs) -> Result<
        DerivedAuthority,
        VireError,
    >;

    /// The effects of the operation, or the reason why it is refused.
    fn add_subject(
        &self,
        program_id: &Pubkey,
        args: &SubjectArgs,
        derived: &Option<Pubkey>,
    ) -> Result<Vec<Effect>, VireError>;
}

/// What adding a subject settles before any address is derived.
struct Prepared {
    authority: DerivedAuthority,
    uni: UniAccount,
    vire: VireAccount,
}

/// Checks the handles, reads the two records, and names the authority.
fn prepare(accounts: &[AccountInfo], program_id: &Pubkey, args: &SubjectArgs) -> (r: Result<
    Prepared,
    VireError,
>)
    ensures
        (match r {
            Ok(prepared) => {
                &&& add_subject_authority_spec(*program_id, accounts@, *args) == Ok::<
                    DerivedAuthority,
                    VireError,
                >(prepared.authority)
                &&& UniAccount::decoded(accounts@[3].data@) == Some(prepared.uni)
                &&& VireAccount::decoded(accounts@[5].data@) == Some(prepared.vire)
            },
            Err(e) => add_subject_authority_spec(*program_id, accounts@, *args) == Err::<
                DerivedAuthority,
                VireError,
            >(e),
        }),
{
    if accounts.len() != 11 {
        return Err(VireError::MissingHandle);
    }
    if !accounts[0].is_signer {
        return Err(VireError::MissingAuthorization);
    }
    if !accounts[3].is_owned_by(program_id) || !accounts[5].is_owned_by(program_id) {
        return Err(VireError::WrongOwner);
    }
    let uni = UniAccount::from_bytes(accounts[3].data.as_slice())?;
    let vire = VireAccount::from_bytes(accounts[5].data.as_slice())?;
    Ok(
        Prepared {
            authority: DerivedAuthority {
                seeds: Seeds::Subject { uni: accounts[3].key, subject_code: uni.subject_number },
                bump: args.bump,
            },
            uni,
            vire,
        },
    )
}

impl AddSubjectContext for [AccountInfo] {
    fn add_subject_authority(&self, program_id: &Pubkey, args: &SubjectArgs) -> (r: Result<
        DerivedAuthority,
        VireError,
    >)
        ensures
            r == add_subject_authority_spec(*program_id, self@, *args),
    {
        let prepared = prepare(self, program_id, args)?;
        Ok(prepared.authority)
    }

    fn add_subject(
        &self,
        program_id: &Pubkey,
        args: &SubjectArgs,
        derived: &Option<Pubkey>,
    ) -> (r: Result<Vec<Effect>, VireError>)
        ensures
            (match r {
                Ok(effects) => add_subject_spec(*program_id, self@, *args, *derived) == Ok::<
                    Seq<Effect>,
                    VireError,
                >(effects@),
                Err(e) => add_subject_spec(*program_id, self@, *args, *derived) == Err::<
                    Seq<Effect>,
                    VireError,
                >(e),
            }),
    {
        let prepared = prepare(self, program_id, args)?;
        verify(derived, &self[2].key)?;
        if args.max_semester == 0 {
            return Err(VireError::DivisionHazard);
        }
        let (subject_code, next_uni) = prepared.uni.register_subject()?;
        let fee = checked_percent_fee(args.tution_fee, prepared.vire.transaction_fee_uni)?;
        let subject = SubjectAccount {
            uni_key: self[3].key,
            subject_code,
            tution_fee: args.tution_fee,
            max_semester: args.max_semester,
            semester_months: args.semester_months,
            subject_bump: args.bump,
        };
        let effects = vec![
            Effect::CreateAccount {
                from: 0,
                to: 2,
                space: SubjectAccount::LEN as u64,
                signer: prepared.authority,
            },
            Effect::Store { account: 2, record: Record::Subject(subject) },
            Effect::Store { account: 3, record: Record::Uni(next_uni) },
            Effect::TransferChecked { from: 4, mint: 1, to: 6, authority: 0, amount: fee },
            Effect::MintToChecked {
                mint: 7,
                account: 8,
                mint_authority: 2,
                amount: 1,
                decimals: 0,
                signer: prepared.authority,
            },
        ];
        Ok(effects)
    }
}

} // verus!
