//! Registering an institution with a protocol.

use vstd::prelude::*;
use crate::account::AccountInfo;
use crate::authority::{verifies, verify, DerivedAuthority, Seeds};
use crate::codec::{cast_exact, Pubkey};
use crate::effect::{Effect, Record};
use crate::error::VireError;
use crate::states::uni_account::UniAccount;
use crate::states::vire_account::VireAccount;

verus! {

/// The argument block of the operation: one byte.
#[derive(Clone, Copy, Debug, PartialEq, Eq)]
pub struct UniArgs {
    bump: u8,
}

impl UniArgs {
    /// The size of the argument block in bytes.
    pub const LEN: usize = 1;

    /// The discriminant, as contracts speak of it.
    pub closed spec fn spec_bump(&self) -> u8 {
        self.bump
    }

    /// The arguments that a block of the right size holds.
    pub closed spec fn decoded(value: Seq<u8>) -> Option<UniArgs> {
        if value.len() == Self::LEN {
            Some(UniArgs { bump: value[0] })
        } else {
            None
        }
    }

    /// A block holds arguments exactly when it is one byte long: the
    /// discriminant.
    pub proof fn lemma_decoded(value: Seq<u8>)
        ensures
            Self::decoded(value) is Some <==> value.len() == Self::LEN,
            Self::decoded(value) matches Some(args) ==> args.bump() == value[0],
    {
    }

    /// The discriminant of the institution's address.
    #[verifier::when_used_as_spec(spec_bump)]
    pub fn bump(&self) -> (bump: u8)
        ensures
            bump == self.bump(),
    {
        self.bump
    }

    /// Reads the block: the discriminant. A block of any other size is
    /// refused.
    pub fn try_from(value: &[u8]) -> (r: Result<UniArgs, VireError>)
        ensures
            (match r {
                Ok(args) => {
                    &&& Self::decoded(value@) == Some(args)
                    &&& value@.len() == Self::LEN
                    &&& args.bump() == value@[0]
                },
                Err(e) => {
                    &&& e == VireError::InvalidInstruction
                    &&& Self::decoded(value@) is None
                    &&& value@.len() != Self::LEN
                },
            }),
    {
        match cast_exact::<1>(value) {
            Ok(raw) => Ok(UniArgs { bump: raw[0] }),
            Err(_) => Err(VireError::InvalidInstruction),
        }
    }
}

/// The authority over the institution's address, or why the operation is
/// refused whatever address the ledger derives.
///
/// The handles are: the administrator, the new institution, the protocol
/// and the system program. The administrator signs, and the protocol is a
/// record of this program.
pub open spec fn initialize_uni_authority_spec(
    program_id: Pubkey,
    accounts: Seq<AccountInfo>,
    args: UniArgs,
) -> Result<DerivedAuthority, VireError> {
    if accounts.len() != 4 {
        Err(VireError::MissingHandle)
    } else if !accounts[0].is_signer {
        Err(VireError::MissingAuthorization)
    } else if accounts[2].owner != program_id {
        Err(VireError::WrongOwner)
    } else {
        Ok(
            DerivedAuthority {
                seeds: Seeds::Uni { admin: accounts[0].key, vire: accounts[2].key },
                bump: args.bump(),
            },
        )
    }
}

/// What registering an institution asks of the ledger, given the address
/// that the ledger derived for the authority of
/// `initialize_uni_authority_spec`.
///
/// The new institution's handle is verified first. Then the protocol's
/// record is read, whose counter must still be able to move on. The
/// ledger is asked for storage for the institution, in it the protocol's
/// counter as the institution's number and both its own counters at 0,
/// and for the protocol's counter moved on by one.
pub open spec fn initialize_uni_spec(
    program_id: Pubkey,
    accounts: Seq<AccountInfo>,
    args: UniArgs,
    derived: Option<Pubkey>,
) -> Result<Seq<Effect>, VireError> {
    match initialize_uni_authority_spec(program_id, accounts, args) {
        Err(e) => Err(e),
        Ok(authority) => {
            if !verifies(derived, accounts[1].key) {
                Err(VireError::AddressMismatch)
            } else if VireAccount::decoded(accounts[2].data@) is None {
                Err(VireError::MalformedRecord)
            } else if VireAccount::decoded(accounts[2].data@).unwrap().uni_number == u64::MAX {
                Err(VireError::CounterOverflow)
            } else {
                let vire = VireAccount::decoded(accounts[2].data@).unwrap();
                Ok(
                    seq![
                        Effect::CreateAccount {
                            from: 0,
                            to: 1,
                            space: UniAccount::LEN as u64,
                            signer: authority,
                        },
                        Effect::Store {
                            account: 1,
                            record: Record::Uni(
                                UniAccount {
                                    uni_key: accounts[1].key,
                                    vire_key: accounts[2].key,
                                    uni_id: vire.uni_number,
                                    subject_number: 0,
                                    student_number: 0,
                                    uni_bump: args.bump(),
                                },
                            ),
                        },
                        Effect::Store { account: 2, record: Record::Vire(vire.uni_registered()) },
                    ],
                )
            }
        },
    }
}

/// An institution is registered at its derived address or not at all.
/// Whatever else may be wrong with the call, where the handles are well
/// formed and the new institution's handle is not the address that the
/// ledger derived, or the ledger derived none, the operation is refused
/// for that reason; and an accepted operation was given the derived
/// address.
pub proof fn lemma_institution_needs_its_derived_address(
    program_id: Pubkey,
    accounts: Seq<AccountInfo>,
    args: UniArgs,
    derived: Option<Pubkey>,
)
    requires
        initialize_uni_authority_spec(program_id, accounts, args) is Ok,
    ensures
        derived != Some(accounts[1].key) ==> initialize_uni_spec(
            program_id,
            accounts,
            args,
            derived,
        ) == Err::<Seq<Effect>, VireError>(VireError::AddressMismatch),
        initialize_uni_spec(program_id, accounts, args, derived) is Ok ==> derived == Some(
            accounts[1].key,
        ),
{
}

/// The institution that is stored names its own derived address and the
/// protocol's, takes the number at which the protocol's counter stood,
/// and starts without subjects and without students; the counter that
/// is stored with it stands one higher. The storage asked for at the
/// institution's address is the size of the institution's record.
pub proof fn lemma_stored_institution(
    program_id: Pubkey,
    accounts: Seq<AccountInfo>,
    args: UniArgs,
    derived: Option<Pubkey>,
)
    requires
        initialize_uni_spec(program_id, accounts, args, derived) is Ok,
    ensures
        ({
            let effects = initialize_uni_spec(program_id, accounts, args, derived)->Ok_0;
            let before = VireAccount::decoded(accounts[2].data@).unwrap();
            &&& effects.len() == 3
            &&& effects[0] matches Effect::CreateAccount { from: 0, to: 1, space, .. }
            &&& effects[1] matches Effect::Store { account: 1, record: Record::Uni(uni) }
            &&& uni.encoding().len() == space
            &&& Some(uni.uni_key) == derived
            &&& uni.vire_key == accounts[2].key
            &&& uni.uni_id == before.uni_number
            &&& uni.subject_number == 0
            &&& uni.student_number == 0
            &&& effects[2] matches Effect::Store { account: 2, record: Record::Vire(after) }
            &&& after == before.uni_registered()
            &&& after.uni_number == before.uni_number + 1
        }),
{
    let effects = initialize_uni_spec(program_id, accounts, args, derived)->Ok_0;
    match effects[1] {
        Effect::Store { record: Record::Uni(uni), .. } => {
            uni.lemma_decoded_encoding();
        },
        _ => {},
    }
}

/// Every accepted registration begins by asking the ledger for storage
/// at the verified address. The ledger derives an address from the seeds
/// and the discriminant alone, so two calls for the same administrator,
/// protocol and discriminant meet the same derived address: if both are
/// accepted, both ask for storage at the same address, and the ledger's
/// refusal to allocate an address twice stops the second.
pub proof fn lemma_registrations_of_one_institution_collide(
    program_id: Pubkey,
    first: Seq<AccountInfo>,
    second: Seq<AccountInfo>,
    first_args: UniArgs,
    second_args: UniArgs,
    derived: Option<Pubkey>,
)
    requires
        first[0].key == second[0].key,
        first[2].key == second[2].key,
        first_args.bump() == second_args.bump(),
        initialize_uni_spec(program_id, first, first_args, derived) is Ok,
        initialize_uni_spec(program_id, second, second_args, derived) is Ok,
    ensures
        first[1].key == second[1].key,
        derived == Some(first[1].key),
        initialize_uni_spec(program_id, first, first_args, derived)->Ok_0[0]
            == initialize_uni_spec(program_id, second, second_args, derived)->Ok_0[0],
        initialize_uni_spec(program_id, first, first_args, derived)->Ok_0[0]
            == (Effect::CreateAccount {
            from: 0,
            to: 1,
            space: UniAccount::LEN as u64,
            signer: DerivedAuthority {
                seeds: Seeds::Uni { admin: first[0].key, vire: first[2].key },
                bump: first_args.bump(),
            },
        }),
{
}

/// Registering an institution, on the list of record handles of the call.
pub trait InitializeUniContext {
    /// Which address the ledger has to derive before `initialize_uni`.
    fn initialize_uni_authority(&self, program_id: &Pubkey, args: &UniArgs) -> Result<
        DerivedAuthority,
        VireError,
    >;

    /// The effects of the operation, or the reason why it is refused.
    fn initialize_uni(
        &self,
        program_id: &Pubkey,
        args: &UniArgs,
        derived: &Option<Pubkey>,
    ) -> Result<Vec<Effect>, VireError>;
}

impl InitializeUniContext for [AccountInfo] {
    fn initialize_uni_authority(&self, program_id: &Pubkey, args: &UniArgs) -> (r: Result<
        DerivedAuthority,
        VireError,
    >)
        ensures
            r == initialize_uni_authority_spec(*program_id, self@, *args),
    {
        if self.len() != 4 {
            return Err(VireError::MissingHandle);
        }
        if !self[0].is_signer {
            return Err(VireError::MissingAuthorization);
        }
        if !self[2].is_owned_by(program_id) {
            return Err(VireError::WrongOwner);
        }
        Ok(
            DerivedAuthority {
                seeds: Seeds::Uni { admin: self[0].key, vire: self[2].key },
                bump: args.bump,
            },
        )
    }

    fn initialize_uni(
        &self,
        program_id: &Pubkey,
        args: &UniArgs,
        derived: &Option<Pubkey>,
    ) -> (r: Result<Vec<Effect>, VireError>)
        ensures
            (match r {
                Ok(effects) => initialize_uni_spec(*program_id, self@, *args, *derived) == Ok::<
                    Seq<Effect>,
                    VireError,
                >(effects@),
                Err(e) => initialize_uni_spec(*program_id, self@, *args, *derived) == Err::<
                    Seq<Effect>,
                    VireError,
                >(e),
            }),
    {
        let authority = self.initialize_uni_authority(program_id, args)?;
        verify(derived, &self[1].key)?;
        let vire = VireAccount::from_bytes(self[2].data.as_slice())?;
        let (uni_id, next_vire) = vire.register_uni()?;
        let uni = UniAccount::new(self[1].key, self[2].key, uni_id, args.bump);
        let effects = vec![
            Effect::CreateAccount {
                from: 0,
                to: 1,
                space: UniAccount::LEN as u64,
                signer: authority,
            },
            Effect::Store { account: 1, record: Record::Uni(uni) },
            Effect::Store { account: 2, record: Record::Vire(next_vire) },
        ];
        Ok(effects)
    }
}

} // verus!
