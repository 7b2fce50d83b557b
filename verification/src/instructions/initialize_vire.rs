//! Setting up a protocol registry.

use vstd::prelude::*;
use crate::account::AccountInfo;
use crate::authority::{verifies, verify, DerivedAuthority, Seeds};
use crate::codec::{cast_exact, le_u64, lemma_u64_le_of_le_u64, u64_at, Pubkey};
use crate::effect::{Effect, Record};
use crate::error::VireError;
use crate::states::vire_account::VireAccount;

verus! {

/// The argument block of the operation: 17 bytes.
#[derive(Clone, Copy, Debug, PartialEq, Eq)]
pub struct VireArgs {
    transaction_fee_uni: u64,
    transaction_fee_student: u64,
    bump: u8,
}

impl VireArgs {
    /// The size of the argument block in bytes.
    pub const LEN: usize = 17;

    /// The institution fee percentage, as contracts speak of it.
    pub closed spec fn spec_transaction_fee_uni(&self) -> u64 {
        self.transaction_fee_uni
    }

    /// The student fee percentage, as contracts speak of it.
    pub closed spec fn spec_transaction_fee_student(&self) -> u64 {
        self.transaction_fee_student
    }

    /// The discriminant, as contracts speak of it.
    pub closed spec fn spec_bump(&self) -> u8 {
        self.bump
    }

    /// The arguments that a block of the right size holds.
    pub closed spec fn decoded(value: Seq<u8>) -> Option<VireArgs> {
        if value.len() == Self::LEN {
            Some(
                VireArgs {
                    transaction_fee_uni: le_u64(value.subrange(0, 8)) as u64,
                    transaction_fee_student: le_u64(value.subrange(8, 16)) as u64,
                    bump: value[16],
                },
            )
        } else {
            None
        }
    }

    /// A block holds arguments exactly when it is 17 bytes long: the
    /// institution fee at byte 0, the student fee at 8, the discriminant
    /// at 16.
    pub proof fn lemma_decoded(value: Seq<u8>)
        ensures
            Self::decoded(value) is Some <==> value.len() == Self::LEN,
            (Self::decoded(value) matches Some(args) ==> {
                &&& args.transaction_fee_uni() == le_u64(value.subrange(0, 8))
                &&& args.transaction_fee_student() == le_u64(value.subrange(8, 16))
                &&& args.bump() == value[16]
            }),
    {
        if value.len() == 17 {
            lemma_u64_le_of_le_u64(value.subrange(0, 8));
            lemma_u64_le_of_le_u64(value.subrange(8, 16));
        }
    }

    /// The percentage of a subject's tuition fee that its institution
    /// pays to the protocol.
    #[verifier::when_used_as_spec(spec_transaction_fee_uni)]
    pub fn transaction_fee_uni(&self) -> (percent: u64)
        ensures
            percent == self.transaction_fee_uni(),
    {
        self.transaction_fee_uni
    }

    /// The percentage of a semester's fee that the student pays to the
    /// protocol.
    #[verifier::when_used_as_spec(spec_transaction_fee_student)]
    pub fn transaction_fee_student(&self) -> (percent: u64)
        ensures
            percent == self.transaction_fee_student(),
    {
        self.transaction_fee_student
    }

    /// The discriminant of the registry's address.
    #[verifier::when_used_as_spec(spec_bump)]
    pub fn bump(&self) -> (bump: u8)
        ensures
            bump == self.bump(),
    {
        self.bump
    }

    /// Reads the block: the institution fee at byte 0, the student fee at
    /// 8, the discriminant at 16. A block of any other size is refused.
    pub fn try_from(value: &[u8]) -> (r: Result<VireArgs, VireError>)
        ensures
            (match r {
                Ok(args) => {
                    &&& Self::decoded(value@) == Some(args)
                    &&& value@.len() == Self::LEN
                    &&& args.transaction_fee_uni() == le_u64(value@.subrange(0, 8))
                    &&& args.transaction_fee_student() == le_u64(value@.subrange(8, 16))
                    &&& args.bump() == value@[16]
                },
                Err(e) => {
                    &&& e == VireError::InvalidInstruction
                    &&& Self::decoded(value@) is None
                    &&& value@.len() != Self::LEN
                },
            }),
    {
        match cast_exact::<17>(value) {
            Ok(raw) => Ok(
                VireArgs {
                    transaction_fee_uni: u64_at(&raw, 0),
                    transaction_fee_student: u64_at(&raw, 8),
                    bump: raw[16],
                },
            ),
            Err(_) => Err(VireError::InvalidInstruction),
        }
    }
}

/// The authority over the registry's address, or why the operation is
/// refused whatever address the ledger derives.
///
/// The handles are: the administrator, the fee mint, the new registry,
/// the treasury, and the two programs. The administrator signs.
pub open spec fn initialize_vire_authority_spec(accounts: Seq<AccountInfo>, args: VireArgs) -> Result<
    DerivedAuthority,
    VireError,
> {
    if accounts.len() != 6 {
        Err(VireError::MissingHandle)
    } else if !accounts[0].is_signer {
        Err(VireError::MissingAuthorization)
    } else {
        Ok(DerivedAuthority { seeds: Seeds::Vire { admin: accounts[0].key }, bump: args.bump() })
    }
}

/// What setting up a registry asks of the ledger, given the address that
/// the ledger derived for the authority of
/// `initialize_vire_authority_spec`: storage for the registry, and in it
/// the administrator, the two percentages and the counter at 1.
pub open spec fn initialize_vire_spec(
    accounts: Seq<AccountInfo>,
    args: VireArgs,
    derived: Option<Pubkey>,
) -> Result<Seq<Effect>, VireError> {
    match initialize_vire_authority_spec(accounts, args) {
        Err(e) => Err(e),
        Ok(authority) => {
            if !verifies(derived, accounts[2].key) {
                Err(VireError::AddressMismatch)
            } else {
                Ok(
                    seq![
                        Effect::CreateAccount {
                            from: 0,
                            to: 2,
                            space: VireAccount::LEN as u64,
                            signer: authority,
                        },
                        Effect::Store {
                            account: 2,
                            record: Record::Vire(
                                VireAccount {
                                    admin_key: accounts[0].key,
                                    uni_number: 1,
                                    transaction_fee_uni: args.transaction_fee_uni(),
                                    transaction_fee_student: args.transaction_fee_student(),
                                    vire_bump: args.bump(),
                                },
                            ),
                        },
                    ],
                )
            }
        },
    }
}

/// A registry is set up at its derived address or not at all. Where the
/// handles are well formed and the new registry's handle is not the
/// address that the ledger derived, or the ledger derived none, the
/// operation is refused for that reason; and an accepted operation was
/// given the derived address.
pub proof fn lemma_registry_needs_its_derived_address(
    accounts: Seq<AccountInfo>,
    args: VireArgs,
    derived: Option<Pubkey>,
)
    requires
        initialize_vire_authority_spec(accounts, args) is Ok,
    ensures
        derived != Some(accounts[2].key) ==> initialize_vire_spec(accounts, args, derived)
            == Err::<Seq<Effect>, VireError>(VireError::AddressMismatch),
        initialize_vire_spec(accounts, args, derived) is Ok ==> derived == Some(accounts[2].key),
{
}

/// The registry that is stored names the administrator who signed,
/// holds the two percentages as they were given, and will give the first
/// institution the number 1. It is stored at the derived address, in
/// storage of the size of its record.
pub proof fn lemma_stored_registry(
    accounts: Seq<AccountInfo>,
    args: VireArgs,
    derived: Option<Pubkey>,
)
    requires
        initialize_vire_spec(accounts, args, derived) is Ok,
    ensures
        ({
            let effects = initialize_vire_spec(accounts, args, derived)->Ok_0;
            &&& effects.len() == 2
            &&& effects[0] matches Effect::CreateAccount { from: 0, to: 2, space, .. }
            &&& effects[1] matches Effect::Store { account: 2, record: Record::Vire(vire) }
            &&& vire.encoding().len() == space
            &&& Some(accounts[2].key) == derived
            &&& accounts[0].is_signer
            &&& vire.admin_key == accounts[0].key
            &&& vire.uni_number == 1
            &&& vire.transaction_fee_uni == args.transaction_fee_uni()
            &&& vire.transaction_fee_student == args.transaction_fee_student()
        }),
{
    let effects = initialize_vire_spec(accounts, args, derived)->Ok_0;
    match effects[1] {
        Effect::Store { record: Record::Vire(vire), .. } => {
            vire.lemma_decoded_encoding();
        },
        _ => {},
    }
}

/// Setting up a registry, on the list of record handles of the call.
pub trait InitializeVireContext {
    /// Which address the ledger has to derive before `initialize_vire`.
    fn initialize_vire_authority(&self, args: &VireArgs) -> Result<DerivedAuthority, VireError>;

    /// The effects of the operation, or the reason why it is refused.
    fn initialize_vire(&self, args: &VireArgs, derived: &Option<Pubkey>) -> Result<
        Vec<Effect>,
        VireError,
    >;
}

impl InitializeVireContext for [AccountInfo] {
    fn initialize_vire_authority(&self, args: &VireArgs) -> (r: Result<DerivedAuthority, VireError>)
        ensures
            r == initialize_vire_authority_spec(self@, *args),
    {
        if self.len() != 6 {
            return Err(VireError::MissingHandle);
        }
        if !self[0].is_signer {
            return Err(VireError::MissingAuthorization);
        }
        Ok(DerivedAuthority { seeds: Seeds::Vire { admin: self[0].key }, bump: args.bump })
    }

    fn initialize_vire(&self, args: &VireArgs, derived: &Option<Pubkey>) -> (r: Result<
        Vec<Effect>,
        VireError,
    >)
        ensures
            (match r {
                Ok(effects) => initialize_vire_spec(self@, *args, *derived) == Ok::<
                    Seq<Effect>,
                    VireError,
                >(effects@),
                Err(e) => initialize_vire_spec(self@, *args, *derived) == Err::<
                    Seq<Effect>,
                    VireError,
                >(e),
            }),
    {
        let authority = self.initialize_vire_authority(args)?;
        verify(derived, &self[2].key)?;
        let record = VireAccount::new(
            self[0].key,
            args.transaction_fee_uni,
            args.transaction_fee_student,
            args.bump,
        );
        let effects = vec![
            Effect::CreateAccount {
                from: 0,
                to: 2,
                space: VireAccount::LEN as u64,
                signer: authority,
            },
            Effect::Store { account: 2, record: Record::Vire(record) },
        ];
        Ok(effects)
    }
}

} // verus!
