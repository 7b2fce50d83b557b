//! Bookkeeping and value-transfer rules of a tuition protocol on a ledger.
//!
//! A protocol registry lists institutions, an institution lists subjects,
//! and a student enrolls in a subject, pays its fee semester by semester
//! and gets a credential token that stays frozen until the degree is
//! complete. Each record lives at an address derived from what the record
//! is about.
//!
//! The ledger runs every operation as one atomic unit. This library
//! decides; the caller acts. For an opcode, an argument block and a list
//! of record handles, `address_request` says which address the ledger has
//! to derive. Given the ledger's reply and its time, `process_instruction`
//! either refuses the operation with one error or lists the effects to
//! carry out in order.

pub mod account;
pub mod authority;
pub mod codec;
pub mod effect;
pub mod error;
pub mod fees;
pub mod instructions;
pub mod states;

pub use crate::states::{student_account, subject_account, uni_account, vire_account};

use vstd::prelude::*;
use vstd::slice::slice_subrange;
use crate::account::AccountInfo;
use crate::authority::{DerivedAuthority, Seeds};
use crate::codec::Pubkey;
use crate::effect::Effect;
use crate::error::VireError;
use crate::instructions::add_subjects::{add_subject_authority_spec, add_subject_spec,
    AddSubjectContext, SubjectArgs};
use crate::instructions::initialize_student::{initialize_student_authority_spec,
    initialize_student_spec, InitializeStudentContext, StudentArgs};
use crate::instructions::initialize_uni::{initialize_uni_authority_spec, initialize_uni_spec,
    InitializeUniContext, UniArgs};
use crate::instructions::initialize_vire::{initialize_vire_authority_spec, initialize_vire_spec,
    InitializeVireContext, VireArgs};
use crate::instructions::pay_tution_fee::{pay_tution_fee_spec, PayTutionFeeContext};
use crate::instructions::unstake::{unstake_seeds_spec, unstake_spec, Unstake};
use crate::instructions::vire_instructions::VireInstruction;

verus! {

/// What an operation needs from the ledger's address derivation.
#[derive(Clone, Copy, Debug, PartialEq, Eq)]
pub enum AddressRequest {
    /// The operation verifies no derived address.
    NotNeeded,
    /// Derive the address of these seeds with this discriminant.
    Derive(DerivedAuthority),
    /// Find the discriminant of these seeds, and the address with it.
    Authorize(Seeds),
}

/// The ledger's answer to an `AddressRequest`. An answer of another kind
/// than the request counts as no address.
#[derive(Clone, Copy, Debug, PartialEq, Eq)]
pub enum AddressReply {
    /// Nothing was asked.
    NotNeeded,
    /// The derived address, if the seeds and the discriminant have one.
    Derived(Option<Pubkey>),
    /// The address and the discriminant found, if there is one.
    Authorized(Option<(Pubkey, u8)>),
}

impl AddressReply {
    /// The address derived with a given discriminant.
    pub open spec fn derived(self) -> Option<Pubkey> {
        match self {
            AddressReply::Derived(address) => address,
            _ => None,
        }
    }

    /// The address and discriminant found by search.
    pub open spec fn authorized(self) -> Option<(Pubkey, u8)> {
        match self {
            AddressReply::Authorized(found) => found,
            _ => None,
        }
    }
}

/// Turns the authority that an operation names into a request.
pub open spec fn derive_request(authority: Result<DerivedAuthority, VireError>) -> Result<
    AddressRequest,
    VireError,
> {
    match authority {
        Ok(authority) => Ok(AddressRequest::Derive(authority)),
        Err(e) => Err(e),
    }
}

/// The request of the operation that `instruction_data` selects: its
/// first byte is the opcode, the rest the argument block.
pub open spec fn address_request_spec(
    program_id: Pubkey,
    accounts: Seq<AccountInfo>,
    instruction_data: Seq<u8>,
) -> Result<AddressRequest, VireError> {
    if instruction_data.len() == 0 {
        Err(VireError::InvalidInstruction)
    } else {
        let data = instruction_data.subrange(1, instruction_data.len() as int);
        match VireInstruction::decoded(instruction_data[0]) {
            None => Err(VireError::InvalidInstruction),
            Some(VireInstruction::InitializeVire) => match VireArgs::decoded(data) {
                None => Err(VireError::InvalidInstruction),
                Some(args) => derive_request(initialize_vire_authority_spec(accounts, args)),
            },
            Some(VireInstruction::InitializeUni) => match UniArgs::decoded(data) {
                None => Err(VireError::InvalidInstruction),
                Some(args) => derive_request(
                    initialize_uni_authority_spec(program_id, accounts, args),
                ),
            },
            Some(VireInstruction::AddSubjects) => match SubjectArgs::decoded(data) {
                None => Err(VireError::InvalidInstruction),
                Some(args) => derive_request(add_subject_authority_spec(program_id, accounts, args)),
            },
            Some(VireInstruction::InitializeStudent) => match StudentArgs::decoded(data) {
                None => Err(VireError::InvalidInstruction),
                Some(args) => derive_request(
                    initialize_student_authority_spec(program_id, accounts, args),
                ),
            },
            Some(VireInstruction::PayTutionFee) => Ok(AddressRequest::NotNeeded),
            Some(VireInstruction::UnStake) => match unstake_seeds_spec(program_id, accounts) {
                Ok(seeds) => Ok(AddressRequest::Authorize(seeds)),
                Err(e) => Err(e),
            },
        }
    }
}

/// The outcome of the operation that `instruction_data` selects, given
/// the ledger's reply to its request and the ledger's time. The two
/// operations without an argument block take no notice of what follows
/// the opcode.
pub open spec fn process_instruction_spec(
    program_id: Pubkey,
    accounts: Seq<AccountInfo>,
    instruction_data: Seq<u8>,
    reply: AddressReply,
    now: Option<i64>,
) -> Result<Seq<Effect>, VireError> {
    if instruction_data.len() == 0 {
        Err(VireError::InvalidInstruction)
    } else {
        let data = instruction_data.subrange(1, instruction_data.len() as int);
        match VireInstruction::decoded(instruction_data[0]) {
            None => Err(VireError::InvalidInstruction),
            Some(VireInstruction::InitializeVire) => match VireArgs::decoded(data) {
                None => Err(VireError::InvalidInstruction),
                Some(args) => initialize_vire_spec(accounts, args, reply.derived()),
            },
            Some(VireInstruction::InitializeUni) => match UniArgs::decoded(data) {
                None => Err(VireError::InvalidInstruction),
                Some(args) => initialize_uni_spec(program_id, accounts, args, reply.derived()),
            },
            Some(VireInstruction::AddSubjects) => match SubjectArgs::decoded(data) {
                None => Err(VireError::InvalidInstruction),
                Some(args) => add_subject_spec(program_id, accounts, args, reply.derived()),
            },
            Some(VireInstruction::InitializeStudent) => match StudentArgs::decoded(data) {
                None => Err(VireError::InvalidInstruction),
                Some(args) => initialize_student_spec(
                    program_id,
                    accounts,
                    args,
                    reply.derived(),
                    now,
                ),
            },
            Some(VireInstruction::PayTutionFee) => pay_tution_fee_spec(accounts, now),
            Some(VireInstruction::UnStake) => unstake_spec(
                program_id,
                accounts,
                reply.authorized(),
                now,
            ),
        }
    }
}

/// Says which address the ledger has to derive for an operation, or
/// refuses the operation for a fault that is found before any address
/// is needed.
pub fn address_request(program_id: &Pubkey, accounts: &[AccountInfo], instruction_data: &[u8]) -> (r:
    Result<AddressRequest, VireError>)
    ensures
        r == address_request_spec(*program_id, accounts@, instruction_data@),
{
    if instruction_data.len() == 0 {
        return Err(VireError::InvalidInstruction);
    }
    let data = slice_subrange(instruction_data, 1, instruction_data.len());
    match VireInstruction::try_from(&instruction_data[0])? {
        VireInstruction::InitializeVire => {
            let args = VireArgs::try_from(data)?;
            Ok(AddressRequest::Derive(accounts.initialize_vire_authority(&args)?))
        },
        VireInstruction::InitializeUni => {
            let args = UniArgs::try_from(data)?;
            Ok(AddressRequest::Derive(accounts.initialize_uni_authority(program_id, &args)?))
        },
        VireInstruction::AddSubjects => {
            let args = SubjectArgs::try_from(data)?;
            Ok(AddressRequest::Derive(accounts.add_subject_authority(program_id, &args)?))
        },
        VireInstruction::InitializeStudent => {
            let args = StudentArgs::try_from(data)?;
            Ok(AddressRequest::Derive(accounts.initialize_student_authority(program_id, &args)?))
        },
        VireInstruction::PayTutionFee => Ok(AddressRequest::NotNeeded),
        VireInstruction::UnStake => Ok(AddressRequest::Authorize(accounts.unstake_seeds(program_id)?)),
    }
}

/// Decides one operation: selects it by the opcode, reads its argument
/// block, and lists its effects or refuses it.
pub fn process_instruction(
    program_id: &Pubkey,
    accounts: &[AccountInfo],
    instruction_data: &[u8],
    reply: &AddressReply,
    now: Option<i64>,
) -> (r: Result<Vec<Effect>, VireError>)
    ensures
        (match r {
            Ok(effects) => process_instruction_spec(
                *program_id,
                accounts@,
                instruction_data@,
                *reply,
                now,
            ) == Ok::<Seq<Effect>, VireError>(effects@),
            Err(e) => process_instruction_spec(
                *program_id,
                accounts@,
                instruction_data@,
                *reply,
                now,
            ) == Err::<Seq<Effect>, VireError>(e),
        }),
{
    if instruction_data.len() == 0 {
        return Err(VireError::InvalidInstruction);
    }
    let data = slice_subrange(instruction_data, 1, instruction_data.len());
    let derived: Option<Pubkey> = match reply {
        AddressReply::Derived(address) => *address,
        _ => None,
    };
    let found: Option<(Pubkey, u8)> = match reply {
        AddressReply::Authorized(found) => *found,
        _ => None,
    };
    match VireInstruction::try_from(&instruction_data[0])? {
        VireInstruction::InitializeVire => {
            let args = VireArgs::try_from(data)?;
            accounts.initialize_vire(&args, &derived)
        },
        VireInstruction::InitializeUni => {
            let args = UniArgs::try_from(data)?;
            accounts.initialize_uni(program_id, &args, &derived)
        },
        VireInstruction::AddSubjects => {
            let args = SubjectArgs::try_from(data)?;
            accounts.add_subject(program_id, &args, &derived)
        },
        VireInstruction::InitializeStudent => {
            let args = StudentArgs::try_from(data)?;
            accounts.initialize_student(program_id, &args, &derived, now)
        },
        VireInstruction::PayTutionFee => accounts.pay_tution_fee(now),
        VireInstruction::UnStake => accounts.unstake(program_id, &found, now),
    }
}

/// An operation that is refused before the ledger is asked for an
/// address is refused for the same reason whatever the ledger would have
/// answered.
pub proof fn lemma_refusal_needs_no_reply(
    program_id: Pubkey,
    accounts: Seq<AccountInfo>,
    instruction_data: Seq<u8>,
    reply: AddressReply,
    now: Option<i64>,
)
    requires
        address_request_spec(program_id, accounts, instruction_data) is Err,
    ensures
        process_instruction_spec(program_id, accounts, instruction_data, reply, now) is Err,
        process_instruction_spec(program_id, accounts, instruction_data, reply, now)->Err_0
            == address_request_spec(program_id, accounts, instruction_data)->Err_0,
{
}

} // verus!
