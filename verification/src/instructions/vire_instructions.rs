//! The opcodes.

use vstd::prelude::*;
use crate::error::VireError;

verus! {

/// The six operations, in the order of their opcodes 0 to 5.
#[derive(Clone, Copy, Debug, PartialEq, Eq, Structural)]
pub enum VireInstruction {
    InitializeVire,
    InitializeUni,
    AddSubjects,
    InitializeStudent,
    PayTutionFee,
    UnStake,
}

impl VireInstruction {
    /// The operation that an opcode stands for.
    pub open spec fn decoded(value: u8) -> Option<VireInstruction> {
        if value == 0 {
            Some(VireInstruction::InitializeVire)
        } else if value == 1 {
            Some(VireInstruction::InitializeUni)
        } else if value == 2 {
            Some(VireInstruction::AddSubjects)
        } else if value == 3 {
            Some(VireInstruction::InitializeStudent)
        } else if value == 4 {
            Some(VireInstruction::PayTutionFee)
        } else if value == 5 {
            Some(VireInstruction::UnStake)
        } else {
            None
        }
    }

    /// Reads an opcode. Any byte above 5 is refused.
    pub fn try_from(value: &u8) -> (r: Result<VireInstruction, VireError>)
        ensures
            (match r {
                Ok(instruction) => Self::decoded(*value) == Some(instruction),
                Err(e) => e == VireError::InvalidInstruction && Self::decoded(*value) is None,
            }),
    {
        match *value {
            0 => Ok(VireInstruction::InitializeVire),
            1 => Ok(VireInstruction::InitializeUni),
            2 => Ok(VireInstruction::AddSubjects),
            3 => Ok(VireInstruction::InitializeStudent),
            4 => Ok(VireInstruction::PayTutionFee),
            5 => Ok(VireInstruction::UnStake),
            _ => Err(VireError::InvalidInstruction),
        }
    }
}

} // verus!
