//! The one terminal error of a failed operation.

use vstd::prelude::*;

verus! {

/// Why an operation was refused. A refused operation has no effect: the
/// caller gets exactly one of these and no list of effects.
#[derive(Clone, Copy, Debug, PartialEq, Eq, Structural)]
pub enum VireError {
    /// The opcode is unknown, or the argument block has the wrong size.
    InvalidInstruction,
    /// The list of record handles has the wrong length.
    MissingHandle,
    /// A party that must sign did not.
    MissingAuthorization,
    /// A record that must belong to this program belongs to someone else.
    WrongOwner,
    /// A supplied address is not the one derived from the expected seeds.
    AddressMismatch,
    /// Stored bytes do not have the fixed layout of the expected record.
    MalformedRecord,
    /// A sequence counter would pass the largest value it can hold.
    CounterOverflow,
    /// A subject with no semesters would later be used as a divisor.
    DivisionHazard,
    /// A fee does not fit in 64 bits.
    ArithmeticOverflow,
    /// Every semester of the subject has already been paid.
    SemesterLimitExceeded,
    /// The semesters are not all paid, or the degree's duration has not passed.
    NotYetEligible,
    /// The ledger's clock gave no timestamp where one was needed.
    ClockUnavailable,
}

} // verus!
