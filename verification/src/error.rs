//! The errors that resolving an opcode can end in.

use crate::field::FieldValue;
use vstd::prelude::*;

verus! {

/// The place of an opcode in a circuit.
#[derive(Clone, Copy, Debug, PartialEq, Eq, Structural)]
pub enum OpcodeLocation {
    /// The opcode at this position of the circuit.
    Acir(usize),
    /// An opcode inside the unconstrained function that the opcode at
    /// `acir_index` calls.
    Brillig { acir_index: usize, brillig_index: usize },
}

/// Where an error arose. The solver does not know its opcode's place in the
/// circuit and reports `Unresolved`; the caller that walks the circuit fills
/// the place in.
#[derive(Clone, Copy, Debug, PartialEq, Eq, Structural)]
pub enum ErrorLocation {
    Unresolved,
    Resolved(OpcodeLocation),
}

/// Why an opcode cannot be solved yet.
#[derive(Clone, Copy, Debug, PartialEq, Eq, Structural)]
pub enum OpcodeNotSolvable {
    /// The witness with this index has no value.
    MissingAssignment(u32),
}

/// Why resolving an opcode failed.
#[derive(Clone, Copy, Debug, PartialEq, Eq, Structural)]
pub enum OpcodeResolutionError {
    /// An expression that had to be a known value still holds an unassigned
    /// witness.
    OpcodeNotSolvable(OpcodeNotSolvable),
    /// A witness already holds a value other than the one resolved for it.
    UnsatisfiedConstrain { opcode_location: ErrorLocation },
    /// A memory block of `array_size` elements was accessed at `index`.
    IndexOutOfBounds { opcode_location: ErrorLocation, index: FieldValue, array_size: u32 },
}

} // verus!
