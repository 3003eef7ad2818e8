//! The predicate that may switch an opcode off.

use crate::error::OpcodeResolutionError;
use crate::expression::{get_value, Expression, Polynomial};
use crate::field::FieldValue;
use crate::witness::{witness_values, Witness};
use acir::native_types::WitnessMap;
use vstd::prelude::*;

verus! {

/// What an optional predicate holds.
pub open spec fn predicate_view(predicate: Option<Expression>) -> Option<Polynomial> {
    match predicate {
        Some(expr) => Some(expr@),
        None => None,
    }
}

/// Whether a predicate switches its opcode off under the known values.
///
/// No predicate switches nothing off. A predicate whose value is known
/// switches the opcode off exactly when that value is zero. A predicate whose
/// value is not known yet is an error under pedantic solving, and otherwise
/// leaves the opcode on.
pub open spec fn predicate_is_false(
    values: Map<Witness, FieldValue>,
    predicate: Option<Polynomial>,
    pedantic_solving: bool,
) -> Result<bool, OpcodeResolutionError> {
    match predicate {
        None => Ok(false),
        Some(pred) => match pred.get_value(values) {
            Ok(value) => Ok(value.value() == 0),
            Err(error) => if pedantic_solving {
                Err(error)
            } else {
                Ok(false)
            },
        },
    }
}

/// Whether `predicate` switches its opcode off: see [`predicate_is_false`].
pub fn is_predicate_false(
    witness: &WitnessMap,
    predicate: &Option<Expression>,
    pedantic_solving: bool,
) -> (r: Result<bool, OpcodeResolutionError>)
    ensures
        r == predicate_is_false(witness_values(*witness), predicate_view(*predicate), pedantic_solving),
{
    match predicate {
        Some(pred) => match get_value(pred, witness) {
            Ok(value) => Ok(value.is_zero()),
            Err(error) => if pedantic_solving {
                Err(error)
            } else {
                Ok(false)
            },
        },
        None => Ok(false),
    }
}

} // verus!
