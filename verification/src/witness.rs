//! Witnesses and the map that holds the values resolved for them.

use crate::error::{ErrorLocation, OpcodeNotSolvable, OpcodeResolutionError};
use crate::field::FieldValue;
use acir::native_types::WitnessMap;
use vstd::prelude::*;

verus! {

/// The index of a value that is unknown until the circuit is solved.
#[derive(Clone, Copy, Debug, PartialEq, Eq, Structural, Hash)]
pub struct Witness(pub u32);

/// `acir`'s map from witnesses to the field elements resolved for them.
#[verifier::external_type_specification]
#[verifier::external_body]
pub struct ExWitnessMap(WitnessMap);

/// What a witness map holds: for each witness that has an element, the field
/// value that stands for the element.
pub uninterp spec fn witness_values(map: WitnessMap) -> Map<Witness, FieldValue>;

/// Calls `WitnessMap::get` of `acir`, which looks the witness up in the
/// `BTreeMap` that the map wraps: the element held for the witness, or `None`
/// where it has none.
///
/// The element comes back through `FieldElement::to_be_bytes`: the 32
/// big-endian bytes of its integer, which lies below the field's order.
#[verifier::external_body]
pub(crate) fn witness_map_get(map: &WitnessMap, witness: Witness) -> (r: Option<FieldValue>)
    ensures
        r == (if witness_values(*map).contains_key(witness) {
            Some(witness_values(*map)[witness])
        } else {
            None
        }),
{
    match map.get(&acir::native_types::Witness(witness.0)) {
        Some(element) => {
            let bytes = element.to_be_bytes();
            Some(
                FieldValue {
                    high: u128::from_be_bytes(bytes[..16].try_into().unwrap()),
                    low: u128::from_be_bytes(bytes[16..].try_into().unwrap()),
                },
            )
        },
        None => None,
    }
}

/// Calls `WitnessMap::insert` of `acir`, which inserts into the `BTreeMap`
/// that the map wraps: afterwards the witness holds `value` and every other
/// witness what it held before; the result is what the witness held before,
/// if anything.
///
/// The element is made from the 32 big-endian bytes of `value` with
/// `FieldElement::from_be_bytes_reduce`, which takes an integer below the
/// field's order as it is; the element held before comes back as in
/// [`witness_map_get`].
#[verifier::external_body]
pub(crate) fn witness_map_insert(map: &mut WitnessMap, witness: Witness, value: FieldValue) -> (previous:
    Option<FieldValue>)
    ensures
        witness_values(*final(map)) == witness_values(*old(map)).insert(witness, value),
        previous == (if witness_values(*old(map)).contains_key(witness) {
            Some(witness_values(*old(map))[witness])
        } else {
            None
        }),
{
    let bytes = [value.high.to_be_bytes(), value.low.to_be_bytes()].concat();
    let element = acir::FieldElement::from_be_bytes_reduce(&bytes);
    match map.insert(acir::native_types::Witness(witness.0), element) {
        Some(held) => {
            let bytes = held.to_be_bytes();
            Some(
                FieldValue {
                    high: u128::from_be_bytes(bytes[..16].try_into().unwrap()),
                    low: u128::from_be_bytes(bytes[16..].try_into().unwrap()),
                },
            )
        },
        None => None,
    }
}

/// What looking a witness up gives: its value, or the error that names it as
/// unassigned.
pub open spec fn spec_witness_to_value(values: Map<Witness, FieldValue>, witness: Witness) -> Result<
    FieldValue,
    OpcodeResolutionError,
> {
    if values.contains_key(witness) {
        Ok(values[witness])
    } else {
        Err(OpcodeResolutionError::OpcodeNotSolvable(OpcodeNotSolvable::MissingAssignment(witness.0)))
    }
}

/// The value that the map holds for `witness`.
pub fn witness_to_value(initial_witness: &WitnessMap, witness: Witness) -> (r: Result<
    FieldValue,
    OpcodeResolutionError,
>)
    ensures
        r == spec_witness_to_value(witness_values(*initial_witness), witness),
{
    match witness_map_get(initial_witness, witness) {
        Some(value) => Ok(value),
        None => Err(OpcodeResolutionError::OpcodeNotSolvable(OpcodeNotSolvable::MissingAssignment(witness.0))),
    }
}

/// Whether `witness` can take `value`: it is unassigned, or holds `value`
/// already.
pub open spec fn accepts_value(values: Map<Witness, FieldValue>, witness: Witness, value: FieldValue) -> bool {
    values.contains_key(witness) ==> values[witness] == value
}

/// Records `value_to_insert` as the value of `witness`. A witness that holds
/// another value keeps it, and the call fails.
pub fn insert_value(witness: &Witness, value_to_insert: FieldValue, initial_witness: &mut WitnessMap) -> (r:
    Result<(), OpcodeResolutionError>)
    ensures
        accepts_value(witness_values(*old(initial_witness)), *witness, value_to_insert) ==> r == Ok::<
            (),
            OpcodeResolutionError,
        >(()) && witness_values(*final(initial_witness)) == witness_values(*old(initial_witness)).insert(
            *witness,
            value_to_insert,
        ),
        !accepts_value(witness_values(*old(initial_witness)), *witness, value_to_insert) ==> r == Err::<
            (),
            OpcodeResolutionError,
        >(OpcodeResolutionError::UnsatisfiedConstrain { opcode_location: ErrorLocation::Unresolved })
            && witness_values(*final(initial_witness)) == witness_values(*old(initial_witness)),
{
    match witness_map_get(initial_witness, *witness) {
        Some(held) => {
            if held != value_to_insert {
                return Err(
                    OpcodeResolutionError::UnsatisfiedConstrain { opcode_location: ErrorLocation::Unresolved },
                );
            }
        },
        None => {},
    }
    witness_map_insert(initial_witness, *witness, value_to_insert);
    Ok(())
}

} // verus!
