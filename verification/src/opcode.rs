//! The opcode that reads or writes one element of a memory block.

use crate::expression::{Expression, Polynomial};
use crate::field::FieldValue;
use crate::witness::Witness;
use vstd::prelude::*;

verus! {

/// An operation on a block of memory: a read or a write at an index.
#[derive(Debug, PartialEq, Eq)]
pub struct MemOp {
    /// Zero for a read; anything else for a write.
    pub operation: Expression,
    /// The index of the element.
    pub index: Expression,
    /// For a write the value to store; for a read the witness that takes the
    /// value read.
    pub value: Expression,
}

/// What a [`MemOp`] holds.
pub struct MemOpView {
    pub operation: Polynomial,
    pub index: Polynomial,
    pub value: Polynomial,
}

impl View for MemOp {
    type V = MemOpView;

    open spec fn view(&self) -> MemOpView {
        MemOpView { operation: self.operation@, index: self.index@, value: self.value@ }
    }
}

impl MemOp {
    /// The opcode that reads the element at `index` into `witness`.
    pub fn read_at_mem_index(index: Expression, witness: Witness) -> (op: MemOp)
        ensures
            op@ == (MemOpView {
                operation: Polynomial::constant(FieldValue::from_nat(0)),
                index: index@,
                value: Polynomial::witness(witness),
            }),
    {
        MemOp { operation: Expression::zero(), index, value: Expression::from_witness(witness) }
    }

    /// The opcode that writes `value` to the element at `index`.
    pub fn write_to_mem_index(index: Expression, value: Expression) -> (op: MemOp)
        ensures
            op@ == (MemOpView {
                operation: Polynomial::constant(FieldValue::from_nat(1)),
                index: index@,
                value: value@,
            }),
    {
        MemOp { operation: Expression::one(), index, value }
    }
}

} // verus!
