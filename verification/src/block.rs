//! The state of one memory block and the accesses to it.

use crate::error::{ErrorLocation, OpcodeNotSolvable, OpcodeResolutionError};
use crate::expression::{evaluate, get_value, Expression, Polynomial};
use crate::field::{bit_length, lemma_bit_length_bound, FieldValue};
use crate::opcode::{MemOp, MemOpView};
use crate::predicate::{is_predicate_false, predicate_is_false, predicate_view};
use crate::witness::{accepts_value, insert_value, witness_to_value, witness_values, Witness};
use acir::native_types::WitnessMap;
use std::collections::HashMap;
use vstd::arithmetic::power2::lemma2_to64;
use vstd::prelude::*;

verus! {

broadcast use vstd::std_specs::hash::group_hash_axioms;

/// An index into a memory block.
pub type MemoryIndex = u32;

/// The contents of a memory block: the values written so far, by index, and
/// the number of elements that the block was declared with.
pub struct Block {
    pub values: Map<MemoryIndex, FieldValue>,
    pub len: u32,
}

impl Block {
    /// Every index that holds a value lies inside the block.
    pub open spec fn wf(self) -> bool {
        forall|index: MemoryIndex| self.values.contains_key(index) ==> index < self.len
    }

    /// The block before it is initialized: no element, no value.
    pub open spec fn empty() -> Block {
        Block { values: Map::empty(), len: 0 }
    }

    /// The block that holds exactly `values`, each at its position.
    pub open spec fn filled(values: Seq<FieldValue>) -> Block
        recommends
            values.len() <= u32::MAX,
    {
        Block {
            values: Map::new(
                |index: MemoryIndex| (index as int) < values.len(),
                |index: MemoryIndex| values[index as int],
            ),
            len: values.len() as u32,
        }
    }

    /// The error that reports an access at `index`: it carries the index and
    /// the block's length, and leaves the opcode's place open.
    pub open spec fn out_of_bounds(self, index: FieldValue) -> OpcodeResolutionError {
        OpcodeResolutionError::IndexOutOfBounds {
            opcode_location: ErrorLocation::Unresolved,
            index,
            array_size: self.len,
        }
    }

    /// The memory index that a field value stands for: the value itself where
    /// it fits in 32 bits, and else an error that carries the value.
    pub open spec fn index_from_field(self, index: FieldValue) -> Result<MemoryIndex, OpcodeResolutionError> {
        if index.value() <= u32::MAX {
            Ok(index.value() as MemoryIndex)
        } else {
            Err(self.out_of_bounds(index))
        }
    }

    /// What a read at `index` gives: the value held there, or an error where
    /// none is held.
    pub open spec fn read(self, index: MemoryIndex) -> Result<FieldValue, OpcodeResolutionError> {
        if self.values.contains_key(index) {
            Ok(self.values[index])
        } else {
            Err(self.out_of_bounds(FieldValue::from_nat(index as nat)))
        }
    }

    /// What a write at `index` answers: an error where the index lies outside
    /// the block.
    pub open spec fn write_result(self, index: MemoryIndex) -> Result<(), OpcodeResolutionError> {
        if index < self.len {
            Ok(())
        } else {
            Err(self.out_of_bounds(FieldValue::from_nat(index as nat)))
        }
    }

    /// The block after a write of `value` at `index`: inside the block the
    /// index holds `value` from then on; outside it nothing changes.
    pub open spec fn write(self, index: MemoryIndex, value: FieldValue) -> Block {
        if index < self.len {
            Block { values: self.values.insert(index, value), len: self.len }
        } else {
            self
        }
    }
}

/// Whether each of the witnesses holds a value.
pub open spec fn all_assigned(witnesses: Seq<Witness>, values: Map<Witness, FieldValue>) -> bool {
    forall|i: int| 0 <= i < witnesses.len() ==> values.contains_key(#[trigger] witnesses[i])
}

/// Whether the witness at position `k` is the first that holds no value.
pub open spec fn first_unassigned(witnesses: Seq<Witness>, values: Map<Witness, FieldValue>, k: int) -> bool {
    &&& 0 <= k < witnesses.len()
    &&& !values.contains_key(witnesses[k])
    &&& all_assigned(witnesses.take(k), values)
}

/// The values that the witnesses hold, in their order.
pub open spec fn resolved(witnesses: Seq<Witness>, values: Map<Witness, FieldValue>) -> Seq<FieldValue> {
    witnesses.map_values(|witness: Witness| values[witness])
}

/// An access as the known values resolve it.
pub struct Access {
    /// Whether the access reads; it writes otherwise.
    pub is_read: bool,
    /// The index of the element.
    pub index: MemoryIndex,
    /// Whether the predicate switches the access off.
    pub skip: bool,
}

/// What solving an opcode comes to: its result, and the block and the witness
/// values after it.
pub struct Outcome {
    pub result: Result<(), OpcodeResolutionError>,
    pub block: Block,
    pub witnesses: Map<Witness, FieldValue>,
}

impl Block {
    /// Resolves an opcode's operation, index and predicate, in this order;
    /// the first of them that fails gives the error.
    ///
    /// The operation and the index must be known values. The operation zero
    /// is a read and any other a write. The index must be a memory index,
    /// also where the predicate then switches the access off.
    pub open spec fn resolve_access(
        self,
        op: MemOpView,
        values: Map<Witness, FieldValue>,
        predicate: Option<Polynomial>,
        pedantic_solving: bool,
    ) -> Result<Access, OpcodeResolutionError> {
        match op.operation.get_value(values) {
            Err(error) => Err(error),
            Ok(operation) => match op.index.get_value(values) {
                Err(error) => Err(error),
                Ok(index) => match self.index_from_field(index) {
                    Err(error) => Err(error),
                    Ok(memory_index) => match predicate_is_false(values, predicate, pedantic_solving) {
                        Err(error) => Err(error),
                        Ok(skip) => Ok(Access { is_read: operation.value() == 0, index: memory_index, skip }),
                    },
                },
            },
        }
    }

    /// Whether an opcode that resolves to a read names the witness to read
    /// into: its value expression, with the known values put in, is a single
    /// witness.
    pub open spec fn reads_into_witness(
        self,
        op: MemOpView,
        values: Map<Witness, FieldValue>,
        predicate: Option<Polynomial>,
        pedantic_solving: bool,
    ) -> bool {
        self.resolve_access(op, values, predicate, pedantic_solving) matches Ok(access) ==> (access.is_read
            ==> op.value.evaluate(values).to_witness() is Some)
    }

    /// What a resolved read comes to. A read that is switched off gives zero
    /// and does not look at the block; any other gives what the block holds
    /// at the index, or fails as [`Block::read`] does. The value goes to the
    /// witness `target`, which fails where the witness holds another value.
    /// The block stays as it is.
    pub open spec fn solve_read(
        self,
        access: Access,
        target: Witness,
        values: Map<Witness, FieldValue>,
    ) -> Outcome {
        let value_read = if access.skip {
            Ok(FieldValue::from_nat(0))
        } else {
            self.read(access.index)
        };
        match value_read {
            Err(error) => Outcome { result: Err(error), block: self, witnesses: values },
            Ok(value) => if accepts_value(values, target, value) {
                Outcome { result: Ok(()), block: self, witnesses: values.insert(target, value) }
            } else {
                Outcome {
                    result: Err(
                        OpcodeResolutionError::UnsatisfiedConstrain { opcode_location: ErrorLocation::Unresolved },
                    ),
                    block: self,
                    witnesses: values,
                }
            },
        }
    }

    /// What a resolved write comes to. A write that is switched off succeeds
    /// and changes nothing. Any other needs `value` to be known, and stores it
    /// as [`Block::write`] does. The witness values stay as they are.
    pub open spec fn solve_write(
        self,
        access: Access,
        value: Result<FieldValue, OpcodeResolutionError>,
        values: Map<Witness, FieldValue>,
    ) -> Outcome {
        if access.skip {
            Outcome { result: Ok(()), block: self, witnesses: values }
        } else {
            match value {
                Err(error) => Outcome { result: Err(error), block: self, witnesses: values },
                Ok(value) => Outcome {
                    result: self.write_result(access.index),
                    block: self.write(access.index, value),
                    witnesses: values,
                },
            }
        }
    }

    /// What solving an opcode comes to. An opcode that does not resolve fails
    /// and changes nothing; one that resolves is a read or a write.
    pub open spec fn solve(
        self,
        op: MemOpView,
        values: Map<Witness, FieldValue>,
        predicate: Option<Polynomial>,
        pedantic_solving: bool,
    ) -> Outcome
        recommends
            self.reads_into_witness(op, values, predicate, pedantic_solving),
    {
        match self.resolve_access(op, values, predicate, pedantic_solving) {
            Err(error) => Outcome { result: Err(error), block: self, witnesses: values },
            Ok(access) => if access.is_read {
                self.solve_read(access, op.value.evaluate(values).to_witness().unwrap(), values)
            } else {
                self.solve_write(access, op.value.get_value(values), values)
            },
        }
    }
}

/// Maintains the state of one memory block while the opcodes that initialize
/// and access it are solved.
pub struct MemoryOpSolver {
    /// The values of the block that are known, by index.
    block_value: HashMap<MemoryIndex, FieldValue>,
    /// The number of elements that the block was declared with.
    block_len: u32,
}

impl View for MemoryOpSolver {
    type V = Block;

    closed spec fn view(&self) -> Block {
        Block { values: self.block_value@, len: self.block_len }
    }
}

impl Default for MemoryOpSolver {
    /// A solver for a block that is not initialized yet.
    fn default() -> (solver: MemoryOpSolver)
        ensures
            solver@ == Block::empty(),
    {
        MemoryOpSolver { block_value: HashMap::new(), block_len: 0 }
    }
}

impl MemoryOpSolver {
    /// The number of elements that the block was declared with.
    pub fn block_len(&self) -> (len: u32)
        ensures
            len == self@.len,
    {
        self.block_len
    }

    /// Converts a field value into a memory index. Only values of at most 32
    /// bits are memory indices; any other value is out of bounds, whatever the
    /// block's length.
    pub fn index_from_field(&self, index: FieldValue) -> (r: Result<MemoryIndex, OpcodeResolutionError>)
        ensures
            r == self@.index_from_field(index),
            bit_length(index.value()) <= 32 ==> r == Ok::<MemoryIndex, OpcodeResolutionError>(
                index.value() as MemoryIndex,
            ),
            bit_length(index.value()) > 32 ==> r == Err::<MemoryIndex, OpcodeResolutionError>(
                self@.out_of_bounds(index),
            ),
    {
        proof {
            lemma_bit_length_bound(index.value(), 32);
            lemma2_to64();
        }
        if index.num_bits() <= 32 {
            let memory_index = index.try_to_u64().unwrap() as MemoryIndex;
            Ok(memory_index)
        } else {
            Err(self.index_out_of_bounds(index))
        }
    }

    /// Stores `value` at `index`, over any value held there. Fails, and
    /// changes nothing, where the index lies outside the block.
    pub fn write_memory_index(&mut self, index: MemoryIndex, value: FieldValue) -> (r: Result<
        (),
        OpcodeResolutionError,
    >)
        ensures
            r == old(self)@.write_result(index),
            final(self)@ == old(self)@.write(index, value),
            index >= old(self)@.len ==> r is Err && final(self)@ == old(self)@,
            old(self)@.wf() ==> final(self)@.wf(),
    {
        if index >= self.block_len {
            return Err(self.index_out_of_bounds(FieldValue::from_u128(index as u128)));
        }
        self.block_value.insert(index, value);
        Ok(())
    }

    /// The value held at `index`. Fails where no value is held there, be it
    /// that the index lies outside the block or that it was never written.
    pub fn read_memory_index(&self, index: MemoryIndex) -> (r: Result<FieldValue, OpcodeResolutionError>)
        ensures
            r == self@.read(index),
            self@.wf() && index >= self@.len ==> r is Err,
    {
        match self.block_value.get(&index) {
            Some(value) => Ok(*value),
            None => Err(self.index_out_of_bounds(FieldValue::from_u128(index as u128))),
        }
    }

    /// Sets the block to the values that the witnesses of `init` hold, each at
    /// its position, in place of whatever the block held before.
    ///
    /// Fails at the first witness that holds no value; the block then has
    /// its new length and the values up to that witness.
    pub fn init(&mut self, init: &[Witness], initial_witness: &WitnessMap) -> (r: Result<
        (),
        OpcodeResolutionError,
    >)
        requires
            init@.len() <= u32::MAX,
        ensures
            final(self)@.len == init@.len(),
            final(self)@.wf(),
            r is Ok <==> all_assigned(init@, witness_values(*initial_witness)),
            all_assigned(init@, witness_values(*initial_witness)) ==> r == Ok::<(), OpcodeResolutionError>(())
                && final(self)@ == Block::filled(resolved(init@, witness_values(*initial_witness))),
            forall|k: int| #[trigger]
                first_unassigned(init@, witness_values(*initial_witness), k) ==> r == Err::<
                    (),
                    OpcodeResolutionError,
                >(OpcodeResolutionError::OpcodeNotSolvable(OpcodeNotSolvable::MissingAssignment(init@[k].0)))
                    && final(self)@.values == Block::filled(
                    resolved(init@.take(k), witness_values(*initial_witness)),
                ).values,
    {
        let ghost values = witness_values(*initial_witness);
        self.block_value.clear();
        self.block_len = init.len() as u32;
        let mut i: usize = 0;
        while i < init.len()
            invariant
                i <= init.len(),
                init@.len() <= u32::MAX,
                self.block_len == init@.len(),
                values == witness_values(*initial_witness),
                all_assigned(init@.take(i as int), values),
                self.block_value@ == Block::filled(resolved(init@.take(i as int), values)).values,
            decreases init.len() - i,
        {
            let value = match witness_to_value(initial_witness, init[i]) {
                Ok(value) => value,
                Err(error) => {
                    proof {
                        assert forall|k: int| #[trigger] first_unassigned(init@, values, k) implies k == i by {
                            if k < i {
                                assert(init@.take(i as int)[k] == init@[k]);
                            } else if k > i {
                                assert(init@.take(k)[i as int] == init@[i as int]);
                            }
                        }
                    }
                    return Err(error);
                },
            };
            self.write_memory_index(i as MemoryIndex, value)?;
            i += 1;
        }
        assert(init@.take(i as int) =~= init@);
        Ok(())
    }

    /// Resolves the operation, the index and the predicate of `op` against
    /// the witness map: see [`Block::resolve_access`].
    fn resolve_access(
        &self,
        op: &MemOp,
        initial_witness: &WitnessMap,
        predicate: &Option<Expression>,
        pedantic_solving: bool,
    ) -> (r: Result<Access, OpcodeResolutionError>)
        ensures
            r == self@.resolve_access(
                op@,
                witness_values(*initial_witness),
                predicate_view(*predicate),
                pedantic_solving,
            ),
    {
        let operation = get_value(&op.operation, initial_witness)?;

        // Find the memory index associated with this memory operation.
        let index = get_value(&op.index, initial_witness)?;
        let memory_index = self.index_from_field(index)?;

        // A predicate that is zero switches the operation off.
        let skip_operation = is_predicate_false(initial_witness, predicate, pedantic_solving)?;

        // The operation zero is a read; any other is a write.
        Ok(Access { is_read: operation.is_zero(), index: memory_index, skip: skip_operation })
    }

    /// Whether an opcode that resolves to a read names the witness to read
    /// into: see [`Block::reads_into_witness`].
    fn names_read_target(
        &self,
        op: &MemOp,
        initial_witness: &WitnessMap,
        predicate: &Option<Expression>,
        pedantic_solving: bool,
    ) -> (r: bool)
        ensures
            r == self@.reads_into_witness(
                op@,
                witness_values(*initial_witness),
                predicate_view(*predicate),
                pedantic_solving,
            ),
    {
        match self.resolve_access(op, initial_witness, predicate, pedantic_solving) {
            Ok(access) => !access.is_read || evaluate(&op.value, initial_witness).to_witness().is_some(),
            Err(_) => true,
        }
    }

    /// Solves one opcode on the block, if it is one that
    /// [`MemoryOpSolver::solve_memory_op`] takes: an opcode that resolves to a
    /// read and names no witness to read into is left alone, and the answer
    /// is `None`.
    pub fn try_solve_memory_op(
        &mut self,
        op: &MemOp,
        initial_witness: &mut WitnessMap,
        predicate: &Option<Expression>,
        pedantic_solving: bool,
    ) -> (r: Option<Result<(), OpcodeResolutionError>>)
        ensures
            r is Some <==> old(self)@.reads_into_witness(
                op@,
                witness_values(*old(initial_witness)),
                predicate_view(*predicate),
                pedantic_solving,
            ),
            r matches Some(result) ==> {
                let outcome = old(self)@.solve(
                    op@,
                    witness_values(*old(initial_witness)),
                    predicate_view(*predicate),
                    pedantic_solving,
                );
                &&& result == outcome.result
                &&& final(self)@ == outcome.block
                &&& witness_values(*final(initial_witness)) == outcome.witnesses
            },
            r is None ==> final(self)@ == old(self)@ && witness_values(*final(initial_witness))
                == witness_values(*old(initial_witness)),
            old(self)@.wf() ==> final(self)@.wf(),
    {
        if self.names_read_target(op, initial_witness, predicate, pedantic_solving) {
            Some(self.solve_memory_op(op, initial_witness, predicate, pedantic_solving))
        } else {
            None
        }
    }

    /// Solves one opcode on the block: see [`Block::solve`].
    ///
    /// The operation, the index and the predicate are resolved against the
    /// witness map. A read puts the value read into the witness map; a write
    /// puts the value of the opcode's expression into the block. An opcode
    /// that fails changes neither.
    ///
    /// An opcode that resolves to a read must name the witness to read into;
    /// [`MemoryOpSolver::try_solve_memory_op`] tests this first.
    pub fn solve_memory_op(
        &mut self,
        op: &MemOp,
        initial_witness: &mut WitnessMap,
        predicate: &Option<Expression>,
        pedantic_solving: bool,
    ) -> (r: Result<(), OpcodeResolutionError>)
        requires
            old(self)@.reads_into_witness(
                op@,
                witness_values(*old(initial_witness)),
                predicate_view(*predicate),
                pedantic_solving,
            ),
        ensures
            r == old(self)@.solve(
                op@,
                witness_values(*old(initial_witness)),
                predicate_view(*predicate),
                pedantic_solving,
            ).result,
            final(self)@ == old(self)@.solve(
                op@,
                witness_values(*old(initial_witness)),
                predicate_view(*predicate),
                pedantic_solving,
            ).block,
            witness_values(*final(initial_witness)) == old(self)@.solve(
                op@,
                witness_values(*old(initial_witness)),
                predicate_view(*predicate),
                pedantic_solving,
            ).witnesses,
            old(self)@.wf() ==> final(self)@.wf(),
            r is Err ==> final(self)@ == old(self)@ && witness_values(*final(initial_witness)) == witness_values(
                *old(initial_witness),
            ),
    {
        let access = self.resolve_access(op, initial_witness, predicate, pedantic_solving)?;

        // For a read this is the witness that takes the value read; for a
        // write it is the value to store.
        let value = evaluate(&op.value, initial_witness);

        if access.is_read {
            let value_read_witness = value.to_witness().unwrap();

            // A read that is switched off gives zero, whatever the block holds.
            let value_in_array = if access.skip {
                FieldValue::zero()
            } else {
                self.read_memory_index(access.index)?
            };
            insert_value(&value_read_witness, value_in_array, initial_witness)
        } else {
            // A write that is switched off does nothing.
            if access.skip {
                Ok(())
            } else {
                let value_to_write = value.known_value()?;
                self.write_memory_index(access.index, value_to_write)
            }
        }
    }

    /// The error for an access at `index`.
    fn index_out_of_bounds(&self, index: FieldValue) -> (e: OpcodeResolutionError)
        ensures
            e == self@.out_of_bounds(index),
    {
        OpcodeResolutionError::IndexOutOfBounds {
            opcode_location: ErrorLocation::Unresolved,
            index,
            array_size: self.block_len,
        }
    }
}

} // verus!
