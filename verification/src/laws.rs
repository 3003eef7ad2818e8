//! What holds of every block and every access.

use crate::block::{Block, MemoryIndex};
use crate::error::OpcodeResolutionError;
use crate::expression::{lemma_evaluated_witness_is_unassigned, Polynomial};
use crate::field::FieldValue;
use crate::opcode::MemOpView;
use crate::witness::Witness;
use vstd::prelude::*;

verus! {

/// A block that was filled with `values` has their number as its length, is
/// well formed, and a read at any position gives the value put there.
pub proof fn lemma_filled_block_reads(values: Seq<FieldValue>, index: MemoryIndex)
    requires
        values.len() <= u32::MAX,
    ensures
        Block::filled(values).len == values.len(),
        Block::filled(values).wf(),
        (index as int) < values.len() ==> Block::filled(values).read(index) == Ok::<
            FieldValue,
            OpcodeResolutionError,
        >(values[index as int]),
{
}

/// A write at or beyond the block's length fails with the length as the
/// reported size, and changes nothing. A read at an index that holds no value
/// fails in the same way; in a well formed block every index at or beyond the
/// length is such an index.
pub proof fn lemma_bounds_are_enforced(block: Block, index: MemoryIndex, value: FieldValue)
    ensures
        index >= block.len ==> block.write_result(index) == Err::<(), OpcodeResolutionError>(
            block.out_of_bounds(FieldValue::from_nat(index as nat)),
        ) && block.write(index, value) == block,
        !block.values.contains_key(index) ==> block.read(index) == Err::<FieldValue, OpcodeResolutionError>(
            block.out_of_bounds(FieldValue::from_nat(index as nat)),
        ),
        block.wf() && index >= block.len ==> !block.values.contains_key(index),
        block.out_of_bounds(FieldValue::from_nat(index as nat)) matches OpcodeResolutionError::IndexOutOfBounds {
            array_size,
            ..
        } && array_size == block.len,
{
}

/// A write inside the block succeeds, and a read at the same index then gives
/// the value written, whatever the index held before. Every other index holds
/// what it held before, and the block stays well formed.
pub proof fn lemma_write_then_read(block: Block, index: MemoryIndex, value: FieldValue)
    requires
        index < block.len,
    ensures
        block.write_result(index) == Ok::<(), OpcodeResolutionError>(()),
        block.write(index, value).read(index) == Ok::<FieldValue, OpcodeResolutionError>(value),
        forall|other: MemoryIndex| other != index ==> block.write(index, value).read(other) == block.read(other),
        block.write(index, value).len == block.len,
        block.wf() ==> block.write(index, value).wf(),
{
}

/// A read that the predicate switches off succeeds whatever its index, also
/// one outside the block: the witness it reads into takes the value zero, no
/// other witness changes, and the block stays as it is.
pub proof fn lemma_skipped_read_gives_zero(
    block: Block,
    op: MemOpView,
    values: Map<Witness, FieldValue>,
    predicate: Option<Polynomial>,
    pedantic_solving: bool,
)
    requires
        block.resolve_access(op, values, predicate, pedantic_solving) matches Ok(access) && access.is_read
            && access.skip,
        block.reads_into_witness(op, values, predicate, pedantic_solving),
    ensures
        block.solve(op, values, predicate, pedantic_solving).result == Ok::<(), OpcodeResolutionError>(()),
        block.solve(op, values, predicate, pedantic_solving).block == block,
        block.solve(op, values, predicate, pedantic_solving).witnesses == values.insert(
            op.value.evaluate(values).to_witness().unwrap(),
            FieldValue::from_nat(0),
        ),
{
    lemma_evaluated_witness_is_unassigned(op.value, values);
}

/// A write that the predicate switches off succeeds whatever its index and
/// its value, and leaves the block and the witness values as they are.
pub proof fn lemma_skipped_write_is_inert(
    block: Block,
    op: MemOpView,
    values: Map<Witness, FieldValue>,
    predicate: Option<Polynomial>,
    pedantic_solving: bool,
)
    requires
        block.resolve_access(op, values, predicate, pedantic_solving) matches Ok(access) && !access.is_read
            && access.skip,
    ensures
        block.solve(op, values, predicate, pedantic_solving).result == Ok::<(), OpcodeResolutionError>(()),
        block.solve(op, values, predicate, pedantic_solving).block == block,
        block.solve(op, values, predicate, pedantic_solving).witnesses == values,
{
}

/// A read never fails on the witness it reads into: a read that resolves and
/// finds its value succeeds.
pub proof fn lemma_read_target_accepts(
    block: Block,
    op: MemOpView,
    values: Map<Witness, FieldValue>,
    predicate: Option<Polynomial>,
    pedantic_solving: bool,
)
    requires
        block.resolve_access(op, values, predicate, pedantic_solving) matches Ok(access) && access.is_read && (
        access.skip || block.values.contains_key(access.index)),
        block.reads_into_witness(op, values, predicate, pedantic_solving),
    ensures
        block.solve(op, values, predicate, pedantic_solving).result == Ok::<(), OpcodeResolutionError>(()),
{
    lemma_evaluated_witness_is_unassigned(op.value, values);
}

/// An opcode that fails changes neither the block nor the witness values,
/// and no opcode changes the block's length or breaks its well-formedness.
pub proof fn lemma_solve_keeps_state(
    block: Block,
    op: MemOpView,
    values: Map<Witness, FieldValue>,
    predicate: Option<Polynomial>,
    pedantic_solving: bool,
)
    ensures
        block.solve(op, values, predicate, pedantic_solving).result is Err ==> block.solve(
            op,
            values,
            predicate,
            pedantic_solving,
        ).block == block && block.solve(op, values, predicate, pedantic_solving).witnesses == values,
        block.solve(op, values, predicate, pedantic_solving).block.len == block.len,
        block.wf() ==> block.solve(op, values, predicate, pedantic_solving).block.wf(),
{
}

} // verus!
