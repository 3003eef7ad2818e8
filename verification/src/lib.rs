//! A solver for the memory blocks of an arithmetic circuit.
//!
//! A circuit may declare blocks of memory that are filled once and then read
//! and written by a trace of opcodes. [`MemoryOpSolver`] replays such a trace
//! for one block: it resolves each opcode's expressions against the witness
//! map, honours the predicate that may switch the opcode off, and checks each
//! access against the block's length.

pub mod block;
pub mod error;
pub mod expression;
pub mod field;
pub mod laws;
pub mod opcode;
pub mod predicate;
pub mod witness;

pub use block::{Access, Block, MemoryIndex, MemoryOpSolver, Outcome};
pub use error::{ErrorLocation, OpcodeLocation, OpcodeNotSolvable, OpcodeResolutionError};
pub use expression::{evaluate, get_value, Expression, LinearTerm, MulTerm, Polynomial};
pub use field::FieldValue;
pub use opcode::{MemOp, MemOpView};
pub use predicate::is_predicate_false;
pub use witness::{insert_value, witness_to_value, Witness};
