use std::collections::BTreeMap;

use acir::native_types::{Witness as MapKey, WitnessMap};
use acir::FieldElement;
use memory_solver::{
    Expression, FieldValue, MemOp, MemoryOpSolver, OpcodeNotSolvable, OpcodeResolutionError, Witness,
};

// use pedantic_solving for tests
const PEDANTIC_SOLVING: bool = true;

#[test]
fn test_solver() {
    let mut initial_witness = WitnessMap::from(BTreeMap::from_iter([
        (MapKey(1), FieldElement::from(1u128)),
        (MapKey(2), FieldElement::from(1u128)),
        (MapKey(3), FieldElement::from(2u128)),
    ]));

    let init = vec![Witness(1), Witness(2)];

    let trace = vec![
        MemOp::write_to_mem_index(
            Expression::from_field(FieldValue::from_u128(1)),
            Expression::from_witness(Witness(3)),
        ),
        MemOp::read_at_mem_index(Expression::from_field(FieldValue::one()), Witness(4)),
    ];

    let mut block_solver = MemoryOpSolver::default();
    block_solver.init(&init, &initial_witness).unwrap();

    for op in trace {
        block_solver.solve_memory_op(&op, &mut initial_witness, &None, PEDANTIC_SOLVING).unwrap();
    }

    assert_eq!(initial_witness[&MapKey(4)], FieldElement::from(2u128));
}

#[test]
fn test_index_out_of_bounds() {
    let mut initial_witness = WitnessMap::from(BTreeMap::from_iter([
        (MapKey(1), FieldElement::from(1u128)),
        (MapKey(2), FieldElement::from(1u128)),
        (MapKey(3), FieldElement::from(2u128)),
    ]));

    let init = vec![Witness(1), Witness(2)];

    let invalid_trace = vec![
        MemOp::write_to_mem_index(
            Expression::from_field(FieldValue::from_u128(1)),
            Expression::from_witness(Witness(3)),
        ),
        MemOp::read_at_mem_index(Expression::from_field(FieldValue::from_u128(2)), Witness(4)),
    ];
    let mut block_solver = MemoryOpSolver::default();
    block_solver.init(&init, &initial_witness).unwrap();
    let mut err = None;
    for op in invalid_trace {
        if err.is_none() {
            err = block_solver.solve_memory_op(&op, &mut initial_witness, &None, PEDANTIC_SOLVING).err();
        }
    }

    assert!(matches!(
        err,
        Some(OpcodeResolutionError::IndexOutOfBounds {
            opcode_location: _,
            index,
            array_size: 2
        }) if index == FieldValue::from_u128(2)
    ));
}

#[test]
fn test_predicate_on_read() {
    let mut initial_witness = WitnessMap::from(BTreeMap::from_iter([
        (MapKey(1), FieldElement::from(1u128)),
        (MapKey(2), FieldElement::from(1u128)),
        (MapKey(3), FieldElement::from(2u128)),
    ]));

    let init = vec![Witness(1), Witness(2)];

    let invalid_trace = vec![
        MemOp::write_to_mem_index(
            Expression::from_field(FieldValue::from_u128(1)),
            Expression::from_witness(Witness(3)),
        ),
        MemOp::read_at_mem_index(Expression::from_field(FieldValue::from_u128(2)), Witness(4)),
    ];
    let mut block_solver = MemoryOpSolver::default();
    block_solver.init(&init, &initial_witness).unwrap();
    let mut err = None;
    for op in invalid_trace {
        if err.is_none() {
            err = block_solver
                .solve_memory_op(&op, &mut initial_witness, &Some(Expression::zero()), PEDANTIC_SOLVING)
                .err();
        }
    }

    // Should have no index out of bounds error where predicate is zero
    assert_eq!(err, None);
    // The result of a read under a zero predicate should be zero
    assert_eq!(initial_witness[&MapKey(4)], FieldElement::from(0u128));
}

#[test]
fn test_predicate_on_write() {
    let mut initial_witness = WitnessMap::from(BTreeMap::from_iter([
        (MapKey(1), FieldElement::from(1u128)),
        (MapKey(2), FieldElement::from(1u128)),
        (MapKey(3), FieldElement::from(2u128)),
    ]));

    let init = vec![Witness(1), Witness(2)];

    let invalid_trace = vec![
        MemOp::write_to_mem_index(
            Expression::from_field(FieldValue::from_u128(2)),
            Expression::from_witness(Witness(3)),
        ),
        MemOp::read_at_mem_index(Expression::from_field(FieldValue::from_u128(0)), Witness(4)),
        MemOp::read_at_mem_index(Expression::from_field(FieldValue::from_u128(1)), Witness(5)),
    ];
    let mut block_solver = MemoryOpSolver::default();
    block_solver.init(&init, &initial_witness).unwrap();
    let mut err = None;
    for op in invalid_trace {
        if err.is_none() {
            err = block_solver
                .solve_memory_op(&op, &mut initial_witness, &Some(Expression::zero()), PEDANTIC_SOLVING)
                .err();
        }
    }

    // Should have no index out of bounds error where predicate is zero
    assert_eq!(err, None);
    // The memory under a zero predicate should be zeroed out
    assert_eq!(initial_witness[&MapKey(4)], FieldElement::from(0u128));
    assert_eq!(initial_witness[&MapKey(5)], FieldElement::from(0u128));
}

#[test]
fn the_write_before_a_failing_read_is_applied() {
    let mut initial_witness = WitnessMap::from(BTreeMap::from_iter([
        (MapKey(1), FieldElement::from(1u128)),
        (MapKey(2), FieldElement::from(1u128)),
        (MapKey(3), FieldElement::from(2u128)),
    ]));
    let mut block_solver = MemoryOpSolver::default();
    block_solver.init(&[Witness(1), Witness(2)], &initial_witness).unwrap();

    let write = MemOp::write_to_mem_index(
        Expression::from_field(FieldValue::from_u128(1)),
        Expression::from_witness(Witness(3)),
    );
    assert_eq!(block_solver.solve_memory_op(&write, &mut initial_witness, &None, PEDANTIC_SOLVING), Ok(()));

    let read = MemOp::read_at_mem_index(Expression::from_field(FieldValue::from_u128(2)), Witness(4));
    let failed = block_solver.solve_memory_op(&read, &mut initial_witness, &None, PEDANTIC_SOLVING);
    assert!(failed.is_err());
    assert!(!initial_witness.contains_key(&MapKey(4)));

    assert_eq!(block_solver.read_memory_index(0), Ok(FieldValue::from_u128(1)));
    assert_eq!(block_solver.read_memory_index(1), Ok(FieldValue::from_u128(2)));
}

#[test]
fn a_skipped_write_leaves_the_block_as_it_is() {
    let mut initial_witness = WitnessMap::from(BTreeMap::from_iter([
        (MapKey(1), FieldElement::from(7u128)),
        (MapKey(2), FieldElement::from(8u128)),
        (MapKey(3), FieldElement::from(9u128)),
    ]));
    let mut block_solver = MemoryOpSolver::default();
    block_solver.init(&[Witness(1), Witness(2)], &initial_witness).unwrap();

    let write = MemOp::write_to_mem_index(
        Expression::from_field(FieldValue::from_u128(1)),
        Expression::from_witness(Witness(3)),
    );
    let skipped =
        block_solver.solve_memory_op(&write, &mut initial_witness, &Some(Expression::zero()), PEDANTIC_SOLVING);
    assert_eq!(skipped, Ok(()));
    assert_eq!(block_solver.block_len(), 2);
    assert_eq!(block_solver.read_memory_index(0), Ok(FieldValue::from_u128(7)));
    assert_eq!(block_solver.read_memory_index(1), Ok(FieldValue::from_u128(8)));

    // Under a predicate that is one the same write goes through.
    let applied =
        block_solver.solve_memory_op(&write, &mut initial_witness, &Some(Expression::one()), PEDANTIC_SOLVING);
    assert_eq!(applied, Ok(()));
    assert_eq!(block_solver.read_memory_index(1), Ok(FieldValue::from_u128(9)));
}

#[test]
fn a_skipped_write_does_not_need_its_value() {
    let mut initial_witness = WitnessMap::from(BTreeMap::from_iter([(MapKey(1), FieldElement::from(7u128))]));
    let mut block_solver = MemoryOpSolver::default();
    block_solver.init(&[Witness(1)], &initial_witness).unwrap();

    let write = MemOp::write_to_mem_index(
        Expression::from_field(FieldValue::from_u128(0)),
        Expression::from_witness(Witness(9)),
    );
    let skipped =
        block_solver.solve_memory_op(&write, &mut initial_witness, &Some(Expression::zero()), PEDANTIC_SOLVING);
    assert_eq!(skipped, Ok(()));

    let failed = block_solver.solve_memory_op(&write, &mut initial_witness, &None, PEDANTIC_SOLVING);
    assert_eq!(
        failed,
        Err(OpcodeResolutionError::OpcodeNotSolvable(OpcodeNotSolvable::MissingAssignment(9)))
    );
    assert_eq!(block_solver.read_memory_index(0), Ok(FieldValue::from_u128(7)));
}

#[test]
fn the_index_is_checked_also_where_the_access_is_skipped() {
    let mut initial_witness = WitnessMap::from(BTreeMap::from_iter([(MapKey(1), FieldElement::from(7u128))]));
    let mut block_solver = MemoryOpSolver::default();
    block_solver.init(&[Witness(1)], &initial_witness).unwrap();

    let wide = FieldValue::from_u128(1 << 32);
    let read = MemOp::read_at_mem_index(Expression::from_field(wide), Witness(4));
    let failed =
        block_solver.solve_memory_op(&read, &mut initial_witness, &Some(Expression::zero()), PEDANTIC_SOLVING);
    assert!(matches!(
        failed,
        Err(OpcodeResolutionError::IndexOutOfBounds { opcode_location: _, index, array_size: 1 }) if index == wide
    ));
    assert!(!initial_witness.contains_key(&MapKey(4)));

    let unknown = MemOp::read_at_mem_index(Expression::from_witness(Witness(8)), Witness(4));
    let failed =
        block_solver.solve_memory_op(&unknown, &mut initial_witness, &Some(Expression::zero()), PEDANTIC_SOLVING);
    assert_eq!(
        failed,
        Err(OpcodeResolutionError::OpcodeNotSolvable(OpcodeNotSolvable::MissingAssignment(8)))
    );
}

#[test]
fn an_index_may_come_from_a_witness() {
    let mut initial_witness = WitnessMap::from(BTreeMap::from_iter([
        (MapKey(1), FieldElement::from(5u128)),
        (MapKey(2), FieldElement::from(6u128)),
        (MapKey(3), FieldElement::from(1u128)),
    ]));
    let mut block_solver = MemoryOpSolver::default();
    block_solver.init(&[Witness(1), Witness(2)], &initial_witness).unwrap();

    let read = MemOp::read_at_mem_index(Expression::from_witness(Witness(3)), Witness(4));
    assert_eq!(block_solver.solve_memory_op(&read, &mut initial_witness, &None, false), Ok(()));
    assert_eq!(initial_witness[&MapKey(4)], FieldElement::from(6u128));
}

#[test]
fn any_operation_but_zero_is_a_write() {
    let mut initial_witness = WitnessMap::from(BTreeMap::from_iter([(MapKey(1), FieldElement::from(5u128))]));
    let mut block_solver = MemoryOpSolver::default();
    block_solver.init(&[Witness(1)], &initial_witness).unwrap();

    let op = MemOp {
        operation: Expression::from_field(FieldValue::from_u128(2)),
        index: Expression::zero(),
        value: Expression::from_field(FieldValue::from_u128(11)),
    };
    assert_eq!(block_solver.solve_memory_op(&op, &mut initial_witness, &None, PEDANTIC_SOLVING), Ok(()));
    assert_eq!(block_solver.read_memory_index(0), Ok(FieldValue::from_u128(11)));
}

#[test]
fn an_unknown_operation_fails_first() {
    let mut initial_witness = WitnessMap::new();
    let mut block_solver = MemoryOpSolver::default();
    let op = MemOp {
        operation: Expression::from_witness(Witness(6)),
        index: Expression::from_witness(Witness(7)),
        value: Expression::from_witness(Witness(8)),
    };
    assert_eq!(
        block_solver.solve_memory_op(&op, &mut initial_witness, &None, PEDANTIC_SOLVING),
        Err(OpcodeResolutionError::OpcodeNotSolvable(OpcodeNotSolvable::MissingAssignment(6)))
    );
}

#[test]
fn an_unknown_predicate_fails_only_under_pedantic_solving() {
    let mut initial_witness = WitnessMap::from(BTreeMap::from_iter([(MapKey(1), FieldElement::from(5u128))]));
    let mut block_solver = MemoryOpSolver::default();
    block_solver.init(&[Witness(1)], &initial_witness).unwrap();

    let read = MemOp::read_at_mem_index(Expression::zero(), Witness(4));
    let predicate = Some(Expression::from_witness(Witness(9)));
    assert_eq!(
        block_solver.solve_memory_op(&read, &mut initial_witness, &predicate, true),
        Err(OpcodeResolutionError::OpcodeNotSolvable(OpcodeNotSolvable::MissingAssignment(9)))
    );
    assert!(!initial_witness.contains_key(&MapKey(4)));

    assert_eq!(block_solver.solve_memory_op(&read, &mut initial_witness, &predicate, false), Ok(()));
    assert_eq!(initial_witness[&MapKey(4)], FieldElement::from(5u128));
}

#[test]
fn a_read_must_name_its_witness() {
    let mut initial_witness = WitnessMap::from(BTreeMap::from_iter([
        (MapKey(1), FieldElement::from(5u128)),
        (MapKey(2), FieldElement::from(6u128)),
    ]));
    let mut block_solver = MemoryOpSolver::default();
    block_solver.init(&[Witness(1), Witness(2)], &initial_witness).unwrap();

    // The witness holds a value already, so the expression is a constant.
    let into_assigned = MemOp::read_at_mem_index(Expression::zero(), Witness(2));
    assert_eq!(block_solver.try_solve_memory_op(&into_assigned, &mut initial_witness, &None, PEDANTIC_SOLVING), None);
    assert_eq!(
        block_solver.try_solve_memory_op(
            &into_assigned,
            &mut initial_witness,
            &Some(Expression::zero()),
            PEDANTIC_SOLVING
        ),
        None
    );
    let into_constant = MemOp {
        operation: Expression::zero(),
        index: Expression::zero(),
        value: Expression::from_field(FieldValue::from_u128(3)),
    };
    assert_eq!(block_solver.try_solve_memory_op(&into_constant, &mut initial_witness, &None, PEDANTIC_SOLVING), None);
    let into_sum = MemOp {
        operation: Expression::zero(),
        index: Expression::zero(),
        value: Expression {
            mul_terms: vec![],
            linear_combinations: vec![(FieldValue::one(), Witness(7)), (FieldValue::one(), Witness(8))],
            q_c: FieldValue::zero(),
        },
    };
    assert_eq!(block_solver.try_solve_memory_op(&into_sum, &mut initial_witness, &None, PEDANTIC_SOLVING), None);
    assert_eq!(initial_witness[&MapKey(2)], FieldElement::from(6u128));
    assert!(!initial_witness.contains_key(&MapKey(7)));

    // An opcode that fails before it reads is taken, and fails.
    let out_of_reach = MemOp {
        operation: Expression::zero(),
        index: Expression::from_witness(Witness(9)),
        value: Expression::from_field(FieldValue::from_u128(3)),
    };
    assert_eq!(
        block_solver.try_solve_memory_op(&out_of_reach, &mut initial_witness, &None, PEDANTIC_SOLVING),
        Some(Err(OpcodeResolutionError::OpcodeNotSolvable(OpcodeNotSolvable::MissingAssignment(9))))
    );

    let read = MemOp::read_at_mem_index(Expression::one(), Witness(4));
    assert_eq!(
        block_solver.try_solve_memory_op(&read, &mut initial_witness, &None, PEDANTIC_SOLVING),
        Some(Ok(()))
    );
    assert_eq!(initial_witness[&MapKey(4)], FieldElement::from(6u128));

    // A write takes any value.
    let write = MemOp::write_to_mem_index(Expression::zero(), Expression::from_field(FieldValue::from_u128(3)));
    assert_eq!(
        block_solver.try_solve_memory_op(&write, &mut initial_witness, &None, PEDANTIC_SOLVING),
        Some(Ok(()))
    );
    assert_eq!(block_solver.read_memory_index(0), Ok(FieldValue::from_u128(3)));
}

#[test]
fn a_read_that_evaluates_to_its_witness_is_taken() {
    // w4 + 0 * w1 + 2 * w2 * w3, where the second witness holds zero
    let mut initial_witness = WitnessMap::from(BTreeMap::from_iter([
        (MapKey(1), FieldElement::from(5u128)),
        (MapKey(2), FieldElement::from(0u128)),
    ]));
    let mut block_solver = MemoryOpSolver::default();
    block_solver.init(&[Witness(1)], &initial_witness).unwrap();
    let read = MemOp {
        operation: Expression::zero(),
        index: Expression::zero(),
        value: Expression {
            mul_terms: vec![(FieldValue::from_u128(2), Witness(2), Witness(3))],
            linear_combinations: vec![(FieldValue::one(), Witness(4)), (FieldValue::zero(), Witness(1))],
            q_c: FieldValue::zero(),
        },
    };
    assert_eq!(block_solver.solve_memory_op(&read, &mut initial_witness, &None, PEDANTIC_SOLVING), Ok(()));
    assert_eq!(initial_witness[&MapKey(4)], FieldElement::from(5u128));
}
