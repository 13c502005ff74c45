use hrm_interpreter::operators::copyfrom::CopyFromOp;
use hrm_interpreter::operators::Operator;
use hrm_interpreter::state::InternalState;
use hrm_interpreter::Location;
use hrm_interpreter::Value;

#[test]
fn copyfrom_non_empty_cell() {
    let mut state =
        InternalState::new(None, 0).with_memory(vec![Some(Value::Number { value: 5 })]);
    let operation = CopyFromOp { cell: Location::Cell(0) };

    let result = operation.apply_to(&mut state);

    assert!(result.is_ok());
    assert!(match state.register {
        Some(Value::Number { value: 5 }) => true,
        _ => false,
    });
}

#[test]
fn copyfrom_non_empty_addressed_cell() {
    let mut state = InternalState::new(None, 0);
    state.memory = vec![Some(Value::Number { value: 1 }), Some(Value::Number { value: 5 })];
    let operation = CopyFromOp { cell: Location::Address(0) };

    let result = operation.apply_to(&mut state);
    assert!(result.is_ok());
    assert!(match state.register {
        Some(Value::Number { value: 5 }) => true,
        _ => false,
    });
}

#[test]
fn copyfrom_empty_cell() {
    let mut state = InternalState::new(None, 0).with_memory(vec![None]);
    let operation = CopyFromOp { cell: Location::Cell(0) };

    let result = operation.apply_to(&mut state);

    assert!(result.is_err());
}

#[test]
fn copyfrom_empty_addressed_cell() {
    let mut state = InternalState::new(None, 0);
    state.memory = vec![Some(Value::Number { value: 1 }), None];
    let operation = CopyFromOp { cell: Location::Address(0) };

    let result = operation.apply_to(&mut state);

    println!("{:?}", result);
    assert!(result.is_err());
}
