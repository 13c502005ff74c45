use hrm_interpreter::operators::sub::SubOp;
use hrm_interpreter::operators::Operator;
use hrm_interpreter::state::InternalState;
use hrm_interpreter::Location;
use hrm_interpreter::Operation;
use hrm_interpreter::Value;

#[test]
fn sub_two_numbers() {
    let mut state = InternalState::new(Some(Value::Number { value: 5 }), 0)
        .with_memory(vec![Some(Value::Number { value: 4 })]);
    let operation = SubOp { cell: Location::Cell(0) };

    let _ = operation.apply_to(&mut state).unwrap();

    assert!(match state.register {
        Some(Value::Number { value: 1 }) => true,
        _ => false,
    });
}

#[test]
fn sub_two_numbers_negative_result() {
    let mut state = InternalState::new(Some(Value::Number { value: 4 }), 0)
        .with_memory(vec![Some(Value::Number { value: 5 })]);
    let operation = SubOp { cell: Location::Cell(0) };

    let _ = operation.apply_to(&mut state).unwrap();

    assert!(match state.register {
        Some(Value::Number { value: -1 }) => true,
        _ => false,
    });
}

#[test]
fn sub_two_numbers_address() {
    let mut state = InternalState::new(Some(Value::Number { value: 5 }), 0);
    state.memory = vec![Some(Value::Number { value: 1 }), Some(Value::Number { value: 4 })];
    let operation = SubOp { cell: Location::Address(0) };

    let _ = operation.apply_to(&mut state).unwrap();

    assert!(match state.register {
        Some(Value::Number { value: 1 }) => true,
        _ => false,
    });
}

#[test]
fn sub_two_numbers_address_negative_result() {
    let mut state = InternalState::new(Some(Value::Number { value: 4 }), 0);
    state.memory = vec![Some(Value::Number { value: 1 }), Some(Value::Number { value: 5 })];
    let operation = SubOp { cell: Location::Address(0) };

    let _ = operation.apply_to(&mut state).unwrap();

    assert!(match state.register {
        Some(Value::Number { value: -1 }) => true,
        _ => false,
    });
}

#[test]
fn sub_number_to_empty_cell() {
    let mut state =
        InternalState::new(Some(Value::Number { value: 5 }), 0).with_memory(vec![None]);
    let operation = SubOp { cell: Location::Cell(0) };

    let result = operation.apply_to(&mut state);

    assert!(result.is_err());
}

#[test]
fn sub_two_numbers_to_empty_address() {
    let mut state = InternalState::new(Some(Value::Number { value: 5 }), 0);
    state.memory = vec![None, Some(Value::Number { value: 4 })];
    let operation = SubOp { cell: Location::Address(0) };

    let result = operation.apply_to(&mut state);
    assert!(result.is_err());
}

#[test]
fn sub_number_to_empty_addressed_cell() {
    let mut state = InternalState::new(Some(Value::Number { value: 5 }), 0);
    state.memory = vec![Some(Value::Number { value: 1 }), None, None, None, None];
    let operation = SubOp { cell: Location::Address(0) };

    let result = operation.apply_to(&mut state);
    assert!(result.is_err());
}

#[test]
fn sub_number_to_empty_register() {
    let mut state =
        InternalState::new(None, 0).with_memory(vec![Some(Value::Number { value: 5 })]);
    let operation = SubOp { cell: Location::Cell(0) };

    let result = operation.apply_to(&mut state);

    assert!(result.is_err());
}

#[test]
fn sub_addressed_number_to_empty_register() {
    let mut state = InternalState::new(None, 0)
        .with_memory(vec![Some(Value::Number { value: 1 }), Some(Value::Number { value: 5 })]);
    let operation = SubOp { cell: Location::Address(0) };

    let result = operation.apply_to(&mut state);
    assert!(result.is_err());
}

#[test]
fn sub_char_to_char() {
    let mut state = InternalState::new(Some(Value::Character { value: 'a' }), 0)
        .with_memory(vec![Some(Value::Character { value: 'a' })]);
    let operator = SubOp { cell: Location::Cell(0) };

    let result = operator.apply_to(&mut state);

    assert!(result.is_ok());
    assert!(match state.register {
        Some(Value::Number { value: 0 }) => true,
        _ => false,
    });
}

#[test]
fn sub_char_to_char_negative() {
    let mut state = InternalState::new(Some(Value::Character { value: 'a' }), 0)
        .with_memory(vec![Some(Value::Character { value: 'b' })]);
    let operator = SubOp { cell: Location::Cell(0) };

    let result = operator.apply_to(&mut state);

    assert!(result.is_ok());
    assert!(match state.register {
        Some(Value::Number { value: -1 }) => true,
        _ => false,
    });
}

#[test]
fn sub_char_to_addressed_char() {
    let mut state = InternalState::new(Some(Value::Character { value: 'a' }), 0);
    state.memory = vec![Some(Value::Number { value: 1 }), Some(Value::Character { value: 'a' })];
    let operator = SubOp { cell: Location::Address(0) };

    let result = operator.apply_to(&mut state);

    assert!(result.is_ok());
    assert!(match state.register {
        Some(Value::Number { value: 0 }) => true,
        _ => false,
    });
}

#[test]
fn sub_char_to_number() {
    let mut state = InternalState::new(Some(Value::Character { value: 'a' }), 0)
        .with_memory(vec![Some(Value::Number { value: 5 })]);

    let result = state.apply(Operation::Sub { cell: Location::Cell(0) });

    assert!(result.is_err());
}

#[test]
fn sub_char_to_number_overflow() {
    let mut state = InternalState::new(Some(Value::Character { value: 'z' }), 0)
        .with_memory(vec![Some(Value::Number { value: 5 })]);
    let operation = SubOp { cell: Location::Cell(0) };

    let result = operation.apply_to(&mut state);

    assert!(result.is_err());
}

#[test]
fn sub_number_to_char() {
    let mut state = InternalState::new(Some(Value::Number { value: 5 }), 0)
        .with_memory(vec![Some(Value::Character { value: 'a' })]);

    let result = state.apply(Operation::Sub { cell: Location::Cell(0) });

    assert!(result.is_err());
}

#[test]
fn sub_number_to_addressed_char() {
    let mut state = InternalState::new(Some(Value::Number { value: 5 }), 0);
    state.memory = vec![Some(Value::Number { value: 1 }), Some(Value::Character { value: 'a' })];

    let result = state.apply(Operation::Sub { cell: Location::Address(0) });
    assert!(result.is_err());
}

#[test]
fn sub_number_to_char_overflow() {
    let mut state = InternalState::new(Some(Value::Number { value: 5 }), 0)
        .with_memory(vec![Some(Value::Character { value: 'z' })]);
    let operation = SubOp { cell: Location::Cell(0) };

    let result = operation.apply_to(&mut state);

    assert!(result.is_err());
}
