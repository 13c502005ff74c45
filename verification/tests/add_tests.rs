use hrm_interpreter::operators::add::AddOp;
use hrm_interpreter::operators::Operator;
use hrm_interpreter::state::InternalState;
use hrm_interpreter::Location;
use hrm_interpreter::Operation;
use hrm_interpreter::Value;

#[test]
fn add_two_numbers() {
    let mut state = InternalState::new(Some(Value::Number { value: 5 }), 0)
        .with_memory(vec![Some(Value::Number { value: 4 })]);
    let operation = AddOp { cell: Location::Cell(0) };

    let _ = operation.apply_to(&mut state).unwrap();

    assert!(match state.register {
        Some(Value::Number { value: 9 }) => true,
        _ => false,
    });
}

#[test]
fn add_two_numbers_address() {
    let mut state = InternalState::new(Some(Value::Number { value: 5 }), 0);
    state.memory = vec![Some(Value::Number { value: 1 }), Some(Value::Number { value: 4 })];
    let operation = AddOp { cell: Location::Address(0) };

    let _ = operation.apply_to(&mut state).unwrap();

    assert!(match state.register {
        Some(Value::Number { value: 9 }) => true,
        _ => false,
    });
}

#[test]
fn add_number_to_empty_cell() {
    let mut state =
        InternalState::new(Some(Value::Number { value: 5 }), 0).with_memory(vec![None]);
    let operation = AddOp { cell: Location::Cell(0) };

    let result = operation.apply_to(&mut state);

    assert!(result.is_err());
}

#[test]
fn add_two_numbers_to_empty_address() {
    let mut state = InternalState::new(Some(Value::Number { value: 5 }), 0);
    state.memory = vec![None, Some(Value::Number { value: 4 })];
    let operation = AddOp { cell: Location::Address(0) };

    let result = operation.apply_to(&mut state);
    assert!(result.is_err());
}

#[test]
fn add_number_to_empty_addressed_cell() {
    let mut state = InternalState::new(Some(Value::Number { value: 5 }), 0);
    state.memory = vec![Some(Value::Number { value: 1 }), None, None, None, None];
    let operation = AddOp { cell: Location::Address(0) };

    let result = operation.apply_to(&mut state);
    println!("{:?}", result);
    assert!(result.is_err());
}

#[test]
fn add_number_to_empty_register() {
    let mut state =
        InternalState::new(None, 0).with_memory(vec![Some(Value::Number { value: 5 })]);
    let operation = AddOp { cell: Location::Cell(0) };

    let result = operation.apply_to(&mut state);

    assert!(result.is_err());
}

#[test]
fn add_addressed_number_to_empty_register() {
    let mut state = InternalState::new(None, 0)
        .with_memory(vec![Some(Value::Number { value: 1 }), Some(Value::Number { value: 5 })]);
    let operation = AddOp { cell: Location::Address(0) };

    let result = operation.apply_to(&mut state);
    assert!(result.is_err());
}

#[test]
fn add_char_to_char() {
    let mut state = InternalState::new(Some(Value::Character { value: 'a' }), 0)
        .with_memory(vec![Some(Value::Character { value: 'a' })]);
    let operator = AddOp { cell: Location::Cell(0) };

    let result = operator.apply_to(&mut state);

    assert!(result.is_err());
}

#[test]
fn add_char_to_addressed_char() {
    let mut state = InternalState::new(Some(Value::Character { value: 'a' }), 0);
    state.memory = vec![Some(Value::Number { value: 1 }), Some(Value::Character { value: 'a' })];
    let operator = AddOp { cell: Location::Address(0) };

    let result = operator.apply_to(&mut state);

    assert!(result.is_err());
}

#[test]
fn add_char_to_number() {
    let mut state = InternalState::new(Some(Value::Character { value: 'a' }), 0)
        .with_memory(vec![Some(Value::Number { value: 5 })]);

    let _ = state.apply(Operation::Add { cell: Location::Cell(0) });

    assert!(match state.register {
        Some(Value::Character { value: 'f' }) => true,
        _ => false,
    });
}

#[test]
fn add_char_to_number_overflow() {
    let mut state = InternalState::new(Some(Value::Character { value: 'z' }), 0)
        .with_memory(vec![Some(Value::Number { value: 5 })]);
    let operation = AddOp { cell: Location::Cell(0) };

    let result = operation.apply_to(&mut state);

    assert!(result.is_err());
}

#[test]
fn add_number_to_char() {
    let mut state = InternalState::new(Some(Value::Number { value: 5 }), 0)
        .with_memory(vec![Some(Value::Character { value: 'a' })]);

    let _ = state.apply(Operation::Add { cell: Location::Cell(0) }).unwrap();

    assert!(match state.register {
        Some(Value::Character { value: 'f' }) => true,
        _ => false,
    });
}

#[test]
fn add_number_to_addressed_char() {
    let mut state = InternalState::new(Some(Value::Number { value: 5 }), 0);
    state.memory = vec![Some(Value::Number { value: 1 }), Some(Value::Character { value: 'a' })];

    let _ = state.apply(Operation::Add { cell: Location::Address(0) }).unwrap();
    assert!(match state.register {
        Some(Value::Character { value: 'f' }) => true,
        _ => false,
    });
}

#[test]
fn add_number_to_char_overflow() {
    let mut state = InternalState::new(Some(Value::Number { value: 5 }), 0)
        .with_memory(vec![Some(Value::Character { value: 'z' })]);
    let operation = AddOp { cell: Location::Cell(0) };

    let result = operation.apply_to(&mut state);

    assert!(result.is_err());
}
