use hrm_interpreter::operators::jump::JumpEqualsZeroOp;
use hrm_interpreter::operators::jump::JumpNegativeOp;
use hrm_interpreter::operators::jump::LabelOp;
use hrm_interpreter::operators::Operator;
use hrm_interpreter::state::InternalState;
use hrm_interpreter::Value;

#[test]
fn label_does_not_change_instruction_counter() {
    let mut _state = InternalState::new(Some(Value::Number { value: 0 }), 0);
    let _op = LabelOp;

    _op.apply_to(&mut _state).unwrap();

    assert!(_state.instruction_counter == 0);
}

#[test]
fn jez_register_is_zero() {
    let mut _state = InternalState::new(Some(Value::Number { value: 0 }), 0);
    let _op = JumpEqualsZeroOp { next_operation: 15 };

    _op.apply_to(&mut _state).unwrap();

    assert!(_state.instruction_counter == 15);
}

#[test]
fn jez_register_not_zero() {
    let mut _state = InternalState::new(Some(Value::Number { value: 5 }), 0);
    let _op = JumpEqualsZeroOp { next_operation: 15 };

    _op.apply_to(&mut _state).unwrap();

    assert!(_state.instruction_counter == 1);
}

#[test]
fn jez_no_register_value() {
    let mut _state = InternalState::new(None, 0);
    let _op = JumpEqualsZeroOp { next_operation: 15 };

    assert!(_op.apply_to(&mut _state).is_err());
}

#[test]
fn jneg_register_is_zero() {
    let mut _state = InternalState::new(Some(Value::Number { value: 0 }), 0);
    let _op = JumpNegativeOp { next_operation: 15 };

    _op.apply_to(&mut _state).unwrap();

    assert!(_state.instruction_counter == 1);
}

#[test]
fn jneg_register_is_negative() {
    let mut _state = InternalState::new(Some(Value::Number { value: -2 }), 0);
    let _op = JumpNegativeOp { next_operation: 15 };

    _op.apply_to(&mut _state).unwrap();

    assert!(_state.instruction_counter == 15);
}

#[test]
fn jneg_register_is_positive() {
    let mut _state = InternalState::new(Some(Value::Number { value: 5 }), 0);
    let _op = JumpEqualsZeroOp { next_operation: 15 };

    _op.apply_to(&mut _state).unwrap();

    assert!(_state.instruction_counter == 1);
}

#[test]
fn jneg_no_register_value() {
    let mut _state = InternalState::new(None, 0);
    let _op = JumpEqualsZeroOp { next_operation: 15 };

    assert!(_op.apply_to(&mut _state).is_err());
}
