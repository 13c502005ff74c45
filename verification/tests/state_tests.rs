use hrm_interpreter::state::InternalState;
use hrm_interpreter::Operation;
use hrm_interpreter::Value;

#[test]
fn executed_counter_at_start() {
    let state = InternalState::new(None, 0);

    assert_eq!(state.executed_instructions(), 0);
}

#[test]
fn executed_counter_is_increased() {
    let mut state =
        InternalState::new(None, 0).with_input_tape(vec![Value::Number { value: 1 }]);

    let _ = state.apply(Operation::Inbox);

    assert_eq!(state.executed_instructions(), 1);
}
