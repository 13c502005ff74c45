use hrm_interpreter::json::labels_to_positions;
use hrm_interpreter::json::to_operator;
use hrm_interpreter::json::JsonOperand;
use hrm_interpreter::json::JsonOperation;
use hrm_interpreter::Operation;

#[test]
fn to_operator_label() {
    let empty_labels_mapping = vec![];
    let src = JsonOperation::new(
        String::from("label"),
        Some(JsonOperand::Label(String::from("mylabel"))),
    );
    let result = to_operator(src, &empty_labels_mapping);

    assert!(match result {
        Operation::Label => true,
        _ => false,
    });
}

#[test]
fn to_operator_jump_label_found() {
    let mapping = vec![(String::from("myLabel"), 3)];
    let operation = JsonOperation::new(
        String::from("jmp"),
        Some(JsonOperand::Label(String::from("myLabel"))),
    );

    let result = to_operator(operation, &mapping);

    assert!(match result {
        Operation::Jump { next_operation: 3 } => true,
        _ => false,
    });
}

#[test]
fn labels_to_positions_empty_code() {
    let empty_vec = vec![];
    let result = labels_to_positions(&empty_vec);
    assert!(result.len() == 0);
}

#[test]
fn labels_to_positions_no_labels() {
    let operations =
        vec![JsonOperation::new(String::from("copyto"), Some(JsonOperand::Cell(2)))];
    let result = labels_to_positions(&operations);
    assert!(result.len() == 0);
}

#[test]
fn labels_to_positions_with_labels() {
    let operations = vec![
        JsonOperation::new(
            String::from("label"),
            Some(JsonOperand::Label(String::from("firstlabel"))),
        ),
        JsonOperation::new(String::from("inbox"), None),
        JsonOperation::new(
            String::from("label"),
            Some(JsonOperand::Label(String::from("secondlabel"))),
        ),
        JsonOperation::new(
            String::from("jmp"),
            Some(JsonOperand::Label(String::from("firstlabel"))),
        ),
    ];

    let result = labels_to_positions(&operations);

    assert!(result.len() == 2);
    assert!(result[0] == (String::from("firstlabel"), 0));
    assert!(result[1] == (String::from("secondlabel"), 2));
}
