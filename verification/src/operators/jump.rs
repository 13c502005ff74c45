//! Control flow: `Label` (a no-op that marks a jump target), `Jump`, and the
//! two conditional jumps. The jump operators maintain the instruction counter
//! themselves.

use vstd::prelude::*;
use vstd::string::StringExecFns;

use crate::operators::Operator;
use crate::state::InternalState;
use crate::state::MachineModel;
use crate::Operation;
use crate::Value;

verus! {

/// The transition of `Label`: no change at all.
pub open spec fn spec_label(m: MachineModel) -> Result<MachineModel, Seq<char>> {
    Ok(m)
}

/// The transition of `Jump`: the instruction counter moves to `target`.
pub open spec fn spec_jump(m: MachineModel, target: usize) -> Result<MachineModel, Seq<char>> {
    Ok(MachineModel { instruction_counter: target as int, ..m })
}

/// The transition of `JumpEqualsZero`: jump to `target` when the register
/// holds the number zero, advance by one otherwise; an empty register is an
/// error. A register holding a character simply advances.
pub open spec fn spec_jump_equals_zero(m: MachineModel, target: usize) -> Result<
    MachineModel,
    Seq<char>,
> {
    match m.register {
        None => Err("register holds no value! cannot compare it to zero!"@),
        Some(Value::Number { value: 0 }) => Ok(
            MachineModel { instruction_counter: target as int, ..m },
        ),
        Some(_) => Ok(MachineModel { instruction_counter: m.instruction_counter + 1, ..m }),
    }
}

/// The transition of `JumpNegative`: jump to `target` when the register holds
/// a negative number, advance by one when it holds any other number; an empty
/// register or a character is an error.
pub open spec fn spec_jump_negative(m: MachineModel, target: usize) -> Result<
    MachineModel,
    Seq<char>,
> {
    match m.register {
        None => Err("register holds no value! cannot see if it is negative!"@),
        Some(Value::Character { .. }) => Err("cannot compare a character to zero!"@),
        Some(Value::Number { value: v }) => if v < 0 {
            Ok(MachineModel { instruction_counter: target as int, ..m })
        } else {
            Ok(MachineModel { instruction_counter: m.instruction_counter + 1, ..m })
        },
    }
}

/// `JumpEqualsZero` moves the counter to the target exactly when the
/// register holds the number zero, advances it by one for every other
/// number, and fails when the register is empty; the rest of the state
/// stays as it was.
pub proof fn lemma_jump_equals_zero(m: MachineModel, target: usize)
    ensures
        m.register == Some(Value::Number { value: 0 }) ==> (match crate::state::spec_apply(
            m,
            Operation::JumpEqualsZero { next_operation: target },
        ) {
            Ok(m2) => m2.instruction_counter == target && m2.register == m.register && m2.memory
                == m.memory && m2.input_tape == m.input_tape && m2.output_tape == m.output_tape,
            Err(_) => false,
        }),
        (m.register matches Some(Value::Number { value: v }) && v != 0)
            ==> (match crate::state::spec_apply(
            m,
            Operation::JumpEqualsZero { next_operation: target },
        ) {
            Ok(m2) => m2.instruction_counter == m.instruction_counter + 1 && m2.register
                == m.register && m2.memory == m.memory,
            Err(_) => false,
        }),
        m.register is None ==> crate::state::spec_apply(
            m,
            Operation::JumpEqualsZero { next_operation: target },
        ) is Err,
{
}

/// Marks a jump target; running it changes nothing.
#[derive(Debug, Clone, Copy)]
pub struct LabelOp;

impl Operator for LabelOp {
    open spec fn op_result(&self, m: MachineModel) -> Result<MachineModel, Seq<char>> {
        spec_label(m)
    }

    open spec fn safe(&self, m: MachineModel) -> bool {
        true
    }

    open spec fn manages_counter(&self) -> bool {
        false
    }

    fn changes_instruction_counter(&self) -> (b: bool) {
        false
    }

    fn apply_to(&self, _s: &mut InternalState) -> (r: Result<(), String>) {
        Ok(())
    }
}

/// Unconditionally moves the instruction counter to `next_operation`.
#[derive(Debug, Clone, Copy)]
pub struct JumpOp {
    pub next_operation: usize,
}

impl Operator for JumpOp {
    open spec fn op_result(&self, m: MachineModel) -> Result<MachineModel, Seq<char>> {
        spec_jump(m, self.next_operation)
    }

    open spec fn safe(&self, m: MachineModel) -> bool {
        true
    }

    open spec fn manages_counter(&self) -> bool {
        true
    }

    fn changes_instruction_counter(&self) -> (b: bool) {
        true
    }

    fn apply_to(&self, s: &mut InternalState) -> (r: Result<(), String>) {
        s.instruction_counter = self.next_operation;
        Ok(())
    }
}

/// Moves the instruction counter to `next_operation` when the register holds
/// the number zero.
#[derive(Debug, Clone, Copy)]
pub struct JumpEqualsZeroOp {
    pub next_operation: usize,
}

impl Operator for JumpEqualsZeroOp {
    open spec fn op_result(&self, m: MachineModel) -> Result<MachineModel, Seq<char>> {
        spec_jump_equals_zero(m, self.next_operation)
    }

    open spec fn safe(&self, m: MachineModel) -> bool {
        m.register matches Some(v) && !(v matches Value::Number { value: 0 })
            ==> m.instruction_counter < usize::MAX
    }

    open spec fn manages_counter(&self) -> bool {
        true
    }

    fn changes_instruction_counter(&self) -> (b: bool) {
        true
    }

    fn apply_to(&self, s: &mut InternalState) -> (r: Result<(), String>) {
        match s.register {
            None => Err(String::from_str("register holds no value! cannot compare it to zero!")),
            Some(Value::Number { value: 0 }) => {
                s.instruction_counter = self.next_operation;
                Ok(())
            },
            _ => {
                s.instruction_counter = s.instruction_counter + 1;
                Ok(())
            },
        }
    }
}

/// Moves the instruction counter to `next_operation` when the register holds
/// a negative number.
#[derive(Debug, Clone, Copy)]
pub struct JumpNegativeOp {
    pub next_operation: usize,
}

impl Operator for JumpNegativeOp {
    open spec fn op_result(&self, m: MachineModel) -> Result<MachineModel, Seq<char>> {
        spec_jump_negative(m, self.next_operation)
    }

    open spec fn safe(&self, m: MachineModel) -> bool {
        m.register matches Some(Value::Number { value: v }) && v >= 0
            ==> m.instruction_counter < usize::MAX
    }

    open spec fn manages_counter(&self) -> bool {
        true
    }

    fn changes_instruction_counter(&self) -> (b: bool) {
        true
    }

    fn apply_to(&self, s: &mut InternalState) -> (r: Result<(), String>) {
        match s.register {
            None => Err(
                String::from_str("register holds no value! cannot see if it is negative!"),
            ),
            Some(Value::Character { .. }) => Err(
                String::from_str("cannot compare a character to zero!"),
            ),
            Some(Value::Number { value: v }) => if v < 0 {
                s.instruction_counter = self.next_operation;
                Ok(())
            } else {
                s.instruction_counter = s.instruction_counter + 1;
                Ok(())
            },
        }
    }
}

} // verus!
