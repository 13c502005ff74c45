//! `Inbox`: pop the next value from the input tape into the register.

use vstd::prelude::*;
use vstd::string::StringExecFns;

use crate::operators::Operator;
use crate::state::InternalState;
use crate::state::MachineModel;

verus! {

/// The transition of `Inbox`: the back of the input tape moves into the
/// register; an empty tape is the graceful end-of-program signal.
pub open spec fn spec_inbox(m: MachineModel) -> Result<MachineModel, Seq<char>> {
    if m.input_tape.len() == 0 {
        Err("The inbox is empty, you cannot pick a new value from it!"@)
    } else {
        Ok(MachineModel {
            register: Some(m.input_tape.last()),
            input_tape: m.input_tape.drop_last(),
            ..m
        })
    }
}

/// Pops the next input value into the register.
pub struct InboxOp {}

impl Operator for InboxOp {
    open spec fn op_result(&self, m: MachineModel) -> Result<MachineModel, Seq<char>> {
        spec_inbox(m)
    }

    open spec fn safe(&self, m: MachineModel) -> bool {
        true
    }

    open spec fn manages_counter(&self) -> bool {
        false
    }

    fn changes_instruction_counter(&self) -> (b: bool) {
        false
    }

    fn apply_to(&self, s: &mut InternalState) -> (r: Result<(), String>) {
        match s.input_tape.pop() {
            Some(input) => {
                s.register = Some(input);
                Ok(())
            },
            None => Err(
                String::from_str("The inbox is empty, you cannot pick a new value from it!"),
            ),
        }
    }
}

} // verus!
