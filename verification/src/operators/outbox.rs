//! `Outbox`: push the register's value onto the output tape.

use vstd::prelude::*;
use vstd::string::StringExecFns;

use crate::operators::Operator;
use crate::state::InternalState;
use crate::state::MachineModel;

verus! {

/// The transition of `Outbox`: the register's value is appended to the
/// output tape; an empty register is an error.
pub open spec fn spec_outbox(m: MachineModel) -> Result<MachineModel, Seq<char>> {
    match m.register {
        Some(v) => Ok(MachineModel { output_tape: m.output_tape.push(v), ..m }),
        None => Err("you cannot put nothing in the output queue!"@),
    }
}

/// Pushes the register's value onto the output tape.
pub struct OutboxOp {}

impl Operator for OutboxOp {
    open spec fn op_result(&self, m: MachineModel) -> Result<MachineModel, Seq<char>> {
        spec_outbox(m)
    }

    open spec fn safe(&self, m: MachineModel) -> bool {
        true
    }

    open spec fn manages_counter(&self) -> bool {
        false
    }

    fn changes_instruction_counter(&self) -> (b: bool) {
        false
    }

    fn apply_to(&self, s: &mut InternalState) -> (r: Result<(), String>) {
        if let Some(value) = s.register {
            s.output_tape.push(value);
            Ok(())
        } else {
            Err(String::from_str("you cannot put nothing in the output queue!"))
        }
    }
}

} // verus!
