//! `CopyTo`: store the register's value into a memory cell.

use vstd::prelude::*;
use vstd::string::StringExecFns;

use crate::memory;
use crate::operators::Operator;
use crate::state::InternalState;
use crate::state::MachineModel;
use crate::text::dec_str;
use crate::text::u64_to_string;
use crate::Location;

verus! {

/// The message produced when the register is empty and there is nothing to
/// store into the resolved cell `p`.
pub open spec fn empty_register_message(p: int) -> Seq<char> {
    "register holds no value. could not copy a None value to "@ + dec_str(p as nat)
}

/// The transition of `CopyTo`: the register's value is stored into the
/// resolved cell; an unresolvable location or an empty register is an error.
pub open spec fn spec_copyto(m: MachineModel, cell: Location) -> Result<MachineModel, Seq<char>> {
    match memory::spec_resolve(cell, m.memory) {
        Err(e) => Err(memory::error_message(e)),
        Ok(p) => match m.register {
            Some(v) => Ok(MachineModel { memory: m.memory.update(p, Some(v)), ..m }),
            None => Err(empty_register_message(p)),
        },
    }
}

/// Stores the register's value into a memory cell.
pub struct CopyToOp {
    pub cell: Location,
}

impl Operator for CopyToOp {
    open spec fn op_result(&self, m: MachineModel) -> Result<MachineModel, Seq<char>> {
        spec_copyto(m, self.cell)
    }

    open spec fn safe(&self, m: MachineModel) -> bool {
        memory::access_safe(self.cell, m.memory)
    }

    open spec fn manages_counter(&self) -> bool {
        false
    }

    fn changes_instruction_counter(&self) -> (b: bool) {
        false
    }

    fn apply_to(&self, s: &mut InternalState) -> (r: Result<(), String>) {
        let memory_position = memory::extract_memory_position(self.cell, s);
        if let Err(error) = memory_position {
            return Err(memory::explain(error));
        }
        let cell = memory_position.unwrap();
        if let Some(value) = s.register {
            s.memory[cell] = Some(value);
            Ok(())
        } else {
            let mut message = String::from_str("register holds no value. could not copy a None value to ");
            let digits = u64_to_string(cell as u64);
            message.append(digits.as_str());
            proof {
                assert(message@ =~= empty_register_message(cell as int));
            }
            Err(message)
        }
    }
}

} // verus!
