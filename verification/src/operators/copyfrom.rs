//! `CopyFrom`: load the value of a memory cell into the register.

use vstd::prelude::*;
use vstd::string::StringExecFns;

use crate::memory;
use crate::operators::Operator;
use crate::state::InternalState;
use crate::state::MachineModel;
use crate::text::dec_str;
use crate::text::u64_to_string;
use crate::Location;
use crate::Operation;
use crate::Value;

verus! {

/// The message produced when the resolved cell `p` is empty.
pub open spec fn empty_cell_message(p: int) -> Seq<char> {
    "cell "@ + dec_str(p as nat) + " holds no value. could not copy a none value to the register"@
}

/// The transition of `CopyFrom`: the value of the resolved cell moves into
/// the register; an unresolvable location or an empty cell is an error.
pub open spec fn spec_copyfrom(m: MachineModel, cell: Location) -> Result<MachineModel, Seq<char>> {
    match memory::spec_resolve(cell, m.memory) {
        Err(e) => Err(memory::error_message(e)),
        Ok(p) => match m.memory[p] {
            Some(v) => Ok(MachineModel { register: Some(v), ..m }),
            None => Err(empty_cell_message(p)),
        },
    }
}

/// Indirect `CopyFrom` through `Address(i)` follows exactly one level of
/// indirection: when cell `i` holds a number `k` naming an occupied cell,
/// the register receives the value of cell `k` and the counter advances by
/// one; a character or an empty value in the pointer cell fails resolution.
pub proof fn lemma_copyfrom_indirect(m: MachineModel, i: usize)
    requires
        i < m.memory.len(),
    ensures
        (match m.memory[i as int] {
            Some(Value::Number { value: k }) => (0 <= k < m.memory.len() && m.memory[k as int] is Some)
                ==> (match crate::state::spec_apply(
                m,
                Operation::CopyFrom { cell: Location::Address(i) },
            ) {
                Ok(m2) => m2.register == m.memory[k as int] && m2.memory == m.memory
                    && m2.instruction_counter == m.instruction_counter + 1,
                Err(_) => false,
            }),
            Some(Value::Character { .. }) => crate::state::spec_apply(
                m,
                Operation::CopyFrom { cell: Location::Address(i) },
            ) is Err,
            None => crate::state::spec_apply(
                m,
                Operation::CopyFrom { cell: Location::Address(i) },
            ) is Err,
        }),
{
}

/// Loads the value of a memory cell into the register.
pub struct CopyFromOp {
    pub cell: Location,
}

impl Operator for CopyFromOp {
    open spec fn op_result(&self, m: MachineModel) -> Result<MachineModel, Seq<char>> {
        spec_copyfrom(m, self.cell)
    }

    open spec fn safe(&self, m: MachineModel) -> bool {
        memory::access_safe(self.cell, m.memory)
    }

    open spec fn manages_counter(&self) -> bool {
        false
    }

    fn changes_instruction_counter(&self) -> (b: bool) {
        false
    }

    fn apply_to(&self, s: &mut InternalState) -> (r: Result<(), String>) {
        let memory_position = memory::extract_memory_position(self.cell, s);
        if let Err(error) = memory_position {
            return Err(memory::explain(error));
        }
        let cell = memory_position.unwrap();
        if let Some(_) = s.memory[cell] {
            s.register = s.memory[cell];
            Ok(())
        } else {
            let mut message = String::from_str("cell ");
            let digits = u64_to_string(cell as u64);
            message.append(digits.as_str());
            message.append(" holds no value. could not copy a none value to the register");
            proof {
                assert(message@ =~= empty_cell_message(cell as int));
            }
            Err(message)
        }
    }
}

} // verus!
