//! `BumpPlus` / `BumpMinus`: increment or decrement a numeric memory cell and
//! load the new value into the register.

use vstd::prelude::*;
use vstd::string::StringExecFns;

use crate::memory;
use crate::operators::Operator;
use crate::state::InternalState;
use crate::state::MachineModel;
use crate::text::dec_str;
use crate::text::u64_to_string;
use crate::text::push_char;
use crate::Location;
use crate::Value;

verus! {

/// Why a bump failed after its location resolved.
#[derive(Clone, Copy, Debug, PartialEq, Eq, Structural)]
pub enum Error {
    /// The resolved cell holds no value.
    NoValue { cell: Location },
    /// The resolved cell holds a character; only numbers can be bumped.
    BumpChar { value: char },
}

/// The message that [`BumpOp::explain_error`] produces for `e`.
pub open spec fn error_message(e: Error) -> Seq<char> {
    match e {
        Error::NoValue { cell: Location::Cell(i) } => "There is no value at cell "@ + dec_str(
            i as nat,
        ),
        Error::NoValue { cell: Location::Address(i) } => "There is no value at cell "@ + dec_str(
            i as nat,
        ),
        Error::BumpChar { value: c } => "Cannot bump char '"@ + seq![c] + "'"@,
    }
}

/// The transition shared by both bumps: the resolved cell must hold a number
/// `n`; it becomes `n + delta` and the register receives the same new value.
pub open spec fn spec_bump(m: MachineModel, cell: Location, delta: int) -> Result<
    MachineModel,
    Seq<char>,
> {
    match memory::spec_resolve(cell, m.memory) {
        Err(e) => Err(memory::error_message(e)),
        Ok(p) => match m.memory[p] {
            None => Err(error_message(Error::NoValue { cell: Location::Cell(p as usize) })),
            Some(Value::Character { value: c }) => Err(error_message(Error::BumpChar { value: c })),
            Some(Value::Number { value: n }) => Ok(
                MachineModel {
                    memory: m.memory.update(p, Some(Value::Number { value: (n + delta) as i32 })),
                    register: Some(Value::Number { value: (n + delta) as i32 }),
                    ..m
                },
            ),
        },
    }
}

/// The models on which a bump by `delta` stays within the machine's limits.
pub open spec fn bump_safe(m: MachineModel, cell: Location, delta: int) -> bool {
    &&& memory::access_safe(cell, m.memory)
    &&& (match memory::spec_resolve(cell, m.memory) {
        Ok(p) => m.memory[p] matches Some(Value::Number { value: n }) ==> i32::MIN <= n + delta
            <= i32::MAX,
        Err(_) => true,
    })
}

/// Shared helpers of the two bump operators.
pub struct BumpOp {}

impl BumpOp {
    /// Renders a bump error as a human-readable message.
    pub fn explain_error(error: Error) -> (r: String)
        ensures
            r@ == error_message(error),
    {
        match error {
            Error::NoValue { cell: Location::Cell(cell) } => {
                let mut s = String::from_str("There is no value at cell ");
                let digits = u64_to_string(cell as u64);
                s.append(digits.as_str());
                s
            },
            Error::NoValue { cell: Location::Address(cell) } => {
                let mut s = String::from_str("There is no value at cell ");
                let digits = u64_to_string(cell as u64);
                s.append(digits.as_str());
                s
            },
            Error::BumpChar { value } => {
                let mut s = String::from_str("Cannot bump char '");
                push_char(&mut s, value);
                s.append("'");
                proof {
                    assert(s@ =~= error_message(Error::BumpChar { value }));
                }
                s
            },
        }
    }
}

/// Increments a numeric memory cell and loads the new value.
pub struct BumpPlusOp {
    pub cell: Location,
}

impl Operator for BumpPlusOp {
    open spec fn op_result(&self, m: MachineModel) -> Result<MachineModel, Seq<char>> {
        spec_bump(m, self.cell, 1)
    }

    open spec fn safe(&self, m: MachineModel) -> bool {
        bump_safe(m, self.cell, 1)
    }

    open spec fn manages_counter(&self) -> bool {
        false
    }

    fn changes_instruction_counter(&self) -> (b: bool) {
        false
    }

    fn apply_to(&self, s: &mut InternalState) -> (r: Result<(), String>) {
        let memory_position = memory::extract_memory_position(self.cell, s);
        if let Err(error) = memory_position {
            return Err(memory::explain(error));
        }
        let mempos = memory_position.unwrap();
        let data = s.memory[mempos];
        match data {
            None => Err(BumpOp::explain_error(Error::NoValue { cell: Location::Cell(mempos) })),
            Some(Value::Number { value: num }) => {
                s.memory[mempos] = Some(Value::Number { value: num + 1 });
                s.register = s.memory[mempos];
                Ok(())
            },
            Some(Value::Character { value: c }) => Err(
                BumpOp::explain_error(Error::BumpChar { value: c }),
            ),
        }
    }
}

/// Decrements a numeric memory cell and loads the new value.
pub struct BumpMinusOp {
    pub cell: Location,
}

impl Operator for BumpMinusOp {
    open spec fn op_result(&self, m: MachineModel) -> Result<MachineModel, Seq<char>> {
        spec_bump(m, self.cell, -1)
    }

    open spec fn safe(&self, m: MachineModel) -> bool {
        bump_safe(m, self.cell, -1)
    }

    open spec fn manages_counter(&self) -> bool {
        false
    }

    fn changes_instruction_counter(&self) -> (b: bool) {
        false
    }

    fn apply_to(&self, s: &mut InternalState) -> (r: Result<(), String>) {
        let memory_position = memory::extract_memory_position(self.cell, s);
        if let Err(error) = memory_position {
            return Err(memory::explain(error));
        }
        let mempos = memory_position.unwrap();
        let data = s.memory[mempos];
        match data {
            None => Err(BumpOp::explain_error(Error::NoValue { cell: Location::Cell(mempos) })),
            Some(Value::Number { value: num }) => {
                s.memory[mempos] = Some(Value::Number { value: num - 1 });
                s.register = s.memory[mempos];
                Ok(())
            },
            Some(Value::Character { value: c }) => Err(
                BumpOp::explain_error(Error::BumpChar { value: c }),
            ),
        }
    }
}

} // verus!
