//! `Sub`: subtract the value of a memory cell from the register.
//!
//! Two numbers subtract as ordinary signed integers, register minus memory.
//! Two characters yield the number `alpha(register) - alpha(memory)`. A
//! number register minus a character operand yields the letter whose base-36
//! value is that difference, failing when it leaves the letter range
//! 10..=35. A character register minus a number operand always fails: the
//! asymmetry between the two mixed cases is a deliberate, documented rule of
//! the machine, not an oversight.

use vstd::prelude::*;
use vstd::string::StringExecFns;

use crate::alpha_value;
use crate::char_alpha_value;
use crate::is_digit36;
use crate::letter_char;
use crate::letter_for;
use crate::memory;
use crate::operators::Operator;
use crate::state::InternalState;
use crate::state::MachineModel;
use crate::text::dec_str;
use crate::text::i64_to_string;
use crate::text::int_str;
use crate::text::push_char;
use crate::text::u64_to_string;
use crate::Location;
use crate::Operation;
use crate::Value;

verus! {

/// Why a subtraction failed.
#[derive(Clone, Copy, Debug, PartialEq, Eq, Structural)]
pub enum Error {
    /// The operand cell holds no value.
    NoValue { cell: Location },
    /// The register holds no value.
    NoEmployeeValue,
    /// A character register cannot have a number subtracted from it.
    NumLessChar,
    /// The base-36 difference of `number` and `character` leaves the letter
    /// range.
    SubUnderflow { character: char, number: i32 },
}

/// The message that [`SubOp::explain_error`] produces for `e`.
pub open spec fn error_message(e: Error) -> Seq<char> {
    match e {
        Error::NoValue { cell: Location::Cell(i) } => "There is no value at cell "@ + dec_str(
            i as nat,
        ),
        Error::NoValue { cell: Location::Address(i) } => "There is no value at cell "@ + dec_str(
            i as nat,
        ),
        Error::NoEmployeeValue => "the Employee register holds no value. Cannot add."@,
        Error::NumLessChar => "cannot perform <num> - <char>"@,
        Error::SubUnderflow { character, number } => "value underflowed! "@ + seq![character]
            + " - "@ + int_str(number as int) + " is not representable as a letter!"@,
    }
}

/// Subtracting the character `c` from the number `n`: the letter whose
/// base-36 value is `n - alpha_value(c)`, or an underflow error when that
/// difference leaves the letter range 10..=35.
pub open spec fn spec_sub_char_from_number(n: i32, c: char) -> Result<Value, Error> {
    let diff = n - alpha_value(c);
    if 10 <= diff <= 35 {
        Ok(Value::Character { value: letter_for(diff) })
    } else {
        Err(Error::SubUnderflow { character: c, number: n })
    }
}

/// The value the register receives when `mem` is subtracted from `reg`.
pub open spec fn spec_sub_values(reg: Value, mem: Value) -> Result<Value, Error> {
    match reg {
        Value::Number { value: o } => match mem {
            Value::Number { value: v } => Ok(Value::Number { value: (o - v) as i32 }),
            Value::Character { value: c } => spec_sub_char_from_number(o, c),
        },
        Value::Character { value: a } => match mem {
            Value::Number { .. } => Err(Error::NumLessChar),
            Value::Character { value: b } => Ok(
                Value::Number { value: (alpha_value(a) - alpha_value(b)) as i32 },
            ),
        },
    }
}

/// The transition of `Sub`: the register receives the difference of the
/// register and the resolved cell, under the value-mixing rules above.
pub open spec fn spec_sub(m: MachineModel, cell: Location) -> Result<MachineModel, Seq<char>> {
    match memory::spec_resolve(cell, m.memory) {
        Err(e) => Err(memory::error_message(e)),
        Ok(p) => match m.memory[p] {
            None => Err(error_message(Error::NoValue { cell })),
            Some(v) => match m.register {
                None => Err(error_message(Error::NoEmployeeValue)),
                Some(o) => match spec_sub_values(o, v) {
                    Ok(nv) => Ok(MachineModel { register: Some(nv), ..m }),
                    Err(e) => Err(error_message(e)),
                },
            },
        },
    }
}

/// The models on which `Sub` stays within the machine's configuration and
/// limits: the operand cell exists, a number-number difference fits in 32
/// bits, and every character taking part in base-36 arithmetic has a base-36
/// value.
pub open spec fn sub_safe(m: MachineModel, cell: Location) -> bool {
    &&& memory::access_safe(cell, m.memory)
    &&& (match memory::spec_resolve(cell, m.memory) {
        Ok(p) => match (m.register, m.memory[p]) {
            (Some(Value::Number { value: o }), Some(Value::Number { value: v })) => i32::MIN <= o
                - v <= i32::MAX,
            (Some(Value::Number { .. }), Some(Value::Character { value: c })) => is_digit36(c),
            (Some(Value::Character { value: a }), Some(Value::Character { value: b })) => is_digit36(
                a,
            ) && is_digit36(b),
            _ => true,
        },
        Err(_) => true,
    })
}

/// Subtracting a character cell from a character register yields the number
/// `alpha_value(register) - alpha_value(memory)` — the same letter gives 0,
/// and a register one letter below the cell gives -1 — and advances the
/// instruction counter by exactly one.
pub proof fn lemma_sub_two_characters(m: MachineModel, cell: Location, p: int, a: char, b: char)
    requires
        memory::spec_resolve(cell, m.memory) == Ok::<int, crate::memory::Error>(p),
        0 <= p < m.memory.len(),
        m.register == Some(Value::Character { value: a }),
        m.memory[p] == Some(Value::Character { value: b }),
        is_digit36(a),
        is_digit36(b),
    ensures
        (match crate::state::spec_apply(m, Operation::Sub { cell }) {
            Ok(m2) => {
                &&& m2.register matches Some(Value::Number { value: d }) && d == alpha_value(a)
                    - alpha_value(b)
                &&& m2.instruction_counter == m.instruction_counter + 1
                &&& m2.memory == m.memory
            },
            Err(_) => false,
        }),
{
}

/// Subtracts the value of a memory cell from the register.
pub struct SubOp {
    pub cell: Location,
}

impl SubOp {
    /// Subtracts the character `c` from the number `num`, per the base-36
    /// rules.
    pub fn sub_char_and_number(c: char, num: i32) -> (r: Result<char, i64>)
        requires
            is_digit36(c),
        ensures
            (match spec_sub_char_from_number(num, c) {
                Ok(Value::Character { value: ch }) => r == Ok::<char, i64>(ch),
                _ => r matches Err(e) && e == num - alpha_value(c),
            }),
    {
        let c_as_number = char_alpha_value(c);
        let new_number: i64 = num as i64 - c_as_number as i64;
        if 10 <= new_number && new_number <= 35 {
            Ok(letter_char(new_number as i32))
        } else {
            Err(new_number)
        }
    }

    /// The base-36 difference `alpha_value(b) - alpha_value(a)` of two
    /// characters.
    pub fn sub_char_and_char(a: char, b: char) -> (r: i32)
        requires
            is_digit36(a),
            is_digit36(b),
        ensures
            r == alpha_value(b) - alpha_value(a),
    {
        let a_as_number = char_alpha_value(a);
        let b_as_number = char_alpha_value(b);
        b_as_number - a_as_number
    }

    /// Renders a subtraction error as a human-readable message.
    pub fn explain_error(e: Error) -> (r: String)
        ensures
            r@ == error_message(e),
    {
        match e {
            Error::NoValue { cell: Location::Cell(cell) } => {
                let mut s = String::from_str("There is no value at cell ");
                let digits = u64_to_string(cell as u64);
                s.append(digits.as_str());
                s
            },
            Error::NoValue { cell: Location::Address(cell) } => {
                let mut s = String::from_str("There is no value at cell ");
                let digits = u64_to_string(cell as u64);
                s.append(digits.as_str());
                s
            },
            Error::NoEmployeeValue => {
                String::from_str("the Employee register holds no value. Cannot add.")
            },
            Error::NumLessChar => String::from_str("cannot perform <num> - <char>"),
            Error::SubUnderflow { character, number } => {
                let mut s = String::from_str("value underflowed! ");
                push_char(&mut s, character);
                s.append(" - ");
                let digits = i64_to_string(number as i64);
                s.append(digits.as_str());
                s.append(" is not representable as a letter!");
                proof {
                    assert(s@ =~= error_message(Error::SubUnderflow { character, number }));
                }
                s
            },
        }
    }
}

impl Operator for SubOp {
    open spec fn op_result(&self, m: MachineModel) -> Result<MachineModel, Seq<char>> {
        spec_sub(m, self.cell)
    }

    open spec fn safe(&self, m: MachineModel) -> bool {
        sub_safe(m, self.cell)
    }

    open spec fn manages_counter(&self) -> bool {
        false
    }

    fn changes_instruction_counter(&self) -> (b: bool) {
        false
    }

    fn apply_to(&self, s: &mut InternalState) -> (r: Result<(), String>) {
        let memory_position = memory::extract_memory_position(self.cell, s);
        if let Err(error) = memory_position {
            return Err(memory::explain(error));
        }
        let value_from_memory = s.memory[memory_position.unwrap()];
        match value_from_memory {
            Some(v) => match s.register {
                Some(old_register) => {
                    let new_register_value: Result<Value, String> = match (v, old_register) {
                        (Value::Number { value: v_ }, Value::Number { value: o_ }) => {
                            Ok(Value::Number { value: o_ - v_ })
                        },
                        (Value::Character { value: v_ }, Value::Character { value: o_ }) => {
                            Ok(Value::Number { value: SubOp::sub_char_and_char(v_, o_) })
                        },
                        (Value::Character { value: v_ }, Value::Number { value: o_ }) => {
                            match SubOp::sub_char_and_number(v_, o_) {
                                Ok(new_char) => Ok(Value::Character { value: new_char }),
                                Err(_) => Err(
                                    SubOp::explain_error(
                                        Error::SubUnderflow { character: v_, number: o_ },
                                    ),
                                ),
                            }
                        },
                        (Value::Number { .. }, Value::Character { .. }) => Err(
                            SubOp::explain_error(Error::NumLessChar),
                        ),
                    };
                    match new_register_value {
                        Ok(value) => {
                            s.register = Some(value);
                            Ok(())
                        },
                        Err(reason) => Err(reason),
                    }
                },
                None => Err(SubOp::explain_error(Error::NoEmployeeValue)),
            },
            None => Err(SubOp::explain_error(Error::NoValue { cell: self.cell })),
        }
    }
}

} // verus!
