//! `Add`: add the value of a memory cell to the register.
//!
//! Two numbers add as ordinary signed integers. A number and a character mix
//! through the character's base-36 value: the result is the letter whose
//! value is the sum, and the addition fails when the sum leaves the letter
//! range 10..=35. Two characters cannot be added.

use vstd::prelude::*;
use vstd::string::StringExecFns;

use crate::alpha_value;
use crate::char_alpha_value;
use crate::is_digit36;
use crate::letter_char;
use crate::letter_for;
use crate::memory;
use crate::operators::Operator;
use crate::state::InternalState;
use crate::state::MachineModel;
use crate::text::dec_str;
use crate::text::i64_to_string;
use crate::text::int_str;
use crate::text::push_char;
use crate::text::u64_to_string;
use crate::Location;
use crate::Operation;
use crate::Value;

verus! {

/// Why an addition failed.
#[derive(Clone, Copy, Debug, PartialEq, Eq, Structural)]
pub enum Error {
    /// The operand cell holds no value.
    NoValue { cell: Location },
    /// The register holds no value.
    NoEmployeeValue,
    /// Both the register and the operand hold characters.
    SumOfChars,
    /// The base-36 sum of `number` and `character` leaves the letter range.
    SumOverflow { character: char, number: i32 },
}

/// The message that [`AddOp::explain_error`] produces for `e`.
pub open spec fn error_message(e: Error) -> Seq<char> {
    match e {
        Error::NoValue { cell: Location::Cell(i) } => "There is no value at cell "@ + dec_str(
            i as nat,
        ),
        Error::NoValue { cell: Location::Address(i) } => "There is no value at cell "@ + dec_str(
            i as nat,
        ),
        Error::NoEmployeeValue => "the Employee register holds no value. Cannot add."@,
        Error::SumOfChars => "cannot sum two characters!"@,
        Error::SumOverflow { character, number } => "value overflowed! "@ + seq![character]
            + " + "@ + int_str(number as int) + " is not representable as a letter!"@,
    }
}

/// Mixing a number `n` with a character `c`: the letter whose base-36 value
/// is `n + alpha_value(c)`, or an overflow error when that sum leaves the
/// letter range 10..=35.
pub open spec fn spec_add_number_and_char(n: i32, c: char) -> Result<Value, Error> {
    let sum = n + alpha_value(c);
    if 10 <= sum <= 35 {
        Ok(Value::Character { value: letter_for(sum) })
    } else {
        Err(Error::SumOverflow { character: c, number: n })
    }
}

/// The value the register receives when `mem` is added to `reg`.
pub open spec fn spec_add_values(reg: Value, mem: Value) -> Result<Value, Error> {
    match reg {
        Value::Number { value: o } => match mem {
            Value::Number { value: v } => Ok(Value::Number { value: (o + v) as i32 }),
            Value::Character { value: c } => spec_add_number_and_char(o, c),
        },
        Value::Character { value: c } => match mem {
            Value::Number { value: v } => spec_add_number_and_char(v, c),
            Value::Character { .. } => Err(Error::SumOfChars),
        },
    }
}

/// The transition of `Add`: the register receives the sum of the register
/// and the resolved cell, under the value-mixing rules above.
pub open spec fn spec_add(m: MachineModel, cell: Location) -> Result<MachineModel, Seq<char>> {
    match memory::spec_resolve(cell, m.memory) {
        Err(e) => Err(memory::error_message(e)),
        Ok(p) => match m.memory[p] {
            None => Err(error_message(Error::NoValue { cell })),
            Some(v) => match m.register {
                None => Err(error_message(Error::NoEmployeeValue)),
                Some(o) => match spec_add_values(o, v) {
                    Ok(nv) => Ok(MachineModel { register: Some(nv), ..m }),
                    Err(e) => Err(error_message(e)),
                },
            },
        },
    }
}

/// The models on which `Add` stays within the machine's configuration and
/// limits: the operand cell exists, a number-number sum fits in 32 bits, and
/// a character mixed with a number has a base-36 value.
pub open spec fn add_safe(m: MachineModel, cell: Location) -> bool {
    &&& memory::access_safe(cell, m.memory)
    &&& (match memory::spec_resolve(cell, m.memory) {
        Ok(p) => match (m.register, m.memory[p]) {
            (Some(Value::Number { value: o }), Some(Value::Number { value: v })) => i32::MIN <= o
                + v <= i32::MAX,
            (Some(Value::Number { .. }), Some(Value::Character { value: c })) => is_digit36(c),
            (Some(Value::Character { value: c }), Some(Value::Number { .. })) => is_digit36(c),
            _ => true,
        },
        Err(_) => true,
    })
}

/// Adding two numbers puts their exact sum in the register and advances the
/// instruction counter by exactly one; the tapes and the memory stay as they
/// were.
pub proof fn lemma_add_two_numbers(m: MachineModel, cell: Location, p: int, n1: i32, n2: i32)
    requires
        memory::spec_resolve(cell, m.memory) == Ok::<int, memory::Error>(p),
        0 <= p < m.memory.len(),
        m.memory[p] == Some(Value::Number { value: n2 }),
        m.register == Some(Value::Number { value: n1 }),
        i32::MIN <= n1 + n2 <= i32::MAX,
    ensures
        (match crate::state::spec_apply(m, Operation::Add { cell }) {
            Ok(m2) => {
                &&& m2.register matches Some(Value::Number { value: v }) && v == n1 + n2
                &&& m2.instruction_counter == m.instruction_counter + 1
                &&& m2.memory == m.memory
                &&& m2.input_tape == m.input_tape
                &&& m2.output_tape == m.output_tape
            },
            Err(_) => false,
        }),
{
}

/// Adding a number `n` and a character `c`, in either arrangement of
/// register and memory cell, yields the character whose base-36 value is
/// `n + alpha_value(c)` and advances the instruction counter by exactly one
/// when that sum lies in the letter range 10..=35 — and fails outside it.
pub proof fn lemma_add_number_and_character(
    m: MachineModel,
    cell: Location,
    p: int,
    n: i32,
    c: char,
)
    requires
        memory::spec_resolve(cell, m.memory) == Ok::<int, memory::Error>(p),
        0 <= p < m.memory.len(),
        is_digit36(c),
        (m.register == Some(Value::Number { value: n }) && m.memory[p] == Some(
            Value::Character { value: c },
        )) || (m.register == Some(Value::Character { value: c }) && m.memory[p] == Some(
            Value::Number { value: n },
        )),
    ensures
        10 <= n + alpha_value(c) <= 35 ==> (match crate::state::spec_apply(
            m,
            Operation::Add { cell },
        ) {
            Ok(m2) => {
                &&& m2.register matches Some(Value::Character { value: ch }) && alpha_value(ch) == n
                    + alpha_value(c)
                &&& m2.instruction_counter == m.instruction_counter + 1
            },
            Err(_) => false,
        }),
        !(10 <= n + alpha_value(c) <= 35) ==> crate::state::spec_apply(
            m,
            Operation::Add { cell },
        ) is Err,
{
    if 10 <= n + alpha_value(c) <= 35 {
        crate::lemma_letter_alpha(n + alpha_value(c));
    }
}

/// Adds the value of a memory cell to the register.
pub struct AddOp {
    pub cell: Location,
}

impl AddOp {
    /// Mixes the number `num` into the character `c`, per the base-36 rules.
    pub fn add_number_and_char(num: i32, c: char) -> (r: Result<char, i64>)
        requires
            is_digit36(c),
        ensures
            (match spec_add_number_and_char(num, c) {
                Ok(Value::Character { value: ch }) => r == Ok::<char, i64>(ch),
                _ => r matches Err(e) && e == num + alpha_value(c),
            }),
    {
        let c_as_number = char_alpha_value(c);
        let new_number: i64 = num as i64 + c_as_number as i64;
        if 10 <= new_number && new_number <= 35 {
            Ok(letter_char(new_number as i32))
        } else {
            Err(new_number)
        }
    }

    /// Renders an addition error as a human-readable message.
    pub fn explain_error(e: Error) -> (r: String)
        ensures
            r@ == error_message(e),
    {
        match e {
            Error::NoValue { cell: Location::Cell(cell) } => {
                let mut s = String::from_str("There is no value at cell ");
                let digits = u64_to_string(cell as u64);
                s.append(digits.as_str());
                s
            },
            Error::NoValue { cell: Location::Address(cell) } => {
                let mut s = String::from_str("There is no value at cell ");
                let digits = u64_to_string(cell as u64);
                s.append(digits.as_str());
                s
            },
            Error::NoEmployeeValue => {
                String::from_str("the Employee register holds no value. Cannot add.")
            },
            Error::SumOfChars => String::from_str("cannot sum two characters!"),
            Error::SumOverflow { character, number } => {
                let mut s = String::from_str("value overflowed! ");
                push_char(&mut s, character);
                s.append(" + ");
                let digits = i64_to_string(number as i64);
                s.append(digits.as_str());
                s.append(" is not representable as a letter!");
                proof {
                    assert(s@ =~= error_message(Error::SumOverflow { character, number }));
                }
                s
            },
        }
    }
}

impl Operator for AddOp {
    open spec fn op_result(&self, m: MachineModel) -> Result<MachineModel, Seq<char>> {
        spec_add(m, self.cell)
    }

    open spec fn safe(&self, m: MachineModel) -> bool {
        add_safe(m, self.cell)
    }

    open spec fn manages_counter(&self) -> bool {
        false
    }

    fn changes_instruction_counter(&self) -> (b: bool) {
        false
    }

    fn apply_to(&self, s: &mut InternalState) -> (r: Result<(), String>) {
        let memory_position = memory::extract_memory_position(self.cell, s);
        if let Err(error) = memory_position {
            return Err(memory::explain(error));
        }
        let value_from_memory = s.memory[memory_position.unwrap()];
        match value_from_memory {
            Some(v) => match s.register {
                Some(old_register) => {
                    let new_register_value: Result<Value, String> = match (v, old_register) {
                        (Value::Number { value: v_ }, Value::Number { value: o_ }) => {
                            Ok(Value::Number { value: o_ + v_ })
                        },
                        (Value::Number { value: v_ }, Value::Character { value: o_ }) => {
                            match AddOp::add_number_and_char(v_, o_) {
                                Ok(new_char) => Ok(Value::Character { value: new_char }),
                                Err(_) => Err(
                                    AddOp::explain_error(
                                        Error::SumOverflow { character: o_, number: v_ },
                                    ),
                                ),
                            }
                        },
                        (Value::Character { value: v_ }, Value::Number { value: o_ }) => {
                            match AddOp::add_number_and_char(o_, v_) {
                                Ok(new_char) => Ok(Value::Character { value: new_char }),
                                Err(_) => Err(
                                    AddOp::explain_error(
                                        Error::SumOverflow { character: v_, number: o_ },
                                    ),
                                ),
                            }
                        },
                        _ => Err(AddOp::explain_error(Error::SumOfChars)),
                    };
                    match new_register_value {
                        Ok(value) => {
                            s.register = Some(value);
                            Ok(())
                        },
                        Err(reason) => Err(reason),
                    }
                },
                None => Err(AddOp::explain_error(Error::NoEmployeeValue)),
            },
            None => Err(AddOp::explain_error(Error::NoValue { cell: self.cell })),
        }
    }
}

} // verus!
