//! A small virtual machine for a register-and-memory toy architecture.
//!
//! A program is a sequence of [`Operation`] values working on an accumulator
//! register, an input tape, an output tape and a fixed array of memory cells.
//! The driver steps the machine one instruction at a time and halts either
//! gracefully (the input tape runs dry at an `Inbox`) or with an error.

use vstd::prelude::*;

pub mod json;
pub mod memory;
pub mod operators;
pub mod state;
pub mod text;

verus! {

/// A runtime value: a signed number or a single character.
#[derive(Clone, Copy, Debug, PartialEq, Eq, Structural)]
pub enum Value {
    Number { value: i32 },
    Character { value: char },
}

/// An operand naming a memory cell, either directly (`Cell`) or through one
/// level of indirection (`Address`: the named cell holds a number that names
/// the target cell).
#[derive(Clone, Copy, Debug, PartialEq, Eq, Structural)]
pub enum Location {
    Cell(usize),
    Address(usize),
}

/// One machine instruction. Jump targets are absolute instruction indices;
/// symbolic labels are resolved away before `Operation` values are built.
#[derive(Clone, Copy, Debug, PartialEq, Eq, Structural)]
pub enum Operation {
    Inbox,
    Outbox,
    Add { cell: Location },
    Sub { cell: Location },
    CopyFrom { cell: Location },
    CopyTo { cell: Location },
    Label,
    Jump { next_operation: usize },
    JumpEqualsZero { next_operation: usize },
    JumpNegative { next_operation: usize },
    BumpPlus { cell: Location },
    BumpMinus { cell: Location },
}

/// Steps a program one instruction at a time against a machine state.
///
/// The driver owns the state for the run; callers inspect the `state` field
/// between steps for tracing or dumping. Once the driver has halted —
/// gracefully, when an `Inbox` finds the input tape empty or the counter
/// runs off the end of the program, or with an error for any other failing
/// instruction — further calls to [`CodeIterator::next`] change nothing.
pub struct CodeIterator {
    pub state: state::InternalState,
    pub operations: Vec<Operation>,
    pub has_errored: bool,
}

impl CodeIterator {
    /// Whether the driver has halted with an error.
    pub open spec fn errored(&self) -> bool {
        self.has_errored
    }

    /// Whether the driver still has an instruction to run: it has not halted
    /// with an error and the instruction counter is inside the program.
    pub open spec fn running(&self) -> bool {
        !self.errored() && self.state@.instruction_counter < self.operations@.len()
    }

    /// The instruction the driver would run next.
    pub open spec fn current_operation(&self) -> Operation {
        self.operations@[self.state@.instruction_counter]
    }

    /// The precondition of [`CodeIterator::next`]: when the driver is about
    /// to run an instruction, that instruction must be applicable without
    /// tripping over a malformed configuration or a machine limit.
    pub open spec fn step_safe(&self) -> bool {
        self.running() ==> state::apply_safe(self.state@, self.current_operation())
    }

    /// What one driver step does: how the driver after the step (`post`)
    /// and the returned value `r` relate to the driver before it (`pre`).
    ///
    /// A driver that has already halted — with an error, or gracefully by
    /// running off the end of the program — returns `None` and changes
    /// nothing, so halting is idempotent. A running driver applies the
    /// current instruction: on success it reports `Some(Ok(()))`; a failing
    /// `Inbox` is the graceful end of the run (`None`, nothing changes, no
    /// error is recorded); any other failure surfaces the message once and
    /// records the error halt.
    pub open spec fn step_spec(pre: CodeIterator, post: CodeIterator, r: Option<Result<(), String>>) -> bool {
        &&& post.operations@ == pre.operations@
        &&& (pre.errored() ==> r is None && post.state@ == pre.state@ && post.errored())
        &&& (!pre.errored() && !pre.running() ==> r is None && post.state@ == pre.state@
            && !post.errored())
        &&& (pre.running() ==> (match state::spec_apply(pre.state@, pre.current_operation()) {
            Ok(m2) => r == Some(Ok::<(), String>(())) && post.state@ == m2 && !post.errored(),
            Err(msg) => (match pre.current_operation() {
                Operation::Inbox => r is None && post.state@ == pre.state@ && !post.errored(),
                _ => (r matches Some(Err(s)) && s@ == msg) && post.state@ == pre.state@
                    && post.errored(),
            }),
        }))
    }

    /// A driver at the start of a run: nothing has failed yet.
    pub fn new(state: state::InternalState, operations: Vec<Operation>) -> (it: Self)
        ensures
            it.state == state,
            it.operations == operations,
            !it.errored(),
    {
        CodeIterator { state, operations, has_errored: false }
    }

    /// Decides [`CodeIterator::step_safe`], so that an unverified caller can
    /// test the precondition of [`CodeIterator::next`] before calling it.
    pub fn check_step_safe(&self) -> (b: bool)
        ensures
            b == self.step_safe(),
    {
        if self.has_errored {
            true
        } else if self.state.instruction_counter >= self.operations.len() {
            true
        } else {
            self.state.check_apply_safe(self.operations[self.state.instruction_counter])
        }
    }

    /// Runs one driver step.
    ///
    /// Returns `Some(Ok(()))` after a successful instruction,
    /// `Some(Err(message))` for the instruction whose failure halts the run
    /// with an error, and `None` when there is nothing (more) to do: the
    /// counter ran off the end of the program, an `Inbox` found the input
    /// tape empty (the graceful end of a run), or the driver had already
    /// halted. A halted driver never changes the state again.
    pub fn next(&mut self) -> (r: Option<Result<(), String>>)
        requires
            old(self).step_safe(),
        ensures
            Self::step_spec(*old(self), *final(self), r),
    {
        if self.has_errored {
            return None;
        }
        if self.state.instruction_counter < self.operations.len() {
            let operation = self.operations[self.state.instruction_counter];
            let result = self.state.apply(operation);
            match result {
                Ok(()) => Some(Ok(())),
                Err(reason) => {
                    if let Operation::Inbox = operation {
                        None
                    } else {
                        self.has_errored = true;
                        Some(Err(reason))
                    }
                },
            }
        } else {
            None
        }
    }
}

/// Does `c` have a base-36 digit value ('0'..'9', 'a'..'z' or 'A'..'Z')?
pub open spec fn is_digit36(c: char) -> bool {
    ||| 48 <= c as u32 <= 57
    ||| 97 <= c as u32 <= 122
    ||| 65 <= c as u32 <= 90
}

/// The base-36 value of a character: '0'..'9' map to 0..9 and letters map to
/// 10..35 ('a' = 10 ... 'z' = 35, case-insensitive).
pub open spec fn alpha_value(c: char) -> int {
    if 48 <= c as u32 <= 57 {
        c as int - 48
    } else if 65 <= c as u32 <= 90 {
        c as int - 55
    } else {
        c as int - 87
    }
}

/// The lower-case letter whose base-36 value is `v` (for `v` in 10..=35).
pub open spec fn letter_for(v: int) -> char {
    (v + 87) as char
}

/// The letter built for a value in the letter range 10..=35 is a base-36
/// digit with exactly that value.
pub proof fn lemma_letter_alpha(v: int)
    requires
        10 <= v <= 35,
    ensures
        is_digit36(letter_for(v)),
        alpha_value(letter_for(v)) == v,
{
}

/// Decides [`is_digit36`].
pub fn char_is_digit36(c: char) -> (b: bool)
    ensures
        b == is_digit36(c),
{
    let u = c as u32;
    (48 <= u && u <= 57) || (97 <= u && u <= 122) || (65 <= u && u <= 90)
}

/// Computes [`alpha_value`] on a base-36 digit character.
pub fn char_alpha_value(c: char) -> (v: i32)
    requires
        is_digit36(c),
    ensures
        v == alpha_value(c),
{
    let u = c as u32;
    if u <= 57 {
        (u - 48) as i32
    } else if u <= 90 {
        (u - 55) as i32
    } else {
        (u - 87) as i32
    }
}

/// Builds the lower-case letter whose base-36 value is `v`.
pub fn letter_char(v: i32) -> (c: char)
    requires
        10 <= v <= 35,
    ensures
        c == letter_for(v as int),
{
    ((v + 87) as u8) as char
}

} // verus!
