//! The machine state, its mathematical model, and the dispatcher that applies
//! one instruction to the state.

use vstd::prelude::*;

use crate::operators::add;
use crate::operators::add::AddOp;
use crate::operators::bump;
use crate::operators::bump::BumpMinusOp;
use crate::operators::bump::BumpPlusOp;
use crate::operators::copyfrom;
use crate::operators::copyfrom::CopyFromOp;
use crate::operators::copyto;
use crate::operators::copyto::CopyToOp;
use crate::operators::inbox;
use crate::operators::inbox::InboxOp;
use crate::operators::jump;
use crate::operators::jump::JumpEqualsZeroOp;
use crate::operators::jump::JumpNegativeOp;
use crate::operators::jump::JumpOp;
use crate::operators::jump::LabelOp;
use crate::operators::outbox;
use crate::operators::outbox::OutboxOp;
use crate::operators::sub;
use crate::operators::sub::SubOp;
use crate::operators::Operator;
use crate::char_alpha_value;
use crate::char_is_digit36;
use crate::memory;
use crate::Location;
use crate::Operation;
use crate::Value;

verus! {

/// The mathematical model of a machine state. Every contract in this crate
/// speaks about values of this type, obtained through the view (`@`) of
/// [`InternalState`].
pub struct MachineModel {
    /// The accumulator; empty until the first successful `Inbox`.
    pub register: Option<Value>,
    /// Pending input, consumed from the back by `Inbox`.
    pub input_tape: Seq<Value>,
    /// Values emitted so far, appended at the back by `Outbox`.
    pub output_tape: Seq<Value>,
    /// The memory cells; a cell may be empty.
    pub memory: Seq<Option<Value>>,
    /// The index of the instruction to run next.
    pub instruction_counter: int,
    /// How many instructions were applied successfully so far.
    pub executed: nat,
}

/// Whether `op` maintains the instruction counter itself instead of letting
/// [`InternalState::apply`] advance it by one.
pub open spec fn self_managed(op: Operation) -> bool {
    match op {
        Operation::Jump { .. } => true,
        Operation::JumpEqualsZero { .. } => true,
        Operation::JumpNegative { .. } => true,
        _ => false,
    }
}

/// The effect of `op` on the model `m`, before the counter bookkeeping that
/// all operators share.
pub open spec fn spec_op_result(m: MachineModel, op: Operation) -> Result<MachineModel, Seq<char>> {
    match op {
        Operation::Inbox => inbox::spec_inbox(m),
        Operation::Outbox => outbox::spec_outbox(m),
        Operation::Add { cell } => add::spec_add(m, cell),
        Operation::Sub { cell } => sub::spec_sub(m, cell),
        Operation::CopyFrom { cell } => copyfrom::spec_copyfrom(m, cell),
        Operation::CopyTo { cell } => copyto::spec_copyto(m, cell),
        Operation::Label => jump::spec_label(m),
        Operation::Jump { next_operation } => jump::spec_jump(m, next_operation),
        Operation::JumpEqualsZero { next_operation } => jump::spec_jump_equals_zero(
            m,
            next_operation,
        ),
        Operation::JumpNegative { next_operation } => jump::spec_jump_negative(m, next_operation),
        Operation::BumpPlus { cell } => bump::spec_bump(m, cell, 1),
        Operation::BumpMinus { cell } => bump::spec_bump(m, cell, -1),
    }
}

/// The models on which the operator of `op` runs without tripping over a
/// malformed configuration or a machine limit; each arm mirrors the
/// corresponding operator's `safe`.
pub open spec fn op_safe(m: MachineModel, op: Operation) -> bool {
    match op {
        Operation::Inbox => true,
        Operation::Outbox => true,
        Operation::Add { cell } => add::add_safe(m, cell),
        Operation::Sub { cell } => sub::sub_safe(m, cell),
        Operation::CopyFrom { cell } => memory::access_safe(cell, m.memory),
        Operation::CopyTo { cell } => memory::access_safe(cell, m.memory),
        Operation::Label => true,
        Operation::Jump { .. } => true,
        Operation::JumpEqualsZero { .. } => m.register matches Some(v) && !(v matches Value::Number {
            value: 0,
        }) ==> m.instruction_counter < usize::MAX,
        Operation::JumpNegative { .. } => m.register matches Some(Value::Number { value: v }) && v
            >= 0 ==> m.instruction_counter < usize::MAX,
        Operation::BumpPlus { cell } => bump::bump_safe(m, cell, 1),
        Operation::BumpMinus { cell } => bump::bump_safe(m, cell, -1),
    }
}

/// The models on which [`InternalState::apply`] runs `op` without tripping
/// over a malformed configuration or a machine limit: the operator itself is
/// safe, and when it succeeds both counters still fit their integer widths.
pub open spec fn apply_safe(m: MachineModel, op: Operation) -> bool {
    &&& op_safe(m, op)
    &&& (spec_op_result(m, op) is Ok ==> m.executed < u32::MAX && (!self_managed(op)
        ==> m.instruction_counter < usize::MAX))
}

/// The full effect of applying `op` to `m`: the operator's own transition,
/// then the shared bookkeeping (advance the counter by one unless the
/// operator manages it itself, and count one more executed instruction).
/// A failing operator leaves the model untouched.
pub open spec fn spec_apply(m: MachineModel, op: Operation) -> Result<MachineModel, Seq<char>> {
    match spec_op_result(m, op) {
        Ok(m1) => Ok(
            MachineModel {
                instruction_counter: if self_managed(op) {
                    m1.instruction_counter
                } else {
                    m1.instruction_counter + 1
                },
                executed: m1.executed + 1,
                ..m1
            },
        ),
        Err(e) => Err(e),
    }
}

/// The machine state mutated by every operator for the lifetime of a run.
#[derive(Clone, Debug)]
pub struct InternalState {
    pub register: Option<Value>,
    pub input_tape: Vec<Value>,
    pub output_tape: Vec<Value>,
    pub memory: Vec<Option<Value>>,
    pub instruction_counter: usize,
    pub _executed_instructions: u32,
}

impl View for InternalState {
    type V = MachineModel;

    open spec fn view(&self) -> MachineModel {
        MachineModel {
            register: self.register,
            input_tape: self.input_tape@,
            output_tape: self.output_tape@,
            memory: self.memory@,
            instruction_counter: self.instruction_counter as int,
            executed: self._executed_instructions as nat,
        }
    }
}

impl InternalState {
    /// A fresh state with the given register and instruction counter, empty
    /// tapes and no memory cells.
    pub fn new(register: Option<Value>, counter: usize) -> (s: InternalState)
        ensures
            s@ == (MachineModel {
                register,
                input_tape: Seq::<Value>::empty(),
                output_tape: Seq::<Value>::empty(),
                memory: Seq::<Option<Value>>::empty(),
                instruction_counter: counter as int,
                executed: 0,
            }),
    {
        InternalState {
            register,
            input_tape: vec![],
            output_tape: vec![],
            memory: vec![],
            instruction_counter: counter,
            _executed_instructions: 0,
        }
    }

    /// The same state with the input tape replaced.
    pub fn with_input_tape(self, new_input_tape: Vec<Value>) -> (s: Self)
        ensures
            s@ == (MachineModel { input_tape: new_input_tape@, ..self@ }),
    {
        let mut s = self;
        s.input_tape = new_input_tape;
        s
    }

    /// The same state with the memory contents replaced.
    pub fn with_memory(self, new_memory: Vec<Option<Value>>) -> (s: Self)
        ensures
            s@ == (MachineModel { memory: new_memory@, ..self@ }),
    {
        let mut s = self;
        s.memory = new_memory;
        s
    }

    /// How many instructions were applied successfully so far.
    pub fn executed_instructions(&self) -> (n: u32)
        ensures
            n == self@.executed,
    {
        self._executed_instructions
    }

    /// Records one more successfully applied instruction.
    pub fn increase_executed_instructions(&mut self)
        requires
            old(self)@.executed < u32::MAX,
        ensures
            final(self)@ == (MachineModel { executed: old(self)@.executed + 1, ..old(self)@ }),
    {
        self._executed_instructions = self._executed_instructions + 1;
    }

    /// Decides the bump-specific part of [`apply_safe`].
    fn check_bump_safe(&self, cell: Location, delta: i32) -> (b: bool)
        requires
            delta == 1i32 || delta == -1i32,
        ensures
            b == (bump::bump_safe(self@, cell, delta as int) && (bump::spec_bump(
                self@,
                cell,
                delta as int,
            ) is Ok ==> self@.executed < u32::MAX && self@.instruction_counter < usize::MAX)),
    {
        if !memory::check_access_safe(cell, self) {
            return false;
        }
        match memory::extract_memory_position(cell, self) {
            Err(_) => true,
            Ok(p) => match self.memory[p] {
                Some(Value::Number { value: n }) => {
                    let sum = n as i64 + delta as i64;
                    i32::MIN as i64 <= sum && sum <= i32::MAX as i64
                        && self._executed_instructions < u32::MAX && self.instruction_counter
                        < usize::MAX
                },
                _ => true,
            },
        }
    }

    /// Decides [`apply_safe`] for `op` against the current state, so that an
    /// unverified caller can test the precondition of
    /// [`InternalState::apply`] before calling it.
    pub fn check_apply_safe(&self, op: Operation) -> (b: bool)
        ensures
            b == apply_safe(self@, op),
    {
        let executed_fits = self._executed_instructions < u32::MAX;
        let counter_fits = self.instruction_counter < usize::MAX;
        match op {
            Operation::Inbox => {
                if self.input_tape.len() == 0 {
                    true
                } else {
                    executed_fits && counter_fits
                }
            },
            Operation::Outbox => match self.register {
                Some(_) => executed_fits && counter_fits,
                None => true,
            },
            Operation::Label => executed_fits && counter_fits,
            Operation::Jump { .. } => executed_fits,
            Operation::JumpEqualsZero { .. } => match self.register {
                None => true,
                Some(Value::Number { value: 0 }) => executed_fits,
                Some(_) => counter_fits && executed_fits,
            },
            Operation::JumpNegative { .. } => match self.register {
                None => true,
                Some(Value::Character { .. }) => true,
                Some(Value::Number { value: v }) => if v < 0 {
                    executed_fits
                } else {
                    counter_fits && executed_fits
                },
            },
            Operation::CopyFrom { cell } => {
                if !memory::check_access_safe(cell, self) {
                    return false;
                }
                match memory::extract_memory_position(cell, self) {
                    Err(_) => true,
                    Ok(p) => match self.memory[p] {
                        Some(_) => executed_fits && counter_fits,
                        None => true,
                    },
                }
            },
            Operation::CopyTo { cell } => {
                if !memory::check_access_safe(cell, self) {
                    return false;
                }
                match memory::extract_memory_position(cell, self) {
                    Err(_) => true,
                    Ok(_) => match self.register {
                        Some(_) => executed_fits && counter_fits,
                        None => true,
                    },
                }
            },
            Operation::BumpPlus { cell } => self.check_bump_safe(cell, 1),
            Operation::BumpMinus { cell } => self.check_bump_safe(cell, -1),
            Operation::Add { cell } => {
                if !memory::check_access_safe(cell, self) {
                    return false;
                }
                match memory::extract_memory_position(cell, self) {
                    Err(_) => true,
                    Ok(p) => match (self.register, self.memory[p]) {
                        (Some(Value::Number { value: o }), Some(Value::Number { value: v })) => {
                            let sum = o as i64 + v as i64;
                            i32::MIN as i64 <= sum && sum <= i32::MAX as i64 && executed_fits
                                && counter_fits
                        },
                        (Some(Value::Number { value: o }), Some(Value::Character { value: c })) => {
                            if !char_is_digit36(c) {
                                false
                            } else {
                                let sum = o as i64 + char_alpha_value(c) as i64;
                                if 10 <= sum && sum <= 35 {
                                    executed_fits && counter_fits
                                } else {
                                    true
                                }
                            }
                        },
                        (Some(Value::Character { value: c }), Some(Value::Number { value: v })) => {
                            if !char_is_digit36(c) {
                                false
                            } else {
                                let sum = v as i64 + char_alpha_value(c) as i64;
                                if 10 <= sum && sum <= 35 {
                                    executed_fits && counter_fits
                                } else {
                                    true
                                }
                            }
                        },
                        _ => true,
                    },
                }
            },
            Operation::Sub { cell } => {
                if !memory::check_access_safe(cell, self) {
                    return false;
                }
                match memory::extract_memory_position(cell, self) {
                    Err(_) => true,
                    Ok(p) => match (self.register, self.memory[p]) {
                        (Some(Value::Number { value: o }), Some(Value::Number { value: v })) => {
                            let diff = o as i64 - v as i64;
                            i32::MIN as i64 <= diff && diff <= i32::MAX as i64 && executed_fits
                                && counter_fits
                        },
                        (Some(Value::Number { value: o }), Some(Value::Character { value: c })) => {
                            if !char_is_digit36(c) {
                                false
                            } else {
                                let diff = o as i64 - char_alpha_value(c) as i64;
                                if 10 <= diff && diff <= 35 {
                                    executed_fits && counter_fits
                                } else {
                                    true
                                }
                            }
                        },
                        (
                            Some(Value::Character { value: a }),
                            Some(Value::Character { value: b }),
                        ) => {
                            if !char_is_digit36(a) || !char_is_digit36(b) {
                                false
                            } else {
                                executed_fits && counter_fits
                            }
                        },
                        _ => true,
                    },
                }
            },
        }
    }

    /// Runs one operator and does the counter bookkeeping that all operators
    /// share: advance the instruction counter by one unless the operator
    /// manages it itself, and count one more executed instruction.
    fn apply_operator<Op: Operator>(&mut self, operator: &Op) -> (r: Result<(), String>)
        requires
            operator.safe(old(self)@),
            (match operator.op_result(old(self)@) {
                Ok(m1) => m1.executed < u32::MAX && (!operator.manages_counter()
                    ==> m1.instruction_counter < usize::MAX),
                Err(_) => true,
            }),
        ensures
            match operator.op_result(old(self)@) {
                Ok(m1) => r is Ok && final(self)@ == (MachineModel {
                    instruction_counter: if operator.manages_counter() {
                        m1.instruction_counter
                    } else {
                        m1.instruction_counter + 1
                    },
                    executed: m1.executed + 1,
                    ..m1
                }),
                Err(msg) => (r matches Err(s) && s@ == msg) && final(self)@ == old(self)@,
            },
    {
        match operator.apply_to(self) {
            Ok(()) => {
                if !operator.changes_instruction_counter() {
                    self.instruction_counter = self.instruction_counter + 1;
                }
                self.increase_executed_instructions();
                Ok(())
            },
            Err(reason) => Err(reason),
        }
    }

    /// Applies one instruction to the state: dispatches to the matching
    /// operator and, on success, performs the shared counter bookkeeping.
    /// On failure the state is left untouched and the error message is
    /// returned.
    pub fn apply(&mut self, op: Operation) -> (r: Result<(), String>)
        requires
            apply_safe(old(self)@, op),
        ensures
            match spec_apply(old(self)@, op) {
                Ok(m2) => r is Ok && final(self)@ == m2,
                Err(msg) => (r matches Err(s) && s@ == msg) && final(self)@ == old(self)@,
            },
    {
        match op {
            Operation::Add { cell } => self.apply_operator(&(AddOp { cell })),
            Operation::Sub { cell } => self.apply_operator(&(SubOp { cell })),
            Operation::Inbox => self.apply_operator(&(InboxOp {})),
            Operation::Outbox => self.apply_operator(&(OutboxOp {})),
            Operation::CopyFrom { cell } => self.apply_operator(&(CopyFromOp { cell })),
            Operation::CopyTo { cell } => self.apply_operator(&(CopyToOp { cell })),
            Operation::Label => self.apply_operator(&LabelOp),
            Operation::Jump { next_operation } => self.apply_operator(&(JumpOp { next_operation })),
            Operation::JumpEqualsZero { next_operation } => self.apply_operator(
                &(JumpEqualsZeroOp { next_operation }),
            ),
            Operation::JumpNegative { next_operation } => self.apply_operator(
                &(JumpNegativeOp { next_operation }),
            ),
            Operation::BumpPlus { cell } => self.apply_operator(&(BumpPlusOp { cell })),
            Operation::BumpMinus { cell } => self.apply_operator(&(BumpMinusOp { cell })),
        }
    }
}

} // verus!
