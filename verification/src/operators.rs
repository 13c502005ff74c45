//! One unit of behavior per instruction kind. Every operator mutates the
//! machine state and reports whether it maintains the instruction counter
//! itself; the counter bookkeeping for all the others lives in
//! [`crate::state::InternalState::apply`].

use vstd::prelude::*;

use crate::state::InternalState;
use crate::state::MachineModel;

pub mod add;
pub mod bump;
pub mod copyfrom;
pub mod copyto;
pub mod inbox;
pub mod jump;
pub mod outbox;
pub mod sub;

verus! {

/// The common shape of all operators: a guarded state transition.
pub trait Operator: Sized {
    /// The transition this operator performs on a machine model: the next
    /// model on success, or the exact error message on failure.
    spec fn op_result(&self, m: MachineModel) -> Result<MachineModel, Seq<char>>;

    /// The models on which `apply_to` runs without tripping over a malformed
    /// configuration (an out-of-range memory index, a character without a
    /// base-36 value where one is needed) or a machine limit (integer width).
    spec fn safe(&self, m: MachineModel) -> bool;

    /// Whether the operator updates the instruction counter itself.
    spec fn manages_counter(&self) -> bool;

    /// Reports whether the operator updates the instruction counter itself.
    fn changes_instruction_counter(&self) -> (b: bool)
        ensures
            b == self.manages_counter(),
    ;

    /// Applies the operator's effect to `s`, leaving the state untouched on
    /// failure.
    fn apply_to(&self, s: &mut InternalState) -> (r: Result<(), String>)
        requires
            self.safe(old(s)@),
        ensures
            match self.op_result(old(s)@) {
                Ok(m2) => r is Ok && final(s)@ == m2,
                Err(msg) => (r matches Err(e) && e@ == msg) && final(s)@ == old(s)@,
            },
    ;
}

} // verus!
