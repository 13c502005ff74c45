//! Address resolution: turning a [`Location`] into a concrete memory index.

use vstd::prelude::*;
use vstd::string::StringExecFns;

use crate::state::InternalState;
use crate::text::dec_str;
use crate::text::u64_to_string;
use crate::Location;
use crate::Value;

verus! {

/// Why a [`Location`] failed to resolve to a memory index.
#[derive(Clone, Copy, Debug, PartialEq, Eq, Structural)]
pub enum Error {
    /// The pointer cell of an `Address` location holds a character.
    PointerCellContainsChar,
    /// The named cell holds no value.
    NoValue(Location),
}

/// The index that `cell` names in `mem`: a `Cell` names its own index, an
/// `Address` names the number stored in its pointer cell. Meaningful when
/// [`resolve_safe`] holds.
pub open spec fn spec_resolve(cell: Location, mem: Seq<Option<Value>>) -> Result<int, Error> {
    match cell {
        Location::Cell(i) => Ok(i as int),
        Location::Address(i) => match mem[i as int] {
            Some(Value::Number { value: n }) => Ok(n as int),
            Some(Value::Character { .. }) => Err(Error::PointerCellContainsChar),
            None => Err(Error::NoValue(Location::Cell(i))),
        },
    }
}

/// Resolution itself stays within the machine's configuration: the pointer
/// cell of an `Address` exists, and a number found there is not negative.
/// A configuration that breaks this is malformed.
pub open spec fn resolve_safe(cell: Location, mem: Seq<Option<Value>>) -> bool {
    cell matches Location::Address(i) ==> {
        &&& i < mem.len()
        &&& (mem[i as int] matches Some(Value::Number { value: n }) ==> n >= 0)
    }
}

/// The location resolves safely and, when it resolves at all, the resolved
/// index names an existing memory cell. Operators that read or write the
/// resolved cell need this.
pub open spec fn access_safe(cell: Location, mem: Seq<Option<Value>>) -> bool {
    &&& resolve_safe(cell, mem)
    &&& (spec_resolve(cell, mem) matches Ok(p) ==> p < mem.len())
}

/// The message that [`explain`] produces for `e`.
pub open spec fn error_message(e: Error) -> Seq<char> {
    match e {
        Error::NoValue(Location::Cell(i)) => "There is no value at cell "@ + dec_str(i as nat),
        Error::NoValue(Location::Address(i)) => "There is no value at cell "@ + dec_str(i as nat),
        Error::PointerCellContainsChar => "The selected cell should contain a number, not a char"@,
    }
}

/// Resolves `cell` against the memory of `s` into a concrete index.
pub fn extract_memory_position(cell: Location, s: &InternalState) -> (r: Result<usize, Error>)
    requires
        resolve_safe(cell, s@.memory),
    ensures
        match r {
            Ok(p) => spec_resolve(cell, s@.memory) == Ok::<int, Error>(p as int),
            Err(e) => spec_resolve(cell, s@.memory) == Err::<int, Error>(e),
        },
{
    match cell {
        Location::Cell(mempos) => Ok(mempos),
        Location::Address(mempos) => {
            let value_from_memory = s.memory[mempos];
            match value_from_memory {
                Some(Value::Number { value: pointed_cell }) => Ok(pointed_cell as usize),
                Some(Value::Character { .. }) => Err(Error::PointerCellContainsChar),
                None => Err(Error::NoValue(Location::Cell(mempos))),
            }
        },
    }
}

/// Decides [`access_safe`] for `cell` against the memory of `s`.
pub fn check_access_safe(cell: Location, s: &InternalState) -> (b: bool)
    ensures
        b == access_safe(cell, s@.memory),
{
    match cell {
        Location::Cell(i) => i < s.memory.len(),
        Location::Address(i) => {
            if i >= s.memory.len() {
                false
            } else {
                match s.memory[i] {
                    Some(Value::Number { value: n }) => n >= 0 && (n as usize) < s.memory.len(),
                    _ => true,
                }
            }
        },
    }
}

/// Renders a resolution error as a human-readable message.
pub fn explain(error: Error) -> (r: String)
    ensures
        r@ == error_message(error),
{
    match error {
        Error::NoValue(Location::Cell(cell)) => {
            let mut s = String::from_str("There is no value at cell ");
            let digits = u64_to_string(cell as u64);
            s.append(digits.as_str());
            s
        },
        Error::NoValue(Location::Address(cell)) => {
            let mut s = String::from_str("There is no value at cell ");
            let digits = u64_to_string(cell as u64);
            s.append(digits.as_str());
            s
        },
        Error::PointerCellContainsChar => {
            String::from_str("The selected cell should contain a number, not a char")
        },
    }
}

} // verus!
