//! The trap taxonomy: the closed set of fault outcomes an instruction can
//! produce, plus the `Ok` sentinel meaning "no fault".

use vstd::prelude::*;
use vstd::string::StringExecFns;

verus! {

/// The outcome of executing one instruction.  Every trap is fatal to the
/// current run; `Ok` is not an error but the absence of one.
#[derive(Clone, Copy, PartialEq, Eq, Structural, Debug)]
pub enum Trap {
    /// A push was attempted on a stack already at capacity.
    StackOverflow,
    /// An opcode needed more operands than the stack holds.
    StackUnderflow,
    /// A division was attempted with a zero divisor.
    DivideByZero,
    /// The instruction pointer or a duplication index fell outside its bounds.
    IllegalInstructionAccess,
    /// No fault: the instruction completed.
    NoFault,
}

/// The human-readable description of each trap, as a sequence of characters.
pub open spec fn trap_desc(trap: Trap) -> Seq<char> {
    match trap {
        Trap::StackOverflow => "Stack overflow"@,
        Trap::StackUnderflow => "Stack underflow"@,
        Trap::DivideByZero => "Division by zero"@,
        Trap::IllegalInstructionAccess => "Illegal instruction access"@,
        Trap::NoFault => "Ok"@,
    }
}

/// Renders a trap as its human-readable description.
pub fn trap_as_str(trap: Trap) -> (r: String)
    ensures
        r@ == trap_desc(trap),
{
    match trap {
        Trap::StackOverflow => String::from_str("Stack overflow"),
        Trap::StackUnderflow => String::from_str("Stack underflow"),
        Trap::DivideByZero => String::from_str("Division by zero"),
        Trap::IllegalInstructionAccess => String::from_str("Illegal instruction access"),
        Trap::NoFault => String::from_str("Ok"),
    }
}

} // verus!
