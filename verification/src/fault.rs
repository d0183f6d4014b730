//! The conditions on which the machine refuses to go on.

use vstd::prelude::*;

verus! {

/// Why an instruction, a fetch or a program load was refused. The machine
/// is left as it was before the refused operation.
#[derive(Clone, Copy, Debug, PartialEq, Eq, Structural)]
pub enum Fault {
    /// A call with sixteen return addresses already on the stack.
    StackOverflow,
    /// A return with no return address on the stack.
    StackUnderflow,
    /// An access to memory beyond address `0xFFF`.
    OutOfBounds,
    /// A program image that does not fit between `0x200` and the end of
    /// memory.
    ProgramTooLarge,
}

impl Fault {
    /// A one-line description of the fault.
    pub fn message(&self) -> (text: String)
        ensures
            text@ == fault_text(*self)@,
    {
        match self {
            Fault::StackOverflow => "call stack overflow: more than 16 nested calls".to_string(),
            Fault::StackUnderflow => "call stack underflow: return without a call".to_string(),
            Fault::OutOfBounds => "memory access beyond address 0xFFF".to_string(),
            Fault::ProgramTooLarge => "program image larger than 3584 bytes".to_string(),
        }
    }
}

/// The description of each fault.
pub open spec fn fault_text(fault: Fault) -> &'static str {
    match fault {
        Fault::StackOverflow => "call stack overflow: more than 16 nested calls",
        Fault::StackUnderflow => "call stack underflow: return without a call",
        Fault::OutOfBounds => "memory access beyond address 0xFFF",
        Fault::ProgramTooLarge => "program image larger than 3584 bytes",
    }
}

} // verus!
