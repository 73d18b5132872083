//! The ways in which loading or running a program can fail.

use vstd::prelude::*;

verus! {

/// A fatal condition met while loading a program or executing an
/// instruction. The operation that reports one leaves the machine as it was.
#[derive(Debug, Clone, Copy, PartialEq, Eq, Structural)]
pub enum Fault {
    /// The program does not fit between the start address and the end of
    /// memory.
    RomTooLarge,
    /// The program counter does not leave room for a two-byte instruction
    /// inside memory.
    ProgramCounterOutOfBounds,
    /// A subroutine call with sixteen return addresses already on the stack.
    StackOverflow,
    /// A return with no return address on the stack.
    StackUnderflow,
    /// An instruction reads or writes memory past the last address.
    MemoryOutOfBounds,
    /// A key test names a key outside `0..16`.
    InvalidKey,
}

impl Fault {
    /// The text that `message` returns.
    pub open spec fn text(self) -> Seq<char> {
        match self {
            Fault::RomTooLarge => "program does not fit in memory"@,
            Fault::ProgramCounterOutOfBounds => "program counter outside memory"@,
            Fault::StackOverflow => "call stack overflow"@,
            Fault::StackUnderflow => "return with an empty call stack"@,
            Fault::MemoryOutOfBounds => "memory access outside memory"@,
            Fault::InvalidKey => "key number outside the keypad"@,
        }
    }

    /// A short description for reporting the fault.
    pub fn message(&self) -> (text: &'static str)
        ensures
            text@ == self.text(),
    {
        match self {
            Fault::RomTooLarge => "program does not fit in memory",
            Fault::ProgramCounterOutOfBounds => "program counter outside memory",
            Fault::StackOverflow => "call stack overflow",
            Fault::StackUnderflow => "return with an empty call stack",
            Fault::MemoryOutOfBounds => "memory access outside memory",
            Fault::InvalidKey => "key number outside the keypad",
        }
    }
}

} // verus!
