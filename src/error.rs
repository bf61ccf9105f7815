use vstd::prelude::*;

verus! {

/// A fatal condition that halts the machine. `pc` is the program counter at the
/// time the condition was found.
#[derive(Debug, Clone, Copy, PartialEq, Eq, Structural)]
pub enum Fault {
    /// The instruction word matches no known instruction.
    UnknownOpcode { word: u16, pc: u16 },
    /// A subroutine call with all 16 stack levels in use.
    StackOverflow { pc: u16 },
    /// A subroutine return with an empty call stack.
    StackUnderflow { pc: u16 },
    /// The program counter does not address a whole instruction in memory.
    PcOutOfRange { pc: u16 },
    /// An instruction reads or writes memory past its end, starting at `index`.
    MemoryOutOfRange { pc: u16, index: u16 },
}

} // verus!
