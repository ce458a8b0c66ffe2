use vstd::prelude::*;

verus! {

/// The faults of the emulated machine. Each one halts execution and is
/// handed to the host.
#[derive(Clone, Copy, Debug, PartialEq, Eq, Structural)]
pub enum EmuError {
    /// The word at `pc` is no instruction this core knows.
    IllegalInstruction { pc: u16, word: u16 },
    /// The instruction at `pc` reached a data address outside the memory map.
    BadAddress { pc: u16, addr: u32 },
    /// A return at `pc` found no return address on the stack.
    StackUnderflow { pc: u16 },
    /// The display was sent a command byte, or a parameter, it does not know.
    UnknownDisplayCommand { command: u8 },
    /// The display was sent a parameter out of the command's range.
    InvalidDisplayParameter { command: u8, parameter: u8 },
    /// A program image longer than program memory.
    ProgramTooLarge { words: usize },
}

} // verus!
