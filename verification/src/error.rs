//! Faults that a step of the machine can report.

use vstd::prelude::*;

verus! {

/// What can go wrong while the machine runs.
#[derive(Clone, Copy, Debug, PartialEq, Eq, Structural)]
pub enum Chip8Error {
    /// A call was made with sixteen return addresses already on the stack.
    StackOverflow,
    /// A return was made with no return address on the stack.
    StackUnderflow,
    /// The program counter left addressable memory.
    OutOfBoundsFetch,
    /// A sprite's rows run past the end of memory.
    OutOfBoundsSpriteRead,
    /// A register or digit transfer runs past the end of memory.
    OutOfBoundsMemoryAccess,
}

impl Chip8Error {
    /// Whether the fault ends the run. A stack fault does not: the
    /// instruction is dropped and the program goes on. A fetch or a
    /// transfer outside memory does.
    pub open spec fn fatal(self) -> bool {
        !(self is StackOverflow || self is StackUnderflow)
    }

    /// Whether the fault ends the run.
    pub fn is_fatal(&self) -> (fatal: bool)
        ensures
            fatal == self.fatal(),
    {
        match self {
            Chip8Error::StackOverflow | Chip8Error::StackUnderflow => false,
            Chip8Error::OutOfBoundsFetch
            | Chip8Error::OutOfBoundsSpriteRead
            | Chip8Error::OutOfBoundsMemoryAccess => true,
        }
    }
}

} // verus!
