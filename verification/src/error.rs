use vstd::prelude::*;

verus! {

/// Everything that can stop the machine.
#[derive(Debug, Clone, Copy, PartialEq, Eq, Structural)]
pub enum Chip8Error {
    /// The ROM bytes could not be produced by whoever owns the byte source.
    RomUnreadable,
    /// The ROM does not fit between the ROM base address and the end of memory.
    RomTooLarge,
    /// The opcode (first field) fetched at the program counter (second field)
    /// is not part of the instruction set.
    UnknownOpcode(u16, u16),
    /// A call was made with sixteen return addresses already on the stack.
    StackOverflow,
    /// A return was made with no return address on the stack.
    StackUnderflow,
    /// A computed address or index lies outside the table it points into.
    OutOfBounds,
}

} // verus!
