use vstd::prelude::*;

verus! {

/// Every way an operation of the simulator can fail.
#[derive(Clone, Copy, Debug, PartialEq, Eq, Structural)]
pub enum PioError {
    /// The opcode bits of a word name no instruction class.
    InvalidOpcode,
    /// A field value lies outside the domain of its enumeration.
    InvalidEncoding,
    /// The engine's lane selector is not one of the four lanes.
    InvalidLaneIndex,
    /// A program counter, instruction index or pin count is out of bounds.
    OutOfRange,
    /// An interrupt flag index names none of the eight flags.
    IndexOutOfRange,
    /// Instruction memory was addressed outside its 32 words.
    InvalidProgramCounter,
    /// A push onto a receive FIFO that already holds four words.
    FifoFull,
    /// A pop from an empty transmit FIFO.
    FifoEmpty,
    /// An instruction, a side-set or a reserved source that is not executed.
    UnsupportedInstruction,
    /// A reserved destination of a SET instruction.
    UnsupportedDestination,
}

} // verus!
