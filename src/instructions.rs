use vstd::prelude::*;
use crate::error::PioError;

verus! {

/// A decoded instruction. Every variant carries the five-bit delay/side-set field.
#[allow(inconsistent_fields)]
#[derive(Clone, Copy, Debug, PartialEq, Eq, Structural)]
pub enum PIOInstruction {
    JMP { delay_sideset: u8, condition: JmpCondition, address: u8 },
    WAIT { delay_sideset: u8, polarity: WaitPolarity, source: WaitSource, index: u8 },
    IN { delay_sideset: u8, source: InSource, bit_count: u8 },
    OUT { delay_sideset: u8, destination: OutDestination, bit_count: u8 },
    PUSH { delay_sideset: u8, if_full: bool, block: bool },
    PULL { delay_sideset: u8, if_empty: bool, block: bool },
    MOV { delay_sideset: u8, destination: MovDestination, op: MovOp, source: MovSource },
    IRQ { delay_sideset: u8, clear: bool, wait: bool, index: u8 },
    SET { delay_sideset: u8, destination: SetDestination, data: u8 },
}

/// Bits [15:13] of an instruction word: its opcode class.
pub open spec fn opcode_of(word: u32) -> u32 {
    (word >> 13u32) & 7u32
}

/// Bits [12:8] of an instruction word: the delay/side-set field.
pub open spec fn delay_of(word: u32) -> u8 {
    ((word >> 8u32) & 0x1fu32) as u8
}

/// Whether bit `k` of `word` is set.
pub open spec fn flag_of(word: u32, k: u32) -> bool {
    (word >> k) & 1u32 == 1u32
}

/// The instruction that `word` encodes. Only bits [15:0] take part.
pub open spec fn spec_decode(word: u32) -> PIOInstruction {
    let op = opcode_of(word);
    let delay_sideset = delay_of(word);
    if op == 0 {
        PIOInstruction::JMP {
            delay_sideset,
            condition: JmpCondition::spec_from_bits(((word >> 5u32) & 7u32) as u8),
            address: (word & 0x1fu32) as u8,
        }
    } else if op == 1 {
        PIOInstruction::WAIT {
            delay_sideset,
            polarity: WaitPolarity::spec_from_bits(((word >> 7u32) & 1u32) as u8),
            source: WaitSource::spec_from_bits(((word >> 5u32) & 3u32) as u8),
            index: (word & 0x1fu32) as u8,
        }
    } else if op == 2 {
        PIOInstruction::IN {
            delay_sideset,
            source: InSource::spec_from_bits(((word >> 5u32) & 7u32) as u8),
            bit_count: (word & 0x1fu32) as u8,
        }
    } else if op == 3 {
        PIOInstruction::OUT {
            delay_sideset,
            destination: OutDestination::spec_from_bits(((word >> 5u32) & 7u32) as u8),
            bit_count: (word & 0x1fu32) as u8,
        }
    } else if op == 4 {
        if flag_of(word, 7) {
            PIOInstruction::PULL {
                delay_sideset,
                if_empty: flag_of(word, 6),
                block: flag_of(word, 5),
            }
        } else {
            PIOInstruction::PUSH {
                delay_sideset,
                if_full: flag_of(word, 6),
                block: flag_of(word, 5),
            }
        }
    } else if op == 5 {
        PIOInstruction::MOV {
            delay_sideset,
            destination: MovDestination::spec_from_bits(((word >> 5u32) & 7u32) as u8),
            op: MovOp::spec_from_bits(((word >> 3u32) & 3u32) as u8),
            source: MovSource::spec_from_bits((word & 7u32) as u8),
        }
    } else if op == 6 {
        PIOInstruction::IRQ {
            delay_sideset,
            clear: flag_of(word, 6),
            wait: flag_of(word, 5),
            index: (word & 0x1fu32) as u8,
        }
    } else {
        PIOInstruction::SET {
            delay_sideset,
            destination: SetDestination::spec_from_bits(((word >> 5u32) & 7u32) as u8),
            data: (word & 0x1fu32) as u8,
        }
    }
}

/// The 16-bit word with opcode `op`, delay/side-set `delay`, bits [7:5] `hi` and
/// bits [4:0] `lo`.
pub open spec fn pack(op: u32, delay: u32, hi: u32, lo: u32) -> u32 {
    (op * 8192 + delay * 256 + hi * 32 + lo) as u32
}

pub open spec fn flag_bit(b: bool) -> u32 {
    if b {
        1
    } else {
        0
    }
}

impl PIOInstruction {
    /// The delay/side-set field of the instruction.
    pub open spec fn spec_delay_sideset(self) -> u8 {
        match self {
            PIOInstruction::JMP { delay_sideset, .. } => delay_sideset,
            PIOInstruction::WAIT { delay_sideset, .. } => delay_sideset,
            PIOInstruction::IN { delay_sideset, .. } => delay_sideset,
            PIOInstruction::OUT { delay_sideset, .. } => delay_sideset,
            PIOInstruction::PUSH { delay_sideset, .. } => delay_sideset,
            PIOInstruction::PULL { delay_sideset, .. } => delay_sideset,
            PIOInstruction::MOV { delay_sideset, .. } => delay_sideset,
            PIOInstruction::IRQ { delay_sideset, .. } => delay_sideset,
            PIOInstruction::SET { delay_sideset, .. } => delay_sideset,
        }
    }

    /// The delay/side-set field of the instruction.
    pub fn delay_sideset(&self) -> (r: u8)
        ensures
            r == self.spec_delay_sideset(),
    {
        match *self {
            PIOInstruction::JMP { delay_sideset, .. } => delay_sideset,
            PIOInstruction::WAIT { delay_sideset, .. } => delay_sideset,
            PIOInstruction::IN { delay_sideset, .. } => delay_sideset,
            PIOInstruction::OUT { delay_sideset, .. } => delay_sideset,
            PIOInstruction::PUSH { delay_sideset, .. } => delay_sideset,
            PIOInstruction::PULL { delay_sideset, .. } => delay_sideset,
            PIOInstruction::MOV { delay_sideset, .. } => delay_sideset,
            PIOInstruction::IRQ { delay_sideset, .. } => delay_sideset,
            PIOInstruction::SET { delay_sideset, .. } => delay_sideset,
        }
    }

    /// The opcode class of the instruction (PUSH and PULL share class 4).
    pub open spec fn spec_opcode(self) -> u32 {
        match self {
            PIOInstruction::JMP { .. } => 0,
            PIOInstruction::WAIT { .. } => 1,
            PIOInstruction::IN { .. } => 2,
            PIOInstruction::OUT { .. } => 3,
            PIOInstruction::PUSH { .. } => 4,
            PIOInstruction::PULL { .. } => 4,
            PIOInstruction::MOV { .. } => 5,
            PIOInstruction::IRQ { .. } => 6,
            PIOInstruction::SET { .. } => 7,
        }
    }

    /// Every numeric field fits its encoding: five bits each.
    pub open spec fn fields_in_range(self) -> bool {
        match self {
            PIOInstruction::JMP { delay_sideset, address, .. } => delay_sideset < 32 && address
                < 32,
            PIOInstruction::WAIT { delay_sideset, index, .. } => delay_sideset < 32 && index < 32,
            PIOInstruction::IN { delay_sideset, bit_count, .. } => delay_sideset < 32 && bit_count
                < 32,
            PIOInstruction::OUT { delay_sideset, bit_count, .. } => delay_sideset < 32 && bit_count
                < 32,
            PIOInstruction::PUSH { delay_sideset, .. } => delay_sideset < 32,
            PIOInstruction::PULL { delay_sideset, .. } => delay_sideset < 32,
            PIOInstruction::MOV { delay_sideset, .. } => delay_sideset < 32,
            PIOInstruction::IRQ { delay_sideset, index, .. } => delay_sideset < 32 && index < 32,
            PIOInstruction::SET { delay_sideset, data, .. } => delay_sideset < 32 && data < 32,
        }
    }

    /// The 16-bit word of the instruction; numeric fields are truncated to five bits.
    pub open spec fn spec_encode(self) -> u32 {
        match self {
            PIOInstruction::JMP { delay_sideset: d, condition, address } => pack(
                0,
                (d % 32) as u32,
                condition.spec_bits() as u32,
                (address % 32) as u32,
            ),
            PIOInstruction::WAIT { delay_sideset: d, polarity, source, index } => pack(
                1,
                (d % 32) as u32,
                (polarity.spec_bits() * 4 + source.spec_bits()) as u32,
                (index % 32) as u32,
            ),
            PIOInstruction::IN { delay_sideset: d, source, bit_count } => pack(
                2,
                (d % 32) as u32,
                source.spec_bits() as u32,
                (bit_count % 32) as u32,
            ),
            PIOInstruction::OUT { delay_sideset: d, destination, bit_count } => pack(
                3,
                (d % 32) as u32,
                destination.spec_bits() as u32,
                (bit_count % 32) as u32,
            ),
            PIOInstruction::PUSH { delay_sideset: d, if_full, block } => pack(
                4,
                (d % 32) as u32,
                (flag_bit(if_full) * 2 + flag_bit(block)) as u32,
                0,
            ),
            PIOInstruction::PULL { delay_sideset: d, if_empty, block } => pack(
                4,
                (d % 32) as u32,
                (4 + flag_bit(if_empty) * 2 + flag_bit(block)) as u32,
                0,
            ),
            PIOInstruction::MOV { delay_sideset: d, destination, op, source } => pack(
                5,
                (d % 32) as u32,
                destination.spec_bits() as u32,
                (op.spec_bits() * 8 + source.spec_bits()) as u32,
            ),
            PIOInstruction::IRQ { delay_sideset: d, clear, wait, index } => pack(
                6,
                (d % 32) as u32,
                (flag_bit(clear) * 2 + flag_bit(wait)) as u32,
                (index % 32) as u32,
            ),
            PIOInstruction::SET { delay_sideset: d, destination, data } => pack(
                7,
                (d % 32) as u32,
                destination.spec_bits() as u32,
                (data % 32) as u32,
            ),
        }
    }
}

/// Condition under which a JMP branches.
#[derive(Clone, Copy, Debug, PartialEq, Eq, Structural)]
pub enum JmpCondition {
    Always,
    ScratchXZero,
    ScratchXNonZeroPostDecrement,
    ScratchYZero,
    ScratchYNonZeroPostDecrement,
    ScratchXNotEqualScratchY,
    BranchOnInputPin,
    OutputShiftRegisterNotEmpty,
}

impl JmpCondition {
    /// The member that field value `v` encodes; values from 8 up are not used.
    pub open spec fn spec_from_bits(v: u8) -> Self {
        if v == 0 {
            JmpCondition::Always
        } else if v == 1 {
            JmpCondition::ScratchXZero
        } else if v == 2 {
            JmpCondition::ScratchXNonZeroPostDecrement
        } else if v == 3 {
            JmpCondition::ScratchYZero
        } else if v == 4 {
            JmpCondition::ScratchYNonZeroPostDecrement
        } else if v == 5 {
            JmpCondition::ScratchXNotEqualScratchY
        } else if v == 6 {
            JmpCondition::BranchOnInputPin
        } else {
            JmpCondition::OutputShiftRegisterNotEmpty
        }
    }

    /// The field value that encodes this member.
    pub open spec fn spec_bits(self) -> u8 {
        match self {
            JmpCondition::Always => 0,
            JmpCondition::ScratchXZero => 1,
            JmpCondition::ScratchXNonZeroPostDecrement => 2,
            JmpCondition::ScratchYZero => 3,
            JmpCondition::ScratchYNonZeroPostDecrement => 4,
            JmpCondition::ScratchXNotEqualScratchY => 5,
            JmpCondition::BranchOnInputPin => 6,
            JmpCondition::OutputShiftRegisterNotEmpty => 7,
        }
    }

    /// The field values below 8 and the members correspond one to one.
    pub proof fn lemma_bits(self, v: u8)
        ensures
            JmpCondition::spec_from_bits(self.spec_bits()) == self,
            self.spec_bits() < 8,
            v < 8 ==> JmpCondition::spec_from_bits(v).spec_bits() == v,
    {
    }

    /// The field value that encodes this member.
    pub fn bits(self) -> (r: u8)
        ensures
            r == self.spec_bits(),
            r < 8,
    {
        match self {
            JmpCondition::Always => 0,
            JmpCondition::ScratchXZero => 1,
            JmpCondition::ScratchXNonZeroPostDecrement => 2,
            JmpCondition::ScratchYZero => 3,
            JmpCondition::ScratchYNonZeroPostDecrement => 4,
            JmpCondition::ScratchXNotEqualScratchY => 5,
            JmpCondition::BranchOnInputPin => 6,
            JmpCondition::OutputShiftRegisterNotEmpty => 7,
        }
    }
}

impl TryFrom<u8> for JmpCondition {
    type Error = PioError;

    fn try_from(value: u8) -> (r: Result<Self, PioError>) {
        match value {
            0 => Ok(JmpCondition::Always),
            1 => Ok(JmpCondition::ScratchXZero),
            2 => Ok(JmpCondition::ScratchXNonZeroPostDecrement),
            3 => Ok(JmpCondition::ScratchYZero),
            4 => Ok(JmpCondition::ScratchYNonZeroPostDecrement),
            5 => Ok(JmpCondition::ScratchXNotEqualScratchY),
            6 => Ok(JmpCondition::BranchOnInputPin),
            7 => Ok(JmpCondition::OutputShiftRegisterNotEmpty),
            _ => Err(PioError::InvalidEncoding),
        }
    }
}

impl vstd::std_specs::convert::TryFromSpecImpl<u8> for JmpCondition {
    open spec fn obeys_try_from_spec() -> bool {
        true
    }

    open spec fn try_from_spec(v: u8) -> Result<Self, PioError> {
        if v < 8 {
            Ok(JmpCondition::spec_from_bits(v))
        } else {
            Err(PioError::InvalidEncoding)
        }
    }
}

/// The level a WAIT waits for.
#[derive(Clone, Copy, Debug, PartialEq, Eq, Structural)]
pub enum WaitPolarity {
    Zero,
    One,
}

impl WaitPolarity {
    /// The member that field value `v` encodes; values from 2 up are not used.
    pub open spec fn spec_from_bits(v: u8) -> Self {
        if v == 0 {
            WaitPolarity::Zero
        } else {
            WaitPolarity::One
        }
    }

    /// The field value that encodes this member.
    pub open spec fn spec_bits(self) -> u8 {
        match self {
            WaitPolarity::Zero => 0,
            WaitPolarity::One => 1,
        }
    }

    /// The field values below 2 and the members correspond one to one.
    pub proof fn lemma_bits(self, v: u8)
        ensures
            WaitPolarity::spec_from_bits(self.spec_bits()) == self,
            self.spec_bits() < 2,
            v < 2 ==> WaitPolarity::spec_from_bits(v).spec_bits() == v,
    {
    }

    /// The field value that encodes this member.
    pub fn bits(self) -> (r: u8)
        ensures
            r == self.spec_bits(),
            r < 2,
    {
        match self {
            WaitPolarity::Zero => 0,
            WaitPolarity::One => 1,
        }
    }
}

impl TryFrom<u8> for WaitPolarity {
    type Error = PioError;

    fn try_from(value: u8) -> (r: Result<Self, PioError>) {
        match value {
            0 => Ok(WaitPolarity::Zero),
            1 => Ok(WaitPolarity::One),
            _ => Err(PioError::InvalidEncoding),
        }
    }
}

impl vstd::std_specs::convert::TryFromSpecImpl<u8> for WaitPolarity {
    open spec fn obeys_try_from_spec() -> bool {
        true
    }

    open spec fn try_from_spec(v: u8) -> Result<Self, PioError> {
        if v < 2 {
            Ok(WaitPolarity::spec_from_bits(v))
        } else {
            Err(PioError::InvalidEncoding)
        }
    }
}

/// What a WAIT polls.
#[derive(Clone, Copy, Debug, PartialEq, Eq, Structural)]
pub enum WaitSource {
    GPIO,
    Pin,
    IRQ,
    Reserved,
}

impl WaitSource {
    /// The member that field value `v` encodes; values from 4 up are not used.
    pub open spec fn spec_from_bits(v: u8) -> Self {
        if v == 0 {
            WaitSource::GPIO
        } else if v == 1 {
            WaitSource::Pin
        } else if v == 2 {
            WaitSource::IRQ
        } else {
            WaitSource::Reserved
        }
    }

    /// The field value that encodes this member.
    pub open spec fn spec_bits(self) -> u8 {
        match self {
            WaitSource::GPIO => 0,
            WaitSource::Pin => 1,
            WaitSource::IRQ => 2,
            WaitSource::Reserved => 3,
        }
    }

    /// The field values below 4 and the members correspond one to one.
    pub proof fn lemma_bits(self, v: u8)
        ensures
            WaitSource::spec_from_bits(self.spec_bits()) == self,
            self.spec_bits() < 4,
            v < 4 ==> WaitSource::spec_from_bits(v).spec_bits() == v,
    {
    }

    /// The field value that encodes this member.
    pub fn bits(self) -> (r: u8)
        ensures
            r == self.spec_bits(),
            r < 4,
    {
        match self {
            WaitSource::GPIO => 0,
            WaitSource::Pin => 1,
            WaitSource::IRQ => 2,
            WaitSource::Reserved => 3,
        }
    }
}

impl TryFrom<u8> for WaitSource {
    type Error = PioError;

    fn try_from(value: u8) -> (r: Result<Self, PioError>) {
        match value {
            0 => Ok(WaitSource::GPIO),
            1 => Ok(WaitSource::Pin),
            2 => Ok(WaitSource::IRQ),
            3 => Ok(WaitSource::Reserved),
            _ => Err(PioError::InvalidEncoding),
        }
    }
}

impl vstd::std_specs::convert::TryFromSpecImpl<u8> for WaitSource {
    open spec fn obeys_try_from_spec() -> bool {
        true
    }

    open spec fn try_from_spec(v: u8) -> Result<Self, PioError> {
        if v < 4 {
            Ok(WaitSource::spec_from_bits(v))
        } else {
            Err(PioError::InvalidEncoding)
        }
    }
}

/// Source of an IN shift.
#[derive(Clone, Copy, Debug, PartialEq, Eq, Structural)]
pub enum InSource {
    PINS,
    X,
    Y,
    NULL,
    Reserved0,
    Reserved1,
    ISR,
    OSR,
}

impl InSource {
    /// The member that field value `v` encodes; values from 8 up are not used.
    pub open spec fn spec_from_bits(v: u8) -> Self {
        if v == 0 {
            InSource::PINS
        } else if v == 1 {
            InSource::X
        } else if v == 2 {
            InSource::Y
        } else if v == 3 {
            InSource::NULL
        } else if v == 4 {
            InSource::Reserved0
        } else if v == 5 {
            InSource::Reserved1
        } else if v == 6 {
            InSource::ISR
        } else {
            InSource::OSR
        }
    }

    /// The field value that encodes this member.
    pub open spec fn spec_bits(self) -> u8 {
        match self {
            InSource::PINS => 0,
            InSource::X => 1,
            InSource::Y => 2,
            InSource::NULL => 3,
            InSource::Reserved0 => 4,
            InSource::Reserved1 => 5,
            InSource::ISR => 6,
            InSource::OSR => 7,
        }
    }

    /// The field values below 8 and the members correspond one to one.
    pub proof fn lemma_bits(self, v: u8)
        ensures
            InSource::spec_from_bits(self.spec_bits()) == self,
            self.spec_bits() < 8,
            v < 8 ==> InSource::spec_from_bits(v).spec_bits() == v,
    {
    }

    /// The field value that encodes this member.
    pub fn bits(self) -> (r: u8)
        ensures
            r == self.spec_bits(),
            r < 8,
    {
        match self {
            InSource::PINS => 0,
            InSource::X => 1,
            InSource::Y => 2,
            InSource::NULL => 3,
            InSource::Reserved0 => 4,
            InSource::Reserved1 => 5,
            InSource::ISR => 6,
            InSource::OSR => 7,
        }
    }
}

impl TryFrom<u8> for InSource {
    type Error = PioError;

    fn try_from(value: u8) -> (r: Result<Self, PioError>) {
        match value {
            0 => Ok(InSource::PINS),
            1 => Ok(InSource::X),
            2 => Ok(InSource::Y),
            3 => Ok(InSource::NULL),
            4 => Ok(InSource::Reserved0),
            5 => Ok(InSource::Reserved1),
            6 => Ok(InSource::ISR),
            7 => Ok(InSource::OSR),
            _ => Err(PioError::InvalidEncoding),
        }
    }
}

impl vstd::std_specs::convert::TryFromSpecImpl<u8> for InSource {
    open spec fn obeys_try_from_spec() -> bool {
        true
    }

    open spec fn try_from_spec(v: u8) -> Result<Self, PioError> {
        if v < 8 {
            Ok(InSource::spec_from_bits(v))
        } else {
            Err(PioError::InvalidEncoding)
        }
    }
}

/// Destination of an OUT shift.
#[derive(Clone, Copy, Debug, PartialEq, Eq, Structural)]
pub enum OutDestination {
    PINS,
    X,
    Y,
    NULL,
    PINDIRS,
    PC,
    ISR,
    EXEC,
}

impl OutDestination {
    /// The member that field value `v` encodes; values from 8 up are not used.
    pub open spec fn spec_from_bits(v: u8) -> Self {
        if v == 0 {
            OutDestination::PINS
        } else if v == 1 {
            OutDestination::X
        } else if v == 2 {
            OutDestination::Y
        } else if v == 3 {
            OutDestination::NULL
        } else if v == 4 {
            OutDestination::PINDIRS
        } else if v == 5 {
            OutDestination::PC
        } else if v == 6 {
            OutDestination::ISR
        } else {
            OutDestination::EXEC
        }
    }

    /// The field value that encodes this member.
    pub open spec fn spec_bits(self) -> u8 {
        match self {
            OutDestination::PINS => 0,
            OutDestination::X => 1,
            OutDestination::Y => 2,
            OutDestination::NULL => 3,
            OutDestination::PINDIRS => 4,
            OutDestination::PC => 5,
            OutDestination::ISR => 6,
            OutDestination::EXEC => 7,
        }
    }

    /// The field values below 8 and the members correspond one to one.
    pub proof fn lemma_bits(self, v: u8)
        ensures
            OutDestination::spec_from_bits(self.spec_bits()) == self,
            self.spec_bits() < 8,
            v < 8 ==> OutDestination::spec_from_bits(v).spec_bits() == v,
    {
    }

    /// The field value that encodes this member.
    pub fn bits(self) -> (r: u8)
        ensures
            r == self.spec_bits(),
            r < 8,
    {
        match self {
            OutDestination::PINS => 0,
            OutDestination::X => 1,
            OutDestination::Y => 2,
            OutDestination::NULL => 3,
            OutDestination::PINDIRS => 4,
            OutDestination::PC => 5,
            OutDestination::ISR => 6,
            OutDestination::EXEC => 7,
        }
    }
}

impl TryFrom<u8> for OutDestination {
    type Error = PioError;

    fn try_from(value: u8) -> (r: Result<Self, PioError>) {
        match value {
            0 => Ok(OutDestination::PINS),
            1 => Ok(OutDestination::X),
            2 => Ok(OutDestination::Y),
            3 => Ok(OutDestination::NULL),
            4 => Ok(OutDestination::PINDIRS),
            5 => Ok(OutDestination::PC),
            6 => Ok(OutDestination::ISR),
            7 => Ok(OutDestination::EXEC),
            _ => Err(PioError::InvalidEncoding),
        }
    }
}

impl vstd::std_specs::convert::TryFromSpecImpl<u8> for OutDestination {
    open spec fn obeys_try_from_spec() -> bool {
        true
    }

    open spec fn try_from_spec(v: u8) -> Result<Self, PioError> {
        if v < 8 {
            Ok(OutDestination::spec_from_bits(v))
        } else {
            Err(PioError::InvalidEncoding)
        }
    }
}

/// Destination of a MOV.
#[derive(Clone, Copy, Debug, PartialEq, Eq, Structural)]
pub enum MovDestination {
    PINS,
    X,
    Y,
    Reserved,
    EXEC,
    PC,
    ISR,
    OSR,
}

impl MovDestination {
    /// The member that field value `v` encodes; values from 8 up are not used.
    pub open spec fn spec_from_bits(v: u8) -> Self {
        if v == 0 {
            MovDestination::PINS
        } else if v == 1 {
            MovDestination::X
        } else if v == 2 {
            MovDestination::Y
        } else if v == 3 {
            MovDestination::Reserved
        } else if v == 4 {
            MovDestination::EXEC
        } else if v == 5 {
            MovDestination::PC
        } else if v == 6 {
            MovDestination::ISR
        } else {
            MovDestination::OSR
        }
    }

    /// The field value that encodes this member.
    pub open spec fn spec_bits(self) -> u8 {
        match self {
            MovDestination::PINS => 0,
            MovDestination::X => 1,
            MovDestination::Y => 2,
            MovDestination::Reserved => 3,
            MovDestination::EXEC => 4,
            MovDestination::PC => 5,
            MovDestination::ISR => 6,
            MovDestination::OSR => 7,
        }
    }

    /// The field values below 8 and the members correspond one to one.
    pub proof fn lemma_bits(self, v: u8)
        ensures
            MovDestination::spec_from_bits(self.spec_bits()) == self,
            self.spec_bits() < 8,
            v < 8 ==> MovDestination::spec_from_bits(v).spec_bits() == v,
    {
    }

    /// The field value that encodes this member.
    pub fn bits(self) -> (r: u8)
        ensures
            r == self.spec_bits(),
            r < 8,
    {
        match self {
            MovDestination::PINS => 0,
            MovDestination::X => 1,
            MovDestination::Y => 2,
            MovDestination::Reserved => 3,
            MovDestination::EXEC => 4,
            MovDestination::PC => 5,
            MovDestination::ISR => 6,
            MovDestination::OSR => 7,
        }
    }
}

impl TryFrom<u8> for MovDestination {
    type Error = PioError;

    fn try_from(value: u8) -> (r: Result<Self, PioError>) {
        match value {
            0 => Ok(MovDestination::PINS),
            1 => Ok(MovDestination::X),
            2 => Ok(MovDestination::Y),
            3 => Ok(MovDestination::Reserved),
            4 => Ok(MovDestination::EXEC),
            5 => Ok(MovDestination::PC),
            6 => Ok(MovDestination::ISR),
            7 => Ok(MovDestination::OSR),
            _ => Err(PioError::InvalidEncoding),
        }
    }
}

impl vstd::std_specs::convert::TryFromSpecImpl<u8> for MovDestination {
    open spec fn obeys_try_from_spec() -> bool {
        true
    }

    open spec fn try_from_spec(v: u8) -> Result<Self, PioError> {
        if v < 8 {
            Ok(MovDestination::spec_from_bits(v))
        } else {
            Err(PioError::InvalidEncoding)
        }
    }
}

/// Operation a MOV applies on the way.
#[derive(Clone, Copy, Debug, PartialEq, Eq, Structural)]
pub enum MovOp {
    NoOp,
    Invert,
    BitReverse,
    Reserved,
}

impl MovOp {
    /// The member that field value `v` encodes; values from 4 up are not used.
    pub open spec fn spec_from_bits(v: u8) -> Self {
        if v == 0 {
            MovOp::NoOp
        } else if v == 1 {
            MovOp::Invert
        } else if v == 2 {
            MovOp::BitReverse
        } else {
            MovOp::Reserved
        }
    }

    /// The field value that encodes this member.
    pub open spec fn spec_bits(self) -> u8 {
        match self {
            MovOp::NoOp => 0,
            MovOp::Invert => 1,
            MovOp::BitReverse => 2,
            MovOp::Reserved => 3,
        }
    }

    /// The field values below 4 and the members correspond one to one.
    pub proof fn lemma_bits(self, v: u8)
        ensures
            MovOp::spec_from_bits(self.spec_bits()) == self,
            self.spec_bits() < 4,
            v < 4 ==> MovOp::spec_from_bits(v).spec_bits() == v,
    {
    }

    /// The field value that encodes this member.
    pub fn bits(self) -> (r: u8)
        ensures
            r == self.spec_bits(),
            r < 4,
    {
        match self {
            MovOp::NoOp => 0,
            MovOp::Invert => 1,
            MovOp::BitReverse => 2,
            MovOp::Reserved => 3,
        }
    }
}

impl TryFrom<u8> for MovOp {
    type Error = PioError;

    fn try_from(value: u8) -> (r: Result<Self, PioError>) {
        match value {
            0 => Ok(MovOp::NoOp),
            1 => Ok(MovOp::Invert),
            2 => Ok(MovOp::BitReverse),
            3 => Ok(MovOp::Reserved),
            _ => Err(PioError::InvalidEncoding),
        }
    }
}

impl vstd::std_specs::convert::TryFromSpecImpl<u8> for MovOp {
    open spec fn obeys_try_from_spec() -> bool {
        true
    }

    open spec fn try_from_spec(v: u8) -> Result<Self, PioError> {
        if v < 4 {
            Ok(MovOp::spec_from_bits(v))
        } else {
            Err(PioError::InvalidEncoding)
        }
    }
}

/// Source of a MOV.
#[derive(Clone, Copy, Debug, PartialEq, Eq, Structural)]
pub enum MovSource {
    PINS,
    X,
    Y,
    NULL,
    Reserved,
    STATUS,
    ISR,
    EXEC,
}

impl MovSource {
    /// The member that field value `v` encodes; values from 8 up are not used.
    pub open spec fn spec_from_bits(v: u8) -> Self {
        if v == 0 {
            MovSource::PINS
        } else if v == 1 {
            MovSource::X
        } else if v == 2 {
            MovSource::Y
        } else if v == 3 {
            MovSource::NULL
        } else if v == 4 {
            MovSource::Reserved
        } else if v == 5 {
            MovSource::STATUS
        } else if v == 6 {
            MovSource::ISR
        } else {
            MovSource::EXEC
        }
    }

    /// The field value that encodes this member.
    pub open spec fn spec_bits(self) -> u8 {
        match self {
            MovSource::PINS => 0,
            MovSource::X => 1,
            MovSource::Y => 2,
            MovSource::NULL => 3,
            MovSource::Reserved => 4,
            MovSource::STATUS => 5,
            MovSource::ISR => 6,
            MovSource::EXEC => 7,
        }
    }

    /// The field values below 8 and the members correspond one to one.
    pub proof fn lemma_bits(self, v: u8)
        ensures
            MovSource::spec_from_bits(self.spec_bits()) == self,
            self.spec_bits() < 8,
            v < 8 ==> MovSource::spec_from_bits(v).spec_bits() == v,
    {
    }

    /// The field value that encodes this member.
    pub fn bits(self) -> (r: u8)
        ensures
            r == self.spec_bits(),
            r < 8,
    {
        match self {
            MovSource::PINS => 0,
            MovSource::X => 1,
            MovSource::Y => 2,
            MovSource::NULL => 3,
            MovSource::Reserved => 4,
            MovSource::STATUS => 5,
            MovSource::ISR => 6,
            MovSource::EXEC => 7,
        }
    }
}

impl TryFrom<u8> for MovSource {
    type Error = PioError;

    fn try_from(value: u8) -> (r: Result<Self, PioError>) {
        match value {
            0 => Ok(MovSource::PINS),
            1 => Ok(MovSource::X),
            2 => Ok(MovSource::Y),
            3 => Ok(MovSource::NULL),
            4 => Ok(MovSource::Reserved),
            5 => Ok(MovSource::STATUS),
            6 => Ok(MovSource::ISR),
            7 => Ok(MovSource::EXEC),
            _ => Err(PioError::InvalidEncoding),
        }
    }
}

impl vstd::std_specs::convert::TryFromSpecImpl<u8> for MovSource {
    open spec fn obeys_try_from_spec() -> bool {
        true
    }

    open spec fn try_from_spec(v: u8) -> Result<Self, PioError> {
        if v < 8 {
            Ok(MovSource::spec_from_bits(v))
        } else {
            Err(PioError::InvalidEncoding)
        }
    }
}

/// Destination of a SET.
#[derive(Clone, Copy, Debug, PartialEq, Eq, Structural)]
pub enum SetDestination {
    PINS,
    X,
    Y,
    Reserved0,
    PINDIRS,
    Reserved1,
    Reserved2,
    Reserved3,
}

impl SetDestination {
    /// The member that field value `v` encodes; values from 8 up are not used.
    pub open spec fn spec_from_bits(v: u8) -> Self {
        if v == 0 {
            SetDestination::PINS
        } else if v == 1 {
            SetDestination::X
        } else if v == 2 {
            SetDestination::Y
        } else if v == 3 {
            SetDestination::Reserved0
        } else if v == 4 {
            SetDestination::PINDIRS
        } else if v == 5 {
            SetDestination::Reserved1
        } else if v == 6 {
            SetDestination::Reserved2
        } else {
            SetDestination::Reserved3
        }
    }

    /// The field value that encodes this member.
    pub open spec fn spec_bits(self) -> u8 {
        match self {
            SetDestination::PINS => 0,
            SetDestination::X => 1,
            SetDestination::Y => 2,
            SetDestination::Reserved0 => 3,
            SetDestination::PINDIRS => 4,
            SetDestination::Reserved1 => 5,
            SetDestination::Reserved2 => 6,
            SetDestination::Reserved3 => 7,
        }
    }

    /// The field values below 8 and the members correspond one to one.
    pub proof fn lemma_bits(self, v: u8)
        ensures
            SetDestination::spec_from_bits(self.spec_bits()) == self,
            self.spec_bits() < 8,
            v < 8 ==> SetDestination::spec_from_bits(v).spec_bits() == v,
    {
    }

    /// The field value that encodes this member.
    pub fn bits(self) -> (r: u8)
        ensures
            r == self.spec_bits(),
            r < 8,
    {
        match self {
            SetDestination::PINS => 0,
            SetDestination::X => 1,
            SetDestination::Y => 2,
            SetDestination::Reserved0 => 3,
            SetDestination::PINDIRS => 4,
            SetDestination::Reserved1 => 5,
            SetDestination::Reserved2 => 6,
            SetDestination::Reserved3 => 7,
        }
    }
}

impl TryFrom<u8> for SetDestination {
    type Error = PioError;

    fn try_from(value: u8) -> (r: Result<Self, PioError>) {
        match value {
            0 => Ok(SetDestination::PINS),
            1 => Ok(SetDestination::X),
            2 => Ok(SetDestination::Y),
            3 => Ok(SetDestination::Reserved0),
            4 => Ok(SetDestination::PINDIRS),
            5 => Ok(SetDestination::Reserved1),
            6 => Ok(SetDestination::Reserved2),
            7 => Ok(SetDestination::Reserved3),
            _ => Err(PioError::InvalidEncoding),
        }
    }
}

impl vstd::std_specs::convert::TryFromSpecImpl<u8> for SetDestination {
    open spec fn obeys_try_from_spec() -> bool {
        true
    }

    open spec fn try_from_spec(v: u8) -> Result<Self, PioError> {
        if v < 8 {
            Ok(SetDestination::spec_from_bits(v))
        } else {
            Err(PioError::InvalidEncoding)
        }
    }
}

/// Field extraction and the packing of a word from its fields.
proof fn lemma_word_fields(w: u32)
    by (bit_vector)
    ensures
        (w >> 13u32) & 7u32 < 8,
        (w >> 8u32) & 0x1fu32 < 32,
        (w >> 5u32) & 7u32 < 8,
        w & 0x1fu32 < 32,
        (w >> 7u32) & 1u32 < 2,
        (w >> 6u32) & 1u32 < 2,
        (w >> 5u32) & 1u32 < 2,
        (w >> 5u32) & 3u32 < 4,
        (w >> 3u32) & 3u32 < 4,
        w & 7u32 < 8,
        (w >> 5u32) & 7u32 == ((w >> 7u32) & 1u32) * 4 + ((w >> 5u32) & 3u32),
        (w >> 5u32) & 3u32 == ((w >> 6u32) & 1u32) * 2 + ((w >> 5u32) & 1u32),
        w & 0x1fu32 == ((w >> 3u32) & 3u32) * 8 + (w & 7u32),
        w & 0xffffu32 == pack(
            (w >> 13u32) & 7u32,
            (w >> 8u32) & 0x1fu32,
            (w >> 5u32) & 7u32,
            w & 0x1fu32,
        ),
        w & 0xffe0u32 == pack((w >> 13u32) & 7u32, (w >> 8u32) & 0x1fu32, (w >> 5u32) & 7u32, 0),
        w & 0xff7fu32 == pack(
            (w >> 13u32) & 7u32,
            (w >> 8u32) & 0x1fu32,
            (w >> 5u32) & 3u32,
            w & 0x1fu32,
        ),
{
}

/// The fields of a packed word read back as they went in.
proof fn lemma_pack_fields(op: u32, d: u32, hi: u32, lo: u32)
    by (bit_vector)
    requires
        op < 8,
        d < 32,
        hi < 8,
        lo < 32,
    ensures
        (pack(op, d, hi, lo) >> 13u32) & 7u32 == op,
        (pack(op, d, hi, lo) >> 8u32) & 0x1fu32 == d,
        (pack(op, d, hi, lo) >> 5u32) & 7u32 == hi,
        pack(op, d, hi, lo) & 0x1fu32 == lo,
        (pack(op, d, hi, lo) >> 7u32) & 1u32 == hi / 4,
        (pack(op, d, hi, lo) >> 6u32) & 1u32 == (hi / 2) % 2,
        (pack(op, d, hi, lo) >> 5u32) & 1u32 == hi % 2,
        (pack(op, d, hi, lo) >> 5u32) & 3u32 == hi % 4,
        (pack(op, d, hi, lo) >> 3u32) & 3u32 == lo / 8,
        pack(op, d, hi, lo) & 7u32 == lo % 8,
        pack(op, d, hi, lo) < 0x10000,
{
}

/// The bits of a word that its instruction keeps: PUSH and PULL ignore bits
/// [4:0], IRQ ignores bit 7, every other class keeps all 16 bits.
pub open spec fn significant_bits(op: u32) -> u32 {
    if op == 4 {
        0xffe0
    } else if op == 6 {
        0xff7f
    } else {
        0xffff
    }
}

/// Decoding is total and its class is fixed by bits [15:13] alone: two words
/// decode to the same class exactly when their opcode bits agree.
pub proof fn lemma_decode_class(w1: u32, w2: u32)
    ensures
        spec_decode(w1).spec_opcode() == opcode_of(w1),
        (opcode_of(w1) == opcode_of(w2)) <==> (spec_decode(w1).spec_opcode() == spec_decode(
            w2,
        ).spec_opcode()),
{
    lemma_word_fields(w1);
    lemma_word_fields(w2);
}

/// Every decoded instruction has its numeric fields within five bits.
pub proof fn lemma_decode_fields_in_range(w: u32)
    ensures
        spec_decode(w).fields_in_range(),
{
    lemma_word_fields(w);
}

/// Decoding a packed word of class `op` whose fields fit reads each field back.
proof fn lemma_decode_packed(op: u32, d: u32, hi: u32, lo: u32)
    requires
        op < 8,
        d < 32,
        hi < 8,
        lo < 32,
    ensures
        opcode_of(pack(op, d, hi, lo)) == op,
        delay_of(pack(op, d, hi, lo)) == d as u8,
        (pack(op, d, hi, lo) >> 5u32) & 7u32 == hi,
        pack(op, d, hi, lo) & 0x1fu32 == lo,
        (pack(op, d, hi, lo) >> 7u32) & 1u32 == hi / 4,
        (pack(op, d, hi, lo) >> 5u32) & 3u32 == hi % 4,
        flag_of(pack(op, d, hi, lo), 7) == (hi / 4 == 1),
        flag_of(pack(op, d, hi, lo), 6) == ((hi / 2) % 2 == 1),
        flag_of(pack(op, d, hi, lo), 5) == (hi % 2 == 1),
        (pack(op, d, hi, lo) >> 3u32) & 3u32 == lo / 8,
        pack(op, d, hi, lo) & 7u32 == lo % 8,
{
    lemma_pack_fields(op, d, hi, lo);
}

proof fn lemma_decode_encode_jmp(d: u8, c: JmpCondition, a: u8)
    requires
        d < 32,
        a < 32,
    ensures
        ({
            let i = PIOInstruction::JMP { delay_sideset: d, condition: c, address: a };
            spec_decode(i.spec_encode()) == i
        }),
{
    let i = PIOInstruction::JMP { delay_sideset: d, condition: c, address: a };
    c.lemma_bits(0);
    let (hi, lo) = (c.spec_bits() as u32, a as u32);
    lemma_decode_packed(0, d as u32, hi, lo);
    let w = pack(0, d as u32, hi, lo);
    assert(i.spec_encode() == w);
    assert(spec_decode(w) == PIOInstruction::JMP {
        delay_sideset: d,
        condition: JmpCondition::spec_from_bits(hi as u8),
        address: lo as u8,
    });
}

proof fn lemma_decode_encode_wait(d: u8, p: WaitPolarity, s: WaitSource, x: u8)
    requires
        d < 32,
        x < 32,
    ensures
        ({
            let i = PIOInstruction::WAIT { delay_sideset: d, polarity: p, source: s, index: x };
            spec_decode(i.spec_encode()) == i
        }),
{
    let i = PIOInstruction::WAIT { delay_sideset: d, polarity: p, source: s, index: x };
    p.lemma_bits(0);
    s.lemma_bits(0);
    let (hi, lo) = ((p.spec_bits() * 4 + s.spec_bits()) as u32, x as u32);
    lemma_decode_packed(1, d as u32, hi, lo);
    let w = pack(1, d as u32, hi, lo);
    assert(i.spec_encode() == w);
    assert(hi / 4 == p.spec_bits() && hi % 4 == s.spec_bits());
    assert(spec_decode(w) == PIOInstruction::WAIT {
        delay_sideset: d,
        polarity: WaitPolarity::spec_from_bits((hi / 4) as u8),
        source: WaitSource::spec_from_bits((hi % 4) as u8),
        index: lo as u8,
    });
}

proof fn lemma_decode_encode_in(d: u8, s: InSource, n: u8)
    requires
        d < 32,
        n < 32,
    ensures
        ({
            let i = PIOInstruction::IN { delay_sideset: d, source: s, bit_count: n };
            spec_decode(i.spec_encode()) == i
        }),
{
    let i = PIOInstruction::IN { delay_sideset: d, source: s, bit_count: n };
    s.lemma_bits(0);
    let (hi, lo) = (s.spec_bits() as u32, n as u32);
    lemma_decode_packed(2, d as u32, hi, lo);
    let w = pack(2, d as u32, hi, lo);
    assert(i.spec_encode() == w);
    assert(spec_decode(w) == PIOInstruction::IN {
        delay_sideset: d,
        source: InSource::spec_from_bits(hi as u8),
        bit_count: lo as u8,
    });
}

proof fn lemma_decode_encode_out(d: u8, t: OutDestination, n: u8)
    requires
        d < 32,
        n < 32,
    ensures
        ({
            let i = PIOInstruction::OUT { delay_sideset: d, destination: t, bit_count: n };
            spec_decode(i.spec_encode()) == i
        }),
{
    let i = PIOInstruction::OUT { delay_sideset: d, destination: t, bit_count: n };
    t.lemma_bits(0);
    let (hi, lo) = (t.spec_bits() as u32, n as u32);
    lemma_decode_packed(3, d as u32, hi, lo);
    let w = pack(3, d as u32, hi, lo);
    assert(i.spec_encode() == w);
    assert(spec_decode(w) == PIOInstruction::OUT {
        delay_sideset: d,
        destination: OutDestination::spec_from_bits(hi as u8),
        bit_count: lo as u8,
    });
}

proof fn lemma_decode_encode_push(d: u8, f: bool, b: bool)
    requires
        d < 32,
    ensures
        ({
            let i = PIOInstruction::PUSH { delay_sideset: d, if_full: f, block: b };
            spec_decode(i.spec_encode()) == i
        }),
{
    let i = PIOInstruction::PUSH { delay_sideset: d, if_full: f, block: b };
    let hi = (flag_bit(f) * 2 + flag_bit(b)) as u32;
    lemma_decode_packed(4, d as u32, hi, 0);
    let w = pack(4, d as u32, hi, 0);
    assert(i.spec_encode() == w);
    assert(hi / 4 == 0 && ((hi / 2) % 2 == 1) == f && (hi % 2 == 1) == b);
    assert(spec_decode(w) == PIOInstruction::PUSH { delay_sideset: d, if_full: f, block: b });
}

proof fn lemma_decode_encode_pull(d: u8, f: bool, b: bool)
    requires
        d < 32,
    ensures
        ({
            let i = PIOInstruction::PULL { delay_sideset: d, if_empty: f, block: b };
            spec_decode(i.spec_encode()) == i
        }),
{
    let i = PIOInstruction::PULL { delay_sideset: d, if_empty: f, block: b };
    let hi = (4 + flag_bit(f) * 2 + flag_bit(b)) as u32;
    lemma_decode_packed(4, d as u32, hi, 0);
    let w = pack(4, d as u32, hi, 0);
    assert(i.spec_encode() == w);
    assert(hi / 4 == 1 && ((hi / 2) % 2 == 1) == f && (hi % 2 == 1) == b);
    assert(spec_decode(w) == PIOInstruction::PULL { delay_sideset: d, if_empty: f, block: b });
}

proof fn lemma_decode_encode_mov(d: u8, t: MovDestination, o: MovOp, s: MovSource)
    requires
        d < 32,
    ensures
        ({
            let i = PIOInstruction::MOV { delay_sideset: d, destination: t, op: o, source: s };
            spec_decode(i.spec_encode()) == i
        }),
{
    let i = PIOInstruction::MOV { delay_sideset: d, destination: t, op: o, source: s };
    t.lemma_bits(0);
    o.lemma_bits(0);
    s.lemma_bits(0);
    let (hi, lo) = (t.spec_bits() as u32, (o.spec_bits() * 8 + s.spec_bits()) as u32);
    lemma_decode_packed(5, d as u32, hi, lo);
    let w = pack(5, d as u32, hi, lo);
    assert(i.spec_encode() == w);
    assert(lo / 8 == o.spec_bits() && lo % 8 == s.spec_bits());
    assert(spec_decode(w) == PIOInstruction::MOV {
        delay_sideset: d,
        destination: MovDestination::spec_from_bits(hi as u8),
        op: MovOp::spec_from_bits((lo / 8) as u8),
        source: MovSource::spec_from_bits((lo % 8) as u8),
    });
}

proof fn lemma_decode_encode_irq(d: u8, c: bool, t: bool, x: u8)
    requires
        d < 32,
        x < 32,
    ensures
        ({
            let i = PIOInstruction::IRQ { delay_sideset: d, clear: c, wait: t, index: x };
            spec_decode(i.spec_encode()) == i
        }),
{
    let i = PIOInstruction::IRQ { delay_sideset: d, clear: c, wait: t, index: x };
    let (hi, lo) = ((flag_bit(c) * 2 + flag_bit(t)) as u32, x as u32);
    lemma_decode_packed(6, d as u32, hi, lo);
    let w = pack(6, d as u32, hi, lo);
    assert(i.spec_encode() == w);
    assert(((hi / 2) % 2 == 1) == c && (hi % 2 == 1) == t);
    assert(spec_decode(w) == PIOInstruction::IRQ {
        delay_sideset: d,
        clear: c,
        wait: t,
        index: lo as u8,
    });
}

proof fn lemma_decode_encode_set(d: u8, t: SetDestination, x: u8)
    requires
        d < 32,
        x < 32,
    ensures
        ({
            let i = PIOInstruction::SET { delay_sideset: d, destination: t, data: x };
            spec_decode(i.spec_encode()) == i
        }),
{
    let i = PIOInstruction::SET { delay_sideset: d, destination: t, data: x };
    t.lemma_bits(0);
    let (hi, lo) = (t.spec_bits() as u32, x as u32);
    lemma_decode_packed(7, d as u32, hi, lo);
    let w = pack(7, d as u32, hi, lo);
    assert(i.spec_encode() == w);
    assert(spec_decode(w) == PIOInstruction::SET {
        delay_sideset: d,
        destination: SetDestination::spec_from_bits(hi as u8),
        data: lo as u8,
    });
}

/// Encoding an instruction whose fields fit and decoding the word gives the
/// instruction back.
pub proof fn lemma_decode_encode(i: PIOInstruction)
    requires
        i.fields_in_range(),
    ensures
        spec_decode(i.spec_encode()) == i,
{
    match i {
        PIOInstruction::JMP { delay_sideset: d, condition: c, address: a } => {
            lemma_decode_encode_jmp(d, c, a);
        },
        PIOInstruction::WAIT { delay_sideset: d, polarity: p, source: s, index: x } => {
            lemma_decode_encode_wait(d, p, s, x);
        },
        PIOInstruction::IN { delay_sideset: d, source: s, bit_count: n } => {
            lemma_decode_encode_in(d, s, n);
        },
        PIOInstruction::OUT { delay_sideset: d, destination: t, bit_count: n } => {
            lemma_decode_encode_out(d, t, n);
        },
        PIOInstruction::PUSH { delay_sideset: d, if_full: f, block: b } => {
            lemma_decode_encode_push(d, f, b);
        },
        PIOInstruction::PULL { delay_sideset: d, if_empty: f, block: b } => {
            lemma_decode_encode_pull(d, f, b);
        },
        PIOInstruction::MOV { delay_sideset: d, destination: t, op: o, source: s } => {
            lemma_decode_encode_mov(d, t, o, s);
        },
        PIOInstruction::IRQ { delay_sideset: d, clear: c, wait: t, index: x } => {
            lemma_decode_encode_irq(d, c, t, x);
        },
        PIOInstruction::SET { delay_sideset: d, destination: t, data: x } => {
            lemma_decode_encode_set(d, t, x);
        },
    }
}

/// Re-encoding a decoded word reproduces the bits that its class keeps: all 16
/// bits for JMP, WAIT, IN, OUT, MOV and SET, whatever their field values.
#[verifier::spinoff_prover]
pub proof fn lemma_encode_decode(w: u32)
    ensures
        spec_decode(w).spec_encode() == w & significant_bits(opcode_of(w)),
{
    lemma_word_fields(w);
    let op = opcode_of(w);
    let d = (w >> 8u32) & 0x1fu32;
    let hi = (w >> 5u32) & 7u32;
    let lo = w & 0x1fu32;
    let pol = (w >> 7u32) & 1u32;
    let src = (w >> 5u32) & 3u32;
    let f6 = (w >> 6u32) & 1u32;
    let f5 = (w >> 5u32) & 1u32;
    let mop = (w >> 3u32) & 3u32;
    let msrc = w & 7u32;
    assert(delay_of(w) as u32 == d);
    assert((delay_of(w) % 32) as u32 == d);
    if op == 0 {
        JmpCondition::Always.lemma_bits(hi as u8);
        assert(spec_decode(w).spec_encode() == pack(0, d, hi, lo));
    } else if op == 1 {
        WaitPolarity::Zero.lemma_bits(pol as u8);
        WaitSource::GPIO.lemma_bits(src as u8);
        assert(spec_decode(w).spec_encode() == pack(1, d, (pol * 4 + src) as u32, lo));
    } else if op == 2 {
        InSource::PINS.lemma_bits(hi as u8);
        assert(spec_decode(w).spec_encode() == pack(2, d, hi, lo));
    } else if op == 3 {
        OutDestination::PINS.lemma_bits(hi as u8);
        assert(spec_decode(w).spec_encode() == pack(3, d, hi, lo));
    } else if op == 4 {
        assert(spec_decode(w).spec_encode() == pack(4, d, (pol * 4 + f6 * 2 + f5) as u32, 0));
    } else if op == 5 {
        MovDestination::PINS.lemma_bits(hi as u8);
        MovOp::NoOp.lemma_bits(mop as u8);
        MovSource::PINS.lemma_bits(msrc as u8);
        assert(spec_decode(w).spec_encode() == pack(5, d, hi, (mop * 8 + msrc) as u32));
    } else if op == 6 {
        assert(spec_decode(w).spec_encode() == pack(6, d, (f6 * 2 + f5) as u32, lo));
    } else {
        SetDestination::PINS.lemma_bits(hi as u8);
        assert(spec_decode(w).spec_encode() == pack(7, d, hi, lo));
    }
}

impl PIOInstruction {
    /// Decodes the instruction in bits [15:0] of `instr_data`. Every word decodes.
    pub fn decode(instr_data: u32) -> (r: Result<Self, PioError>)
        ensures
            r == Ok::<PIOInstruction, PioError>(spec_decode(instr_data)),
    {
        proof {
            lemma_word_fields(instr_data);
        }
        let op_code = (instr_data >> 13) & 7;
        let delay_sideset = ((instr_data >> 8) & 0x1f) as u8;
        match op_code {
            0 => {
                let address = (instr_data & 0x1f) as u8;
                let condition = match JmpCondition::try_from(((instr_data >> 5) & 7) as u8) {
                    Ok(c) => c,
                    Err(e) => return Err(e),
                };
                Ok(PIOInstruction::JMP { delay_sideset, condition, address })
            },
            1 => {
                let polarity = match WaitPolarity::try_from(((instr_data >> 7) & 1) as u8) {
                    Ok(p) => p,
                    Err(e) => return Err(e),
                };
                let source = match WaitSource::try_from(((instr_data >> 5) & 3) as u8) {
                    Ok(s) => s,
                    Err(e) => return Err(e),
                };
                let index = (instr_data & 0x1f) as u8;
                Ok(PIOInstruction::WAIT { delay_sideset, polarity, source, index })
            },
            2 => {
                let source = match InSource::try_from(((instr_data >> 5) & 7) as u8) {
                    Ok(s) => s,
                    Err(e) => return Err(e),
                };
                let bit_count = (instr_data & 0x1f) as u8;
                Ok(PIOInstruction::IN { delay_sideset, source, bit_count })
            },
            3 => {
                let destination = match OutDestination::try_from(((instr_data >> 5) & 7) as u8) {
                    Ok(d) => d,
                    Err(e) => return Err(e),
                };
                let bit_count = (instr_data & 0x1f) as u8;
                Ok(PIOInstruction::OUT { delay_sideset, destination, bit_count })
            },
            4 => {
                if (instr_data >> 7) & 1 == 1 {
                    let if_empty = (instr_data >> 6) & 1 == 1;
                    let block = (instr_data >> 5) & 1 == 1;
                    Ok(PIOInstruction::PULL { delay_sideset, if_empty, block })
                } else {
                    let if_full = (instr_data >> 6) & 1 == 1;
                    let block = (instr_data >> 5) & 1 == 1;
                    Ok(PIOInstruction::PUSH { delay_sideset, if_full, block })
                }
            },
            5 => {
                let destination = match MovDestination::try_from(((instr_data >> 5) & 7) as u8) {
                    Ok(d) => d,
                    Err(e) => return Err(e),
                };
                let op = match MovOp::try_from(((instr_data >> 3) & 3) as u8) {
                    Ok(o) => o,
                    Err(e) => return Err(e),
                };
                let source = match MovSource::try_from((instr_data & 7) as u8) {
                    Ok(s) => s,
                    Err(e) => return Err(e),
                };
                Ok(PIOInstruction::MOV { delay_sideset, destination, op, source })
            },
            6 => {
                let clear = (instr_data >> 6) & 1 == 1;
                let wait = (instr_data >> 5) & 1 == 1;
                let index = (instr_data & 0x1f) as u8;
                Ok(PIOInstruction::IRQ { delay_sideset, clear, wait, index })
            },
            7 => {
                let destination = match SetDestination::try_from(((instr_data >> 5) & 7) as u8) {
                    Ok(d) => d,
                    Err(e) => return Err(e),
                };
                let data = (instr_data & 0x1f) as u8;
                Ok(PIOInstruction::SET { delay_sideset, destination, data })
            },
            _ => Err(PioError::InvalidOpcode),
        }
    }

    /// The 16-bit word of the instruction; numeric fields are truncated to five bits.
    pub fn encode(&self) -> (r: u32)
        ensures
            r == self.spec_encode(),
            r < 0x10000,
    {
        let (op, d, hi, lo): (u32, u8, u32, u32) = match *self {
            PIOInstruction::JMP { delay_sideset, condition, address } => (
                0,
                delay_sideset,
                condition.bits() as u32,
                (address % 32) as u32,
            ),
            PIOInstruction::WAIT { delay_sideset, polarity, source, index } => (
                1,
                delay_sideset,
                (polarity.bits() * 4 + source.bits()) as u32,
                (index % 32) as u32,
            ),
            PIOInstruction::IN { delay_sideset, source, bit_count } => (
                2,
                delay_sideset,
                source.bits() as u32,
                (bit_count % 32) as u32,
            ),
            PIOInstruction::OUT { delay_sideset, destination, bit_count } => (
                3,
                delay_sideset,
                destination.bits() as u32,
                (bit_count % 32) as u32,
            ),
            PIOInstruction::PUSH { delay_sideset, if_full, block } => (
                4,
                delay_sideset,
                (if if_full { 2u32 } else { 0u32 }) + (if block { 1u32 } else { 0u32 }),
                0,
            ),
            PIOInstruction::PULL { delay_sideset, if_empty, block } => (
                4,
                delay_sideset,
                4 + (if if_empty { 2u32 } else { 0u32 }) + (if block { 1u32 } else { 0u32 }),
                0,
            ),
            PIOInstruction::MOV { delay_sideset, destination, op, source } => (
                5,
                delay_sideset,
                destination.bits() as u32,
                (op.bits() * 8 + source.bits()) as u32,
            ),
            PIOInstruction::IRQ { delay_sideset, clear, wait, index } => (
                6,
                delay_sideset,
                (if clear { 2u32 } else { 0u32 }) + (if wait { 1u32 } else { 0u32 }),
                (index % 32) as u32,
            ),
            PIOInstruction::SET { delay_sideset, destination, data } => (
                7,
                delay_sideset,
                destination.bits() as u32,
                (data % 32) as u32,
            ),
        };
        op * 8192 + (d % 32) as u32 * 256 + hi * 32 + lo
    }
}

} // verus!
