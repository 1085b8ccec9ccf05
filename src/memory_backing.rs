use vstd::prelude::*;
use crate::error::PioError;
use tock_registers::fields::Field;

verus! {

/// Number of 32-bit words in the register bank (byte offsets 0x000 to 0x140).
pub const NUM_REGISTERS: usize = 81;

// Word indices (byte offset / 4) of the registers.
pub const CTRL: usize = 0;
pub const FSTAT: usize = 1;
pub const FDEBUG: usize = 2;
pub const FLEVEL: usize = 3;
pub const TXF0: usize = 4;
pub const RXF0: usize = 8;
pub const IRQ: usize = 12;
pub const IRQ_FORCE: usize = 13;
pub const INPUT_SYNC_BYPASS: usize = 14;
pub const DBG_PADOUT: usize = 15;
pub const DBG_PADOE: usize = 16;
pub const DBG_CFGINFO: usize = 17;
pub const INSTR_MEM0: usize = 18;
pub const SM0_CLKDIV: usize = 50;
pub const INTR: usize = 74;
pub const IRQ0_INTE: usize = 75;
pub const IRQ0_INTF: usize = 76;
pub const IRQ0_INTS: usize = 77;
pub const IRQ1_INTE: usize = 78;
pub const IRQ1_INTF: usize = 79;
pub const IRQ1_INTS: usize = 80;

/// Number of words in instruction memory.
pub const INSTR_MEM_WORDS: usize = 32;
/// Number of lanes, each with its own register group.
pub const NUM_LANES: usize = 4;
/// Number of words in one lane's register group.
pub const LANE_GROUP_WORDS: usize = 6;

// Word indices within a lane's register group.
pub const SM_CLKDIV: usize = 0;
pub const SM_EXECCTRL: usize = 1;
pub const SM_SHIFTCTRL: usize = 2;
pub const SM_ADDR: usize = 3;
pub const SM_INSTR: usize = 4;
pub const SM_PINCTRL: usize = 5;

/// The value of the field of `word` that `mask` (unshifted) covers from bit `shift` up.
pub open spec fn field_value(word: u32, shift: u32, mask: u32) -> u32 {
    (word & (mask << shift)) >> shift
}

/// `word` with the field at `shift`, `mask` replaced by `value` truncated to the field.
pub open spec fn field_insert(word: u32, shift: u32, mask: u32, value: u32) -> u32 {
    (word & !(mask << shift)) | ((value & mask) << shift)
}

/// Relies on tock_registers::fields::Field::read: `(val & (mask << shift)) >> shift`.
#[verifier::external_body]
fn field_read(word: u32, shift: u32, mask: u32) -> (r: u32)
    requires
        shift < 32,
    ensures
        r == field_value(word, shift, mask),
{
    Field::<u32, ()>::new(mask, shift as usize).read(word)
}

/// Relies on tock_registers::fields::Field::val and FieldValue::modify:
/// `(val & !(mask << shift)) | ((value & mask) << shift)`.
#[verifier::external_body]
fn field_modify(word: u32, shift: u32, mask: u32, value: u32) -> (r: u32)
    requires
        shift < 32,
    ensures
        r == field_insert(word, shift, mask, value),
{
    Field::<u32, ()>::new(mask, shift as usize).val(value).modify(word)
}

/// A field is never wider than its mask.
pub proof fn lemma_field_value_le_mask(word: u32, shift: u32, mask: u32)
    requires
        shift < 32,
    ensures
        field_value(word, shift, mask) <= mask,
{
    assert((word & (mask << shift)) >> shift <= mask) by (bit_vector)
        requires
            shift < 32,
    ;
}

/// The configuration fields of a lane's register group that the engine reads.
#[derive(Clone, Copy, Debug, PartialEq, Eq, Structural)]
pub enum LaneField {
    ClkdivInt,
    JmpPin,
    WrapTop,
    PullThresh,
    PushThresh,
    OutShiftdir,
    InShiftdir,
    SidesetCount,
    SetCount,
    InBase,
    SetBase,
}

impl LaneField {
    /// Register within the lane group, bit offset and unshifted mask.
    pub open spec fn spec_layout(self) -> (usize, u32, u32) {
        match self {
            LaneField::ClkdivInt => (SM_CLKDIV, 16, 0xffff),
            LaneField::JmpPin => (SM_EXECCTRL, 24, 0x1f),
            LaneField::WrapTop => (SM_EXECCTRL, 12, 0x1f),
            LaneField::PullThresh => (SM_SHIFTCTRL, 25, 0x1f),
            LaneField::PushThresh => (SM_SHIFTCTRL, 20, 0x1f),
            LaneField::OutShiftdir => (SM_SHIFTCTRL, 19, 0x1),
            LaneField::InShiftdir => (SM_SHIFTCTRL, 18, 0x1),
            LaneField::SidesetCount => (SM_PINCTRL, 29, 0x7),
            LaneField::SetCount => (SM_PINCTRL, 26, 0x7),
            LaneField::InBase => (SM_PINCTRL, 15, 0x1f),
            LaneField::SetBase => (SM_PINCTRL, 5, 0x1f),
        }
    }

    /// Register within the lane group, bit offset and unshifted mask.
    pub fn layout(self) -> (r: (usize, u32, u32))
        ensures
            r == self.spec_layout(),
            r.0 < LANE_GROUP_WORDS,
            r.1 < 32,
    {
        match self {
            LaneField::ClkdivInt => (SM_CLKDIV, 16, 0xffff),
            LaneField::JmpPin => (SM_EXECCTRL, 24, 0x1f),
            LaneField::WrapTop => (SM_EXECCTRL, 12, 0x1f),
            LaneField::PullThresh => (SM_SHIFTCTRL, 25, 0x1f),
            LaneField::PushThresh => (SM_SHIFTCTRL, 20, 0x1f),
            LaneField::OutShiftdir => (SM_SHIFTCTRL, 19, 0x1),
            LaneField::InShiftdir => (SM_SHIFTCTRL, 18, 0x1),
            LaneField::SidesetCount => (SM_PINCTRL, 29, 0x7),
            LaneField::SetCount => (SM_PINCTRL, 26, 0x7),
            LaneField::InBase => (SM_PINCTRL, 15, 0x1f),
            LaneField::SetBase => (SM_PINCTRL, 5, 0x1f),
        }
    }
}

/// Word index of register `reg` of lane `lane`'s group.
pub open spec fn lane_word(lane: int, reg: int) -> int {
    SM0_CLKDIV + LANE_GROUP_WORDS * lane + reg
}

/// The value of field `f` of lane `lane` in the register words `regs`.
pub open spec fn lane_field_value(regs: Seq<u32>, lane: int, f: LaneField) -> u32 {
    let (reg, shift, mask) = f.spec_layout();
    field_value(regs[lane_word(lane, reg as int)], shift, mask)
}

/// The register words at power-on: both FIFOs of every lane empty, and in every
/// lane group CLKDIV.INT = 1, EXECCTRL.WRAP_TOP = 0x1f, SHIFTCTRL.IN_SHIFTDIR =
/// SHIFTCTRL.OUT_SHIFTDIR = 1 and PINCTRL.SET_COUNT = 5; every other word is 0.
pub open spec fn power_on_registers() -> Seq<u32> {
    Seq::new(
        NUM_REGISTERS as nat,
        |i: int|
            if i == FSTAT {
                0x0f00_0f00u32
            } else if SM0_CLKDIV <= i < INTR {
                let k = (i - SM0_CLKDIV) % (LANE_GROUP_WORDS as int);
                if k == SM_CLKDIV {
                    0x0001_0000u32
                } else if k == SM_EXECCTRL {
                    0x0001_f000u32
                } else if k == SM_SHIFTCTRL {
                    0x000c_0000u32
                } else if k == SM_PINCTRL {
                    0x1400_0000u32
                } else {
                    0u32
                }
            } else {
                0u32
            },
    )
}

/// The register bank: 81 words at byte offsets 0x000 to 0x140, among them the
/// 32 words of instruction memory that all lanes share.
#[derive(Debug)]
pub struct PIOMemoryBacking {
    regs: [u32; 81],
}

impl View for PIOMemoryBacking {
    type V = Seq<u32>;

    closed spec fn view(&self) -> Seq<u32> {
        self.regs@
    }
}

impl PIOMemoryBacking {
    /// The bank holds exactly its 81 words.
    pub open spec fn wf(&self) -> bool {
        self@.len() == NUM_REGISTERS
    }

    /// The register bank at power-on.
    pub fn new() -> (r: Self)
        ensures
            r.wf(),
            r@ == power_on_registers(),
    {
        let mut regs = [0u32; 81];
        let fstat = field_modify(field_modify(0, 24, 0xf, 0xf), 8, 0xf, 0xf);
        let clkdiv = field_modify(0, 16, 0xffff, 1);
        let execctrl = field_modify(0, 12, 0x1f, 0x1f);
        let shiftctrl = field_modify(field_modify(0, 18, 0x1, 1), 19, 0x1, 1);
        let pinctrl = field_modify(0, 26, 0x7, 5);
        proof {
            let f0 = field_insert(0, 24, 0xf, 0xf);
            assert(field_insert(f0, 8, 0xf, 0xf) == 0x0f00_0f00u32) by (bit_vector)
                requires
                    f0 == field_insert(0, 24, 0xf, 0xf),
            ;
            assert(field_insert(0, 16, 0xffff, 1) == 0x0001_0000u32) by (bit_vector);
            assert(field_insert(0, 12, 0x1f, 0x1f) == 0x0001_f000u32) by (bit_vector);
            let s0 = field_insert(0, 18, 0x1, 1);
            assert(field_insert(s0, 19, 0x1, 1) == 0x000c_0000u32) by (bit_vector)
                requires
                    s0 == field_insert(0, 18, 0x1, 1),
            ;
            assert(field_insert(0, 26, 0x7, 5) == 0x1400_0000u32) by (bit_vector);
        }
        regs[FSTAT] = fstat;
        let mut lane: usize = 0;
        while lane < NUM_LANES
            invariant
                lane <= NUM_LANES,
                regs@.len() == NUM_REGISTERS,
                clkdiv == 0x0001_0000u32,
                execctrl == 0x0001_f000u32,
                shiftctrl == 0x000c_0000u32,
                pinctrl == 0x1400_0000u32,
                forall|i: int|
                    0 <= i < NUM_REGISTERS && !(SM0_CLKDIV <= i < INTR) ==> #[trigger] regs@[i]
                        == power_on_registers()[i],
                forall|i: int|
                    SM0_CLKDIV + LANE_GROUP_WORDS * lane <= i < INTR ==> #[trigger] regs@[i] == 0,
                forall|i: int|
                    SM0_CLKDIV <= i < SM0_CLKDIV + LANE_GROUP_WORDS * lane ==> #[trigger] regs@[i]
                        == power_on_registers()[i],
            decreases NUM_LANES - lane,
        {
            let base = SM0_CLKDIV + LANE_GROUP_WORDS * lane;
            regs[base + SM_CLKDIV] = clkdiv;
            regs[base + SM_EXECCTRL] = execctrl;
            regs[base + SM_SHIFTCTRL] = shiftctrl;
            regs[base + SM_PINCTRL] = pinctrl;
            assert forall|i: int|
                base <= i < base + LANE_GROUP_WORDS implies #[trigger] regs@[i]
                == power_on_registers()[i] by {
                assert((i - SM0_CLKDIV) % 6 == i - base);
            }
            lane = lane + 1;
        }
        let r = PIOMemoryBacking { regs };
        assert(r@ =~= power_on_registers());
        r
    }
    /// The instruction word at program counter `pc`; fails unless `pc` is in [0, 31].
    pub fn get_pc_data(&self, pc: u32) -> (r: Result<u32, PioError>)
        requires
            self.wf(),
        ensures
            pc < INSTR_MEM_WORDS ==> r == Ok::<u32, PioError>(self@[INSTR_MEM0 + pc]),
            pc >= INSTR_MEM_WORDS ==> r == Err::<u32, PioError>(PioError::InvalidProgramCounter),
    {
        if pc >= INSTR_MEM_WORDS as u32 {
            return Err(PioError::InvalidProgramCounter);
        }
        Ok(self.regs[INSTR_MEM0 + pc as usize])
    }

    /// Stores `data` (zero-extended) as instruction word `index`; fails unless
    /// `index` is in [0, 31], and then changes nothing.
    pub fn set_instruction_data(&mut self, index: u8, data: u16) -> (r: Result<(), PioError>)
        requires
            old(self).wf(),
        ensures
            final(self).wf(),
            index < INSTR_MEM_WORDS ==> r == Ok::<(), PioError>(()) && final(self)@ == old(
                self,
            )@.update(INSTR_MEM0 + index, data as u32),
            index >= INSTR_MEM_WORDS ==> r == Err::<(), PioError>(PioError::OutOfRange)
                && final(self)@ == old(self)@,
    {
        if index as usize >= INSTR_MEM_WORDS {
            return Err(PioError::OutOfRange);
        }
        self.regs[INSTR_MEM0 + index as usize] = data as u32;
        Ok(())
    }

    /// The register at byte offset `offset`; fails unless the offset is
    /// word-aligned and inside the bank.
    pub fn read_register(&self, offset: u32) -> (r: Result<u32, PioError>)
        requires
            self.wf(),
        ensures
            offset % 4 == 0 && offset < 4 * NUM_REGISTERS ==> r == Ok::<u32, PioError>(
                self@[(offset / 4) as int],
            ),
            !(offset % 4 == 0 && offset < 4 * NUM_REGISTERS) ==> r == Err::<u32, PioError>(
                PioError::OutOfRange,
            ),
    {
        if offset % 4 != 0 || offset >= 4 * NUM_REGISTERS as u32 {
            return Err(PioError::OutOfRange);
        }
        Ok(self.regs[(offset / 4) as usize])
    }

    /// Writes the register at byte offset `offset`; fails unless the offset is
    /// word-aligned and inside the bank, and then changes nothing.
    pub fn write_register(&mut self, offset: u32, value: u32) -> (r: Result<(), PioError>)
        requires
            old(self).wf(),
        ensures
            final(self).wf(),
            offset % 4 == 0 && offset < 4 * NUM_REGISTERS ==> r == Ok::<(), PioError>(())
                && final(self)@ == old(self)@.update((offset / 4) as int, value),
            !(offset % 4 == 0 && offset < 4 * NUM_REGISTERS) ==> r == Err::<(), PioError>(
                PioError::OutOfRange,
            ) && final(self)@ == old(self)@,
    {
        if offset % 4 != 0 || offset >= 4 * NUM_REGISTERS as u32 {
            return Err(PioError::OutOfRange);
        }
        self.regs[(offset / 4) as usize] = value;
        Ok(())
    }

    /// Field `f` of lane `lane`'s register group; fails unless `lane` is in [0, 3].
    pub fn lane_field(&self, lane: u32, f: LaneField) -> (r: Result<u32, PioError>)
        requires
            self.wf(),
        ensures
            lane < NUM_LANES ==> r == Ok::<u32, PioError>(lane_field_value(self@, lane as int, f)),
            lane >= NUM_LANES ==> r == Err::<u32, PioError>(PioError::InvalidLaneIndex),
            r matches Ok(v) ==> v <= f.spec_layout().2,
    {
        if lane as usize >= NUM_LANES {
            return Err(PioError::InvalidLaneIndex);
        }
        let (reg, shift, mask) = f.layout();
        let word = self.regs[SM0_CLKDIV + LANE_GROUP_WORDS * lane as usize + reg];
        proof {
            lemma_field_value_le_mask(word, shift, mask);
        }
        Ok(field_read(word, shift, mask))
    }

    /// Replaces field `f` of lane `lane`'s register group by `value` truncated to
    /// the field's width; fails unless `lane` is in [0, 3], and then changes nothing.
    pub fn set_lane_field(&mut self, lane: u32, f: LaneField, value: u32) -> (r: Result<
        (),
        PioError,
    >)
        requires
            old(self).wf(),
        ensures
            final(self).wf(),
            lane < NUM_LANES ==> r == Ok::<(), PioError>(()) && final(self)@ == old(self)@.update(
                lane_word(lane as int, f.spec_layout().0 as int),
                field_insert(
                    old(self)@[lane_word(lane as int, f.spec_layout().0 as int)],
                    f.spec_layout().1,
                    f.spec_layout().2,
                    value,
                ),
            ),
            lane >= NUM_LANES ==> r == Err::<(), PioError>(PioError::InvalidLaneIndex)
                && final(self)@ == old(self)@,
    {
        if lane as usize >= NUM_LANES {
            return Err(PioError::InvalidLaneIndex);
        }
        let (reg, shift, mask) = f.layout();
        let w = SM0_CLKDIV + LANE_GROUP_WORDS * lane as usize + reg;
        self.regs[w] = field_modify(self.regs[w], shift, mask, value);
        Ok(())
    }
}

impl Default for PIOMemoryBacking {
    fn default() -> (r: Self)
        ensures
            r.wf(),
            r@ == power_on_registers(),
    {
        Self::new()
    }
}

} // verus!
