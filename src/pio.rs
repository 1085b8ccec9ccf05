use vstd::prelude::*;
use crate::error::PioError;
use crate::gpio::{write_range, GpioView, GPIO};
use crate::instructions::{
    spec_decode, JmpCondition, PIOInstruction, SetDestination, WaitPolarity, WaitSource,
};
use crate::memory_backing::{
    lane_field_value, power_on_registers, LaneField, PIOMemoryBacking, INSTR_MEM0, NUM_LANES,
};
use crate::state_machine::{lane_wf, wrapping_dec, LaneView, PIOStateMachine, FIFO_DEPTH};

verus! {

/// Number of interrupt flags shared by the lanes of an engine.
pub const NUM_IRQ_FLAGS: usize = 8;

/// The low `width` bits of `v`.
pub open spec fn low_bits(v: u32, width: u32) -> u32 {
    v & (((1u32 << width) - 1) as u32)
}

/// The lane with its program counter advanced by one, from 31 back to 0.
pub open spec fn advance(l: LaneView) -> LaneView {
    LaneView { pc: ((l.pc + 1) % 32) as u32, ..l }
}

/// Charging an instruction's delay: the new pending delay and the outcome.
/// With side-set count `c` in PINCTRL the delay field keeps its low `5 - c` bits;
/// any side-set count other than 0 is refused, after the delay is charged.
pub open spec fn delay_spec(regs: Seq<u32>, lane: int, delay: u32, delay_sideset: u8) -> (
    u32,
    Result<(), PioError>,
) {
    let count = lane_field_value(regs, lane, LaneField::SidesetCount);
    if count > 5 {
        (delay, Err(PioError::UnsupportedInstruction))
    } else {
        let width = (5 - count) as u32;
        let charged = if width != 0 {
            low_bits(delay_sideset as u32, width)
        } else {
            delay
        };
        if count != 0 {
            (charged, Err(PioError::UnsupportedInstruction))
        } else {
            (charged, Ok(()))
        }
    }
}

/// Whether a JMP with condition `cond` branches, and the lane after evaluating it
/// (the post-decrement conditions decrement their register whatever it held).
pub open spec fn jmp_condition_spec(
    l: LaneView,
    regs: Seq<u32>,
    lane: int,
    g: GpioView,
    cond: JmpCondition,
) -> (bool, LaneView) {
    match cond {
        JmpCondition::Always => (true, l),
        JmpCondition::ScratchXZero => (l.x == 0, l),
        JmpCondition::ScratchXNonZeroPostDecrement => (
            l.x != 0,
            LaneView { x: wrapping_dec(l.x), ..l },
        ),
        JmpCondition::ScratchYZero => (l.y == 0, l),
        JmpCondition::ScratchYNonZeroPostDecrement => (
            l.y != 0,
            LaneView { y: wrapping_dec(l.y), ..l },
        ),
        JmpCondition::ScratchXNotEqualScratchY => (l.x != l.y, l),
        JmpCondition::BranchOnInputPin => (
            g.values[lane_field_value(regs, lane, LaneField::JmpPin) as int] == 1,
            l,
        ),
        JmpCondition::OutputShiftRegisterNotEmpty => (
            l.osr_counter >= lane_field_value(regs, lane, LaneField::PullThresh),
            l,
        ),
    }
}

/// JMP after its delay is charged: to `address` when the condition holds, else
/// to the next instruction.
pub open spec fn jmp_spec(
    l: LaneView,
    regs: Seq<u32>,
    lane: int,
    g: GpioView,
    cond: JmpCondition,
    address: u8,
) -> (LaneView, Result<(), PioError>) {
    let (taken, l2) = jmp_condition_spec(l, regs, lane, g, cond);
    if !taken {
        (advance(l2), Ok(()))
    } else if address < 32 {
        (LaneView { pc: address as u32, ..l2 }, Ok(()))
    } else {
        (l2, Err(PioError::OutOfRange))
    }
}

/// WAIT after its delay is charged: the lane moves to the next instruction once
/// the polled bit equals the polarity, and otherwise stays on this WAIT, which
/// polls again at the next step.
pub open spec fn wait_spec(
    l: LaneView,
    regs: Seq<u32>,
    lane: int,
    irq_flags: Seq<u8>,
    g: GpioView,
    polarity: WaitPolarity,
    source: WaitSource,
    index: u8,
) -> (LaneView, Result<(), PioError>) {
    let level = polarity.spec_bits();
    match source {
        WaitSource::GPIO => (
            if g.values[index as int % 32] == level {
                advance(l)
            } else {
                l
            },
            Ok(()),
        ),
        WaitSource::Pin => {
            let pin = (index as int + lane_field_value(regs, lane, LaneField::InBase)) % 32;
            (
                if g.values[pin] == level {
                    advance(l)
                } else {
                    l
                },
                Ok(()),
            )
        },
        WaitSource::IRQ => if index >= NUM_IRQ_FLAGS {
            (l, Err(PioError::IndexOutOfRange))
        } else {
            (
                if irq_flags[index as int] == level {
                    advance(l)
                } else {
                    l
                },
                Ok(()),
            )
        },
        WaitSource::Reserved => (l, Err(PioError::UnsupportedInstruction)),
    }
}

/// PUSH after its delay is charged. With `if_full` and fewer bits shifted in
/// than the push threshold it only advances; with `block` and a full receive
/// FIFO it stalls on this instruction; on a full FIFO otherwise it fails;
/// else the ISR goes to the receive FIFO, the ISR is cleared and the lane advances.
pub open spec fn push_spec(
    l: LaneView,
    regs: Seq<u32>,
    lane: int,
    if_full: bool,
    block: bool,
) -> (LaneView, Result<(), PioError>) {
    if if_full && l.isr_counter < lane_field_value(regs, lane, LaneField::PushThresh) {
        (advance(l), Ok(()))
    } else if l.rx_fifo.len() >= FIFO_DEPTH {
        if block {
            (l, Ok(()))
        } else {
            (l, Err(PioError::FifoFull))
        }
    } else {
        (advance(LaneView { rx_fifo: l.rx_fifo.push(l.isr), isr: 0, ..l }), Ok(()))
    }
}

/// PULL after its delay is charged. With `if_empty` and fewer bits shifted out
/// than the pull threshold it only advances; with `block` and an empty transmit
/// FIFO it stalls on this instruction; else the OSR takes the oldest word of the
/// transmit FIFO, or scratch X when the FIFO is empty, and the lane advances.
pub open spec fn pull_spec(
    l: LaneView,
    regs: Seq<u32>,
    lane: int,
    if_empty: bool,
    block: bool,
) -> (LaneView, Result<(), PioError>) {
    if if_empty && l.osr_counter < lane_field_value(regs, lane, LaneField::PullThresh) {
        (advance(l), Ok(()))
    } else if l.tx_fifo.len() == 0 {
        if block {
            (l, Ok(()))
        } else {
            (advance(LaneView { osr: l.x, ..l }), Ok(()))
        }
    } else {
        (advance(LaneView { osr: l.tx_fifo[0], tx_fifo: l.tx_fifo.drop_first(), ..l }), Ok(()))
    }
}

/// SET after its delay is charged: `data` goes to SET_COUNT pins from SET_BASE
/// (values or output enables), or to scratch X or Y, and the lane advances;
/// a reserved destination fails.
pub open spec fn set_spec(
    l: LaneView,
    regs: Seq<u32>,
    lane: int,
    g: GpioView,
    destination: SetDestination,
    data: u8,
) -> (LaneView, GpioView, Result<(), PioError>) {
    let base = lane_field_value(regs, lane, LaneField::SetBase);
    let count = lane_field_value(regs, lane, LaneField::SetCount);
    match destination {
        SetDestination::PINS => (
            advance(l),
            GpioView { values: write_range(g.values, base, count, data), ..g },
            Ok(()),
        ),
        SetDestination::X => (advance(LaneView { x: data as u32, ..l }), g, Ok(())),
        SetDestination::Y => (advance(LaneView { y: data as u32, ..l }), g, Ok(())),
        SetDestination::PINDIRS => (
            advance(l),
            GpioView { enables: write_range(g.enables, base, count, data), ..g },
            Ok(()),
        ),
        _ => (l, g, Err(PioError::UnsupportedDestination)),
    }
}

/// Delay charge for the engine's active lane `lane`.
fn process_delay_sideset(
    regs: &PIOMemoryBacking,
    lane: u32,
    delay: &mut u32,
    delay_sideset: u8,
) -> (r: Result<(), PioError>)
    requires
        regs.wf(),
        lane < NUM_LANES,
    ensures
        (*final(delay), r) == delay_spec(regs@, lane as int, *old(delay), delay_sideset),
{
    let sideset_count = match regs.lane_field(lane, LaneField::SidesetCount) {
        Ok(v) => v,
        Err(e) => return Err(e),
    };
    if sideset_count > 5 {
        return Err(PioError::UnsupportedInstruction);
    }
    let width = 5 - sideset_count;
    if width != 0 {
        assert(1u32 << width >= 1) by (bit_vector)
            requires
                width <= 5,
        ;
        let mask: u32 = (1u32 << width) - 1;
        *delay = delay_sideset as u32 & mask;
    }
    if sideset_count != 0 {
        return Err(PioError::UnsupportedInstruction);
    }
    Ok(())
}

fn exec_jmp(
    sm: &mut PIOStateMachine,
    regs: &PIOMemoryBacking,
    lane: u32,
    gpio: &GPIO,
    condition: JmpCondition,
    address: u8,
) -> (r: Result<(), PioError>)
    requires
        old(sm).wf(),
        regs.wf(),
        gpio.wf(),
        lane < NUM_LANES,
    ensures
        (final(sm)@, r) == jmp_spec(old(sm)@, regs@, lane as int, gpio@, condition, address),
        final(sm).wf(),
{
    let taken = match condition {
        JmpCondition::Always => true,
        JmpCondition::ScratchXZero => sm.get_scratch_x() == 0,
        JmpCondition::ScratchXNonZeroPostDecrement => {
            let initial = sm.get_scratch_x();
            let _ = sm.decrement_x();
            initial != 0
        },
        JmpCondition::ScratchYZero => sm.get_scratch_y() == 0,
        JmpCondition::ScratchYNonZeroPostDecrement => {
            let initial = sm.get_scratch_y();
            let _ = sm.decrement_y();
            initial != 0
        },
        JmpCondition::ScratchXNotEqualScratchY => sm.get_scratch_x() != sm.get_scratch_y(),
        JmpCondition::BranchOnInputPin => {
            let pin = match regs.lane_field(lane, LaneField::JmpPin) {
                Ok(v) => v,
                Err(e) => return Err(e),
            };
            gpio.get_idx(pin as usize) == 1
        },
        JmpCondition::OutputShiftRegisterNotEmpty => {
            let bits_pulled = sm.get_osr_counter();
            let pull_threshold = match regs.lane_field(lane, LaneField::PullThresh) {
                Ok(v) => v,
                Err(e) => return Err(e),
            };
            bits_pulled >= pull_threshold
        },
    };
    if taken {
        sm.set_pc(address as u32)
    } else {
        sm.inc_pc()
    }
}

fn exec_wait(
    sm: &mut PIOStateMachine,
    regs: &PIOMemoryBacking,
    lane: u32,
    irq_flags: &[u8; 8],
    gpio: &GPIO,
    polarity: WaitPolarity,
    source: WaitSource,
    index: u8,
) -> (r: Result<(), PioError>)
    requires
        old(sm).wf(),
        regs.wf(),
        gpio.wf(),
        lane < NUM_LANES,
    ensures
        (final(sm)@, r) == wait_spec(
            old(sm)@,
            regs@,
            lane as int,
            irq_flags@,
            gpio@,
            polarity,
            source,
            index,
        ),
        final(sm).wf(),
{
    let level: u8 = match polarity {
        WaitPolarity::One => 1,
        WaitPolarity::Zero => 0,
    };
    let satisfied = match source {
        WaitSource::GPIO => gpio.get_idx(index as usize) == level,
        WaitSource::Pin => {
            let in_base = match regs.lane_field(lane, LaneField::InBase) {
                Ok(v) => v,
                Err(e) => return Err(e),
            };
            gpio.get_idx(((index as u32 + in_base) % 32) as usize) == level
        },
        WaitSource::IRQ => {
            if index as usize >= NUM_IRQ_FLAGS {
                return Err(PioError::IndexOutOfRange);
            }
            irq_flags[index as usize] == level
        },
        WaitSource::Reserved => {
            return Err(PioError::UnsupportedInstruction);
        },
    };
    if satisfied {
        sm.inc_pc()
    } else {
        Ok(())
    }
}

fn exec_push(
    sm: &mut PIOStateMachine,
    regs: &PIOMemoryBacking,
    lane: u32,
    if_full: bool,
    block: bool,
) -> (r: Result<(), PioError>)
    requires
        old(sm).wf(),
        regs.wf(),
        lane < NUM_LANES,
    ensures
        (final(sm)@, r) == push_spec(old(sm)@, regs@, lane as int, if_full, block),
        final(sm).wf(),
{
    if if_full {
        let bits_pushed = sm.get_isr_counter();
        let push_threshold = match regs.lane_field(lane, LaneField::PushThresh) {
            Ok(v) => v,
            Err(e) => return Err(e),
        };
        if bits_pushed < push_threshold {
            return sm.inc_pc();
        }
    }
    if block && sm.rx_fifo_full() {
        return Ok(());
    }
    let isr = sm.get_isr();
    match sm.push_to_rx_fifo(isr) {
        Ok(()) => {},
        Err(e) => return Err(e),
    }
    let _ = sm.clear_isr();
    sm.inc_pc()
}

fn exec_pull(
    sm: &mut PIOStateMachine,
    regs: &PIOMemoryBacking,
    lane: u32,
    if_empty: bool,
    block: bool,
) -> (r: Result<(), PioError>)
    requires
        old(sm).wf(),
        regs.wf(),
        lane < NUM_LANES,
    ensures
        (final(sm)@, r) == pull_spec(old(sm)@, regs@, lane as int, if_empty, block),
        final(sm).wf(),
{
    if if_empty {
        let bits_pulled = sm.get_osr_counter();
        let pull_threshold = match regs.lane_field(lane, LaneField::PullThresh) {
            Ok(v) => v,
            Err(e) => return Err(e),
        };
        if bits_pulled < pull_threshold {
            return sm.inc_pc();
        }
    }
    if block && sm.tx_fifo_empty() {
        return Ok(());
    }
    let osr = if sm.tx_fifo_empty() {
        sm.get_scratch_x()
    } else {
        match sm.pop_from_tx_fifo() {
            Ok(v) => v,
            Err(e) => return Err(e),
        }
    };
    let _ = sm.set_osr(osr);
    sm.inc_pc()
}

fn exec_set(
    sm: &mut PIOStateMachine,
    regs: &PIOMemoryBacking,
    lane: u32,
    gpio: &mut GPIO,
    destination: SetDestination,
    data: u8,
) -> (r: Result<(), PioError>)
    requires
        old(sm).wf(),
        regs.wf(),
        old(gpio).wf(),
        lane < NUM_LANES,
    ensures
        (final(sm)@, final(gpio)@, r) == set_spec(
            old(sm)@,
            regs@,
            lane as int,
            old(gpio)@,
            destination,
            data,
        ),
        final(sm).wf(),
        final(gpio).wf(),
{
    match destination {
        SetDestination::PINS => {
            let set_count = match regs.lane_field(lane, LaneField::SetCount) {
                Ok(v) => v,
                Err(e) => return Err(e),
            };
            let set_base = match regs.lane_field(lane, LaneField::SetBase) {
                Ok(v) => v,
                Err(e) => return Err(e),
            };
            match gpio.set_idx_continuous(set_base, set_count, data) {
                Ok(()) => {},
                Err(e) => return Err(e),
            }
        },
        SetDestination::X => {
            let _ = sm.set_scratch_x(data as u32);
        },
        SetDestination::Y => {
            let _ = sm.set_scratch_y(data as u32);
        },
        SetDestination::PINDIRS => {
            let set_count = match regs.lane_field(lane, LaneField::SetCount) {
                Ok(v) => v,
                Err(e) => return Err(e),
            };
            let set_base = match regs.lane_field(lane, LaneField::SetBase) {
                Ok(v) => v,
                Err(e) => return Err(e),
            };
            match gpio.set_idx_enable_continuous(set_base, set_count, data) {
                Ok(()) => {},
                Err(e) => return Err(e),
            }
        },
        _ => {
            return Err(PioError::UnsupportedDestination);
        },
    }
    sm.inc_pc()
}

/// Executing `instr` on active lane `lane`: the lane, the pending delay, the pins
/// and the outcome afterwards. Every instruction first charges its delay, and a
/// failed charge ends it there; IN, OUT, MOV and IRQ are not executed.
pub open spec fn execute_spec(
    l: LaneView,
    regs: Seq<u32>,
    lane: int,
    irq_flags: Seq<u8>,
    delay: u32,
    g: GpioView,
    instr: PIOInstruction,
) -> (LaneView, u32, GpioView, Result<(), PioError>) {
    let (charged, dr) = delay_spec(regs, lane, delay, instr.spec_delay_sideset());
    if dr is Err {
        (l, charged, g, dr)
    } else {
        match instr {
            PIOInstruction::JMP { condition, address, .. } => {
                let (l2, r) = jmp_spec(l, regs, lane, g, condition, address);
                (l2, charged, g, r)
            },
            PIOInstruction::WAIT { polarity, source, index, .. } => {
                let (l2, r) = wait_spec(l, regs, lane, irq_flags, g, polarity, source, index);
                (l2, charged, g, r)
            },
            PIOInstruction::PUSH { if_full, block, .. } => {
                let (l2, r) = push_spec(l, regs, lane, if_full, block);
                (l2, charged, g, r)
            },
            PIOInstruction::PULL { if_empty, block, .. } => {
                let (l2, r) = pull_spec(l, regs, lane, if_empty, block);
                (l2, charged, g, r)
            },
            PIOInstruction::SET { destination, data, .. } => {
                let (l2, g2, r) = set_spec(l, regs, lane, g, destination, data);
                (l2, charged, g2, r)
            },
            _ => (l, charged, g, Err(PioError::UnsupportedInstruction)),
        }
    }
}

/// The state of an engine: its four lanes, its register bank, the interrupt
/// flags, the pending delay and the index of the lane it runs.
pub struct PioView {
    pub lanes: Seq<LaneView>,
    pub regs: Seq<u32>,
    pub irq_flags: Seq<u8>,
    pub delay_count: u32,
    pub sm_id: u32,
}

/// One step of the engine. A pending delay is consumed without fetching;
/// otherwise the active lane fetches the word at its program counter, decodes
/// it and executes it.
pub open spec fn step_spec(p: PioView, g: GpioView) -> (PioView, GpioView, Result<(), PioError>) {
    if p.delay_count != 0 {
        (PioView { delay_count: (p.delay_count - 1) as u32, ..p }, g, Ok(()))
    } else if p.sm_id >= NUM_LANES {
        (p, g, Err(PioError::InvalidLaneIndex))
    } else {
        let l = p.lanes[p.sm_id as int];
        if l.pc >= 32 {
            (p, g, Err(PioError::InvalidProgramCounter))
        } else {
            let instr = spec_decode(p.regs[INSTR_MEM0 + l.pc]);
            let (l2, charged, g2, r) = execute_spec(
                l,
                p.regs,
                p.sm_id as int,
                p.irq_flags,
                p.delay_count,
                g,
                instr,
            );
            let p2 = PioView {
                lanes: p.lanes.update(p.sm_id as int, l2),
                delay_count: charged,
                ..p
            };
            (p2, g2, r)
        }
    }
}

/// Up to `n` steps, stopping at the first that fails.
pub open spec fn run_spec(p: PioView, g: GpioView, n: nat) -> (PioView, GpioView, Result<
    (),
    PioError,
>)
    decreases n,
{
    if n == 0 {
        (p, g, Ok(()))
    } else {
        let (p1, g1, r) = step_spec(p, g);
        if r is Err {
            (p1, g1, r)
        } else {
            run_spec(p1, g1, (n - 1) as nat)
        }
    }
}

/// An engine whose active lane sits on `JMP` (always) to its own address, with
/// no delay pending, a zero delay field and no side-set configured, runs any
/// number of steps without error and without any change of state.
pub proof fn lemma_self_jump_runs_forever(p: PioView, g: GpioView, n: nat)
    requires
        p.sm_id < NUM_LANES,
        p.lanes.len() == NUM_LANES,
        lane_wf(p.lanes[p.sm_id as int]),
        p.delay_count == 0,
        lane_field_value(p.regs, p.sm_id as int, LaneField::SidesetCount) == 0,
        spec_decode(p.regs[INSTR_MEM0 + p.lanes[p.sm_id as int].pc]) == (PIOInstruction::JMP {
            delay_sideset: 0,
            condition: JmpCondition::Always,
            address: p.lanes[p.sm_id as int].pc as u8,
        }),
    ensures
        run_spec(p, g, n) == (p, g, Ok::<(), PioError>(())),
    decreases n,
{
    if n > 0 {
        assert(low_bits(0, 5) == 0) by (bit_vector);
        let l = p.lanes[p.sm_id as int];
        assert(p.lanes.update(p.sm_id as int, l) =~= p.lanes);
        assert(step_spec(p, g) == (p, g, Ok::<(), PioError>(())));
        lemma_self_jump_runs_forever(p, g, (n - 1) as nat);
    }
}

/// An engine for one lane of the peripheral: four lanes of state, the register
/// bank with the shared instruction memory, eight interrupt flags and the
/// pending delay. The pin array is handed to each step, so that engines for
/// different lanes can drive the same pins.
#[derive(Debug)]
pub struct PIO {
    sm0: PIOStateMachine,
    sm1: PIOStateMachine,
    sm2: PIOStateMachine,
    sm3: PIOStateMachine,
    mmio: PIOMemoryBacking,
    irq_flags: [u8; 8],
    delay_count: u32,
    sm_id: u32,
}

impl View for PIO {
    type V = PioView;

    closed spec fn view(&self) -> PioView {
        PioView {
            lanes: seq![self.sm0@, self.sm1@, self.sm2@, self.sm3@],
            regs: self.mmio@,
            irq_flags: self.irq_flags@,
            delay_count: self.delay_count,
            sm_id: self.sm_id,
        }
    }
}

impl PIO {
    /// Four well-formed lanes, a full register bank and eight flags.
    pub open spec fn wf(&self) -> bool {
        &&& self@.lanes.len() == NUM_LANES
        &&& forall|i: int| 0 <= i < NUM_LANES ==> lane_wf(#[trigger] self@.lanes[i])
        &&& self@.regs.len() == crate::memory_backing::NUM_REGISTERS
        &&& self@.irq_flags.len() == NUM_IRQ_FLAGS
    }

    closed spec fn parts_wf(&self) -> bool {
        &&& self.sm0.wf()
        &&& self.sm1.wf()
        &&& self.sm2.wf()
        &&& self.sm3.wf()
        &&& self.mmio.wf()
    }

    proof fn lemma_wf(&self)
        ensures
            self.wf() <==> self.parts_wf(),
    {
        if self.wf() {
            assert(lane_wf(self@.lanes[0]));
            assert(lane_wf(self@.lanes[1]));
            assert(lane_wf(self@.lanes[2]));
            assert(lane_wf(self@.lanes[3]));
        }
    }

    /// An engine that runs lane `state_machine_idx`, with every lane reset, the
    /// register bank at power-on, every flag clear and no pending delay. A lane
    /// index above 3 is accepted here and refused by each step.
    pub fn new(state_machine_idx: u32) -> (r: Self)
        ensures
            r.wf(),
            r@.lanes == Seq::new(
                4,
                |i: int|
                    LaneView {
                        pc: 0,
                        x: 0,
                        y: 0,
                        osr: 0,
                        isr: 0,
                        osr_counter: 0,
                        isr_counter: 0,
                        tx_fifo: Seq::empty(),
                        rx_fifo: Seq::empty(),
                    },
            ),
            r@.regs == power_on_registers(),
            r@.irq_flags == Seq::new(8, |i: int| 0u8),
            r@.delay_count == 0,
            r@.sm_id == state_machine_idx,
    {
        let r = PIO {
            sm0: PIOStateMachine::new(),
            sm1: PIOStateMachine::new(),
            sm2: PIOStateMachine::new(),
            sm3: PIOStateMachine::new(),
            mmio: PIOMemoryBacking::new(),
            irq_flags: [0u8; 8],
            delay_count: 0,
            sm_id: state_machine_idx,
        };
        proof {
            r.lemma_wf();
        }
        assert(r@.lanes =~= Seq::new(
            4,
            |i: int|
                LaneView {
                    pc: 0,
                    x: 0,
                    y: 0,
                    osr: 0,
                    isr: 0,
                    osr_counter: 0,
                    isr_counter: 0,
                    tx_fifo: Seq::empty(),
                    rx_fifo: Seq::empty(),
                },
        ));
        assert(r@.irq_flags =~= Seq::new(8, |i: int| 0u8));
        r
    }

    /// One step of the engine (see `step_spec`).
    pub fn step(&mut self, gpio: &mut GPIO) -> (r: Result<(), PioError>)
        requires
            old(self).wf(),
            old(gpio).wf(),
        ensures
            final(self).wf(),
            final(gpio).wf(),
            (final(self)@, final(gpio)@, r) == step_spec(old(self)@, old(gpio)@),
    {
        proof {
            self.lemma_wf();
        }
        if self.delay_count != 0 {
            self.delay_count = self.delay_count - 1;
            proof {
                self.lemma_wf();
            }
            return Ok(());
        }
        let r = match self.sm_id {
            0 => fetch_and_execute(
                &mut self.sm0,
                &self.mmio,
                0,
                &self.irq_flags,
                &mut self.delay_count,
                gpio,
            ),
            1 => fetch_and_execute(
                &mut self.sm1,
                &self.mmio,
                1,
                &self.irq_flags,
                &mut self.delay_count,
                gpio,
            ),
            2 => fetch_and_execute(
                &mut self.sm2,
                &self.mmio,
                2,
                &self.irq_flags,
                &mut self.delay_count,
                gpio,
            ),
            3 => fetch_and_execute(
                &mut self.sm3,
                &self.mmio,
                3,
                &self.irq_flags,
                &mut self.delay_count,
                gpio,
            ),
            _ => Err(PioError::InvalidLaneIndex),
        };
        proof {
            self.lemma_wf();
            if old(self)@.sm_id < NUM_LANES {
                assert(self@.lanes =~= old(self)@.lanes.update(
                    old(self)@.sm_id as int,
                    self@.lanes[old(self)@.sm_id as int],
                ));
            }
        }
        r
    }

    /// Runs `steps` steps, stopping at the first that fails and returning its error.
    pub fn step_n(&mut self, gpio: &mut GPIO, steps: usize) -> (r: Result<(), PioError>)
        requires
            old(self).wf(),
            old(gpio).wf(),
        ensures
            final(self).wf(),
            final(gpio).wf(),
            (final(self)@, final(gpio)@, r) == run_spec(old(self)@, old(gpio)@, steps as nat),
    {
        let mut i: usize = 0;
        while i < steps
            invariant
                i <= steps,
                self.wf(),
                gpio.wf(),
                run_spec(self@, gpio@, (steps - i) as nat) == run_spec(
                    old(self)@,
                    old(gpio)@,
                    steps as nat,
                ),
            decreases steps - i,
        {
            match self.step(gpio) {
                Ok(()) => {},
                Err(e) => return Err(e),
            }
            i = i + 1;
        }
        Ok(())
    }

    /// Stores `data` as instruction word `index` of the shared instruction memory;
    /// fails with `OutOfRange` unless `index` is in [0, 31], and then changes nothing.
    pub fn set_instruction_data(&mut self, index: u8, data: u16) -> (r: Result<(), PioError>)
        requires
            old(self).wf(),
        ensures
            final(self).wf(),
            index < 32 ==> r == Ok::<(), PioError>(()) && final(self)@ == (PioView {
                regs: old(self)@.regs.update(INSTR_MEM0 + index, data as u32),
                ..old(self)@
            }),
            index >= 32 ==> r == Err::<(), PioError>(PioError::OutOfRange) && final(self)@ == old(
                self,
            )@,
    {
        proof {
            self.lemma_wf();
        }
        let r = self.mmio.set_instruction_data(index, data);
        proof {
            self.lemma_wf();
        }
        r
    }

    /// The register at byte offset `offset` of the engine's register bank.
    pub fn read_register(&self, offset: u32) -> (r: Result<u32, PioError>)
        requires
            self.wf(),
        ensures
            offset % 4 == 0 && offset < 0x144 ==> r == Ok::<u32, PioError>(
                self@.regs[(offset / 4) as int],
            ),
            !(offset % 4 == 0 && offset < 0x144) ==> r == Err::<u32, PioError>(
                PioError::OutOfRange,
            ),
    {
        proof {
            self.lemma_wf();
        }
        self.mmio.read_register(offset)
    }

    /// Writes the register at byte offset `offset` of the engine's register bank;
    /// fails with `OutOfRange` unless the offset is word-aligned and below 0x144,
    /// and then changes nothing.
    pub fn write_register(&mut self, offset: u32, value: u32) -> (r: Result<(), PioError>)
        requires
            old(self).wf(),
        ensures
            final(self).wf(),
            offset % 4 == 0 && offset < 0x144 ==> r == Ok::<(), PioError>(()) && final(self)@ == (
            PioView { regs: old(self)@.regs.update((offset / 4) as int, value), ..old(self)@ }),
            !(offset % 4 == 0 && offset < 0x144) ==> r == Err::<(), PioError>(PioError::OutOfRange)
                && final(self)@ == old(self)@,
    {
        proof {
            self.lemma_wf();
        }
        let r = self.mmio.write_register(offset, value);
        proof {
            self.lemma_wf();
        }
        r
    }

    /// The state of the active lane; fails with `InvalidLaneIndex` when the
    /// engine's lane index is above 3.
    pub fn get_current_sm(&self) -> (r: Result<&PIOStateMachine, PioError>)
        ensures
            self@.sm_id < NUM_LANES ==> r is Ok && r->Ok_0@ == self@.lanes[self@.sm_id as int],
            self@.sm_id >= NUM_LANES ==> r == Err::<&PIOStateMachine, PioError>(
                PioError::InvalidLaneIndex,
            ),
    {
        match self.sm_id {
            0 => Ok(&self.sm0),
            1 => Ok(&self.sm1),
            2 => Ok(&self.sm2),
            3 => Ok(&self.sm3),
            _ => Err(PioError::InvalidLaneIndex),
        }
    }

    /// Replaces the state of the active lane by `sm`; fails with
    /// `InvalidLaneIndex` when the engine's lane index is above 3, and then
    /// changes nothing.
    pub fn set_current_sm(&mut self, sm: PIOStateMachine) -> (r: Result<(), PioError>)
        requires
            old(self).wf(),
            sm.wf(),
        ensures
            final(self).wf(),
            old(self)@.sm_id < NUM_LANES ==> r == Ok::<(), PioError>(()) && final(self)@ == (
            PioView { lanes: old(self)@.lanes.update(old(self)@.sm_id as int, sm@), ..old(self)@ }),
            old(self)@.sm_id >= NUM_LANES ==> r == Err::<(), PioError>(PioError::InvalidLaneIndex)
                && final(self)@ == old(self)@,
    {
        proof {
            self.lemma_wf();
        }
        match self.sm_id {
            0 => self.sm0 = sm,
            1 => self.sm1 = sm,
            2 => self.sm2 = sm,
            3 => self.sm3 = sm,
            _ => return Err(PioError::InvalidLaneIndex),
        }
        proof {
            self.lemma_wf();
            assert(self@.lanes =~= old(self)@.lanes.update(old(self)@.sm_id as int, sm@));
        }
        Ok(())
    }

    /// The index of the lane this engine runs.
    pub fn get_sm_id(&self) -> (r: u32)
        ensures
            r == self@.sm_id,
    {
        self.sm_id
    }

    /// The number of cycles still to be spent on the last instruction's delay.
    pub fn get_delay_count(&self) -> (r: u32)
        ensures
            r == self@.delay_count,
    {
        self.delay_count
    }
}

/// Fetches, decodes and executes one instruction on lane `lane`.
fn fetch_and_execute(
    sm: &mut PIOStateMachine,
    regs: &PIOMemoryBacking,
    lane: u32,
    irq_flags: &[u8; 8],
    delay: &mut u32,
    gpio: &mut GPIO,
) -> (r: Result<(), PioError>)
    requires
        old(sm).wf(),
        regs.wf(),
        old(gpio).wf(),
        lane < NUM_LANES,
    ensures
        final(sm).wf(),
        final(gpio).wf(),
        (final(sm)@, *final(delay), final(gpio)@, r) == execute_spec(
            old(sm)@,
            regs@,
            lane as int,
            irq_flags@,
            *old(delay),
            old(gpio)@,
            spec_decode(regs@[INSTR_MEM0 + old(sm)@.pc]),
        ),
{
    let pc = sm.get_pc();
    let word = match regs.get_pc_data(pc) {
        Ok(w) => w,
        Err(e) => return Err(e),
    };
    let instr = match PIOInstruction::decode(word) {
        Ok(i) => i,
        Err(e) => return Err(e),
    };
    match process_delay_sideset(regs, lane, delay, instr.delay_sideset()) {
        Ok(()) => {},
        Err(e) => return Err(e),
    }
    match instr {
        PIOInstruction::JMP { condition, address, .. } => exec_jmp(
            sm,
            regs,
            lane,
            gpio,
            condition,
            address,
        ),
        PIOInstruction::WAIT { polarity, source, index, .. } => exec_wait(
            sm,
            regs,
            lane,
            irq_flags,
            gpio,
            polarity,
            source,
            index,
        ),
        PIOInstruction::PUSH { if_full, block, .. } => exec_push(sm, regs, lane, if_full, block),
        PIOInstruction::PULL { if_empty, block, .. } => exec_pull(sm, regs, lane, if_empty, block),
        PIOInstruction::SET { destination, data, .. } => exec_set(
            sm,
            regs,
            lane,
            gpio,
            destination,
            data,
        ),
        _ => Err(PioError::UnsupportedInstruction),
    }
}

} // verus!
