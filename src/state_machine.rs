use vstd::prelude::*;
use crate::error::PioError;
use std::collections::VecDeque;

verus! {

/// Depth of each lane FIFO.
pub const FIFO_DEPTH: usize = 4;
/// Number of addressable program counter values.
pub const PC_LIMIT: u32 = 32;

/// The execution state of one lane.
pub struct LaneView {
    pub pc: u32,
    pub x: u32,
    pub y: u32,
    pub osr: u32,
    pub isr: u32,
    pub osr_counter: u32,
    pub isr_counter: u32,
    /// Words written by the host, oldest first.
    pub tx_fifo: Seq<u32>,
    /// Words pushed by the lane, oldest first.
    pub rx_fifo: Seq<u32>,
}

/// The program counter is in [0, 31] and neither FIFO holds more than four words.
pub open spec fn lane_wf(l: LaneView) -> bool {
    &&& l.pc < PC_LIMIT
    &&& l.tx_fifo.len() <= FIFO_DEPTH
    &&& l.rx_fifo.len() <= FIFO_DEPTH
}

/// `x - 1`, wrapping from 0 to `u32::MAX`.
pub open spec fn wrapping_dec(x: u32) -> u32 {
    if x == 0 {
        u32::MAX
    } else {
        (x - 1) as u32
    }
}

/// One lane's execution state: program counter, scratch registers, shift
/// registers with their bit counters, and the two bounded FIFOs.
#[derive(Debug)]
pub struct PIOStateMachine {
    osr: u32,
    isr: u32,
    output_shift_counter: u32,
    input_shift_counter: u32,
    x: u32,
    y: u32,
    tx_fifo: VecDeque<u32>,
    rx_fifo: VecDeque<u32>,
    pc: u32,
}

impl View for PIOStateMachine {
    type V = LaneView;

    closed spec fn view(&self) -> LaneView {
        LaneView {
            pc: self.pc,
            x: self.x,
            y: self.y,
            osr: self.osr,
            isr: self.isr,
            osr_counter: self.output_shift_counter,
            isr_counter: self.input_shift_counter,
            tx_fifo: self.tx_fifo@,
            rx_fifo: self.rx_fifo@,
        }
    }
}

impl PIOStateMachine {
    /// The program counter is in [0, 31] and neither FIFO holds more than four words.
    pub open spec fn wf(&self) -> bool {
        lane_wf(self@)
    }

    /// A lane with every register and counter at 0 and both FIFOs empty.
    pub fn new() -> (r: Self)
        ensures
            r.wf(),
            r@ == (LaneView {
                pc: 0,
                x: 0,
                y: 0,
                osr: 0,
                isr: 0,
                osr_counter: 0,
                isr_counter: 0,
                tx_fifo: Seq::empty(),
                rx_fifo: Seq::empty(),
            }),
    {
        PIOStateMachine {
            osr: 0,
            isr: 0,
            output_shift_counter: 0,
            input_shift_counter: 0,
            x: 0,
            y: 0,
            tx_fifo: VecDeque::new(),
            rx_fifo: VecDeque::new(),
            pc: 0,
        }
    }

    pub fn get_pc(&self) -> (r: u32)
        ensures
            r == self@.pc,
    {
        self.pc
    }

    /// Moves the program counter to `new_pc`; fails with `OutOfRange` above 31,
    /// and then changes nothing.
    pub fn set_pc(&mut self, new_pc: u32) -> (r: Result<(), PioError>)
        ensures
            new_pc < PC_LIMIT ==> r == Ok::<(), PioError>(()) && final(self)@ == (LaneView {
                pc: new_pc,
                ..old(self)@
            }),
            new_pc >= PC_LIMIT ==> r == Err::<(), PioError>(PioError::OutOfRange) && final(self)@
                == old(self)@,
            old(self).wf() ==> final(self).wf(),
    {
        if new_pc >= PC_LIMIT {
            return Err(PioError::OutOfRange);
        }
        self.pc = new_pc;
        Ok(())
    }

    /// Advances the program counter by one, from 31 back to 0.
    pub fn inc_pc(&mut self) -> (r: Result<(), PioError>)
        requires
            old(self).wf(),
        ensures
            r == Ok::<(), PioError>(()),
            final(self)@ == (LaneView { pc: ((old(self)@.pc + 1) % 32) as u32, ..old(self)@ }),
            final(self).wf(),
    {
        self.pc = (self.pc + 1) % PC_LIMIT;
        Ok(())
    }

    pub fn get_scratch_x(&self) -> (r: u32)
        ensures
            r == self@.x,
    {
        self.x
    }

    /// Decrements scratch X, wrapping from 0 to `u32::MAX`.
    pub fn decrement_x(&mut self) -> (r: Result<(), PioError>)
        ensures
            r == Ok::<(), PioError>(()),
            final(self)@ == (LaneView { x: wrapping_dec(old(self)@.x), ..old(self)@ }),
    {
        self.x = self.x.wrapping_sub(1);
        Ok(())
    }

    pub fn get_scratch_y(&self) -> (r: u32)
        ensures
            r == self@.y,
    {
        self.y
    }

    /// Decrements scratch Y, wrapping from 0 to `u32::MAX`.
    pub fn decrement_y(&mut self) -> (r: Result<(), PioError>)
        ensures
            r == Ok::<(), PioError>(()),
            final(self)@ == (LaneView { y: wrapping_dec(old(self)@.y), ..old(self)@ }),
    {
        self.y = self.y.wrapping_sub(1);
        Ok(())
    }

    pub fn set_scratch_x(&mut self, value: u32) -> (r: Result<(), PioError>)
        ensures
            r == Ok::<(), PioError>(()),
            final(self)@ == (LaneView { x: value, ..old(self)@ }),
    {
        self.x = value;
        Ok(())
    }

    pub fn set_scratch_y(&mut self, value: u32) -> (r: Result<(), PioError>)
        ensures
            r == Ok::<(), PioError>(()),
            final(self)@ == (LaneView { y: value, ..old(self)@ }),
    {
        self.y = value;
        Ok(())
    }

    /// Whether the receive FIFO holds four words.
    pub fn rx_fifo_full(&self) -> (r: bool)
        ensures
            r == (self@.rx_fifo.len() >= FIFO_DEPTH),
    {
        self.rx_fifo.len() >= FIFO_DEPTH
    }

    /// Appends `value` to the receive FIFO; fails with `FifoFull` when it already
    /// holds four words, and then changes nothing.
    pub fn push_to_rx_fifo(&mut self, value: u32) -> (r: Result<(), PioError>)
        ensures
            old(self)@.rx_fifo.len() < FIFO_DEPTH ==> r == Ok::<(), PioError>(()) && final(self)@
                == (LaneView { rx_fifo: old(self)@.rx_fifo.push(value), ..old(self)@ }),
            old(self)@.rx_fifo.len() >= FIFO_DEPTH ==> r == Err::<(), PioError>(PioError::FifoFull)
                && final(self)@ == old(self)@,
            old(self).wf() ==> final(self).wf(),
    {
        if self.rx_fifo_full() {
            return Err(PioError::FifoFull);
        }
        self.rx_fifo.push_back(value);
        Ok(())
    }

    /// Removes and returns the oldest word of the receive FIFO (the host's side);
    /// fails with `FifoEmpty` when it is empty.
    pub fn pop_from_rx_fifo(&mut self) -> (r: Result<u32, PioError>)
        ensures
            old(self)@.rx_fifo.len() > 0 ==> r == Ok::<u32, PioError>(old(self)@.rx_fifo[0])
                && final(self)@ == (LaneView {
                rx_fifo: old(self)@.rx_fifo.drop_first(),
                ..old(self)@
            }),
            old(self)@.rx_fifo.len() == 0 ==> r == Err::<u32, PioError>(PioError::FifoEmpty)
                && final(self)@ == old(self)@,
            old(self).wf() ==> final(self).wf(),
    {
        match self.rx_fifo.pop_front() {
            Some(v) => Ok(v),
            None => Err(PioError::FifoEmpty),
        }
    }

    /// Number of words in the receive FIFO.
    pub fn rx_fifo_len(&self) -> (r: usize)
        ensures
            r == self@.rx_fifo.len(),
    {
        self.rx_fifo.len()
    }

    /// Whether the transmit FIFO is empty.
    pub fn tx_fifo_empty(&self) -> (r: bool)
        ensures
            r == (self@.tx_fifo.len() == 0),
    {
        self.tx_fifo.len() == 0
    }

    /// Appends `value` to the transmit FIFO (the host's side); fails with
    /// `FifoFull` when it already holds four words, and then changes nothing.
    pub fn push_to_tx_fifo(&mut self, value: u32) -> (r: Result<(), PioError>)
        ensures
            old(self)@.tx_fifo.len() < FIFO_DEPTH ==> r == Ok::<(), PioError>(()) && final(self)@
                == (LaneView { tx_fifo: old(self)@.tx_fifo.push(value), ..old(self)@ }),
            old(self)@.tx_fifo.len() >= FIFO_DEPTH ==> r == Err::<(), PioError>(PioError::FifoFull)
                && final(self)@ == old(self)@,
            old(self).wf() ==> final(self).wf(),
    {
        if self.tx_fifo.len() >= FIFO_DEPTH {
            return Err(PioError::FifoFull);
        }
        self.tx_fifo.push_back(value);
        Ok(())
    }

    /// Removes and returns the oldest word of the transmit FIFO; fails with
    /// `FifoEmpty` when it is empty.
    pub fn pop_from_tx_fifo(&mut self) -> (r: Result<u32, PioError>)
        ensures
            old(self)@.tx_fifo.len() > 0 ==> r == Ok::<u32, PioError>(old(self)@.tx_fifo[0])
                && final(self)@ == (LaneView {
                tx_fifo: old(self)@.tx_fifo.drop_first(),
                ..old(self)@
            }),
            old(self)@.tx_fifo.len() == 0 ==> r == Err::<u32, PioError>(PioError::FifoEmpty)
                && final(self)@ == old(self)@,
            old(self).wf() ==> final(self).wf(),
    {
        match self.tx_fifo.pop_front() {
            Some(v) => Ok(v),
            None => Err(PioError::FifoEmpty),
        }
    }

    /// Number of words in the transmit FIFO.
    pub fn tx_fifo_len(&self) -> (r: usize)
        ensures
            r == self@.tx_fifo.len(),
    {
        self.tx_fifo.len()
    }

    pub fn get_isr(&self) -> (r: u32)
        ensures
            r == self@.isr,
    {
        self.isr
    }

    pub fn clear_isr(&mut self) -> (r: Result<(), PioError>)
        ensures
            r == Ok::<(), PioError>(()),
            final(self)@ == (LaneView { isr: 0, ..old(self)@ }),
    {
        self.isr = 0;
        Ok(())
    }

    pub fn get_osr(&self) -> (r: u32)
        ensures
            r == self@.osr,
    {
        self.osr
    }

    pub fn set_osr(&mut self, value: u32) -> (r: Result<(), PioError>)
        ensures
            r == Ok::<(), PioError>(()),
            final(self)@ == (LaneView { osr: value, ..old(self)@ }),
    {
        self.osr = value;
        Ok(())
    }

    /// Number of bits shifted out of the output shift register.
    pub fn get_osr_counter(&self) -> (r: u32)
        ensures
            r == self@.osr_counter,
    {
        self.output_shift_counter
    }

    /// Number of bits shifted into the input shift register.
    pub fn get_isr_counter(&self) -> (r: u32)
        ensures
            r == self@.isr_counter,
    {
        self.input_shift_counter
    }
}

impl Default for PIOStateMachine {
    fn default() -> (r: Self)
        ensures
            r.wf(),
            r@.pc == 0 && r@.x == 0 && r@.y == 0 && r@.osr == 0 && r@.isr == 0,
            r@.osr_counter == 0 && r@.isr_counter == 0,
            r@.tx_fifo.len() == 0 && r@.rx_fifo.len() == 0,
    {
        Self::new()
    }
}

} // verus!
