use pio_sim::{LaneField, PIOMemoryBacking, PIOStateMachine, PioError, GPIO};

#[test]
fn gpio_starts_low() {
    let g = GPIO::new();
    for i in 0..32 {
        assert_eq!(g.get_idx(i), 0);
        assert_eq!(g.get_idx_enable(i), 0);
    }
}

#[test]
fn set_idx_continuous_wraps_round_the_array() {
    let mut g = GPIO::new();
    assert_eq!(g.set_idx_continuous(30, 4, 0b1111), Ok(()));
    for i in [30usize, 31, 0, 1] {
        assert_eq!(g.get_idx(i), 1);
    }
    for i in 2..30 {
        assert_eq!(g.get_idx(i), 0);
    }
    for i in 0..32 {
        assert_eq!(g.get_idx_enable(i), 0);
    }
}

#[test]
fn set_idx_continuous_writes_each_bit() {
    let mut g = GPIO::new();
    g.set_idx_continuous(0, 32, 0xff).unwrap();
    g.set_idx_continuous(4, 5, 0b10110).unwrap();
    let expected = [1u8, 1, 1, 1, 0, 1, 1, 0, 1, 0];
    for (i, e) in expected.iter().enumerate() {
        assert_eq!(g.get_idx(i), *e);
    }
    // Bits above the eighth of an 8-bit value are zero.
    g.set_idx_continuous(0, 32, 0xff).unwrap();
    g.set_idx_continuous(0, 32, 0x01).unwrap();
    assert_eq!(g.get_idx(0), 1);
    assert_eq!(g.get_idx(9), 0);
    assert_eq!(g.get_idx(31), 0);
}

#[test]
fn set_idx_continuous_refuses_count_above_32() {
    let mut g = GPIO::new();
    assert_eq!(g.set_idx_continuous(0, 33, 0xff), Err(PioError::OutOfRange));
    assert_eq!(g.set_idx_enable_continuous(0, 33, 0xff), Err(PioError::OutOfRange));
    for i in 0..32 {
        assert_eq!(g.get_idx(i), 0);
        assert_eq!(g.get_idx_enable(i), 0);
    }
}

#[test]
fn set_idx_enable_continuous_wraps() {
    let mut g = GPIO::new();
    assert_eq!(g.set_idx_enable_continuous(63, 2, 0b11), Ok(()));
    assert_eq!(g.get_idx_enable(31), 1);
    assert_eq!(g.get_idx_enable(0), 1);
    assert_eq!(g.get_idx_enable(1), 0);
    assert_eq!(g.get_idx(31), 0);
}

#[test]
fn get_idx_reads_modulo_32() {
    let mut g = GPIO::new();
    g.set_idx_continuous(3, 1, 1).unwrap();
    assert_eq!(g.get_idx(35), 1);
    assert_eq!(g.get_idx(3), 1);
}

#[test]
fn inc_pc_wraps_from_31_to_0() {
    let mut sm = PIOStateMachine::new();
    assert_eq!(sm.set_pc(31), Ok(()));
    assert_eq!(sm.inc_pc(), Ok(()));
    assert_eq!(sm.get_pc(), 0);
}

#[test]
fn set_pc_32_is_out_of_range() {
    let mut sm = PIOStateMachine::new();
    sm.set_pc(7).unwrap();
    assert_eq!(sm.set_pc(32), Err(PioError::OutOfRange));
    assert_eq!(sm.get_pc(), 7);
    assert_eq!(sm.set_pc(31), Ok(()));
    assert_eq!(sm.get_pc(), 31);
}

#[test]
fn decrement_wraps_below_zero() {
    let mut sm = PIOStateMachine::default();
    sm.decrement_x().unwrap();
    assert_eq!(sm.get_scratch_x(), u32::MAX);
    sm.set_scratch_y(5).unwrap();
    sm.decrement_y().unwrap();
    assert_eq!(sm.get_scratch_y(), 4);
}

#[test]
fn rx_fifo_holds_four_words() {
    let mut sm = PIOStateMachine::new();
    for v in 1..=4u32 {
        assert!(!sm.rx_fifo_full());
        assert_eq!(sm.push_to_rx_fifo(v), Ok(()));
    }
    assert!(sm.rx_fifo_full());
    assert_eq!(sm.push_to_rx_fifo(5), Err(PioError::FifoFull));
    assert_eq!(sm.rx_fifo_len(), 4);
    assert_eq!(sm.pop_from_rx_fifo(), Ok(1));
    assert_eq!(sm.pop_from_rx_fifo(), Ok(2));
    assert_eq!(sm.rx_fifo_len(), 2);
}

#[test]
fn tx_fifo_pops_in_order_and_fails_when_empty() {
    let mut sm = PIOStateMachine::new();
    assert!(sm.tx_fifo_empty());
    assert_eq!(sm.pop_from_tx_fifo(), Err(PioError::FifoEmpty));
    sm.push_to_tx_fifo(10).unwrap();
    sm.push_to_tx_fifo(20).unwrap();
    assert_eq!(sm.tx_fifo_len(), 2);
    assert_eq!(sm.pop_from_tx_fifo(), Ok(10));
    assert_eq!(sm.pop_from_tx_fifo(), Ok(20));
    assert_eq!(sm.pop_from_tx_fifo(), Err(PioError::FifoEmpty));
    for v in 0..4u32 {
        sm.push_to_tx_fifo(v).unwrap();
    }
    assert_eq!(sm.push_to_tx_fifo(4), Err(PioError::FifoFull));
}

#[test]
fn shift_registers_and_counters() {
    let mut sm = PIOStateMachine::new();
    sm.set_osr(0xdead_beef).unwrap();
    assert_eq!(sm.get_osr(), 0xdead_beef);
    assert_eq!(sm.get_isr(), 0);
    sm.clear_isr().unwrap();
    assert_eq!(sm.get_isr(), 0);
    assert_eq!(sm.get_osr_counter(), 0);
    assert_eq!(sm.get_isr_counter(), 0);
}

#[test]
fn register_bank_power_on_values() {
    let m = PIOMemoryBacking::default();
    assert_eq!(m.read_register(0x00), Ok(0));
    assert_eq!(m.read_register(0x04), Ok(0x0f00_0f00));
    for base in [0xc8u32, 0xe0, 0xf8, 0x110] {
        assert_eq!(m.read_register(base), Ok(0x0001_0000));
        assert_eq!(m.read_register(base + 4), Ok(0x0001_f000));
        assert_eq!(m.read_register(base + 8), Ok(0x000c_0000));
        assert_eq!(m.read_register(base + 12), Ok(0));
        assert_eq!(m.read_register(base + 16), Ok(0));
        assert_eq!(m.read_register(base + 20), Ok(0x1400_0000));
    }
    assert_eq!(m.read_register(0x140), Ok(0));
}

#[test]
fn register_bank_refuses_bad_offsets() {
    let mut m = PIOMemoryBacking::new();
    assert_eq!(m.read_register(0x144), Err(PioError::OutOfRange));
    assert_eq!(m.read_register(0x02), Err(PioError::OutOfRange));
    assert_eq!(m.write_register(0x145, 1), Err(PioError::OutOfRange));
    assert_eq!(m.write_register(0x128, 7), Ok(()));
    assert_eq!(m.read_register(0x128), Ok(7));
}

#[test]
fn lane_fields_read_their_bits() {
    let m = PIOMemoryBacking::new();
    for lane in 0..4 {
        assert_eq!(m.lane_field(lane, LaneField::SetCount), Ok(5));
        assert_eq!(m.lane_field(lane, LaneField::ClkdivInt), Ok(1));
        assert_eq!(m.lane_field(lane, LaneField::WrapTop), Ok(0x1f));
        assert_eq!(m.lane_field(lane, LaneField::InShiftdir), Ok(1));
        assert_eq!(m.lane_field(lane, LaneField::OutShiftdir), Ok(1));
        assert_eq!(m.lane_field(lane, LaneField::SidesetCount), Ok(0));
    }
    assert_eq!(m.lane_field(4, LaneField::SetCount), Err(PioError::InvalidLaneIndex));
}

#[test]
fn set_lane_field_truncates_and_keeps_other_fields() {
    let mut m = PIOMemoryBacking::new();
    assert_eq!(m.set_lane_field(2, LaneField::SetBase, 0x3f), Ok(()));
    assert_eq!(m.lane_field(2, LaneField::SetBase), Ok(0x1f));
    assert_eq!(m.lane_field(2, LaneField::SetCount), Ok(5));
    // PINCTRL of lane 2 is at 0x10c.
    assert_eq!(m.read_register(0x10c), Ok(0x1400_0000 | (0x1f << 5)));
    assert_eq!(m.read_register(0xdc), Ok(0x1400_0000));
    assert_eq!(m.set_lane_field(4, LaneField::SetBase, 1), Err(PioError::InvalidLaneIndex));
}

#[test]
fn instruction_memory_words() {
    let mut m = PIOMemoryBacking::new();
    assert_eq!(m.set_instruction_data(31, 0xe021), Ok(()));
    assert_eq!(m.get_pc_data(31), Ok(0xe021));
    assert_eq!(m.read_register(0xc4), Ok(0xe021));
    assert_eq!(m.get_pc_data(0), Ok(0));
    assert_eq!(m.set_instruction_data(32, 1), Err(PioError::OutOfRange));
    assert_eq!(m.get_pc_data(32), Err(PioError::InvalidProgramCounter));
}
