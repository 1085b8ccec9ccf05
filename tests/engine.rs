use pio_sim::{PIOStateMachine, PioError, GPIO, PIO};

const PINCTRL_SM0: u32 = 0xdc;
const EXECCTRL_SM0: u32 = 0xcc;
const SHIFTCTRL_SM0: u32 = 0xd0;

fn engine_with(program: &[u16]) -> PIO {
    let mut pio = PIO::new(0);
    for (i, w) in program.iter().enumerate() {
        pio.set_instruction_data(i as u8, *w).unwrap();
    }
    pio
}

fn lane(pio: &PIO) -> &PIOStateMachine {
    pio.get_current_sm().unwrap()
}

#[test]
fn self_jump_loops_forever() {
    let mut gpio = GPIO::new();
    let mut pio = engine_with(&[0x0000]);
    assert_eq!(pio.step(&mut gpio), Ok(()));
    assert_eq!(lane(&pio).get_pc(), 0);
    assert_eq!(pio.step_n(&mut gpio, 100), Ok(()));
    assert_eq!(lane(&pio).get_pc(), 0);
    assert_eq!(pio.get_delay_count(), 0);
}

#[test]
fn jmp_post_decrement_from_one_branches() {
    let mut gpio = GPIO::new();
    // 0: JMP X-- 5
    let mut pio = engine_with(&[0x0045]);
    let mut sm = PIOStateMachine::new();
    sm.set_scratch_x(1).unwrap();
    pio.set_current_sm(sm).unwrap();
    assert_eq!(pio.step(&mut gpio), Ok(()));
    assert_eq!(lane(&pio).get_pc(), 5);
    assert_eq!(lane(&pio).get_scratch_x(), 0);
}

#[test]
fn jmp_post_decrement_from_zero_falls_through_and_wraps() {
    let mut gpio = GPIO::new();
    let mut pio = engine_with(&[0x0045]);
    assert_eq!(pio.step(&mut gpio), Ok(()));
    assert_eq!(lane(&pio).get_pc(), 1);
    assert_eq!(lane(&pio).get_scratch_x(), u32::MAX);
}

#[test]
fn jmp_y_post_decrement_and_zero_tests() {
    let mut gpio = GPIO::new();
    // 0: SET Y, 2   1: JMP Y-- 1   2: JMP !Y 7
    let mut pio = engine_with(&[0xe042, 0x0081, 0x0067]);
    pio.step_n(&mut gpio, 3).unwrap();
    assert_eq!(lane(&pio).get_pc(), 1);
    assert_eq!(lane(&pio).get_scratch_y(), 0);
    pio.step(&mut gpio).unwrap();
    assert_eq!(lane(&pio).get_pc(), 2);
    assert_eq!(lane(&pio).get_scratch_y(), u32::MAX);
    pio.step(&mut gpio).unwrap();
    assert_eq!(lane(&pio).get_pc(), 3);
}

#[test]
fn jmp_x_not_equal_y() {
    let mut gpio = GPIO::new();
    // 0: SET X, 3   1: JMP X!=Y 9
    let mut pio = engine_with(&[0xe023, 0x00a9]);
    pio.step_n(&mut gpio, 2).unwrap();
    assert_eq!(lane(&pio).get_pc(), 9);
}

#[test]
fn jmp_on_input_pin() {
    let mut gpio = GPIO::new();
    // 0: JMP PIN 12
    let mut pio = engine_with(&[0x00cc]);
    pio.write_register(EXECCTRL_SM0, 0x0001_f000 | (5 << 24)).unwrap();
    pio.step(&mut gpio).unwrap();
    assert_eq!(lane(&pio).get_pc(), 1);
    gpio.set_idx_continuous(5, 1, 1).unwrap();
    pio.set_instruction_data(1, 0x00cc).unwrap();
    pio.step(&mut gpio).unwrap();
    assert_eq!(lane(&pio).get_pc(), 12);
}

#[test]
fn jmp_on_output_shift_register_count() {
    let mut gpio = GPIO::new();
    // 0: JMP !OSRE 4 with PULL_THRESH 0: the counter 0 reaches it.
    let mut pio = engine_with(&[0x00e4, 0x00e4]);
    pio.step(&mut gpio).unwrap();
    assert_eq!(lane(&pio).get_pc(), 4);
    let mut pio = engine_with(&[0x00e4]);
    pio.write_register(SHIFTCTRL_SM0, 0x000c_0000 | (1 << 25)).unwrap();
    pio.step(&mut gpio).unwrap();
    assert_eq!(lane(&pio).get_pc(), 1);
}

#[test]
fn push_blocking_on_full_rx_fifo_stalls() {
    let mut gpio = GPIO::new();
    // 0: PUSH block
    let mut pio = engine_with(&[0x8020]);
    let mut sm = PIOStateMachine::new();
    for v in 0..4u32 {
        sm.push_to_rx_fifo(v).unwrap();
    }
    pio.set_current_sm(sm).unwrap();
    assert_eq!(pio.step(&mut gpio), Ok(()));
    assert_eq!(lane(&pio).get_pc(), 0);
    assert_eq!(lane(&pio).rx_fifo_len(), 4);
}

#[test]
fn push_moves_isr_to_rx_fifo() {
    let mut gpio = GPIO::new();
    // 0..3: PUSH block, 4: PUSH noblock
    let mut pio = engine_with(&[0x8020, 0x8020, 0x8020, 0x8020, 0x8000]);
    pio.step_n(&mut gpio, 4).unwrap();
    assert_eq!(lane(&pio).rx_fifo_len(), 4);
    assert_eq!(lane(&pio).get_isr(), 0);
    assert_eq!(lane(&pio).get_pc(), 4);
    assert_eq!(pio.step(&mut gpio), Err(PioError::FifoFull));
    assert_eq!(lane(&pio).get_pc(), 4);
}

#[test]
fn push_if_full_below_threshold_only_advances() {
    let mut gpio = GPIO::new();
    // 0: PUSH iffull block, with PUSH_THRESH 8
    let mut pio = engine_with(&[0x8060]);
    pio.write_register(SHIFTCTRL_SM0, 0x000c_0000 | (8 << 20)).unwrap();
    pio.step(&mut gpio).unwrap();
    assert_eq!(lane(&pio).get_pc(), 1);
    assert_eq!(lane(&pio).rx_fifo_len(), 0);
}

#[test]
fn pull_nonblocking_on_empty_tx_fifo_loads_x() {
    let mut gpio = GPIO::new();
    // 0: SET X, 7   1: PULL noblock
    let mut pio = engine_with(&[0xe027, 0x8080]);
    pio.step_n(&mut gpio, 2).unwrap();
    assert_eq!(lane(&pio).get_osr(), 7);
    assert_eq!(lane(&pio).get_pc(), 2);
}

#[test]
fn pull_takes_oldest_tx_word() {
    let mut gpio = GPIO::new();
    let mut pio = engine_with(&[0x80a0, 0x80a0]);
    let mut sm = PIOStateMachine::new();
    sm.push_to_tx_fifo(0x1234).unwrap();
    sm.push_to_tx_fifo(0x5678).unwrap();
    pio.set_current_sm(sm).unwrap();
    pio.step(&mut gpio).unwrap();
    assert_eq!(lane(&pio).get_osr(), 0x1234);
    assert_eq!(lane(&pio).tx_fifo_len(), 1);
    assert_eq!(lane(&pio).get_pc(), 1);
}

#[test]
fn pull_blocking_on_empty_tx_fifo_stalls() {
    let mut gpio = GPIO::new();
    let mut pio = engine_with(&[0x80a0]);
    pio.step(&mut gpio).unwrap();
    assert_eq!(lane(&pio).get_pc(), 0);
    assert_eq!(lane(&pio).get_osr(), 0);
}

#[test]
fn pull_if_empty_below_threshold_only_advances() {
    let mut gpio = GPIO::new();
    // 0: PULL ifempty block, with PULL_THRESH 1
    let mut pio = engine_with(&[0x80e0]);
    pio.write_register(SHIFTCTRL_SM0, 0x000c_0000 | (1 << 25)).unwrap();
    pio.step(&mut gpio).unwrap();
    assert_eq!(lane(&pio).get_pc(), 1);
}

#[test]
fn set_pins_uses_set_base_and_count() {
    let mut gpio = GPIO::new();
    // 0: SET PINS, 0b10101 with SET_BASE 30 and SET_COUNT 5
    let mut pio = engine_with(&[0xe015]);
    pio.write_register(PINCTRL_SM0, (5 << 26) | (30 << 5)).unwrap();
    pio.step(&mut gpio).unwrap();
    let expected = [(30usize, 1u8), (31, 0), (0, 1), (1, 0), (2, 1), (3, 0)];
    for (pin, v) in expected {
        assert_eq!(gpio.get_idx(pin), v);
    }
    assert_eq!(lane(&pio).get_pc(), 1);
}

#[test]
fn set_pindirs_and_scratch_registers() {
    let mut gpio = GPIO::new();
    // 0: SET PINDIRS, 3   1: SET X, 31   2: SET Y, 9
    let mut pio = engine_with(&[0xe083, 0xe03f, 0xe049]);
    pio.step_n(&mut gpio, 3).unwrap();
    assert_eq!(gpio.get_idx_enable(0), 1);
    assert_eq!(gpio.get_idx_enable(1), 1);
    assert_eq!(gpio.get_idx_enable(2), 0);
    assert_eq!(gpio.get_idx(0), 0);
    assert_eq!(lane(&pio).get_scratch_x(), 31);
    assert_eq!(lane(&pio).get_scratch_y(), 9);
    assert_eq!(lane(&pio).get_pc(), 3);
}

#[test]
fn set_reserved_destination_fails() {
    let mut gpio = GPIO::new();
    let mut pio = engine_with(&[0xe061]);
    assert_eq!(pio.step(&mut gpio), Err(PioError::UnsupportedDestination));
}

#[test]
fn wait_on_gpio_stalls_until_level() {
    let mut gpio = GPIO::new();
    // 0: WAIT 1 GPIO 3
    let mut pio = engine_with(&[0x2083]);
    pio.step(&mut gpio).unwrap();
    assert_eq!(lane(&pio).get_pc(), 0);
    gpio.set_idx_continuous(3, 1, 1).unwrap();
    pio.step(&mut gpio).unwrap();
    assert_eq!(lane(&pio).get_pc(), 1);
}

#[test]
fn wait_on_pin_offsets_by_in_base() {
    let mut gpio = GPIO::new();
    // 0: WAIT 1 PIN 2 with IN_BASE 31: polls pin 1
    let mut pio = engine_with(&[0x20a2]);
    pio.write_register(PINCTRL_SM0, 0x1400_0000 | (31 << 15)).unwrap();
    gpio.set_idx_continuous(1, 1, 1).unwrap();
    pio.step(&mut gpio).unwrap();
    assert_eq!(lane(&pio).get_pc(), 1);
}

#[test]
fn wait_on_irq_flags() {
    let mut gpio = GPIO::new();
    // 0: WAIT 0 IRQ 7 (flags start clear)   1: WAIT 1 IRQ 0
    let mut pio = engine_with(&[0x2047, 0x20c0]);
    pio.step(&mut gpio).unwrap();
    assert_eq!(lane(&pio).get_pc(), 1);
    pio.step(&mut gpio).unwrap();
    assert_eq!(lane(&pio).get_pc(), 1);
}

#[test]
fn wait_on_irq_index_eight_fails() {
    let mut gpio = GPIO::new();
    let mut pio = engine_with(&[0x2048]);
    assert_eq!(pio.step(&mut gpio), Err(PioError::IndexOutOfRange));
}

#[test]
fn wait_on_reserved_source_fails() {
    let mut gpio = GPIO::new();
    let mut pio = engine_with(&[0x2060]);
    assert_eq!(pio.step(&mut gpio), Err(PioError::UnsupportedInstruction));
}

#[test]
fn unexecuted_classes_fail() {
    for w in [0x4000u16, 0x6000, 0xa000, 0xc000] {
        let mut gpio = GPIO::new();
        let mut pio = engine_with(&[w]);
        assert_eq!(pio.step(&mut gpio), Err(PioError::UnsupportedInstruction));
        assert_eq!(lane(&pio).get_pc(), 0);
    }
}

#[test]
fn delay_is_spent_on_later_steps() {
    let mut gpio = GPIO::new();
    // 0: JMP 0 [3]
    let mut pio = engine_with(&[0x0300]);
    pio.step(&mut gpio).unwrap();
    assert_eq!(pio.get_delay_count(), 3);
    pio.step(&mut gpio).unwrap();
    pio.step(&mut gpio).unwrap();
    assert_eq!(pio.get_delay_count(), 1);
    pio.step(&mut gpio).unwrap();
    assert_eq!(pio.get_delay_count(), 0);
    pio.step(&mut gpio).unwrap();
    assert_eq!(pio.get_delay_count(), 3);
}

#[test]
fn side_set_count_fails_after_charging_delay() {
    let mut gpio = GPIO::new();
    // SIDESET_COUNT 2 leaves three delay bits: 0x1f & 7 = 7.
    let mut pio = engine_with(&[0x1f00]);
    pio.write_register(PINCTRL_SM0, 0x1400_0000 | (2 << 29)).unwrap();
    assert_eq!(pio.step(&mut gpio), Err(PioError::UnsupportedInstruction));
    assert_eq!(pio.get_delay_count(), 7);
}

#[test]
fn invalid_lane_index_is_refused_by_step() {
    let mut gpio = GPIO::new();
    let mut pio = PIO::new(4);
    assert_eq!(pio.get_sm_id(), 4);
    assert_eq!(pio.step(&mut gpio), Err(PioError::InvalidLaneIndex));
    assert!(pio.get_current_sm().is_err());
    assert_eq!(pio.set_current_sm(PIOStateMachine::new()), Err(PioError::InvalidLaneIndex));
}

#[test]
fn other_lanes_use_their_own_registers() {
    let mut gpio = GPIO::new();
    // Lane 2: SET PINS, 1 with SET_BASE 9 in SM2_PINCTRL (0x10c), SET_COUNT 1.
    let mut pio = PIO::new(2);
    pio.set_instruction_data(0, 0xe001).unwrap();
    pio.write_register(0x10c, (1 << 26) | (9 << 5)).unwrap();
    pio.step(&mut gpio).unwrap();
    assert_eq!(gpio.get_idx(9), 1);
    assert_eq!(gpio.get_idx(0), 0);
    assert_eq!(lane(&pio).get_pc(), 1);
}

#[test]
fn engine_register_access() {
    let mut pio = PIO::new(0);
    assert_eq!(pio.read_register(0x04), Ok(0x0f00_0f00));
    assert_eq!(pio.set_instruction_data(32, 0), Err(PioError::OutOfRange));
    assert_eq!(pio.write_register(0x146, 0), Err(PioError::OutOfRange));
    pio.set_instruction_data(3, 0xabcd).unwrap();
    assert_eq!(pio.read_register(0x48 + 12), Ok(0xabcd));
}

#[test]
fn two_engines_share_one_pin_array() {
    let mut gpio = GPIO::new();
    // Lane 0 raises pin 0 (SET_BASE 0, SET_COUNT 1); lane 1 waits on it.
    let mut a = PIO::new(0);
    a.set_instruction_data(0, 0xe001).unwrap();
    a.write_register(PINCTRL_SM0, 1 << 26).unwrap();
    let mut b = PIO::new(1);
    b.set_instruction_data(0, 0x2080).unwrap();
    b.step(&mut gpio).unwrap();
    assert_eq!(lane(&b).get_pc(), 0);
    a.step(&mut gpio).unwrap();
    b.step(&mut gpio).unwrap();
    assert_eq!(lane(&b).get_pc(), 1);
}
