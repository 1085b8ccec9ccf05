use pio_sim::{
    InSource, JmpCondition, MovDestination, MovOp, MovSource, OutDestination, PIOInstruction,
    PioError, SetDestination, WaitPolarity, WaitSource,
};

#[test]
fn decode_jmp_fields() {
    let i = PIOInstruction::decode(0x0000).unwrap();
    assert_eq!(
        i,
        PIOInstruction::JMP { delay_sideset: 0, condition: JmpCondition::Always, address: 0 }
    );
    let i = PIOInstruction::decode(0x0345).unwrap();
    assert_eq!(
        i,
        PIOInstruction::JMP {
            delay_sideset: 3,
            condition: JmpCondition::ScratchXNonZeroPostDecrement,
            address: 5,
        }
    );
}

#[test]
fn decode_wait_fields() {
    let i = PIOInstruction::decode(0x20c7).unwrap();
    assert_eq!(
        i,
        PIOInstruction::WAIT {
            delay_sideset: 0,
            polarity: WaitPolarity::One,
            source: WaitSource::IRQ,
            index: 7,
        }
    );
    let i = PIOInstruction::decode(0x2060).unwrap();
    assert_eq!(
        i,
        PIOInstruction::WAIT {
            delay_sideset: 0,
            polarity: WaitPolarity::Zero,
            source: WaitSource::Reserved,
            index: 0,
        }
    );
}

#[test]
fn decode_in_out_fields() {
    assert_eq!(
        PIOInstruction::decode(0x4088).unwrap(),
        PIOInstruction::IN { delay_sideset: 0, source: InSource::Reserved0, bit_count: 8 }
    );
    assert_eq!(
        PIOInstruction::decode(0x7fff).unwrap(),
        PIOInstruction::OUT { delay_sideset: 31, destination: OutDestination::EXEC, bit_count: 31 }
    );
}

#[test]
fn decode_push_pull_fields() {
    assert_eq!(
        PIOInstruction::decode(0x8020).unwrap(),
        PIOInstruction::PUSH { delay_sideset: 0, if_full: false, block: true }
    );
    assert_eq!(
        PIOInstruction::decode(0x8040).unwrap(),
        PIOInstruction::PUSH { delay_sideset: 0, if_full: true, block: false }
    );
    assert_eq!(
        PIOInstruction::decode(0x80a0).unwrap(),
        PIOInstruction::PULL { delay_sideset: 0, if_empty: false, block: true }
    );
    assert_eq!(
        PIOInstruction::decode(0x81c0).unwrap(),
        PIOInstruction::PULL { delay_sideset: 1, if_empty: true, block: false }
    );
}

#[test]
fn decode_mov_irq_set_fields() {
    assert_eq!(
        PIOInstruction::decode(0xa03d).unwrap(),
        PIOInstruction::MOV {
            delay_sideset: 0,
            destination: MovDestination::X,
            op: MovOp::Reserved,
            source: MovSource::STATUS,
        }
    );
    assert_eq!(
        PIOInstruction::decode(0xc062).unwrap(),
        PIOInstruction::IRQ { delay_sideset: 0, clear: true, wait: true, index: 2 }
    );
    assert_eq!(
        PIOInstruction::decode(0xe081).unwrap(),
        PIOInstruction::SET { delay_sideset: 0, destination: SetDestination::PINDIRS, data: 1 }
    );
    assert_eq!(
        PIOInstruction::decode(0xffff).unwrap(),
        PIOInstruction::SET {
            delay_sideset: 31,
            destination: SetDestination::Reserved3,
            data: 31,
        }
    );
}

#[test]
fn decode_ignores_bits_above_fifteen() {
    assert_eq!(PIOInstruction::decode(0xabcd_e021), PIOInstruction::decode(0xe021));
}

#[test]
fn decode_class_follows_opcode_bits() {
    // Same opcode bits, all other bits different: same class.
    match PIOInstruction::decode(0x1fff).unwrap() {
        PIOInstruction::JMP { .. } => {}
        other => panic!("expected JMP, got {:?}", other),
    }
    match PIOInstruction::decode(0xc000).unwrap() {
        PIOInstruction::IRQ { .. } => {}
        other => panic!("expected IRQ, got {:?}", other),
    }
}

#[test]
fn encode_decode_round_trip_keeps_word() {
    for w in [0x0000u32, 0x0345, 0x1fff, 0x20c7, 0x2060, 0x4088, 0x7fff, 0xa03d, 0xe081, 0xffff] {
        assert_eq!(PIOInstruction::decode(w).unwrap().encode(), w);
    }
}

#[test]
fn encode_decode_drops_ignored_bits() {
    // PUSH ignores bits [4:0]; IRQ ignores bit 7.
    assert_eq!(PIOInstruction::decode(0x803f).unwrap().encode(), 0x8020);
    assert_eq!(PIOInstruction::decode(0xc0e2).unwrap().encode(), 0xc062);
}

#[test]
fn decode_encode_round_trip_keeps_instruction() {
    let i = PIOInstruction::WAIT {
        delay_sideset: 17,
        polarity: WaitPolarity::One,
        source: WaitSource::Pin,
        index: 30,
    };
    assert_eq!(i.encode(), 0x31be);
    assert_eq!(PIOInstruction::decode(i.encode()).unwrap(), i);
    let j = PIOInstruction::PULL { delay_sideset: 2, if_empty: true, block: true };
    assert_eq!(PIOInstruction::decode(j.encode()).unwrap(), j);
}

#[test]
fn field_enums_reject_out_of_domain_values() {
    assert_eq!(JmpCondition::try_from(8u8), Err(PioError::InvalidEncoding));
    assert_eq!(WaitPolarity::try_from(2u8), Err(PioError::InvalidEncoding));
    assert_eq!(WaitSource::try_from(4u8), Err(PioError::InvalidEncoding));
    assert_eq!(MovOp::try_from(3u8), Ok(MovOp::Reserved));
    assert_eq!(SetDestination::try_from(4u8), Ok(SetDestination::PINDIRS));
    assert_eq!(JmpCondition::BranchOnInputPin.bits(), 6);
}
