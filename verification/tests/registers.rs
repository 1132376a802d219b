use mcu_kernel::registers::{BusOp, RegisterBlock};

#[test]
fn register_block_starts_at_zero() {
    let mut block = RegisterBlock::new(4);
    assert_eq!(block.count(), 4);
    for register in 0..4 {
        assert_eq!(block.read(register), 0);
    }
    assert_eq!(block.take_log(), Vec::<BusOp>::new());
    assert_eq!(RegisterBlock::new(0).count(), 0);
}

#[test]
fn register_write_replaces_the_value_and_is_logged() {
    let mut block = RegisterBlock::new(2);
    block.write(1, 0xDEAD_BEEF);
    block.write(1, 0x0000_00FF);
    assert_eq!(block.read(1), 0xFF);
    assert_eq!(block.read(0), 0);
    assert_eq!(
        block.take_log(),
        vec![
            BusOp::Write { register: 1, value: 0xDEAD_BEEF },
            BusOp::Write { register: 1, value: 0xFF }
        ]
    );
    assert_eq!(block.take_log(), Vec::<BusOp>::new());
    assert_eq!(block.read(1), 0xFF);
}

#[test]
fn register_modify_touches_only_the_bits_under_the_mask() {
    let mut block = RegisterBlock::new(1);
    block.refresh(0, 0xFFFF_0000);
    block.modify(0, 0x0000_0F00, 0x0000_0A00);
    assert_eq!(block.read(0), 0xFFFF_0A00);
    block.modify(0, 0x00F0_0000, 0x0050_FFFF);
    assert_eq!(block.read(0), 0xFF5F_0A00);
    assert_eq!(
        block.take_log(),
        vec![
            BusOp::Modify { register: 0, mask: 0x0000_0F00, bits: 0x0000_0A00 },
            BusOp::Modify { register: 0, mask: 0x00F0_0000, bits: 0x0050_FFFF }
        ]
    );
}

#[test]
fn register_set_and_clear() {
    let mut block = RegisterBlock::new(3);
    block.set(2, 0x81);
    assert_eq!(block.read(2), 0x81);
    assert!(block.is_set(2, 0x80));
    assert!(block.is_set(2, 0x01));
    assert!(block.is_set(2, 0x0F));
    assert!(!block.is_set(2, 0x7E));
    block.clear(2, 0x80);
    assert_eq!(block.read(2), 0x01);
    assert_eq!(
        block.take_log(),
        vec![
            BusOp::Modify { register: 2, mask: 0x81, bits: 0x81 },
            BusOp::Modify { register: 2, mask: 0x80, bits: 0 }
        ]
    );
}

#[test]
fn register_clear_if_set_is_silent_on_a_clear_bit() {
    let mut block = RegisterBlock::new(1);
    block.refresh(0, 0x04);
    block.clear_if_set(0, 0x02);
    assert_eq!(block.take_log(), Vec::<BusOp>::new());
    block.clear_if_set(0, 0x04);
    assert_eq!(block.read(0), 0);
    assert_eq!(block.take_log(), vec![BusOp::Modify { register: 0, mask: 0x04, bits: 0 }]);
}

#[test]
fn register_refresh_is_not_logged() {
    let mut block = RegisterBlock::new(2);
    block.refresh(0, 7);
    block.refresh(1, 9);
    assert_eq!(block.read(0), 7);
    assert_eq!(block.read(1), 9);
    assert_eq!(block.take_log(), Vec::<BusOp>::new());
}

#[test]
fn register_field_is_read_shifted_down() {
    let mut block = RegisterBlock::new(1);
    block.refresh(0, 0x0000_0200);
    assert_eq!(block.read_field(0, 0x0300, 8), 2);
    block.refresh(0, 0xFFFF_FCFF);
    assert_eq!(block.read_field(0, 0x0300, 8), 0);
    block.refresh(0, 0x8000_0000);
    assert_eq!(block.read_field(0, 0x8000_0000, 31), 1);
}

#[test]
fn register_stores_are_logged_in_order() {
    let mut block = RegisterBlock::new(1);
    block.store16(0x0800_0000, 0xBEEF);
    block.set(0, 1);
    block.store8(0x0800_0002, 0x7F);
    assert_eq!(block.read(0), 1);
    assert_eq!(
        block.take_log(),
        vec![
            BusOp::Store16 { address: 0x0800_0000, halfword: 0xBEEF },
            BusOp::Modify { register: 0, mask: 1, bits: 1 },
            BusOp::Store8 { address: 0x0800_0002, byte: 0x7F }
        ]
    );
}
