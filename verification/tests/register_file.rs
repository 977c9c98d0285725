use display_window::registers::{
    register_address, Registers, DISPLAY_CONTROL, REG_HORIZONTAL_BASE, REG_VERTICAL_BASE,
    REG_WINDOW_CONTROL_BASE,
};

const ALL: [u32; 7] = [
    0x0400_0000,
    0x0400_0040,
    0x0400_0042,
    0x0400_0044,
    0x0400_0046,
    0x0400_0048,
    0x0400_004a,
];

#[test]
fn register_addresses_are_two_bytes_apart() {
    assert_eq!(DISPLAY_CONTROL, 0x0400_0000);
    assert_eq!(register_address(REG_HORIZONTAL_BASE, 0), 0x0400_0040);
    assert_eq!(register_address(REG_HORIZONTAL_BASE, 1), 0x0400_0042);
    assert_eq!(register_address(REG_VERTICAL_BASE, 0), 0x0400_0044);
    assert_eq!(register_address(REG_VERTICAL_BASE, 1), 0x0400_0046);
    assert_eq!(register_address(REG_WINDOW_CONTROL_BASE, 0), 0x0400_0048);
    assert_eq!(register_address(REG_WINDOW_CONTROL_BASE, 1), 0x0400_004a);
}

#[test]
fn new_registers_hold_zero() {
    let regs = Registers::new();
    for address in ALL {
        assert_eq!(regs.read(address), Some(0));
    }
}

#[test]
fn read_of_an_unknown_address_gives_nothing() {
    let regs = Registers::new();
    assert_eq!(regs.read(0), None);
    assert_eq!(regs.read(0x0400_0002), None);
    assert_eq!(regs.read(0x0400_0041), None);
    assert_eq!(regs.read(0x0400_004c), None);
    assert_eq!(regs.read(u32::MAX), None);
}

#[test]
fn write_stores_in_one_register_only() {
    for (i, address) in ALL.into_iter().enumerate() {
        let mut regs = Registers::new();
        assert!(regs.write(address, 0xbeef));
        for (j, other) in ALL.into_iter().enumerate() {
            let expected = if i == j { 0xbeef } else { 0 };
            assert_eq!(regs.read(other), Some(expected));
        }
    }
}

#[test]
fn write_to_an_unknown_address_changes_nothing() {
    let mut regs = Registers::new();
    assert!(!regs.write(0x0400_004c, 0xbeef));
    assert!(!regs.write(0x0400_0043, 0xbeef));
    assert_eq!(regs, Registers::new());
}

#[test]
fn register_set_bits_keeps_the_other_bits() {
    let mut regs = Registers::new();
    regs.write(DISPLAY_CONTROL, 0x1abc);
    assert!(regs.set_bits(DISPLAY_CONTROL, 0b110, 3, 13));
    assert_eq!(regs.read(DISPLAY_CONTROL), Some(0xdabc));
    assert!(regs.set_bits(DISPLAY_CONTROL, 0b001, 3, 13));
    assert_eq!(regs.read(DISPLAY_CONTROL), Some(0x3abc));
    for address in &ALL[1..] {
        assert_eq!(regs.read(*address), Some(0));
    }
}

#[test]
fn register_set_bits_on_an_unknown_address_changes_nothing() {
    let mut regs = Registers::new();
    assert!(!regs.set_bits(0x0400_0050, 0xff, 8, 0));
    assert_eq!(regs, Registers::new());
}
