use mtimer::clint::Clint;
use mtimer::gpio::{clrset_value, din_bit, doen_update, dout_update, gpio_offset, gpio_shift};

#[test]
fn gpio_offset_rounds_down_to_register_group() {
    assert_eq!(gpio_offset(0), 0);
    assert_eq!(gpio_offset(3), 0);
    assert_eq!(gpio_offset(4), 4);
    assert_eq!(gpio_offset(55), 52);
}

#[test]
fn gpio_shift_is_one_byte_per_pin() {
    assert_eq!(gpio_shift(0), 0);
    assert_eq!(gpio_shift(1), 8);
    assert_eq!(gpio_shift(2), 16);
    assert_eq!(gpio_shift(55), 24);
}

#[test]
fn clrset_clears_then_sets() {
    assert_eq!(clrset_value(0xffff_ffff, 0x0000_ff00, 0x0000_1200), 0xffff_12ff);
    assert_eq!(clrset_value(0, 0, 0x8000_0000), 0x8000_0000);
}

#[test]
fn doen_update_programs_one_field() {
    // pin 55 sits in the top byte of its register
    assert_eq!(doen_update(0xffff_ffff, 55, 0), 0xc0ff_ffff);
    assert_eq!(doen_update(0, 55, 1), 0x0100_0000);
    assert_eq!(doen_update(0, 0, 0x21), 0x0000_0021);
}

#[test]
fn dout_update_masks_and_programs_one_field() {
    assert_eq!(dout_update(0, 55, 1), 0x0100_0000);
    assert_eq!(dout_update(0xffff_ffff, 55, 0), 0x80ff_ffff);
    // the data value is masked to the field width
    assert_eq!(dout_update(0, 0, 0xff), 0x0000_007f);
}

#[test]
fn din_bit_reads_one_pin() {
    assert!(din_bit(0b1000, 3));
    assert!(!din_bit(0b1000, 2));
    // pin numbers wrap at the 32-pin register boundary
    assert!(din_bit(0b1000, 35));
}

#[test]
fn clint_software_interrupt_bit() {
    let mut clint = Clint::new();
    assert!(!clint.read_msip(0));
    clint.set_msip(0);
    assert!(clint.read_msip(0));
    clint.clear_msip(0);
    assert!(!clint.read_msip(0));
}

#[test]
fn clint_write_mtime_moves_counter_forward() {
    let mut clint = Clint::new();
    clint.write_mtime(500);
    assert_eq!(clint.read_mtime(), 500);
    assert_eq!(clint.read_mtimecmp(0), 0);
}
