use emu6502::ram::Ram;
use emu6502::IoAddressable;

#[test]
fn ram_initial_state() {
    let mut rom = Ram::init_with_size(4);
    assert_eq!(0x0, rom.read(0));
    assert_eq!(0x0, rom.read(1));
    assert_eq!(0x0, rom.read(2));
    assert_eq!(0x0, rom.read(3));
}

#[test]
fn ram_initial_flash() {
    let mut rom = Ram::init_with_size(4);
    rom.flash(&vec![0, 2, 3, 4]);
    assert_eq!(0x0, rom.read(0));
    assert_eq!(0x0, rom.read(1));
    assert_eq!(3, rom.read(2));
    assert_eq!(4, rom.read(3));
}

#[test]
fn should_write() {
    let mut rom = Ram::init_with_size(4);
    rom.write(0, 5);
    assert_eq!(5, rom.read(0));
    rom.write(3, 10);
    assert_eq!(10, rom.read(3));
}

#[test]
fn ram_should_increment_read_ops() {
    let mut ram = Ram::init_with_size(4);
    assert_eq!(0, ram.read_ops);
    ram.read(0);
    ram.read(0);
    ram.read(0);
    assert_eq!(3, ram.read_ops);
}

#[test]
fn should_increment_write_ops() {
    let mut ram = Ram::init_with_size(4);
    assert_eq!(0, ram.write_ops);
    ram.write(0, 10);
    ram.write(0, 10);
    ram.write(0, 10);
    assert_eq!(3, ram.write_ops);
}

#[test]
fn ram_read_past_end_is_zero() {
    let mut ram = Ram::init_with_size(4);
    ram.write(3, 9);
    assert_eq!(0, ram.read(4));
    assert_eq!(0, ram.read(1000));
}

#[test]
fn ram_write_past_end_is_dropped() {
    let mut ram = Ram::init_with_size(4);
    ram.write(4, 9);
    assert_eq!(vec![0u8, 0, 0, 0], ram.data);
    assert_eq!(1, ram.write_ops);
}

#[test]
fn ram_flash_honors_load_address() {
    let mut ram = Ram::init_with_size(8);
    ram.flash(&vec![0x00, 0x05, 0xAA, 0xBB, 0xCC]);
    assert_eq!(vec![0u8, 0, 0, 0, 0, 0xAA, 0xBB, 0xCC], ram.data);
    assert_eq!(0, ram.read_ops);
}
