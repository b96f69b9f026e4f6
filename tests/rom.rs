use emu6502::rom::Rom;
use emu6502::IoAddressable;

#[test]
fn rom_initial_state() {
    let mut rom = Rom::init_with_size(4);
    assert_eq!(0xFF, rom.read(0));
    assert_eq!(0xFF, rom.read(1));
    assert_eq!(0xFF, rom.read(2));
    assert_eq!(0xFF, rom.read(3));
}

#[test]
fn rom_initial_flash() {
    let mut rom = Rom::init_with_size(4);
    rom.flash(&vec![1, 2, 3, 4, 5, 6]);
    assert_eq!(3, rom.read(0));
    assert_eq!(4, rom.read(1));
    assert_eq!(5, rom.read(2));
    assert_eq!(6, rom.read(3));
}

#[test]
fn should_not_write() {
    let mut rom = Rom::init_with_size(4);
    rom.write(0, 5);
    assert_eq!(0xFF, rom.read(0));
}

#[test]
fn rom_should_increment_read_ops() {
    let mut rom = Rom::init_with_size(4);
    rom.read(0);
    rom.read(0);
    rom.read(0);
    assert_eq!(3, rom.read_ops);
}

#[test]
fn rom_short_flash_keeps_the_rest() {
    let mut rom = Rom::init_with_size(4);
    rom.flash(&vec![0x12, 0x34, 7]);
    assert_eq!(vec![7u8, 0xFF, 0xFF, 0xFF], rom.data);
}

#[test]
fn rom_read_past_end_is_zero() {
    let mut rom = Rom::init_with_size(4);
    assert_eq!(0, rom.read(4));
}
