use emu6502::address_spaces::{AddressMap, AddressSpaces, Device};
use emu6502::pia6820::pia6820;
use emu6502::ram::Ram;
use emu6502::rom::Rom;
use emu6502::IoAddressable;

fn entry(lo: u16, hi: u16, component: Device, name: &str) -> AddressMap {
    AddressMap { addr: [lo, hi], component, name: String::from(name) }
}

#[test]
fn address_spaces_initial_state() {
    let mut rom = Rom::init_with_size(101);
    rom.flash(&vec![0, 0, b'a']);
    let the_mapping = vec![entry(100, 200, Device::Rom(rom), "MyNiceComp")];
    let result = &mut AddressSpaces::init(the_mapping);
    assert_eq!(b'a', result.read(100));
    assert_eq!(0x00, result.read(5));
}

#[test]
fn bus_forwards_relative_offset() {
    let mut bus = AddressSpaces::init(vec![entry(0x200, 0x2FF, Device::Ram(Ram::init_with_size(0x100)), "RAM")]);
    bus.write(0x210, 0x77);
    assert_eq!(0x77, bus.read(0x210));
    assert_eq!(0x00, bus.read(0x211));
}

#[test]
fn bus_unmapped_write_is_dropped() {
    let mut bus = AddressSpaces::init(vec![entry(0, 0xFF, Device::Ram(Ram::init_with_size(0x100)), "RAM")]);
    bus.write(0x1234, 0x55);
    assert_eq!(0, bus.read(0x1234));
    for a in 0..0x100u16 {
        assert_eq!(0, bus.read(a));
    }
}

#[test]
fn bus_first_match_wins_on_overlap() {
    let mut first = Ram::init_with_size(0x10);
    first.write(0, 1);
    let mut second = Ram::init_with_size(0x20);
    second.write(0, 2);
    second.write(0x10, 3);
    let mut bus = AddressSpaces::init(vec![
        entry(0x00, 0x0F, Device::Ram(first), "low"),
        entry(0x00, 0x1F, Device::Ram(second), "wide"),
    ]);
    assert_eq!(1, bus.read(0x00));
    assert_eq!(3, bus.read(0x10));
    bus.write(0x00, 9);
    assert_eq!(9, bus.read(0x00));
}

#[test]
fn bus_rom_ignores_writes() {
    let mut bus = AddressSpaces::init(vec![entry(0xFF00, 0xFFFF, Device::Rom(Rom::init_with_size(0x100)), "ROM")]);
    bus.write(0xFF10, 0);
    assert_eq!(0xFF, bus.read(0xFF10));
}

#[test]
fn pia_latches_its_registers() {
    let mut bus = AddressSpaces::init(vec![entry(0xD010, 0xD013, Device::Pia(pia6820::new()), "PIA")]);
    assert_eq!(0, bus.read(0xD012));
    bus.write(0xD012, 0x8D);
    bus.write(0xD011, 0x01);
    assert_eq!(0x8D, bus.read(0xD012));
    assert_eq!(0x01, bus.read(0xD011));
    assert_eq!(0, bus.read(0xD010));
}

#[test]
fn bus_reports_overlap() {
    let apart = AddressSpaces::init(vec![
        entry(0x0000, 0x00FF, Device::Ram(Ram::init_with_size(0x100)), "RAM"),
        entry(0xFF00, 0xFFFF, Device::Rom(Rom::init_with_size(0x100)), "ROM"),
    ]);
    assert!(!apart.has_overlap());
    let touching = AddressSpaces::init(vec![
        entry(0x0000, 0x0100, Device::Ram(Ram::init_with_size(0x101)), "RAM"),
        entry(0x0100, 0x01FF, Device::Ram(Ram::init_with_size(0x100)), "STACK"),
    ]);
    assert!(touching.has_overlap());
    let empty = AddressSpaces::init(vec![]);
    assert!(!empty.has_overlap());
}

#[test]
fn bus_reports_mapped_addresses() {
    let bus = AddressSpaces::init(vec![entry(0xFF00, 0xFFFF, Device::Rom(Rom::init_with_size(0x100)), "ROM")]);
    assert!(bus.is_mapped(0xFFFC));
    assert!(bus.is_mapped(0xFF00));
    assert!(!bus.is_mapped(0xFEFF));
}
