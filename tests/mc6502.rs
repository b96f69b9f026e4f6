use emu6502::address_spaces::{AddressMap, AddressSpaces, Device};
use emu6502::mc6502::CPU6502;
use emu6502::ram::Ram;
use emu6502::rom::Rom;
use emu6502::IoAddressable;

fn build_base_map() -> Vec<AddressMap> {
    let rom = Rom::init_with_size(0xffff - 0xff00);
    let ram = Ram::init_with_size(100);
    vec![
        AddressMap { addr: [0, 100], component: Device::Ram(ram), name: String::from("RAM") },
        AddressMap { addr: [0xff00, 0xffff], component: Device::Rom(rom), name: String::from("ROM") },
    ]
}

/// RAM over pages zero to three, ROM over the last page holding `image`
/// from 0xFF00, and the reset vector pointing at 0xFF00.
fn machine(image: &[u8]) -> CPU6502 {
    let mut rom_data = vec![0x00u8; 2 + 0x100];
    for (i, b) in image.iter().enumerate() {
        rom_data[2 + i] = *b;
    }
    rom_data[2 + 0xFC] = 0x00;
    rom_data[2 + 0xFD] = 0xFF;
    let mut rom = Rom::init_with_size(0x100);
    rom.flash(&rom_data);
    let map = vec![
        AddressMap { addr: [0, 0x3FF], component: Device::Ram(Ram::init_with_size(0x400)), name: String::from("RAM") },
        AddressMap { addr: [0xFF00, 0xFFFF], component: Device::Rom(rom), name: String::from("ROM") },
    ];
    let mut cpu = CPU6502::init(AddressSpaces::init(map));
    cpu.reset();
    cpu
}

/// A machine with RAM only, `program` placed at `at` and PC there.
fn ram_machine(at: u16, program: &[u8]) -> CPU6502 {
    let map = vec![AddressMap {
        addr: [0, 0xFFFF],
        component: Device::Ram(Ram::init_with_size(0x10000)),
        name: String::from("RAM"),
    }];
    let mut cpu = CPU6502::init(AddressSpaces::init(map));
    for (i, b) in program.iter().enumerate() {
        cpu.write(at + i as u16, *b);
    }
    cpu.regs.pc = at;
    cpu
}

#[test]
fn should_reset() {
    let mut the_mapping = build_base_map();
    let mut rom_data = vec![0x00; 2 + 0xFF];
    rom_data[2 + 0xfd] = 0x0A;
    rom_data[2 + 0xfc] = 0x0B;
    the_mapping[1].component.flash(&rom_data);

    let mut cpu = CPU6502::init(AddressSpaces::init(the_mapping));

    cpu.reset();

    assert_eq!(0x0A0B, cpu.regs.pc);
}

#[test]
fn read_steps() {
    let mut the_mapping = build_base_map();
    let mut rom_data = vec![0x00; 2 + 0xFF];
    rom_data[2 + 0xfd] = 0xFF;
    rom_data[2 + 0xfc] = 0x00;
    the_mapping[1].component.flash(&rom_data);

    the_mapping[1].component.flash(&vec![0x00, 0xFF, 0xEA, 0xEA, 0xEA, 0x4C, 02, 0xFF]);

    let mut cpu = CPU6502::init(AddressSpaces::init(the_mapping));

    cpu.reset();
    assert_eq!(0xFF00, cpu.regs.pc);
    assert_eq!(0, cpu.cycles);

    let step_res = cpu.step(); // nop
    assert_eq!(0xFF01, cpu.regs.pc);
    assert_eq!(2, cpu.cycles);
    assert_eq!(2, step_res);

    let step_res = cpu.step(); // nop
    assert_eq!(0xFF02, cpu.regs.pc);
    assert_eq!(4, cpu.cycles);
    assert_eq!(2, step_res);

    let step_res = cpu.step(); // nop
    assert_eq!(0xFF03, cpu.regs.pc);
    assert_eq!(6, cpu.cycles);
    assert_eq!(2, step_res);

    let step_res = cpu.step(); // jmp
    assert_eq!(0xFF02, cpu.regs.pc);
    assert_eq!(9, cpu.cycles);
    assert_eq!(3, step_res);
}

#[test]
fn reset_vector_scenario() {
    let cpu = machine(&[]);
    assert_eq!(0xFF00, cpu.regs.pc);
    assert_eq!(0, cpu.regs.s);
    assert!(cpu.regs.z);
    assert!(!cpu.regs.n && !cpu.regs.c && !cpu.regs.v && !cpu.regs.i && !cpu.regs.d);
    assert_eq!(0x4C, cpu.opcode);
}

#[test]
fn nop_loop_scenario() {
    let mut cpu = machine(&[0xEA, 0xEA, 0xEA, 0x4C, 0x02, 0xFF]);
    assert_eq!(2, cpu.step());
    assert_eq!(0xFF01, cpu.regs.pc);
    assert_eq!(2, cpu.step());
    assert_eq!(0xFF02, cpu.regs.pc);
    assert_eq!(2, cpu.step());
    assert_eq!(0xFF03, cpu.regs.pc);
    assert_eq!(3, cpu.step());
    assert_eq!(0xFF02, cpu.regs.pc);
}

#[test]
fn lda_imm_sta_zp_scenario() {
    let mut cpu = machine(&[0xA9, 0x42, 0x85, 0x10]);
    let start = cpu.get_cycles();
    cpu.step();
    cpu.step();
    assert_eq!(0x42, cpu.regs.a);
    assert_eq!(0x42, cpu.read(0x10));
    assert!(!cpu.regs.n);
    assert!(!cpu.regs.z);
    assert_eq!(5, cpu.get_cycles() - start);
}

#[test]
fn branch_after_lda_zero_scenario() {
    // BEQ sits at 0x0100 and its target 0x0106 is on the same page as the
    // instruction after it (0x0102): taken, no page crossed.
    let mut cpu = ram_machine(0x00FE, &[0xA9, 0x00, 0xF0, 0x04]);
    assert_eq!(2, cpu.step());
    assert!(cpu.regs.z);
    assert_eq!(0x0100, cpu.regs.pc);
    assert_eq!(3, cpu.step());
    assert_eq!(0x0106, cpu.regs.pc);
}

#[test]
fn branch_taken_across_page() {
    let mut cpu = ram_machine(0x00F0, &[0xA9, 0x00, 0xF0, 0x20]);
    cpu.step();
    assert_eq!(4, cpu.step());
    assert_eq!(0x0114, cpu.regs.pc);
}

#[test]
fn branch_backward_across_page() {
    let mut cpu = ram_machine(0x0200, &[0x18, 0x90, 0xFC]);
    cpu.step();
    assert_eq!(4, cpu.step());
    assert_eq!(0x01FF, cpu.regs.pc);
}

#[test]
fn branch_not_taken_adds_nothing() {
    let mut cpu = ram_machine(0x00FE, &[0xA9, 0x01, 0xF0, 0x04]);
    cpu.step();
    assert_eq!(2, cpu.step());
    assert_eq!(0x0102, cpu.regs.pc);
}

#[test]
fn decimal_add_scenario() {
    let mut cpu = machine(&[0x69, 0x27]);
    cpu.regs.d = true;
    cpu.regs.c = false;
    cpu.regs.a = 0x15;
    assert_eq!(2, cpu.step());
    assert_eq!(0x42, cpu.regs.a);
    assert!(!cpu.regs.c);
    assert!(!cpu.regs.z);
    assert!(!cpu.regs.n);
}

#[test]
fn decimal_add_carries_out() {
    let mut cpu = machine(&[0x69, 0x01]);
    cpu.regs.d = true;
    cpu.regs.c = true;
    cpu.regs.a = 0x98;
    cpu.step();
    assert_eq!(0x00, cpu.regs.a);
    assert!(cpu.regs.c);
}

#[test]
fn binary_add_sets_carry_and_overflow() {
    let mut cpu = machine(&[0x69, 0x50, 0x69, 0x90]);
    cpu.regs.a = 0x50;
    cpu.step();
    assert_eq!(0xA0, cpu.regs.a);
    assert!(cpu.regs.v && cpu.regs.n && !cpu.regs.c);
    cpu.regs.a = 0x90;
    cpu.regs.c = false;
    cpu.step();
    assert_eq!(0x20, cpu.regs.a);
    assert!(cpu.regs.c && cpu.regs.v && !cpu.regs.n);
}

#[test]
fn subtract_with_borrow() {
    let mut cpu = machine(&[0xE9, 0x01, 0xE9, 0x01]);
    cpu.regs.a = 0x00;
    cpu.regs.c = true;
    cpu.step();
    assert_eq!(0xFF, cpu.regs.a);
    assert!(!cpu.regs.c && cpu.regs.n && !cpu.regs.z);
    cpu.regs.d = true;
    cpu.regs.c = true;
    cpu.regs.a = 0x10;
    cpu.step();
    assert_eq!(0x09, cpu.regs.a);
    assert!(cpu.regs.c);
}

#[test]
fn compare_sets_borrow_flags() {
    let mut cpu = machine(&[0xC9, 0x10, 0xC9, 0x30, 0xC9, 0x20]);
    cpu.regs.a = 0x20;
    cpu.step();
    assert!(cpu.regs.c && !cpu.regs.z);
    cpu.step();
    assert!(!cpu.regs.c && cpu.regs.n);
    cpu.step();
    assert!(cpu.regs.c && cpu.regs.z);
}

#[test]
fn jsr_rts_scenario() {
    let mut image = vec![0xEAu8; 0x20];
    image[0] = 0x20;
    image[1] = 0x10;
    image[2] = 0xFF;
    image[0x10] = 0x60;
    let mut cpu = machine(&image);
    let s = cpu.regs.s;
    assert_eq!(6, cpu.step());
    assert_eq!(0xFF10, cpu.regs.pc);
    assert_eq!(0xFF, cpu.read(0x0100 + s as u16));
    assert_eq!(0x02, cpu.read(0x0100 + s.wrapping_sub(1) as u16));
    assert_eq!(6, cpu.step());
    assert_eq!(0xFF03, cpu.regs.pc);
    assert_eq!(s, cpu.regs.s);
}

#[test]
fn pha_pla_round_trip() {
    let mut cpu = machine(&[0x48, 0xA9, 0x00, 0x68]);
    cpu.regs.s = 0xFD;
    cpu.regs.a = 0x9C;
    assert_eq!(3, cpu.step());
    cpu.step();
    assert_eq!(0, cpu.regs.a);
    assert_eq!(4, cpu.step());
    assert_eq!(0x9C, cpu.regs.a);
    assert_eq!(0xFD, cpu.regs.s);
    assert!(cpu.regs.n);
}

#[test]
fn php_plp_round_trip() {
    let mut cpu = machine(&[0x08, 0x18, 0xB8, 0xA9, 0x01, 0x28]);
    cpu.regs.s = 0xFF;
    cpu.regs.c = true;
    cpu.regs.v = true;
    cpu.regs.n = true;
    cpu.regs.z = false;
    cpu.regs.i = true;
    cpu.step();
    assert_eq!(0xF5, cpu.read(0x01FF));
    cpu.step();
    cpu.step();
    cpu.step();
    assert_eq!(4, cpu.step());
    assert!(cpu.regs.c && cpu.regs.v && cpu.regs.n && !cpu.regs.z && cpu.regs.i && !cpu.regs.d);
    assert_eq!(0xFF, cpu.regs.s);
}

#[test]
fn sta_lda_round_trip() {
    let mut cpu = machine(&[0x8D, 0x34, 0x02, 0xA9, 0x00, 0xAD, 0x34, 0x02]);
    cpu.regs.a = 0xC3;
    assert_eq!(4, cpu.step());
    cpu.step();
    assert_eq!(4, cpu.step());
    assert_eq!(0xC3, cpu.regs.a);
}

#[test]
fn rol_ror_round_trip() {
    let mut cpu = machine(&[0x2A, 0x6A]);
    cpu.regs.a = 0x81;
    cpu.regs.c = false;
    cpu.step();
    assert_eq!(0x02, cpu.regs.a);
    assert!(cpu.regs.c);
    cpu.step();
    assert_eq!(0x81, cpu.regs.a);
    assert!(!cpu.regs.c);
}

#[test]
fn asl_then_lsr_loses_the_top_bit() {
    let mut cpu = machine(&[0x0A, 0x4A]);
    cpu.regs.a = 0x81;
    cpu.step();
    cpu.step();
    assert_eq!(0x01, cpu.regs.a);
}

#[test]
fn absolute_x_page_cross_costs_a_cycle() {
    let mut cpu = machine(&[0xBD, 0xF0, 0x01, 0xBD, 0x00, 0x01]);
    cpu.regs.x = 0x20;
    assert_eq!(5, cpu.step());
    assert_eq!(4, cpu.step());
}

#[test]
fn indirect_y_page_cross_costs_a_cycle() {
    let mut cpu = machine(&[0xB1, 0x40, 0xB1, 0x40]);
    cpu.write(0x40, 0xF0);
    cpu.write(0x41, 0x01);
    cpu.write(0x0200, 0x5A);
    cpu.regs.y = 0x10;
    assert_eq!(6, cpu.step());
    assert_eq!(0x5A, cpu.regs.a);
    cpu.regs.y = 0x01;
    assert_eq!(5, cpu.step());
}

#[test]
fn rmw_writes_back() {
    let mut cpu = machine(&[0x06, 0x20, 0xE6, 0x21]);
    cpu.write(0x20, 0xC0);
    cpu.write(0x21, 0xFF);
    assert_eq!(5, cpu.step());
    assert_eq!(0x80, cpu.read(0x20));
    assert!(cpu.regs.c && cpu.regs.n);
    assert_eq!(5, cpu.step());
    assert_eq!(0x00, cpu.read(0x21));
    assert!(cpu.regs.z);
}

#[test]
fn jmp_indirect_wraps_in_page() {
    let mut cpu = ram_machine(0x0300, &[0x6C, 0xFF, 0x02]);
    cpu.write(0x02FF, 0x34);
    cpu.write(0x0200, 0x12);
    assert_eq!(6, cpu.step());
    assert_eq!(0x1234, cpu.regs.pc);
}

#[test]
fn brk_pushes_and_vectors() {
    let mut image = vec![0x00u8; 0x100];
    image[0xFE] = 0x00;
    image[0xFF] = 0xFF;
    let mut cpu = machine(&image);
    cpu.regs.s = 0xFF;
    cpu.regs.c = true;
    cpu.regs.d = true;
    assert_eq!(7, cpu.step());
    assert_eq!(0xFF00, cpu.regs.pc);
    assert_eq!(0xFC, cpu.regs.s);
    assert_eq!(0xFF, cpu.read(0x01FF));
    assert_eq!(0x02, cpu.read(0x01FE));
    assert_eq!(0x3B, cpu.read(0x01FD));
    assert!(cpu.regs.i && !cpu.regs.d);
}

#[test]
fn rti_restores_flags_and_pc() {
    let mut cpu = machine(&[0x40]);
    cpu.regs.s = 0xFC;
    cpu.write(0x01FD, 0xC3);
    cpu.write(0x01FE, 0x34);
    cpu.write(0x01FF, 0x12);
    assert_eq!(6, cpu.step());
    assert_eq!(0x1234, cpu.regs.pc);
    assert!(cpu.regs.n && cpu.regs.v && cpu.regs.c && cpu.regs.z && !cpu.regs.d && !cpu.regs.i);
    assert_eq!(0xFF, cpu.regs.s);
}

#[test]
fn kil_stays_on_its_opcode() {
    let mut cpu = machine(&[0x02]);
    assert_eq!(2, cpu.step());
    assert_eq!(0xFF00, cpu.regs.pc);
    assert_eq!(2, cpu.step());
    assert_eq!(0xFF00, cpu.regs.pc);
}

#[test]
fn undocumented_lax_and_sax() {
    let mut cpu = machine(&[0xA7, 0x30, 0x87, 0x31]);
    cpu.write(0x30, 0x3C);
    cpu.step();
    assert_eq!(0x3C, cpu.regs.a);
    assert_eq!(0x3C, cpu.regs.x);
    cpu.regs.x = 0x0F;
    cpu.step();
    assert_eq!(0x0C, cpu.read(0x31));
}

#[test]
fn undocumented_slo_and_dcp() {
    let mut cpu = machine(&[0x07, 0x30, 0xC7, 0x31]);
    cpu.write(0x30, 0x81);
    cpu.write(0x31, 0x11);
    cpu.regs.a = 0x10;
    assert_eq!(5, cpu.step());
    assert_eq!(0x02, cpu.read(0x30));
    assert_eq!(0x12, cpu.regs.a);
    assert!(cpu.regs.c);
    cpu.step();
    assert_eq!(0x10, cpu.read(0x31));
    assert!(cpu.regs.c && !cpu.regs.z);
}

#[test]
fn every_opcode_takes_two_to_eight_cycles() {
    for op in 0..=255u8 {
        let mut cpu = ram_machine(0x0400, &[op, 0x10, 0x02]);
        cpu.regs.s = 0xFF;
        let before = cpu.get_cycles();
        let n = cpu.step();
        assert!(2 <= n && n <= 8, "opcode {:02X} took {}", op, n);
        assert_eq!(before + n, cpu.get_cycles());
    }
}

#[test]
fn plain_opcodes_advance_by_their_length() {
    // LDA #, LDA zp, LDA abs, INX, STA abs,X
    let cases: [(u8, u16); 5] = [(0xA9, 2), (0xA5, 2), (0xAD, 3), (0xE8, 1), (0x9D, 3)];
    for (op, len) in cases.iter() {
        let mut cpu = ram_machine(0x0400, &[*op, 0x10, 0x02]);
        cpu.step();
        assert_eq!(0x0400 + *len, cpu.regs.pc);
    }
}

#[test]
fn reset_twice_is_reset_once() {
    let mut cpu = machine(&[0xA9, 0x42]);
    cpu.step();
    cpu.reset();
    let once = cpu.regs;
    let cycles = cpu.get_cycles();
    cpu.reset();
    assert_eq!(once, cpu.regs);
    assert_eq!(cycles, cpu.get_cycles());
}

#[test]
fn exec_op_adds_cycles() {
    let mut cpu = machine(&[0x42, 0x00]);
    cpu.regs.pc = 0xFF01;
    cpu.exec_op(0xA9);
    assert_eq!(2, cpu.cycles);
    assert_eq!(0x00, cpu.regs.a);
    assert!(cpu.regs.z);
}

#[test]
fn nmi_enters_handler() {
    let mut image = vec![0xEAu8; 0x100];
    image[0xFA] = 0x80;
    image[0xFB] = 0xFF;
    let mut cpu = machine(&image);
    cpu.regs.s = 0xFF;
    cpu.regs.i = true;
    cpu.nmi = true;
    assert_eq!(7, cpu.step());
    assert_eq!(0xFF80, cpu.regs.pc);
    assert!(!cpu.nmi);
    assert_eq!(0xFF, cpu.read(0x01FF));
    assert_eq!(0x00, cpu.read(0x01FE));
    assert_eq!(0x26, cpu.read(0x01FD));
    assert_eq!(0xFC, cpu.regs.s);
}

#[test]
fn irq_waits_while_masked() {
    let mut image = vec![0xEAu8; 0x100];
    image[0xFE] = 0x40;
    image[0xFF] = 0xFF;
    let mut cpu = machine(&image);
    cpu.regs.s = 0xFF;
    cpu.regs.i = true;
    cpu.irq = true;
    assert_eq!(2, cpu.step());
    assert_eq!(0xFF01, cpu.regs.pc);
    cpu.regs.i = false;
    assert_eq!(7, cpu.step());
    assert_eq!(0xFF40, cpu.regs.pc);
    assert!(cpu.regs.i);
    assert!(cpu.irq);
}
