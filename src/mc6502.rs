use vstd::prelude::*;

use crate::address_spaces::{peek, store, AddressSpaces};
use crate::isa::{
    address, dispatch, low, operate, opcode_table, push, rd, reset_regs, reset_spec, stack,
    step_spec, word, Mode, Op, Regs, IRQ_VECTOR, NMI_VECTOR,
};
use crate::Clockable;

verus! {

/// A MOS 6502 on its bus.
pub struct CPU6502 {
    pub address_spaces: AddressSpaces,
    pub regs: Regs,
    pub irq: bool,
    pub nmi: bool,
    /// Scratch: the value a read-modify-write operation writes back.
    pub tmp: u16,
    /// Scratch: the effective address of the current instruction.
    pub addr: u16,
    pub opcode: u8,
    pub cycles: usize,
}

proof fn lemma_low_byte(t: u8)
    ensures
        low(t as u16) == t,
{
    assert(((t as u16) & 0xFFu16) as u8 == t) by (bit_vector);
}

/// A little-endian 16-bit value from its two bytes.
fn make_word(lo: u8, hi: u8) -> (r: u16)
    ensures
        r == word(lo, hi),
{
    ((hi as u16) << 8) | (lo as u16)
}

/// The addressing mode and operation of an opcode.
pub fn decode(opcode: u8) -> (r: (Mode, Op))
    ensures
        r == opcode_table(opcode),
{
    match opcode {
        0x00 => (Mode::Imp, Op::Brk),
        0x01 => (Mode::Izx, Op::Ora),
        0x02 => (Mode::Imp, Op::Kil),
        0x03 => (Mode::Izx, Op::Slo),
        0x04 => (Mode::Zp, Op::Nop),
        0x05 => (Mode::Zp, Op::Ora),
        0x06 => (Mode::Zp, Op::Asl),
        0x07 => (Mode::Zp, Op::Slo),
        0x08 => (Mode::Imp, Op::Php),
        0x09 => (Mode::Imm, Op::Ora),
        0x0A => (Mode::Imp, Op::AslA),
        0x0B => (Mode::Imm, Op::Anc),
        0x0C => (Mode::Abs, Op::Nop),
        0x0D => (Mode::Abs, Op::Ora),
        0x0E => (Mode::Abs, Op::Asl),
        0x0F => (Mode::Abs, Op::Slo),
        0x10 => (Mode::Rel, Op::Bpl),
        0x11 => (Mode::Izy, Op::Ora),
        0x12 => (Mode::Imp, Op::Kil),
        0x13 => (Mode::Izy, Op::Slo),
        0x14 => (Mode::Zpx, Op::Nop),
        0x15 => (Mode::Zpx, Op::Ora),
        0x16 => (Mode::Zpx, Op::Asl),
        0x17 => (Mode::Zpx, Op::Slo),
        0x18 => (Mode::Imp, Op::Clc),
        0x19 => (Mode::Aby, Op::Ora),
        0x1A => (Mode::Imp, Op::Nop),
        0x1B => (Mode::Aby, Op::Slo),
        0x1C => (Mode::Abx, Op::Nop),
        0x1D => (Mode::Abx, Op::Ora),
        0x1E => (Mode::Abx, Op::Asl),
        0x1F => (Mode::Abx, Op::Slo),
        0x20 => (Mode::Abs, Op::Jsr),
        0x21 => (Mode::Izx, Op::And),
        0x22 => (Mode::Imp, Op::Kil),
        0x23 => (Mode::Izx, Op::Rla),
        0x24 => (Mode::Zp, Op::Bit),
        0x25 => (Mode::Zp, Op::And),
        0x26 => (Mode::Zp, Op::Rol),
        0x27 => (Mode::Zp, Op::Rla),
        0x28 => (Mode::Imp, Op::Plp),
        0x29 => (Mode::Imm, Op::And),
        0x2A => (Mode::Imp, Op::RolA),
        0x2B => (Mode::Imm, Op::Anc),
        0x2C => (Mode::Abs, Op::Bit),
        0x2D => (Mode::Abs, Op::And),
        0x2E => (Mode::Abs, Op::Rol),
        0x2F => (Mode::Abs, Op::Rla),
        0x30 => (Mode::Rel, Op::Bmi),
        0x31 => (Mode::Izy, Op::And),
        0x32 => (Mode::Imp, Op::Kil),
        0x33 => (Mode::Izy, Op::Rla),
        0x34 => (Mode::Zpx, Op::Nop),
        0x35 => (Mode::Zpx, Op::And),
        0x36 => (Mode::Zpx, Op::Rol),
        0x37 => (Mode::Zpx, Op::Rla),
        0x38 => (Mode::Imp, Op::Sec),
        0x39 => (Mode::Aby, Op::And),
        0x3A => (Mode::Imp, Op::Nop),
        0x3B => (Mode::Aby, Op::Rla),
        0x3C => (Mode::Abx, Op::Nop),
        0x3D => (Mode::Abx, Op::And),
        0x3E => (Mode::Abx, Op::Rol),
        0x3F => (Mode::Abx, Op::Rla),
        0x40 => (Mode::Imp, Op::Rti),
        0x41 => (Mode::Izx, Op::Eor),
        0x42 => (Mode::Imp, Op::Kil),
        0x43 => (Mode::Izx, Op::Sre),
        0x44 => (Mode::Zp, Op::Nop),
        0x45 => (Mode::Zp, Op::Eor),
        0x46 => (Mode::Zp, Op::Lsr),
        0x47 => (Mode::Zp, Op::Sre),
        0x48 => (Mode::Imp, Op::Pha),
        0x49 => (Mode::Imm, Op::Eor),
        0x4A => (Mode::Imp, Op::LsrA),
        0x4B => (Mode::Imm, Op::Alr),
        0x4C => (Mode::Abs, Op::Jmp),
        0x4D => (Mode::Abs, Op::Eor),
        0x4E => (Mode::Abs, Op::Lsr),
        0x4F => (Mode::Abs, Op::Sre),
        0x50 => (Mode::Rel, Op::Bvc),
        0x51 => (Mode::Izy, Op::Eor),
        0x52 => (Mode::Imp, Op::Kil),
        0x53 => (Mode::Izy, Op::Sre),
        0x54 => (Mode::Zpx, Op::Nop),
        0x55 => (Mode::Zpx, Op::Eor),
        0x56 => (Mode::Zpx, Op::Lsr),
        0x57 => (Mode::Zpx, Op::Sre),
        0x58 => (Mode::Imp, Op::Cli),
        0x59 => (Mode::Aby, Op::Eor),
        0x5A => (Mode::Imp, Op::Nop),
        0x5B => (Mode::Aby, Op::Sre),
        0x5C => (Mode::Abx, Op::Nop),
        0x5D => (Mode::Abx, Op::Eor),
        0x5E => (Mode::Abx, Op::Lsr),
        0x5F => (Mode::Abx, Op::Sre),
        0x60 => (Mode::Imp, Op::Rts),
        0x61 => (Mode::Izx, Op::Adc),
        0x62 => (Mode::Imp, Op::Kil),
        0x63 => (Mode::Izx, Op::Rra),
        0x64 => (Mode::Zp, Op::Nop),
        0x65 => (Mode::Zp, Op::Adc),
        0x66 => (Mode::Zp, Op::Ror),
        0x67 => (Mode::Zp, Op::Rra),
        0x68 => (Mode::Imp, Op::Pla),
        0x69 => (Mode::Imm, Op::Adc),
        0x6A => (Mode::Imp, Op::RorA),
        0x6B => (Mode::Imm, Op::Arr),
        0x6C => (Mode::Ind, Op::JmpInd),
        0x6D => (Mode::Abs, Op::Adc),
        0x6E => (Mode::Abs, Op::Ror),
        0x6F => (Mode::Abs, Op::Rra),
        0x70 => (Mode::Rel, Op::Bvs),
        0x71 => (Mode::Izy, Op::Adc),
        0x72 => (Mode::Imp, Op::Kil),
        0x73 => (Mode::Izy, Op::Rra),
        0x74 => (Mode::Zpx, Op::Nop),
        0x75 => (Mode::Zpx, Op::Adc),
        0x76 => (Mode::Zpx, Op::Ror),
        0x77 => (Mode::Zpx, Op::Rra),
        0x78 => (Mode::Imp, Op::Sei),
        0x79 => (Mode::Aby, Op::Adc),
        0x7A => (Mode::Imp, Op::Nop),
        0x7B => (Mode::Aby, Op::Rra),
        0x7C => (Mode::Abx, Op::Nop),
        0x7D => (Mode::Abx, Op::Adc),
        0x7E => (Mode::Abx, Op::Ror),
        0x7F => (Mode::Abx, Op::Rra),
        0x80 => (Mode::Imm, Op::Nop),
        0x81 => (Mode::Izx, Op::Sta),
        0x82 => (Mode::Imm, Op::Nop),
        0x83 => (Mode::Izx, Op::Sax),
        0x84 => (Mode::Zp, Op::Sty),
        0x85 => (Mode::Zp, Op::Sta),
        0x86 => (Mode::Zp, Op::Stx),
        0x87 => (Mode::Zp, Op::Sax),
        0x88 => (Mode::Imp, Op::Dey),
        0x89 => (Mode::Imm, Op::Nop),
        0x8A => (Mode::Imp, Op::Txa),
        0x8B => (Mode::Imm, Op::Ane),
        0x8C => (Mode::Abs, Op::Sty),
        0x8D => (Mode::Abs, Op::Sta),
        0x8E => (Mode::Abs, Op::Stx),
        0x8F => (Mode::Abs, Op::Sax),
        0x90 => (Mode::Rel, Op::Bcc),
        0x91 => (Mode::Izy, Op::Sta),
        0x92 => (Mode::Imp, Op::Kil),
        0x93 => (Mode::Izy, Op::Ahx),
        0x94 => (Mode::Zpx, Op::Sty),
        0x95 => (Mode::Zpx, Op::Sta),
        0x96 => (Mode::Zpy, Op::Stx),
        0x97 => (Mode::Zpy, Op::Sax),
        0x98 => (Mode::Imp, Op::Tya),
        0x99 => (Mode::Aby, Op::Sta),
        0x9A => (Mode::Imp, Op::Txs),
        0x9B => (Mode::Aby, Op::Shs),
        0x9C => (Mode::Abx, Op::Shy),
        0x9D => (Mode::Abx, Op::Sta),
        0x9E => (Mode::Aby, Op::Shx),
        0x9F => (Mode::Aby, Op::Ahx),
        0xA0 => (Mode::Imm, Op::Ldy),
        0xA1 => (Mode::Izx, Op::Lda),
        0xA2 => (Mode::Imm, Op::Ldx),
        0xA3 => (Mode::Izx, Op::Lax),
        0xA4 => (Mode::Zp, Op::Ldy),
        0xA5 => (Mode::Zp, Op::Lda),
        0xA6 => (Mode::Zp, Op::Ldx),
        0xA7 => (Mode::Zp, Op::Lax),
        0xA8 => (Mode::Imp, Op::Tay),
        0xA9 => (Mode::Imm, Op::Lda),
        0xAA => (Mode::Imp, Op::Tax),
        0xAB => (Mode::Imm, Op::Lax),
        0xAC => (Mode::Abs, Op::Ldy),
        0xAD => (Mode::Abs, Op::Lda),
        0xAE => (Mode::Abs, Op::Ldx),
        0xAF => (Mode::Abs, Op::Lax),
        0xB0 => (Mode::Rel, Op::Bcs),
        0xB1 => (Mode::Izy, Op::Lda),
        0xB2 => (Mode::Imp, Op::Kil),
        0xB3 => (Mode::Izy, Op::Lax),
        0xB4 => (Mode::Zpx, Op::Ldy),
        0xB5 => (Mode::Zpx, Op::Lda),
        0xB6 => (Mode::Zpy, Op::Ldx),
        0xB7 => (Mode::Zpy, Op::Lax),
        0xB8 => (Mode::Imp, Op::Clv),
        0xB9 => (Mode::Aby, Op::Lda),
        0xBA => (Mode::Imp, Op::Tsx),
        0xBB => (Mode::Aby, Op::Las),
        0xBC => (Mode::Abx, Op::Ldy),
        0xBD => (Mode::Abx, Op::Lda),
        0xBE => (Mode::Aby, Op::Ldx),
        0xBF => (Mode::Aby, Op::Lax),
        0xC0 => (Mode::Imm, Op::Cpy),
        0xC1 => (Mode::Izx, Op::Cmp),
        0xC2 => (Mode::Imm, Op::Nop),
        0xC3 => (Mode::Izx, Op::Dcp),
        0xC4 => (Mode::Zp, Op::Cpy),
        0xC5 => (Mode::Zp, Op::Cmp),
        0xC6 => (Mode::Zp, Op::Dec),
        0xC7 => (Mode::Zp, Op::Dcp),
        0xC8 => (Mode::Imp, Op::Iny),
        0xC9 => (Mode::Imm, Op::Cmp),
        0xCA => (Mode::Imp, Op::Dex),
        0xCB => (Mode::Imm, Op::Sbx),
        0xCC => (Mode::Abs, Op::Cpy),
        0xCD => (Mode::Abs, Op::Cmp),
        0xCE => (Mode::Abs, Op::Dec),
        0xCF => (Mode::Abs, Op::Dcp),
        0xD0 => (Mode::Rel, Op::Bne),
        0xD1 => (Mode::Izy, Op::Cmp),
        0xD2 => (Mode::Imp, Op::Kil),
        0xD3 => (Mode::Izy, Op::Dcp),
        0xD4 => (Mode::Zpx, Op::Nop),
        0xD5 => (Mode::Zpx, Op::Cmp),
        0xD6 => (Mode::Zpx, Op::Dec),
        0xD7 => (Mode::Zpx, Op::Dcp),
        0xD8 => (Mode::Imp, Op::Cld),
        0xD9 => (Mode::Aby, Op::Cmp),
        0xDA => (Mode::Imp, Op::Nop),
        0xDB => (Mode::Aby, Op::Dcp),
        0xDC => (Mode::Abx, Op::Nop),
        0xDD => (Mode::Abx, Op::Cmp),
        0xDE => (Mode::Abx, Op::Dec),
        0xDF => (Mode::Abx, Op::Dcp),
        0xE0 => (Mode::Imm, Op::Cpx),
        0xE1 => (Mode::Izx, Op::Sbc),
        0xE2 => (Mode::Imm, Op::Nop),
        0xE3 => (Mode::Izx, Op::Isc),
        0xE4 => (Mode::Zp, Op::Cpx),
        0xE5 => (Mode::Zp, Op::Sbc),
        0xE6 => (Mode::Zp, Op::Inc),
        0xE7 => (Mode::Zp, Op::Isc),
        0xE8 => (Mode::Imp, Op::Inx),
        0xE9 => (Mode::Imm, Op::Sbc),
        0xEA => (Mode::Imp, Op::Nop),
        0xEB => (Mode::Imm, Op::Sbc),
        0xEC => (Mode::Abs, Op::Cpx),
        0xED => (Mode::Abs, Op::Sbc),
        0xEE => (Mode::Abs, Op::Inc),
        0xEF => (Mode::Abs, Op::Isc),
        0xF0 => (Mode::Rel, Op::Beq),
        0xF1 => (Mode::Izy, Op::Sbc),
        0xF2 => (Mode::Imp, Op::Kil),
        0xF3 => (Mode::Izy, Op::Isc),
        0xF4 => (Mode::Zpx, Op::Nop),
        0xF5 => (Mode::Zpx, Op::Sbc),
        0xF6 => (Mode::Zpx, Op::Inc),
        0xF7 => (Mode::Zpx, Op::Isc),
        0xF8 => (Mode::Imp, Op::Sed),
        0xF9 => (Mode::Aby, Op::Sbc),
        0xFA => (Mode::Imp, Op::Nop),
        0xFB => (Mode::Aby, Op::Isc),
        0xFC => (Mode::Abx, Op::Nop),
        0xFD => (Mode::Abx, Op::Sbc),
        0xFE => (Mode::Abx, Op::Inc),
        _ => (Mode::Abx, Op::Isc),
    }
}

impl CPU6502 {
    /// The fields that neither the registers nor the bus hold are as in
    /// `prev`.
    pub open spec fn frame(&self, prev: &CPU6502) -> bool {
        &&& self.irq == prev.irq
        &&& self.nmi == prev.nmi
        &&& self.addr == prev.addr
        &&& self.opcode == prev.opcode
        &&& self.cycles == prev.cycles
    }

    /// `self` is `prev` after the addressing step of `mode`, which took
    /// `cycles` cycles.
    pub open spec fn addressed(&self, prev: &CPU6502, mode: Mode, cycles: u8) -> bool {
        let o = address(mode, prev.regs, prev.address_spaces@);
        &&& self.regs == Regs { pc: o.pc, ..prev.regs }
        &&& self.addr == o.ea
        &&& cycles == o.cycles
        &&& self.address_spaces@ == prev.address_spaces@
        &&& self.irq == prev.irq
        &&& self.nmi == prev.nmi
        &&& self.opcode == prev.opcode
        &&& self.cycles == prev.cycles
    }

    /// `self` is `prev` after the operation step of `op`, which brought the
    /// cycles of the instruction from `cost` to `total`.
    pub open spec fn performed(&self, prev: &CPU6502, op: Op, cost: u8, total: u8) -> bool {
        let e = operate(op, prev.regs, prev.address_spaces@, prev.addr);
        &&& self.regs == e.regs
        &&& self.address_spaces@ == e.mem
        &&& total == cost + e.cycles
        &&& self.frame(prev)
    }

    /// A CPU on `address_spaces` with every register and flag cleared.
    pub fn init(address_spaces: AddressSpaces) -> (r: CPU6502)
        ensures
            r.address_spaces == address_spaces,
            r.regs == (Regs {
                pc: 0,
                a: 0,
                x: 0,
                y: 0,
                s: 0,
                n: false,
                v: false,
                d: false,
                i: false,
                z: false,
                c: false,
            }),
            !r.irq,
            !r.nmi,
            r.tmp == 0,
            r.addr == 0,
            r.opcode == 0,
            r.cycles == 0,
    {
        CPU6502 {
            address_spaces: address_spaces,
            regs: Regs {
                pc: 0,
                a: 0,
                x: 0,
                y: 0,
                s: 0,
                n: false,
                v: false,
                d: false,
                i: false,
                z: false,
                c: false,
            },
            irq: false,
            nmi: false,
            tmp: 0,
            addr: 0,
            opcode: 0,
            cycles: 0,
        }
    }

    /// Reads a byte from the bus.
    pub fn read(&mut self, address: u16) -> (r: u8)
        ensures
            r == peek(old(self).address_spaces@, address),
            final(self).address_spaces@ == old(self).address_spaces@,
            final(self).regs == old(self).regs,
            final(self).tmp == old(self).tmp,
            final(self).frame(old(self)),
    {
        self.address_spaces.read(address)
    }

    /// Reads a byte from the bus, widened.
    pub fn read16(&mut self, address: u16) -> (r: u16)
        ensures
            r == peek(old(self).address_spaces@, address) as u16,
            final(self).address_spaces@ == old(self).address_spaces@,
            final(self).regs == old(self).regs,
            final(self).tmp == old(self).tmp,
            final(self).frame(old(self)),
    {
        self.read(address) as u16
    }

    /// Writes a byte to the bus.
    pub fn write(&mut self, address: u16, value: u8)
        ensures
            final(self).address_spaces@ == store(old(self).address_spaces@, address, value),
            final(self).regs == old(self).regs,
            final(self).tmp == old(self).tmp,
            final(self).frame(old(self)),
    {
        self.address_spaces.write(address, value)
    }

    /// Pushes a byte: stores it at the stack slot, then moves S down.
    fn push(&mut self, value: u8)
        ensures
            final(self).address_spaces@ == push(old(self).address_spaces@, old(self).regs.s, value),
            final(self).regs == (Regs { s: old(self).regs.s.wrapping_sub(1), ..old(self).regs }),
            final(self).frame(old(self)),
    {
        self.write(0x100u16 + self.regs.s as u16, value);
        self.regs.s = self.regs.s.wrapping_sub(1);
    }

    /// Pulls a byte: moves S up, then reads the stack slot.
    fn pull(&mut self) -> (r: u8)
        ensures
            r == rd(old(self).address_spaces@, stack(old(self).regs.s.wrapping_add(1))),
            final(self).address_spaces@ == old(self).address_spaces@,
            final(self).regs == (Regs { s: old(self).regs.s.wrapping_add(1), ..old(self).regs }),
            final(self).frame(old(self)),
    {
        self.regs.s = self.regs.s.wrapping_add(1);
        self.read(0x100u16 + self.regs.s as u16)
    }

    /// Reads the byte under the program counter and moves past it.
    fn fetch(&mut self) -> (r: u8)
        ensures
            r == rd(old(self).address_spaces@, old(self).regs.pc),
            final(self).address_spaces@ == old(self).address_spaces@,
            final(self).regs == (Regs { pc: old(self).regs.pc.wrapping_add(1), ..old(self).regs }),
            final(self).frame(old(self)),
    {
        let b = self.read(self.regs.pc);
        self.regs.pc = self.regs.pc.wrapping_add(1);
        b
    }

    // Addressing modes.

    fn imp(&mut self) -> (r: u8)
        ensures
            final(self).addressed(old(self), Mode::Imp, r),
    {
        self.addr = self.regs.pc;
        2
    }

    fn imm(&mut self) -> (r: u8)
        ensures
            final(self).addressed(old(self), Mode::Imm, r),
    {
        self.addr = self.regs.pc;
        self.regs.pc = self.regs.pc.wrapping_add(1);
        2
    }

    fn zp(&mut self) -> (r: u8)
        ensures
            final(self).addressed(old(self), Mode::Zp, r),
    {
        let b = self.fetch();
        self.addr = b as u16;
        3
    }

    fn zpx(&mut self) -> (r: u8)
        ensures
            final(self).addressed(old(self), Mode::Zpx, r),
    {
        let b = self.fetch();
        self.addr = ((b as u16) + (self.regs.x as u16)) & 0xFF;
        4
    }

    fn zpy(&mut self) -> (r: u8)
        ensures
            final(self).addressed(old(self), Mode::Zpy, r),
    {
        let b = self.fetch();
        self.addr = ((b as u16) + (self.regs.y as u16)) & 0xFF;
        4
    }

    /// The two operand bytes as a little-endian address; the program
    /// counter moves past both.
    fn operand_word(&mut self) -> (r: u16)
        ensures
            r == word(
                rd(old(self).address_spaces@, old(self).regs.pc),
                rd(old(self).address_spaces@, old(self).regs.pc.wrapping_add(1)),
            ),
            final(self).address_spaces@ == old(self).address_spaces@,
            final(self).regs == (Regs { pc: old(self).regs.pc.wrapping_add(2), ..old(self).regs }),
            final(self).frame(old(self)),
    {
        let pc = self.regs.pc;
        let lo = self.read(pc);
        let hi = self.read(pc.wrapping_add(1));
        self.regs.pc = pc.wrapping_add(2);
        make_word(lo, hi)
    }

    fn abs(&mut self) -> (r: u8)
        ensures
            final(self).addressed(old(self), Mode::Abs, r),
    {
        self.addr = self.operand_word();
        4
    }

    /// Absolute indexed by `index`: one more cycle when the page changes.
    fn indexed(&mut self, index: u8) -> (r: u8)
        ensures
            ({
                let base = word(
                    rd(old(self).address_spaces@, old(self).regs.pc),
                    rd(old(self).address_spaces@, old(self).regs.pc.wrapping_add(1)),
                );
                let ea = base.wrapping_add(index as u16);
                &&& final(self).addr == ea
                &&& r == 4 + crate::isa::cross(base, ea)
            }),
            final(self).address_spaces@ == old(self).address_spaces@,
            final(self).regs == (Regs { pc: old(self).regs.pc.wrapping_add(2), ..old(self).regs }),
            final(self).irq == old(self).irq,
            final(self).nmi == old(self).nmi,
            final(self).opcode == old(self).opcode,
            final(self).cycles == old(self).cycles,
    {
        let paddr = self.operand_word();
        self.addr = paddr.wrapping_add(index as u16);
        if (paddr & 0xFF00) != (self.addr & 0xFF00) {
            5
        } else {
            4
        }
    }

    fn abx(&mut self) -> (r: u8)
        ensures
            final(self).addressed(old(self), Mode::Abx, r),
    {
        self.indexed(self.regs.x)
    }

    fn aby(&mut self) -> (r: u8)
        ensures
            final(self).addressed(old(self), Mode::Aby, r),
    {
        self.indexed(self.regs.y)
    }

    fn ind(&mut self) -> (r: u8)
        ensures
            final(self).addressed(old(self), Mode::Ind, r),
    {
        let a = self.operand_word();
        let lo = self.read(a);
        let hi = self.read((a & 0xFF00) | (a.wrapping_add(1) & 0xFF));
        self.addr = make_word(lo, hi);
        5
    }

    /// The little-endian pointer at zero-page slot `z`, its high byte read
    /// from the next slot with wrap inside page zero.
    fn zp_pointer(&mut self, z: u16) -> (r: u16)
        requires
            z <= 0xFF,
        ensures
            r == word(
                rd(old(self).address_spaces@, z),
                rd(old(self).address_spaces@, ((z + 1) as u16) & 0xFFu16),
            ),
            final(self).address_spaces@ == old(self).address_spaces@,
            final(self).regs == old(self).regs,
            final(self).frame(old(self)),
    {
        let lo = self.read(z);
        let hi = self.read((z + 1) & 0xFF);
        make_word(lo, hi)
    }

    fn izx(&mut self) -> (r: u8)
        ensures
            final(self).addressed(old(self), Mode::Izx, r),
    {
        let b = self.fetch();
        let w: u16 = (b as u16) + (self.regs.x as u16);
        let z: u16 = w & 0xFF;
        proof {
            assert(w & 0xFFu16 <= 0xFF) by (bit_vector);
        }
        self.addr = self.zp_pointer(z);
        6
    }

    fn izy(&mut self) -> (r: u8)
        ensures
            final(self).addressed(old(self), Mode::Izy, r),
    {
        let b = self.fetch();
        let paddr = self.zp_pointer(b as u16);
        self.addr = paddr.wrapping_add(self.regs.y as u16);
        if (paddr & 0xFF00) != (self.addr & 0xFF00) {
            6
        } else {
            5
        }
    }

    fn rel(&mut self) -> (r: u8)
        ensures
            final(self).addressed(old(self), Mode::Rel, r),
    {
        let d = self.fetch();
        let pc = self.regs.pc;
        self.addr = if d < 0x80 {
            pc.wrapping_add(d as u16)
        } else {
            pc.wrapping_add(d as u16).wrapping_sub(0x100)
        };
        2
    }

    /// The addressing step of `mode`.
    fn address_mode(&mut self, mode: Mode) -> (r: u8)
        ensures
            final(self).addressed(old(self), mode, r),
            2 <= r <= 6,
    {
        match mode {
            Mode::Imp => self.imp(),
            Mode::Imm => self.imm(),
            Mode::Zp => self.zp(),
            Mode::Zpx => self.zpx(),
            Mode::Zpy => self.zpy(),
            Mode::Abs => self.abs(),
            Mode::Abx => self.abx(),
            Mode::Aby => self.aby(),
            Mode::Ind => self.ind(),
            Mode::Izx => self.izx(),
            Mode::Izy => self.izy(),
            Mode::Rel => self.rel(),
        }
    }

    /// Writes the low byte of the scratch value back to the effective
    /// address: the last phase of a read-modify-write, two cycles.
    fn rmw(&mut self, cost: u8) -> (r: u8)
        requires
            cost <= 6,
        ensures
            final(self).address_spaces@ == store(
                old(self).address_spaces@,
                old(self).addr,
                low(old(self).tmp),
            ),
            final(self).regs == old(self).regs,
            final(self).frame(old(self)),
            r == cost + 2,
    {
        self.write(self.addr, (self.tmp & 0xFF) as u8);
        cost + 2
    }

    /// Jumps to the effective address when `taken`: one cycle more, two
    /// when the target lies on another page.
    fn branch(&mut self, taken: bool, cost: u8) -> (r: u8)
        requires
            2 <= cost <= 6,
        ensures
            ({
                let e = crate::isa::branch(
                    old(self).regs,
                    old(self).address_spaces@,
                    old(self).addr,
                    taken,
                );
                &&& final(self).regs == e.regs
                &&& final(self).address_spaces@ == e.mem
                &&& r == cost + e.cycles
            }),
            final(self).frame(old(self)),
    {
        if taken {
            let extra: u8 = if (self.addr & 0xFF00) != (self.regs.pc & 0xFF00) {
                2
            } else {
                1
            };
            self.regs.pc = self.addr;
            cost + extra
        } else {
            cost
        }
    }

    // Operations.

    fn adc(&mut self, cost: u8) -> (r: u8)
        requires
            2 <= cost <= 6,
        ensures
            final(self).performed(old(self), Op::Adc, cost, r),
    {
        let v = self.read(self.addr);
        self.regs.adc(v);
        cost
    }

    fn sbc(&mut self, cost: u8) -> (r: u8)
        requires
            2 <= cost <= 6,
        ensures
            final(self).performed(old(self), Op::Sbc, cost, r),
    {
        let v = self.read(self.addr);
        self.regs.sbc(v);
        cost
    }

    fn _and(&mut self, cost: u8) -> (r: u8)
        requires
            2 <= cost <= 6,
        ensures
            final(self).performed(old(self), Op::And, cost, r),
    {
        let v = self.read(self.addr);
        let a = self.regs.a & v;
        self.regs.a = a;
        self.regs.fnz(a as u16);
        cost
    }

    fn ora(&mut self, cost: u8) -> (r: u8)
        requires
            2 <= cost <= 6,
        ensures
            final(self).performed(old(self), Op::Ora, cost, r),
    {
        let v = self.read(self.addr);
        let a = self.regs.a | v;
        self.regs.a = a;
        self.regs.fnz(a as u16);
        cost
    }

    fn eor(&mut self, cost: u8) -> (r: u8)
        requires
            2 <= cost <= 6,
        ensures
            final(self).performed(old(self), Op::Eor, cost, r),
    {
        let v = self.read(self.addr);
        let a = self.regs.a ^ v;
        self.regs.a = a;
        self.regs.fnz(a as u16);
        cost
    }

    fn lda(&mut self, cost: u8) -> (r: u8)
        requires
            2 <= cost <= 6,
        ensures
            final(self).performed(old(self), Op::Lda, cost, r),
    {
        let v = self.read(self.addr);
        self.regs.a = v;
        self.regs.fnz(v as u16);
        cost
    }

    fn ldx(&mut self, cost: u8) -> (r: u8)
        requires
            2 <= cost <= 6,
        ensures
            final(self).performed(old(self), Op::Ldx, cost, r),
    {
        let v = self.read(self.addr);
        self.regs.x = v;
        self.regs.fnz(v as u16);
        cost
    }

    fn ldy(&mut self, cost: u8) -> (r: u8)
        requires
            2 <= cost <= 6,
        ensures
            final(self).performed(old(self), Op::Ldy, cost, r),
    {
        let v = self.read(self.addr);
        self.regs.y = v;
        self.regs.fnz(v as u16);
        cost
    }

    fn lax(&mut self, cost: u8) -> (r: u8)
        requires
            2 <= cost <= 6,
        ensures
            final(self).performed(old(self), Op::Lax, cost, r),
    {
        let v = self.read(self.addr);
        self.regs.a = v;
        self.regs.x = v;
        self.regs.fnz(v as u16);
        cost
    }

    fn las(&mut self, cost: u8) -> (r: u8)
        requires
            2 <= cost <= 6,
        ensures
            final(self).performed(old(self), Op::Las, cost, r),
    {
        let v = self.read(self.addr);
        let t = v & self.regs.s;
        self.regs.a = t;
        self.regs.x = t;
        self.regs.s = t;
        self.regs.fnz(t as u16);
        cost
    }

    fn sta(&mut self, cost: u8) -> (r: u8)
        requires
            2 <= cost <= 6,
        ensures
            final(self).performed(old(self), Op::Sta, cost, r),
    {
        let a = self.regs.a;
        self.write(self.addr, a);
        cost
    }

    fn stx(&mut self, cost: u8) -> (r: u8)
        requires
            2 <= cost <= 6,
        ensures
            final(self).performed(old(self), Op::Stx, cost, r),
    {
        let x = self.regs.x;
        self.write(self.addr, x);
        cost
    }

    fn sty(&mut self, cost: u8) -> (r: u8)
        requires
            2 <= cost <= 6,
        ensures
            final(self).performed(old(self), Op::Sty, cost, r),
    {
        let y = self.regs.y;
        self.write(self.addr, y);
        cost
    }

    fn sax(&mut self, cost: u8) -> (r: u8)
        requires
            2 <= cost <= 6,
        ensures
            final(self).performed(old(self), Op::Sax, cost, r),
    {
        let t = self.regs.a & self.regs.x;
        self.write(self.addr, t);
        cost
    }

    fn shx(&mut self, cost: u8) -> (r: u8)
        requires
            2 <= cost <= 6,
        ensures
            final(self).performed(old(self), Op::Shx, cost, r),
    {
        let h = ((self.addr >> 8) as u8).wrapping_add(1);
        let t = self.regs.x & h;
        self.write(self.addr, t);
        cost
    }

    fn shy(&mut self, cost: u8) -> (r: u8)
        requires
            2 <= cost <= 6,
        ensures
            final(self).performed(old(self), Op::Shy, cost, r),
    {
        let h = ((self.addr >> 8) as u8).wrapping_add(1);
        let t = self.regs.y & h;
        self.write(self.addr, t);
        cost
    }

    fn ahx(&mut self, cost: u8) -> (r: u8)
        requires
            2 <= cost <= 6,
        ensures
            final(self).performed(old(self), Op::Ahx, cost, r),
    {
        let h = ((self.addr >> 8) as u8).wrapping_add(1);
        let t = self.regs.a & self.regs.x & h;
        self.write(self.addr, t);
        cost
    }

    fn shs(&mut self, cost: u8) -> (r: u8)
        requires
            2 <= cost <= 6,
        ensures
            final(self).performed(old(self), Op::Shs, cost, r),
    {
        let h = ((self.addr >> 8) as u8).wrapping_add(1);
        let t = self.regs.a & self.regs.x;
        self.regs.s = t;
        self.write(self.addr, t & h);
        cost
    }

    fn cmp(&mut self, cost: u8) -> (r: u8)
        requires
            2 <= cost <= 6,
        ensures
            final(self).performed(old(self), Op::Cmp, cost, r),
    {
        let v = self.read(self.addr);
        let reg = self.regs.a;
        self.regs.compare(reg, v);
        cost
    }

    fn cpx(&mut self, cost: u8) -> (r: u8)
        requires
            2 <= cost <= 6,
        ensures
            final(self).performed(old(self), Op::Cpx, cost, r),
    {
        let v = self.read(self.addr);
        let reg = self.regs.x;
        self.regs.compare(reg, v);
        cost
    }

    fn cpy(&mut self, cost: u8) -> (r: u8)
        requires
            2 <= cost <= 6,
        ensures
            final(self).performed(old(self), Op::Cpy, cost, r),
    {
        let v = self.read(self.addr);
        let reg = self.regs.y;
        self.regs.compare(reg, v);
        cost
    }

    fn bit(&mut self, cost: u8) -> (r: u8)
        requires
            2 <= cost <= 6,
        ensures
            final(self).performed(old(self), Op::Bit, cost, r),
    {
        let v = self.read(self.addr);
        let a = self.regs.a;
        self.regs.n = (v & 0x80) != 0;
        self.regs.v = (v & 0x40) != 0;
        self.regs.z = (a & v) == 0;
        cost
    }

    fn asl(&mut self, cost: u8) -> (r: u8)
        requires
            2 <= cost <= 6,
        ensures
            final(self).performed(old(self), Op::Asl, cost, r),
    {
        let v = self.read(self.addr);
        let w = v as u16;
        self.tmp = (w << 1);
        let t = self.tmp;
        self.regs.fnzc(t);
        self.rmw(cost)
    }

    fn asla(&mut self, cost: u8) -> (r: u8)
        requires
            2 <= cost <= 6,
        ensures
            final(self).performed(old(self), Op::AslA, cost, r),
    {
        let w = self.regs.a as u16;
        let t: u16 = (w << 1);
        self.regs.a = (t & 0xFF) as u8;
        self.regs.fnzc(t);
        cost
    }

    fn lsr(&mut self, cost: u8) -> (r: u8)
        requires
            2 <= cost <= 6,
        ensures
            final(self).performed(old(self), Op::Lsr, cost, r),
    {
        let v = self.read(self.addr);
        let w = v as u16;
        self.tmp = ((w & 1) << 8) | (w >> 1);
        let t = self.tmp;
        self.regs.fnzc(t);
        self.rmw(cost)
    }

    fn lsra(&mut self, cost: u8) -> (r: u8)
        requires
            2 <= cost <= 6,
        ensures
            final(self).performed(old(self), Op::LsrA, cost, r),
    {
        let w = self.regs.a as u16;
        let t: u16 = ((w & 1) << 8) | (w >> 1);
        self.regs.a = (t & 0xFF) as u8;
        self.regs.fnzc(t);
        cost
    }

    fn rol(&mut self, cost: u8) -> (r: u8)
        requires
            2 <= cost <= 6,
        ensures
            final(self).performed(old(self), Op::Rol, cost, r),
    {
        let v = self.read(self.addr);
        let w = v as u16;
        let c: u16 = if self.regs.c { 1 } else { 0 };
        self.tmp = (w << 1) | c;
        let t = self.tmp;
        self.regs.fnzc(t);
        self.rmw(cost)
    }

    fn rola(&mut self, cost: u8) -> (r: u8)
        requires
            2 <= cost <= 6,
        ensures
            final(self).performed(old(self), Op::RolA, cost, r),
    {
        let w = self.regs.a as u16;
        let c: u16 = if self.regs.c { 1 } else { 0 };
        let t: u16 = (w << 1) | c;
        self.regs.a = (t & 0xFF) as u8;
        self.regs.fnzc(t);
        cost
    }

    fn ror(&mut self, cost: u8) -> (r: u8)
        requires
            2 <= cost <= 6,
        ensures
            final(self).performed(old(self), Op::Ror, cost, r),
    {
        let v = self.read(self.addr);
        let w = v as u16;
        let c: u16 = if self.regs.c { 1 } else { 0 };
        self.tmp = ((w & 1) << 8) | (c << 7) | (w >> 1);
        let t = self.tmp;
        self.regs.fnzc(t);
        self.rmw(cost)
    }

    fn rora(&mut self, cost: u8) -> (r: u8)
        requires
            2 <= cost <= 6,
        ensures
            final(self).performed(old(self), Op::RorA, cost, r),
    {
        let w = self.regs.a as u16;
        let c: u16 = if self.regs.c { 1 } else { 0 };
        let t: u16 = ((w & 1) << 8) | (c << 7) | (w >> 1);
        self.regs.a = (t & 0xFF) as u8;
        self.regs.fnzc(t);
        cost
    }

    fn inc(&mut self, cost: u8) -> (r: u8)
        requires
            2 <= cost <= 6,
        ensures
            final(self).performed(old(self), Op::Inc, cost, r),
    {
        let v = self.read(self.addr);
        let t = v.wrapping_add(1);
        proof {
            lemma_low_byte(t);
        }
        self.tmp = t as u16;
        self.regs.fnz(t as u16);
        self.rmw(cost)
    }

    fn dec(&mut self, cost: u8) -> (r: u8)
        requires
            2 <= cost <= 6,
        ensures
            final(self).performed(old(self), Op::Dec, cost, r),
    {
        let v = self.read(self.addr);
        let t = v.wrapping_sub(1);
        proof {
            lemma_low_byte(t);
        }
        self.tmp = t as u16;
        self.regs.fnz(t as u16);
        self.rmw(cost)
    }

    fn slo(&mut self, cost: u8) -> (r: u8)
        requires
            2 <= cost <= 6,
        ensures
            final(self).performed(old(self), Op::Slo, cost, r),
    {
        let v = self.read(self.addr);
        let w = v as u16;
        let t: u16 = w << 1;
        self.tmp = t;
        let a = self.regs.a | ((t & 0xFF) as u8);
        self.regs.a = a;
        self.regs.c = (t & 0x100) != 0;
        self.regs.fnz(a as u16);
        self.rmw(cost)
    }

    fn rla(&mut self, cost: u8) -> (r: u8)
        requires
            2 <= cost <= 6,
        ensures
            final(self).performed(old(self), Op::Rla, cost, r),
    {
        let v = self.read(self.addr);
        let w = v as u16;
        let c: u16 = if self.regs.c { 1 } else { 0 };
        let t: u16 = (w << 1) | c;
        self.tmp = t;
        let a = self.regs.a & ((t & 0xFF) as u8);
        self.regs.a = a;
        self.regs.c = (t & 0x100) != 0;
        self.regs.fnz(a as u16);
        self.rmw(cost)
    }

    fn sre(&mut self, cost: u8) -> (r: u8)
        requires
            2 <= cost <= 6,
        ensures
            final(self).performed(old(self), Op::Sre, cost, r),
    {
        let v = self.read(self.addr);
        let w = v as u16;
        let t: u16 = ((w & 1) << 8) | (w >> 1);
        self.tmp = t;
        let a = self.regs.a ^ ((t & 0xFF) as u8);
        self.regs.a = a;
        self.regs.c = (t & 0x100) != 0;
        self.regs.fnz(a as u16);
        self.rmw(cost)
    }

    fn rra(&mut self, cost: u8) -> (r: u8)
        requires
            2 <= cost <= 6,
        ensures
            final(self).performed(old(self), Op::Rra, cost, r),
    {
        let v = self.read(self.addr);
        let w = v as u16;
        let c: u16 = if self.regs.c { 1 } else { 0 };
        let t: u16 = ((w & 1) << 8) | (c << 7) | (w >> 1);
        self.tmp = t;
        self.regs.c = (t & 0x100) != 0;
        self.regs.adc((t & 0xFF) as u8);
        self.rmw(cost)
    }

    fn dcp(&mut self, cost: u8) -> (r: u8)
        requires
            2 <= cost <= 6,
        ensures
            final(self).performed(old(self), Op::Dcp, cost, r),
    {
        let v = self.read(self.addr);
        let t = v.wrapping_sub(1);
        proof {
            lemma_low_byte(t);
        }
        self.tmp = t as u16;
        let a = self.regs.a;
        self.regs.compare(a, t);
        self.rmw(cost)
    }

    fn isc(&mut self, cost: u8) -> (r: u8)
        requires
            2 <= cost <= 6,
        ensures
            final(self).performed(old(self), Op::Isc, cost, r),
    {
        let v = self.read(self.addr);
        let t = v.wrapping_add(1);
        proof {
            lemma_low_byte(t);
        }
        self.tmp = t as u16;
        self.regs.sbc(t);
        self.rmw(cost)
    }

    fn anc(&mut self, cost: u8) -> (r: u8)
        requires
            2 <= cost <= 6,
        ensures
            final(self).performed(old(self), Op::Anc, cost, r),
    {
        let v = self.read(self.addr);
        let a = self.regs.a & v;
        self.regs.fnz(a as u16);
        self.regs.a = a;
        self.regs.c = (a & 0x80) != 0;
        cost
    }

    fn alr(&mut self, cost: u8) -> (r: u8)
        requires
            2 <= cost <= 6,
        ensures
            final(self).performed(old(self), Op::Alr, cost, r),
    {
        let v = self.read(self.addr);
        let w = (self.regs.a & v) as u16;
        let t: u16 = ((w & 1) << 8) | (w >> 1);
        self.regs.a = (t & 0xFF) as u8;
        self.regs.fnzc(t);
        cost
    }

    fn arr(&mut self, cost: u8) -> (r: u8)
        requires
            2 <= cost <= 6,
        ensures
            final(self).performed(old(self), Op::Arr, cost, r),
    {
        let v = self.read(self.addr);
        self.regs.arr(v);
        cost
    }

    fn ane(&mut self, cost: u8) -> (r: u8)
        requires
            2 <= cost <= 6,
        ensures
            final(self).performed(old(self), Op::Ane, cost, r),
    {
        let v = self.read(self.addr);
        let a = (self.regs.a | 0xEE) & self.regs.x & v;
        self.regs.a = a;
        self.regs.fnz(a as u16);
        cost
    }

    fn sbx(&mut self, cost: u8) -> (r: u8)
        requires
            2 <= cost <= 6,
        ensures
            final(self).performed(old(self), Op::Sbx, cost, r),
    {
        let v = self.read(self.addr);
        let t = ((self.regs.a & self.regs.x) as u16).wrapping_sub(v as u16);
        self.regs.x = (t & 0xFF) as u8;
        self.regs.fnzb(t);
        cost
    }

    fn inx(&mut self, cost: u8) -> (r: u8)
        requires
            2 <= cost <= 6,
        ensures
            final(self).performed(old(self), Op::Inx, cost, r),
    {
        let t = self.regs.x.wrapping_add(1);
        self.regs.x = t;
        self.regs.fnz(t as u16);
        cost
    }

    fn iny(&mut self, cost: u8) -> (r: u8)
        requires
            2 <= cost <= 6,
        ensures
            final(self).performed(old(self), Op::Iny, cost, r),
    {
        let t = self.regs.y.wrapping_add(1);
        self.regs.y = t;
        self.regs.fnz(t as u16);
        cost
    }

    fn dex(&mut self, cost: u8) -> (r: u8)
        requires
            2 <= cost <= 6,
        ensures
            final(self).performed(old(self), Op::Dex, cost, r),
    {
        let t = self.regs.x.wrapping_sub(1);
        self.regs.x = t;
        self.regs.fnz(t as u16);
        cost
    }

    fn dey(&mut self, cost: u8) -> (r: u8)
        requires
            2 <= cost <= 6,
        ensures
            final(self).performed(old(self), Op::Dey, cost, r),
    {
        let t = self.regs.y.wrapping_sub(1);
        self.regs.y = t;
        self.regs.fnz(t as u16);
        cost
    }

    fn tax(&mut self, cost: u8) -> (r: u8)
        requires
            2 <= cost <= 6,
        ensures
            final(self).performed(old(self), Op::Tax, cost, r),
    {
        let t = self.regs.a;
        self.regs.x = t;
        self.regs.fnz(t as u16);
        cost
    }

    fn tay(&mut self, cost: u8) -> (r: u8)
        requires
            2 <= cost <= 6,
        ensures
            final(self).performed(old(self), Op::Tay, cost, r),
    {
        let t = self.regs.a;
        self.regs.y = t;
        self.regs.fnz(t as u16);
        cost
    }

    fn tsx(&mut self, cost: u8) -> (r: u8)
        requires
            2 <= cost <= 6,
        ensures
            final(self).performed(old(self), Op::Tsx, cost, r),
    {
        let t = self.regs.s;
        self.regs.x = t;
        self.regs.fnz(t as u16);
        cost
    }

    fn txa(&mut self, cost: u8) -> (r: u8)
        requires
            2 <= cost <= 6,
        ensures
            final(self).performed(old(self), Op::Txa, cost, r),
    {
        let t = self.regs.x;
        self.regs.a = t;
        self.regs.fnz(t as u16);
        cost
    }

    fn tya(&mut self, cost: u8) -> (r: u8)
        requires
            2 <= cost <= 6,
        ensures
            final(self).performed(old(self), Op::Tya, cost, r),
    {
        let t = self.regs.y;
        self.regs.a = t;
        self.regs.fnz(t as u16);
        cost
    }

    fn txs(&mut self, cost: u8) -> (r: u8)
        requires
            2 <= cost <= 6,
        ensures
            final(self).performed(old(self), Op::Txs, cost, r),
    {
        self.regs.s = self.regs.x;
        cost
    }

    fn clc(&mut self, cost: u8) -> (r: u8)
        requires
            2 <= cost <= 6,
        ensures
            final(self).performed(old(self), Op::Clc, cost, r),
    {
        self.regs.c = false;
        cost
    }

    fn cld(&mut self, cost: u8) -> (r: u8)
        requires
            2 <= cost <= 6,
        ensures
            final(self).performed(old(self), Op::Cld, cost, r),
    {
        self.regs.d = false;
        cost
    }

    fn cli(&mut self, cost: u8) -> (r: u8)
        requires
            2 <= cost <= 6,
        ensures
            final(self).performed(old(self), Op::Cli, cost, r),
    {
        self.regs.i = false;
        cost
    }

    fn clv(&mut self, cost: u8) -> (r: u8)
        requires
            2 <= cost <= 6,
        ensures
            final(self).performed(old(self), Op::Clv, cost, r),
    {
        self.regs.v = false;
        cost
    }

    fn sec(&mut self, cost: u8) -> (r: u8)
        requires
            2 <= cost <= 6,
        ensures
            final(self).performed(old(self), Op::Sec, cost, r),
    {
        self.regs.c = true;
        cost
    }

    fn sed(&mut self, cost: u8) -> (r: u8)
        requires
            2 <= cost <= 6,
        ensures
            final(self).performed(old(self), Op::Sed, cost, r),
    {
        self.regs.d = true;
        cost
    }

    fn sei(&mut self, cost: u8) -> (r: u8)
        requires
            2 <= cost <= 6,
        ensures
            final(self).performed(old(self), Op::Sei, cost, r),
    {
        self.regs.i = true;
        cost
    }

    fn bcc(&mut self, cost: u8) -> (r: u8)
        requires
            2 <= cost <= 6,
        ensures
            final(self).performed(old(self), Op::Bcc, cost, r),
    {
        let taken = !self.regs.c;
        self.branch(taken, cost)
    }

    fn bcs(&mut self, cost: u8) -> (r: u8)
        requires
            2 <= cost <= 6,
        ensures
            final(self).performed(old(self), Op::Bcs, cost, r),
    {
        let taken = self.regs.c;
        self.branch(taken, cost)
    }

    fn beq(&mut self, cost: u8) -> (r: u8)
        requires
            2 <= cost <= 6,
        ensures
            final(self).performed(old(self), Op::Beq, cost, r),
    {
        let taken = self.regs.z;
        self.branch(taken, cost)
    }

    fn bne(&mut self, cost: u8) -> (r: u8)
        requires
            2 <= cost <= 6,
        ensures
            final(self).performed(old(self), Op::Bne, cost, r),
    {
        let taken = !self.regs.z;
        self.branch(taken, cost)
    }

    fn bmi(&mut self, cost: u8) -> (r: u8)
        requires
            2 <= cost <= 6,
        ensures
            final(self).performed(old(self), Op::Bmi, cost, r),
    {
        let taken = self.regs.n;
        self.branch(taken, cost)
    }

    fn bpl(&mut self, cost: u8) -> (r: u8)
        requires
            2 <= cost <= 6,
        ensures
            final(self).performed(old(self), Op::Bpl, cost, r),
    {
        let taken = !self.regs.n;
        self.branch(taken, cost)
    }

    fn bvc(&mut self, cost: u8) -> (r: u8)
        requires
            2 <= cost <= 6,
        ensures
            final(self).performed(old(self), Op::Bvc, cost, r),
    {
        let taken = !self.regs.v;
        self.branch(taken, cost)
    }

    fn bvs(&mut self, cost: u8) -> (r: u8)
        requires
            2 <= cost <= 6,
        ensures
            final(self).performed(old(self), Op::Bvs, cost, r),
    {
        let taken = self.regs.v;
        self.branch(taken, cost)
    }

    fn jmp(&mut self, cost: u8) -> (r: u8)
        requires
            2 <= cost <= 6,
        ensures
            final(self).performed(old(self), Op::Jmp, cost, r),
    {
        self.regs.pc = self.addr;
        cost - 1
    }

    fn jmp_ind(&mut self, cost: u8) -> (r: u8)
        requires
            2 <= cost <= 6,
        ensures
            final(self).performed(old(self), Op::JmpInd, cost, r),
    {
        self.regs.pc = self.addr;
        cost + 1
    }

    fn jsr(&mut self, cost: u8) -> (r: u8)
        requires
            2 <= cost <= 6,
        ensures
            final(self).performed(old(self), Op::Jsr, cost, r),
    {
        let ret = self.regs.pc.wrapping_sub(1);
        self.push((ret >> 8) as u8);
        self.push((ret & 0xFF) as u8);
        self.regs.pc = self.addr;
        cost + 2
    }

    fn rts(&mut self, cost: u8) -> (r: u8)
        requires
            2 <= cost <= 6,
        ensures
            final(self).performed(old(self), Op::Rts, cost, r),
    {
        let lo = self.pull();
        let hi = self.pull();
        self.regs.pc = make_word(lo, hi).wrapping_add(1);
        cost + 4
    }

    fn rti(&mut self, cost: u8) -> (r: u8)
        requires
            2 <= cost <= 6,
        ensures
            final(self).performed(old(self), Op::Rti, cost, r),
    {
        let p = self.pull();
        let lo = self.pull();
        let hi = self.pull();
        self.regs.pc = make_word(lo, hi);
        self.regs.restore_status(p);
        cost + 4
    }

    fn brk(&mut self, cost: u8) -> (r: u8)
        requires
            2 <= cost <= 6,
        ensures
            final(self).performed(old(self), Op::Brk, cost, r),
    {
        let pc1 = self.regs.pc.wrapping_add(1);
        self.push((pc1 >> 8) as u8);
        self.push((pc1 & 0xFF) as u8);
        let p = self.regs.status_byte();
        self.push(p);
        self.regs.i = true;
        self.regs.d = false;
        let lo = self.read(0xFFFE);
        let hi = self.read(0xFFFF);
        self.regs.pc = make_word(lo, hi);
        cost + 5
    }

    fn pha(&mut self, cost: u8) -> (r: u8)
        requires
            2 <= cost <= 6,
        ensures
            final(self).performed(old(self), Op::Pha, cost, r),
    {
        let a = self.regs.a;
        self.push(a);
        cost + 1
    }

    fn php(&mut self, cost: u8) -> (r: u8)
        requires
            2 <= cost <= 6,
        ensures
            final(self).performed(old(self), Op::Php, cost, r),
    {
        let p = self.regs.status_byte();
        self.push(p);
        cost + 1
    }

    fn pla(&mut self, cost: u8) -> (r: u8)
        requires
            2 <= cost <= 6,
        ensures
            final(self).performed(old(self), Op::Pla, cost, r),
    {
        let a = self.pull();
        self.regs.a = a;
        self.regs.fnz(a as u16);
        cost + 2
    }

    fn plp(&mut self, cost: u8) -> (r: u8)
        requires
            2 <= cost <= 6,
        ensures
            final(self).performed(old(self), Op::Plp, cost, r),
    {
        let p = self.pull();
        self.regs.restore_status(p);
        cost + 2
    }

    fn nop(&mut self, cost: u8) -> (r: u8)
        requires
            2 <= cost <= 6,
        ensures
            final(self).performed(old(self), Op::Nop, cost, r),
    {
        cost
    }

    fn kil(&mut self, cost: u8) -> (r: u8)
        requires
            2 <= cost <= 6,
        ensures
            final(self).performed(old(self), Op::Kil, cost, r),
    {
        self.regs.pc = self.regs.pc.wrapping_sub(1);
        cost
    }

    /// The operation step of `op`, given the cycles of its addressing mode.
    fn operate(&mut self, op: Op, cost: u8) -> (r: u8)
        requires
            2 <= cost <= 6,
        ensures
            final(self).performed(old(self), op, cost, r),
    {
        match op {
            Op::Adc => self.adc(cost),
            Op::Ahx => self.ahx(cost),
            Op::Alr => self.alr(cost),
            Op::Anc => self.anc(cost),
            Op::And => self._and(cost),
            Op::Ane => self.ane(cost),
            Op::Arr => self.arr(cost),
            Op::Asl => self.asl(cost),
            Op::AslA => self.asla(cost),
            Op::Bcc => self.bcc(cost),
            Op::Bcs => self.bcs(cost),
            Op::Beq => self.beq(cost),
            Op::Bit => self.bit(cost),
            Op::Bmi => self.bmi(cost),
            Op::Bne => self.bne(cost),
            Op::Bpl => self.bpl(cost),
            Op::Brk => self.brk(cost),
            Op::Bvc => self.bvc(cost),
            Op::Bvs => self.bvs(cost),
            Op::Clc => self.clc(cost),
            Op::Cld => self.cld(cost),
            Op::Cli => self.cli(cost),
            Op::Clv => self.clv(cost),
            Op::Cmp => self.cmp(cost),
            Op::Cpx => self.cpx(cost),
            Op::Cpy => self.cpy(cost),
            Op::Dcp => self.dcp(cost),
            Op::Dec => self.dec(cost),
            Op::Dex => self.dex(cost),
            Op::Dey => self.dey(cost),
            Op::Eor => self.eor(cost),
            Op::Inc => self.inc(cost),
            Op::Inx => self.inx(cost),
            Op::Iny => self.iny(cost),
            Op::Isc => self.isc(cost),
            Op::Jmp => self.jmp(cost),
            Op::JmpInd => self.jmp_ind(cost),
            Op::Jsr => self.jsr(cost),
            Op::Kil => self.kil(cost),
            Op::Las => self.las(cost),
            Op::Lax => self.lax(cost),
            Op::Lda => self.lda(cost),
            Op::Ldx => self.ldx(cost),
            Op::Ldy => self.ldy(cost),
            Op::Lsr => self.lsr(cost),
            Op::LsrA => self.lsra(cost),
            Op::Nop => self.nop(cost),
            Op::Ora => self.ora(cost),
            Op::Pha => self.pha(cost),
            Op::Php => self.php(cost),
            Op::Pla => self.pla(cost),
            Op::Plp => self.plp(cost),
            Op::Rla => self.rla(cost),
            Op::Rol => self.rol(cost),
            Op::RolA => self.rola(cost),
            Op::Ror => self.ror(cost),
            Op::RorA => self.rora(cost),
            Op::Rra => self.rra(cost),
            Op::Rti => self.rti(cost),
            Op::Rts => self.rts(cost),
            Op::Sax => self.sax(cost),
            Op::Sbc => self.sbc(cost),
            Op::Sbx => self.sbx(cost),
            Op::Sec => self.sec(cost),
            Op::Sed => self.sed(cost),
            Op::Sei => self.sei(cost),
            Op::Shs => self.shs(cost),
            Op::Shx => self.shx(cost),
            Op::Shy => self.shy(cost),
            Op::Slo => self.slo(cost),
            Op::Sre => self.sre(cost),
            Op::Sta => self.sta(cost),
            Op::Stx => self.stx(cost),
            Op::Sty => self.sty(cost),
            Op::Tax => self.tax(cost),
            Op::Tay => self.tay(cost),
            Op::Tsx => self.tsx(cost),
            Op::Txa => self.txa(cost),
            Op::Txs => self.txs(cost),
            Op::Tya => self.tya(cost),
        }
    }

    /// Runs the instruction `opcode`, whose byte the program counter has
    /// already passed, and returns its cycles.
    fn run(&mut self, opcode: u8) -> (r: u8)
        ensures
            ({
                let e = dispatch(opcode, old(self).regs, old(self).address_spaces@);
                &&& final(self).regs == e.regs
                &&& final(self).address_spaces@ == e.mem
                &&& r == e.cycles
            }),
            final(self).irq == old(self).irq,
            final(self).nmi == old(self).nmi,
            final(self).opcode == old(self).opcode,
            final(self).cycles == old(self).cycles,
    {
        let (mode, op) = decode(opcode);
        let cost = self.address_mode(mode);
        self.operate(op, cost)
    }

    /// Runs the instruction `opcode`, whose byte the program counter has
    /// already passed, and adds its cycles to the count.
    pub fn exec_op(&mut self, opcode: u8)
        ensures
            ({
                let e = dispatch(opcode, old(self).regs, old(self).address_spaces@);
                &&& final(self).regs == e.regs
                &&& final(self).address_spaces@ == e.mem
                &&& final(self).cycles == old(self).cycles.wrapping_add(e.cycles as usize)
            }),
            final(self).irq == old(self).irq,
            final(self).nmi == old(self).nmi,
            final(self).opcode == old(self).opcode,
    {
        let n = self.run(opcode);
        self.cycles = self.cycles.wrapping_add(n as usize);
    }

    /// Clears A, X, Y and S, sets Z and clears the other flags, and loads
    /// the program counter from the reset vector at 0xFFFC/0xFFFD. The
    /// cycle count and the interrupt lines are kept.
    pub fn reset(&mut self)
        ensures
            final(self).regs == reset_regs(old(self).address_spaces@),
            final(self).address_spaces@ == old(self).address_spaces@,
            (final(self).regs, final(self).address_spaces@) == reset_spec(
                old(self).regs,
                old(self).address_spaces@,
            ),
            final(self).opcode == 0x4C,
            final(self).cycles == old(self).cycles,
            final(self).irq == old(self).irq,
            final(self).nmi == old(self).nmi,
            final(self).addr == old(self).addr,
            final(self).tmp == old(self).tmp,
    {
        let lo = self.read(0xFFFC);
        let hi = self.read(0xFFFD);
        self.regs = Regs {
            pc: make_word(lo, hi),
            a: 0,
            x: 0,
            y: 0,
            s: 0,
            n: false,
            v: false,
            d: false,
            i: false,
            z: true,
            c: false,
        };
        self.opcode = 0x4C;
    }

    /// The cycles run since the CPU was made, modulo the word size.
    pub fn get_cycles(&self) -> (r: usize)
        ensures
            r == self.cycles,
    {
        self.cycles
    }

    /// Enters the interrupt handler whose vector is at `vector`.
    fn interrupt(&mut self, vector: u16) -> (r: u8)
        requires
            vector == NMI_VECTOR || vector == IRQ_VECTOR,
        ensures
            ({
                let e = crate::isa::interrupt(old(self).regs, old(self).address_spaces@, vector);
                &&& final(self).regs == e.regs
                &&& final(self).address_spaces@ == e.mem
                &&& r == e.cycles
            }),
            final(self).frame(old(self)),
    {
        let pc = self.regs.pc;
        self.push((pc >> 8) as u8);
        self.push((pc & 0xFF) as u8);
        let p = self.regs.status_byte() & 0xEF;
        self.push(p);
        self.regs.i = true;
        let lo = self.read(vector);
        let hi = self.read(vector.wrapping_add(1));
        self.regs.pc = make_word(lo, hi);
        7
    }

    /// One step: takes a pending NMI (and clears its line), else an IRQ when
    /// I is clear, else fetches the opcode under the program counter and
    /// runs the instruction. Returns the cycles it took.
    pub fn step(&mut self) -> (r: usize)
        ensures
            ({
                let e = step_spec(
                    old(self).regs,
                    old(self).address_spaces@,
                    old(self).irq,
                    old(self).nmi,
                );
                &&& final(self).regs == e.regs
                &&& final(self).address_spaces@ == e.mem
                &&& r == e.cycles
            }),
            2 <= r <= 8,
            final(self).cycles == old(self).cycles.wrapping_add(r),
            final(self).opcode == (if old(self).nmi || (old(self).irq && !old(self).regs.i) {
                old(self).opcode
            } else {
                rd(old(self).address_spaces@, old(self).regs.pc)
            }),
            final(self).irq == old(self).irq,
            !final(self).nmi,
    {
        proof {
            crate::laws::law_step_cycles(
                old(self).regs,
                old(self).address_spaces@,
                old(self).irq,
                old(self).nmi,
            );
        }
        let start = self.cycles;
        if self.nmi {
            self.nmi = false;
            let n = self.interrupt(NMI_VECTOR);
            self.cycles = self.cycles.wrapping_add(n as usize);
        } else if self.irq && !self.regs.i {
            let n = self.interrupt(IRQ_VECTOR);
            self.cycles = self.cycles.wrapping_add(n as usize);
        } else {
            self.opcode = self.fetch();
            self.exec_op(self.opcode);
        }
        self.cycles.wrapping_sub(start)
    }
}

impl Clockable for CPU6502 {
    fn get_cycles(&self) -> usize {
        CPU6502::get_cycles(self)
    }

    fn step(&mut self) -> usize {
        CPU6502::step(self)
    }
}

} // verus!
