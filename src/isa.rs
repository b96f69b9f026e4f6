use vstd::prelude::*;

use crate::address_spaces::{peek, store, Region};

verus! {

/// The programmer-visible registers and flags of the 6502.
#[derive(Clone, Copy, PartialEq, Eq, Structural, Debug)]
pub struct Regs {
    pub pc: u16,
    pub a: u8,
    pub x: u8,
    pub y: u8,
    pub s: u8,
    pub n: bool,
    pub v: bool,
    pub d: bool,
    pub i: bool,
    pub z: bool,
    pub c: bool,
}

/// The addressing modes.
#[derive(Clone, Copy, PartialEq, Eq, Structural, Debug)]
pub enum Mode {
    Imp,
    Imm,
    Zp,
    Zpx,
    Zpy,
    Abs,
    Abx,
    Aby,
    Ind,
    Izx,
    Izy,
    Rel,
}

/// The operations, documented and undocumented. The `A` forms of the
/// shifts work on the accumulator; the others read, modify and write
/// memory. `JmpInd` is the indirect jump.
#[derive(Clone, Copy, PartialEq, Eq, Structural, Debug)]
pub enum Op {
    Adc,
    Ahx,
    Alr,
    Anc,
    And,
    Ane,
    Arr,
    Asl,
    AslA,
    Bcc,
    Bcs,
    Beq,
    Bit,
    Bmi,
    Bne,
    Bpl,
    Brk,
    Bvc,
    Bvs,
    Clc,
    Cld,
    Cli,
    Clv,
    Cmp,
    Cpx,
    Cpy,
    Dcp,
    Dec,
    Dex,
    Dey,
    Eor,
    Inc,
    Inx,
    Iny,
    Isc,
    Jmp,
    JmpInd,
    Jsr,
    Kil,
    Las,
    Lax,
    Lda,
    Ldx,
    Ldy,
    Lsr,
    LsrA,
    Nop,
    Ora,
    Pha,
    Php,
    Pla,
    Plp,
    Rla,
    Rol,
    RolA,
    Ror,
    RorA,
    Rra,
    Rti,
    Rts,
    Sax,
    Sbc,
    Sbx,
    Sec,
    Sed,
    Sei,
    Shs,
    Shx,
    Shy,
    Slo,
    Sre,
    Sta,
    Stx,
    Sty,
    Tax,
    Tay,
    Tsx,
    Txa,
    Txs,
    Tya,
}

/// The decode table: addressing mode and operation of each opcode.
pub open spec fn opcode_table(opcode: u8) -> (Mode, Op) {
    match opcode {
        0x00 => (Mode::Imp, Op::Brk),
        0x01 => (Mode::Izx, Op::Ora),
        0x02 => (Mode::Imp, Op::Kil),
        0x03 => (Mode::Izx, Op::Slo),
        0x04 => (Mode::Zp, Op::Nop),
        0x05 => (Mode::Zp, Op::Ora),
        0x06 => (Mode::Zp, Op::Asl),
        0x07 => (Mode::Zp, Op::Slo),
        0x08 => (Mode::Imp, Op::Php),
        0x09 => (Mode::Imm, Op::Ora),
        0x0A => (Mode::Imp, Op::AslA),
        0x0B => (Mode::Imm, Op::Anc),
        0x0C => (Mode::Abs, Op::Nop),
        0x0D => (Mode::Abs, Op::Ora),
        0x0E => (Mode::Abs, Op::Asl),
        0x0F => (Mode::Abs, Op::Slo),
        0x10 => (Mode::Rel, Op::Bpl),
        0x11 => (Mode::Izy, Op::Ora),
        0x12 => (Mode::Imp, Op::Kil),
        0x13 => (Mode::Izy, Op::Slo),
        0x14 => (Mode::Zpx, Op::Nop),
        0x15 => (Mode::Zpx, Op::Ora),
        0x16 => (Mode::Zpx, Op::Asl),
        0x17 => (Mode::Zpx, Op::Slo),
        0x18 => (Mode::Imp, Op::Clc),
        0x19 => (Mode::Aby, Op::Ora),
        0x1A => (Mode::Imp, Op::Nop),
        0x1B => (Mode::Aby, Op::Slo),
        0x1C => (Mode::Abx, Op::Nop),
        0x1D => (Mode::Abx, Op::Ora),
        0x1E => (Mode::Abx, Op::Asl),
        0x1F => (Mode::Abx, Op::Slo),
        0x20 => (Mode::Abs, Op::Jsr),
        0x21 => (Mode::Izx, Op::And),
        0x22 => (Mode::Imp, Op::Kil),
        0x23 => (Mode::Izx, Op::Rla),
        0x24 => (Mode::Zp, Op::Bit),
        0x25 => (Mode::Zp, Op::And),
        0x26 => (Mode::Zp, Op::Rol),
        0x27 => (Mode::Zp, Op::Rla),
        0x28 => (Mode::Imp, Op::Plp),
        0x29 => (Mode::Imm, Op::And),
        0x2A => (Mode::Imp, Op::RolA),
        0x2B => (Mode::Imm, Op::Anc),
        0x2C => (Mode::Abs, Op::Bit),
        0x2D => (Mode::Abs, Op::And),
        0x2E => (Mode::Abs, Op::Rol),
        0x2F => (Mode::Abs, Op::Rla),
        0x30 => (Mode::Rel, Op::Bmi),
        0x31 => (Mode::Izy, Op::And),
        0x32 => (Mode::Imp, Op::Kil),
        0x33 => (Mode::Izy, Op::Rla),
        0x34 => (Mode::Zpx, Op::Nop),
        0x35 => (Mode::Zpx, Op::And),
        0x36 => (Mode::Zpx, Op::Rol),
        0x37 => (Mode::Zpx, Op::Rla),
        0x38 => (Mode::Imp, Op::Sec),
        0x39 => (Mode::Aby, Op::And),
        0x3A => (Mode::Imp, Op::Nop),
        0x3B => (Mode::Aby, Op::Rla),
        0x3C => (Mode::Abx, Op::Nop),
        0x3D => (Mode::Abx, Op::And),
        0x3E => (Mode::Abx, Op::Rol),
        0x3F => (Mode::Abx, Op::Rla),
        0x40 => (Mode::Imp, Op::Rti),
        0x41 => (Mode::Izx, Op::Eor),
        0x42 => (Mode::Imp, Op::Kil),
        0x43 => (Mode::Izx, Op::Sre),
        0x44 => (Mode::Zp, Op::Nop),
        0x45 => (Mode::Zp, Op::Eor),
        0x46 => (Mode::Zp, Op::Lsr),
        0x47 => (Mode::Zp, Op::Sre),
        0x48 => (Mode::Imp, Op::Pha),
        0x49 => (Mode::Imm, Op::Eor),
        0x4A => (Mode::Imp, Op::LsrA),
        0x4B => (Mode::Imm, Op::Alr),
        0x4C => (Mode::Abs, Op::Jmp),
        0x4D => (Mode::Abs, Op::Eor),
        0x4E => (Mode::Abs, Op::Lsr),
        0x4F => (Mode::Abs, Op::Sre),
        0x50 => (Mode::Rel, Op::Bvc),
        0x51 => (Mode::Izy, Op::Eor),
        0x52 => (Mode::Imp, Op::Kil),
        0x53 => (Mode::Izy, Op::Sre),
        0x54 => (Mode::Zpx, Op::Nop),
        0x55 => (Mode::Zpx, Op::Eor),
        0x56 => (Mode::Zpx, Op::Lsr),
        0x57 => (Mode::Zpx, Op::Sre),
        0x58 => (Mode::Imp, Op::Cli),
        0x59 => (Mode::Aby, Op::Eor),
        0x5A => (Mode::Imp, Op::Nop),
        0x5B => (Mode::Aby, Op::Sre),
        0x5C => (Mode::Abx, Op::Nop),
        0x5D => (Mode::Abx, Op::Eor),
        0x5E => (Mode::Abx, Op::Lsr),
        0x5F => (Mode::Abx, Op::Sre),
        0x60 => (Mode::Imp, Op::Rts),
        0x61 => (Mode::Izx, Op::Adc),
        0x62 => (Mode::Imp, Op::Kil),
        0x63 => (Mode::Izx, Op::Rra),
        0x64 => (Mode::Zp, Op::Nop),
        0x65 => (Mode::Zp, Op::Adc),
        0x66 => (Mode::Zp, Op::Ror),
        0x67 => (Mode::Zp, Op::Rra),
        0x68 => (Mode::Imp, Op::Pla),
        0x69 => (Mode::Imm, Op::Adc),
        0x6A => (Mode::Imp, Op::RorA),
        0x6B => (Mode::Imm, Op::Arr),
        0x6C => (Mode::Ind, Op::JmpInd),
        0x6D => (Mode::Abs, Op::Adc),
        0x6E => (Mode::Abs, Op::Ror),
        0x6F => (Mode::Abs, Op::Rra),
        0x70 => (Mode::Rel, Op::Bvs),
        0x71 => (Mode::Izy, Op::Adc),
        0x72 => (Mode::Imp, Op::Kil),
        0x73 => (Mode::Izy, Op::Rra),
        0x74 => (Mode::Zpx, Op::Nop),
        0x75 => (Mode::Zpx, Op::Adc),
        0x76 => (Mode::Zpx, Op::Ror),
        0x77 => (Mode::Zpx, Op::Rra),
        0x78 => (Mode::Imp, Op::Sei),
        0x79 => (Mode::Aby, Op::Adc),
        0x7A => (Mode::Imp, Op::Nop),
        0x7B => (Mode::Aby, Op::Rra),
        0x7C => (Mode::Abx, Op::Nop),
        0x7D => (Mode::Abx, Op::Adc),
        0x7E => (Mode::Abx, Op::Ror),
        0x7F => (Mode::Abx, Op::Rra),
        0x80 => (Mode::Imm, Op::Nop),
        0x81 => (Mode::Izx, Op::Sta),
        0x82 => (Mode::Imm, Op::Nop),
        0x83 => (Mode::Izx, Op::Sax),
        0x84 => (Mode::Zp, Op::Sty),
        0x85 => (Mode::Zp, Op::Sta),
        0x86 => (Mode::Zp, Op::Stx),
        0x87 => (Mode::Zp, Op::Sax),
        0x88 => (Mode::Imp, Op::Dey),
        0x89 => (Mode::Imm, Op::Nop),
        0x8A => (Mode::Imp, Op::Txa),
        0x8B => (Mode::Imm, Op::Ane),
        0x8C => (Mode::Abs, Op::Sty),
        0x8D => (Mode::Abs, Op::Sta),
        0x8E => (Mode::Abs, Op::Stx),
        0x8F => (Mode::Abs, Op::Sax),
        0x90 => (Mode::Rel, Op::Bcc),
        0x91 => (Mode::Izy, Op::Sta),
        0x92 => (Mode::Imp, Op::Kil),
        0x93 => (Mode::Izy, Op::Ahx),
        0x94 => (Mode::Zpx, Op::Sty),
        0x95 => (Mode::Zpx, Op::Sta),
        0x96 => (Mode::Zpy, Op::Stx),
        0x97 => (Mode::Zpy, Op::Sax),
        0x98 => (Mode::Imp, Op::Tya),
        0x99 => (Mode::Aby, Op::Sta),
        0x9A => (Mode::Imp, Op::Txs),
        0x9B => (Mode::Aby, Op::Shs),
        0x9C => (Mode::Abx, Op::Shy),
        0x9D => (Mode::Abx, Op::Sta),
        0x9E => (Mode::Aby, Op::Shx),
        0x9F => (Mode::Aby, Op::Ahx),
        0xA0 => (Mode::Imm, Op::Ldy),
        0xA1 => (Mode::Izx, Op::Lda),
        0xA2 => (Mode::Imm, Op::Ldx),
        0xA3 => (Mode::Izx, Op::Lax),
        0xA4 => (Mode::Zp, Op::Ldy),
        0xA5 => (Mode::Zp, Op::Lda),
        0xA6 => (Mode::Zp, Op::Ldx),
        0xA7 => (Mode::Zp, Op::Lax),
        0xA8 => (Mode::Imp, Op::Tay),
        0xA9 => (Mode::Imm, Op::Lda),
        0xAA => (Mode::Imp, Op::Tax),
        0xAB => (Mode::Imm, Op::Lax),
        0xAC => (Mode::Abs, Op::Ldy),
        0xAD => (Mode::Abs, Op::Lda),
        0xAE => (Mode::Abs, Op::Ldx),
        0xAF => (Mode::Abs, Op::Lax),
        0xB0 => (Mode::Rel, Op::Bcs),
        0xB1 => (Mode::Izy, Op::Lda),
        0xB2 => (Mode::Imp, Op::Kil),
        0xB3 => (Mode::Izy, Op::Lax),
        0xB4 => (Mode::Zpx, Op::Ldy),
        0xB5 => (Mode::Zpx, Op::Lda),
        0xB6 => (Mode::Zpy, Op::Ldx),
        0xB7 => (Mode::Zpy, Op::Lax),
        0xB8 => (Mode::Imp, Op::Clv),
        0xB9 => (Mode::Aby, Op::Lda),
        0xBA => (Mode::Imp, Op::Tsx),
        0xBB => (Mode::Aby, Op::Las),
        0xBC => (Mode::Abx, Op::Ldy),
        0xBD => (Mode::Abx, Op::Lda),
        0xBE => (Mode::Aby, Op::Ldx),
        0xBF => (Mode::Aby, Op::Lax),
        0xC0 => (Mode::Imm, Op::Cpy),
        0xC1 => (Mode::Izx, Op::Cmp),
        0xC2 => (Mode::Imm, Op::Nop),
        0xC3 => (Mode::Izx, Op::Dcp),
        0xC4 => (Mode::Zp, Op::Cpy),
        0xC5 => (Mode::Zp, Op::Cmp),
        0xC6 => (Mode::Zp, Op::Dec),
        0xC7 => (Mode::Zp, Op::Dcp),
        0xC8 => (Mode::Imp, Op::Iny),
        0xC9 => (Mode::Imm, Op::Cmp),
        0xCA => (Mode::Imp, Op::Dex),
        0xCB => (Mode::Imm, Op::Sbx),
        0xCC => (Mode::Abs, Op::Cpy),
        0xCD => (Mode::Abs, Op::Cmp),
        0xCE => (Mode::Abs, Op::Dec),
        0xCF => (Mode::Abs, Op::Dcp),
        0xD0 => (Mode::Rel, Op::Bne),
        0xD1 => (Mode::Izy, Op::Cmp),
        0xD2 => (Mode::Imp, Op::Kil),
        0xD3 => (Mode::Izy, Op::Dcp),
        0xD4 => (Mode::Zpx, Op::Nop),
        0xD5 => (Mode::Zpx, Op::Cmp),
        0xD6 => (Mode::Zpx, Op::Dec),
        0xD7 => (Mode::Zpx, Op::Dcp),
        0xD8 => (Mode::Imp, Op::Cld),
        0xD9 => (Mode::Aby, Op::Cmp),
        0xDA => (Mode::Imp, Op::Nop),
        0xDB => (Mode::Aby, Op::Dcp),
        0xDC => (Mode::Abx, Op::Nop),
        0xDD => (Mode::Abx, Op::Cmp),
        0xDE => (Mode::Abx, Op::Dec),
        0xDF => (Mode::Abx, Op::Dcp),
        0xE0 => (Mode::Imm, Op::Cpx),
        0xE1 => (Mode::Izx, Op::Sbc),
        0xE2 => (Mode::Imm, Op::Nop),
        0xE3 => (Mode::Izx, Op::Isc),
        0xE4 => (Mode::Zp, Op::Cpx),
        0xE5 => (Mode::Zp, Op::Sbc),
        0xE6 => (Mode::Zp, Op::Inc),
        0xE7 => (Mode::Zp, Op::Isc),
        0xE8 => (Mode::Imp, Op::Inx),
        0xE9 => (Mode::Imm, Op::Sbc),
        0xEA => (Mode::Imp, Op::Nop),
        0xEB => (Mode::Imm, Op::Sbc),
        0xEC => (Mode::Abs, Op::Cpx),
        0xED => (Mode::Abs, Op::Sbc),
        0xEE => (Mode::Abs, Op::Inc),
        0xEF => (Mode::Abs, Op::Isc),
        0xF0 => (Mode::Rel, Op::Beq),
        0xF1 => (Mode::Izy, Op::Sbc),
        0xF2 => (Mode::Imp, Op::Kil),
        0xF3 => (Mode::Izy, Op::Isc),
        0xF4 => (Mode::Zpx, Op::Nop),
        0xF5 => (Mode::Zpx, Op::Sbc),
        0xF6 => (Mode::Zpx, Op::Inc),
        0xF7 => (Mode::Zpx, Op::Isc),
        0xF8 => (Mode::Imp, Op::Sed),
        0xF9 => (Mode::Aby, Op::Sbc),
        0xFA => (Mode::Imp, Op::Nop),
        0xFB => (Mode::Aby, Op::Isc),
        0xFC => (Mode::Abx, Op::Nop),
        0xFD => (Mode::Abx, Op::Sbc),
        0xFE => (Mode::Abx, Op::Inc),
        _ => (Mode::Abx, Op::Isc),
    }
}

/// The byte a read of `a` yields.
pub open spec fn rd(m: Seq<Region>, a: u16) -> u8 {
    peek(m, a)
}

/// A little-endian 16-bit value from its two bytes.
pub open spec fn word(lo: u8, hi: u8) -> u16 {
    ((hi as u16) << 8u16) | (lo as u16)
}

/// The address of stack slot `s`, in page one.
pub open spec fn stack(s: u8) -> u16 {
    (0x100 + s) as u16
}

/// The memory after pushing `v` at stack slot `s`.
pub open spec fn push(m: Seq<Region>, s: u8, v: u8) -> Seq<Region> {
    store(m, stack(s), v)
}

/// The page of an address: its high byte.
pub open spec fn page(x: u16) -> u16 {
    x & 0xFF00u16
}

/// The low byte of a 16-bit scratch value.
pub open spec fn low(t: u16) -> u8 {
    (t & 0xFFu16) as u8
}

/// The carry flag as a number.
pub open spec fn carry(r: Regs) -> u16 {
    if r.c {
        1
    } else {
        0
    }
}

/// Z and N from the low byte of `v`.
pub open spec fn fnz(r: Regs, v: u16) -> Regs {
    Regs { z: (v & 0xFFu16) == 0, n: (v & 0x80u16) != 0, ..r }
}

/// Z and N, and C from bit 8 of `v` (carry out).
pub open spec fn fnzc(r: Regs, v: u16) -> Regs {
    Regs { c: (v & 0x100u16) != 0, ..fnz(r, v) }
}

/// Z and N, and C set where bit 8 of `v` is clear (no borrow).
pub open spec fn fnzb(r: Regs, v: u16) -> Regs {
    Regs { c: (v & 0x100u16) == 0, ..fnz(r, v) }
}

/// The status byte as pushed: bits 4 and 5 set.
pub open spec fn status_byte(r: Regs) -> u8 {
    (if r.n { 0x80u8 } else { 0u8 }) | (if r.v { 0x40u8 } else { 0u8 }) | 0x30u8 | (if r.d {
        0x08u8
    } else {
        0u8
    }) | (if r.i { 0x04u8 } else { 0u8 }) | (if r.z { 0x02u8 } else { 0u8 }) | (if r.c {
        0x01u8
    } else {
        0u8
    })
}

/// The six flags restored from a status byte; bits 4 and 5 are dropped.
pub open spec fn with_status(r: Regs, p: u8) -> Regs {
    Regs {
        n: (p & 0x80u8) != 0,
        v: (p & 0x40u8) != 0,
        d: (p & 0x08u8) != 0,
        i: (p & 0x04u8) != 0,
        z: (p & 0x02u8) != 0,
        c: (p & 0x01u8) != 0,
        ..r
    }
}

/// ASL of a byte, with the carry out in bit 8.
pub open spec fn asl_t(v: u8) -> u16 {
    (v as u16) << 1u16
}

/// LSR of a byte, with the carry out in bit 8.
pub open spec fn lsr_t(v: u8) -> u16 {
    (((v as u16) & 1u16) << 8u16) | ((v as u16) >> 1u16)
}

/// ROL of a byte through carry `c`, with the carry out in bit 8.
pub open spec fn rol_t(v: u8, c: u16) -> u16 {
    ((v as u16) << 1u16) | c
}

/// ROR of a byte through carry `c`, with the carry out in bit 8.
pub open spec fn ror_t(v: u8, c: u16) -> u16 {
    (((v as u16) & 1u16) << 8u16) | (c << 7u16) | ((v as u16) >> 1u16)
}

/// ADC of `m` into the accumulator, binary or decimal after flag D.
pub open spec fn adc(r: Regs, m: u8) -> Regs {
    let a = r.a as u16;
    let mm = m as u16;
    let sum = (a + mm + carry(r)) as u16;
    if !r.d {
        Regs {
            z: (sum & 0xFFu16) == 0,
            n: (sum & 0x80u16) != 0,
            v: (!(a ^ mm) & (a ^ sum) & 0x80u16) != 0,
            c: (sum & 0x100u16) != 0,
            a: (sum & 0xFFu16) as u8,
            ..r
        }
    } else {
        let al0 = ((a & 0x0Fu16) + (mm & 0x0Fu16) + carry(r)) as u16;
        let al = if al0 > 9 { (al0 + 6) as u16 } else { al0 };
        let ah0 = ((a >> 4u16) + (mm >> 4u16) + (if al > 15 { 1u16 } else { 0u16 })) as u16;
        let ah = if ah0 > 9 { (ah0 + 6) as u16 } else { ah0 };
        Regs {
            z: (sum & 0xFFu16) == 0,
            n: (ah0 & 8u16) != 0,
            v: (!(a ^ mm) & (a ^ (ah0 << 4u16)) & 0x80u16) != 0,
            c: ah > 15,
            a: (((ah << 4u16) | (al & 0x0Fu16)) & 0xFFu16) as u8,
            ..r
        }
    }
}

/// SBC of `m` from the accumulator: `A - M - (1 - C)`, C set where no
/// borrow occurs; in decimal mode the digits are corrected by six.
pub open spec fn sbc(r: Regs, m: u8) -> Regs {
    let b: u8 = if r.c { 0 } else { 1 };
    let diff = r.a - m - b;
    let res = r.a.wrapping_sub(m).wrapping_sub(b);
    let flags = Regs {
        z: res == 0,
        n: (res & 0x80u8) != 0,
        v: ((r.a ^ m) & (r.a ^ res) & 0x80u8) != 0,
        c: diff >= 0,
        ..r
    };
    if !r.d {
        Regs { a: res, ..flags }
    } else {
        let al0 = (r.a & 0x0Fu8) - (m & 0x0Fu8) - b;
        let al = if al0 < 0 { al0 - 6 } else { al0 };
        let ah0 = (r.a >> 4u8) - (m >> 4u8) - (if al < 0 { 1int } else { 0int });
        let ah = if ah0 < 0 { ah0 - 6 } else { ah0 };
        Regs { a: ((ah % 16) * 16 + al % 16) as u8, ..flags }
    }
}

/// A comparison of `reg` with `m` in nine bits.
pub open spec fn compare(r: Regs, reg: u8, m: u8) -> Regs {
    fnzb(r, (reg as u16).wrapping_sub(m as u16))
}

/// The high byte of an address plus one, as the SHX family ANDs it in.
pub open spec fn hi1(ea: u16) -> u8 {
    ((ea >> 8u16) as u8).wrapping_add(1)
}

/// ARR: AND, then ROR of the accumulator, with the decimal-mode rules for
/// the result, V and C.
pub open spec fn arr(r: Regs, m: u8) -> Regs {
    let t = r.a & m;
    let rot = (t >> 1u8) | (if r.c { 0x80u8 } else { 0u8 });
    if !r.d {
        Regs {
            a: rot,
            c: (rot & 0x40u8) != 0,
            v: (((rot >> 6u8) ^ (rot >> 5u8)) & 1u8) != 0,
            ..fnz(r, rot as u16)
        }
    } else {
        let lo_fixed = if ((t & 0x0Fu8) as u16) + ((t & 0x01u8) as u16) > 5 {
            (rot & 0xF0u8) | (rot.wrapping_add(6) & 0x0Fu8)
        } else {
            rot
        };
        let hi_carry = ((t & 0xF0u8) as u16) + ((t & 0x10u8) as u16) > 0x50;
        Regs {
            a: if hi_carry { lo_fixed.wrapping_add(0x60) } else { lo_fixed },
            n: r.c,
            z: rot == 0,
            v: ((t ^ rot) & 0x40u8) != 0,
            c: hi_carry,
            ..r
        }
    }
}

/// What an addressing mode yields: the effective address, the program
/// counter after the operand, and the cycles of the instruction so far
/// (opcode fetch included).
pub struct Operand {
    pub ea: u16,
    pub pc: u16,
    pub cycles: u8,
}

/// The extra cycle of an indexed access that crosses a page.
pub open spec fn cross(base: u16, ea: u16) -> u8 {
    if page(base) != page(ea) {
        1
    } else {
        0
    }
}

/// The target of a relative branch: `pc` plus the signed displacement `d`.
pub open spec fn rel_target(pc: u16, d: u8) -> u16 {
    if d < 0x80 {
        pc.wrapping_add(d as u16)
    } else {
        pc.wrapping_add(d as u16).wrapping_sub(0x100)
    }
}

/// The addressing step of `mode`; `r.pc` points past the opcode.
pub open spec fn address(mode: Mode, r: Regs, m: Seq<Region>) -> Operand {
    let pc = r.pc;
    let pc1 = pc.wrapping_add(1);
    let pc2 = pc.wrapping_add(2);
    let b = rd(m, pc);
    let abs = word(b, rd(m, pc1));
    match mode {
        Mode::Imp => Operand { ea: pc, pc: pc, cycles: 2 },
        Mode::Imm => Operand { ea: pc, pc: pc1, cycles: 2 },
        Mode::Zp => Operand { ea: b as u16, pc: pc1, cycles: 3 },
        Mode::Zpx => Operand { ea: ((b as u16) + (r.x as u16)) as u16 & 0xFFu16, pc: pc1, cycles: 4 },
        Mode::Zpy => Operand { ea: ((b as u16) + (r.y as u16)) as u16 & 0xFFu16, pc: pc1, cycles: 4 },
        Mode::Abs => Operand { ea: abs, pc: pc2, cycles: 4 },
        Mode::Abx => {
            let ea = abs.wrapping_add(r.x as u16);
            Operand { ea, pc: pc2, cycles: (4 + cross(abs, ea)) as u8 }
        },
        Mode::Aby => {
            let ea = abs.wrapping_add(r.y as u16);
            Operand { ea, pc: pc2, cycles: (4 + cross(abs, ea)) as u8 }
        },
        Mode::Ind => {
            let hi_at = (abs & 0xFF00u16) | (abs.wrapping_add(1) & 0xFFu16);
            Operand { ea: word(rd(m, abs), rd(m, hi_at)), pc: pc2, cycles: 5 }
        },
        Mode::Izx => {
            let z = ((b as u16) + (r.x as u16)) as u16 & 0xFFu16;
            let z1 = ((z + 1) as u16) & 0xFFu16;
            Operand { ea: word(rd(m, z), rd(m, z1)), pc: pc1, cycles: 6 }
        },
        Mode::Izy => {
            let z = b as u16;
            let z1 = ((z + 1) as u16) & 0xFFu16;
            let base = word(rd(m, z), rd(m, z1));
            let ea = base.wrapping_add(r.y as u16);
            Operand { ea, pc: pc1, cycles: (5 + cross(base, ea)) as u8 }
        },
        Mode::Rel => Operand { ea: rel_target(pc1, b), pc: pc1, cycles: 2 },
    }
}

/// What an operation does: the registers and memory after it, and the
/// cycles it adds to those of its addressing mode.
pub struct Effect {
    pub regs: Regs,
    pub mem: Seq<Region>,
    pub cycles: int,
}

/// Registers only.
pub open spec fn regs_only(r: Regs, m: Seq<Region>) -> Effect {
    Effect { regs: r, mem: m, cycles: 0 }
}

/// A store of `v` at `ea`.
pub open spec fn store_only(r: Regs, m: Seq<Region>, ea: u16, v: u8) -> Effect {
    Effect { regs: r, mem: store(m, ea, v), cycles: 0 }
}

/// A read-modify-write: the registers, the byte written back, two cycles.
pub open spec fn rmw(r: Regs, m: Seq<Region>, ea: u16, v: u8) -> Effect {
    Effect { regs: r, mem: store(m, ea, v), cycles: 2 }
}

/// A conditional branch to `ea`: one cycle when taken, two when it also
/// lands on another page.
pub open spec fn branch(r: Regs, m: Seq<Region>, ea: u16, taken: bool) -> Effect {
    if taken {
        Effect {
            regs: Regs { pc: ea, ..r },
            mem: m,
            cycles: if page(ea) != page(r.pc) { 2 } else { 1 },
        }
    } else {
        regs_only(r, m)
    }
}

/// The operation step of `op` on effective address `ea`; `r.pc` points
/// past the operand.
pub open spec fn operate(op: Op, r: Regs, m: Seq<Region>, ea: u16) -> Effect {
    let v = rd(m, ea);
    match op {
        Op::Adc => regs_only(adc(r, v), m),
        Op::Sbc => regs_only(sbc(r, v), m),
        Op::And => regs_only(fnz(Regs { a: r.a & v, ..r }, (r.a & v) as u16), m),
        Op::Ora => regs_only(fnz(Regs { a: r.a | v, ..r }, (r.a | v) as u16), m),
        Op::Eor => regs_only(fnz(Regs { a: r.a ^ v, ..r }, (r.a ^ v) as u16), m),
        Op::Lda => regs_only(fnz(Regs { a: v, ..r }, v as u16), m),
        Op::Ldx => regs_only(fnz(Regs { x: v, ..r }, v as u16), m),
        Op::Ldy => regs_only(fnz(Regs { y: v, ..r }, v as u16), m),
        Op::Lax => regs_only(fnz(Regs { a: v, x: v, ..r }, v as u16), m),
        Op::Las => {
            let t = v & r.s;
            regs_only(fnz(Regs { a: t, x: t, s: t, ..r }, t as u16), m)
        },
        Op::Sta => store_only(r, m, ea, r.a),
        Op::Stx => store_only(r, m, ea, r.x),
        Op::Sty => store_only(r, m, ea, r.y),
        Op::Sax => store_only(r, m, ea, r.a & r.x),
        Op::Shx => store_only(r, m, ea, r.x & hi1(ea)),
        Op::Shy => store_only(r, m, ea, r.y & hi1(ea)),
        Op::Ahx => store_only(r, m, ea, r.a & r.x & hi1(ea)),
        Op::Shs => store_only(Regs { s: r.a & r.x, ..r }, m, ea, r.a & r.x & hi1(ea)),
        Op::Cmp => regs_only(compare(r, r.a, v), m),
        Op::Cpx => regs_only(compare(r, r.x, v), m),
        Op::Cpy => regs_only(compare(r, r.y, v), m),
        Op::Bit => regs_only(
            Regs { n: (v & 0x80u8) != 0, v: (v & 0x40u8) != 0, z: (r.a & v) == 0, ..r },
            m,
        ),
        Op::Asl => rmw(fnzc(r, asl_t(v)), m, ea, low(asl_t(v))),
        Op::Lsr => rmw(fnzc(r, lsr_t(v)), m, ea, low(lsr_t(v))),
        Op::Rol => rmw(fnzc(r, rol_t(v, carry(r))), m, ea, low(rol_t(v, carry(r)))),
        Op::Ror => rmw(fnzc(r, ror_t(v, carry(r))), m, ea, low(ror_t(v, carry(r)))),
        Op::AslA => regs_only(fnzc(Regs { a: low(asl_t(r.a)), ..r }, asl_t(r.a)), m),
        Op::LsrA => regs_only(fnzc(Regs { a: low(lsr_t(r.a)), ..r }, lsr_t(r.a)), m),
        Op::RolA => regs_only(
            fnzc(Regs { a: low(rol_t(r.a, carry(r))), ..r }, rol_t(r.a, carry(r))),
            m,
        ),
        Op::RorA => regs_only(
            fnzc(Regs { a: low(ror_t(r.a, carry(r))), ..r }, ror_t(r.a, carry(r))),
            m,
        ),
        Op::Inc => rmw(fnz(r, v.wrapping_add(1) as u16), m, ea, v.wrapping_add(1)),
        Op::Dec => rmw(fnz(r, v.wrapping_sub(1) as u16), m, ea, v.wrapping_sub(1)),
        Op::Slo => {
            let t = asl_t(v);
            let a = r.a | low(t);
            rmw(fnz(Regs { a, c: (t & 0x100u16) != 0, ..r }, a as u16), m, ea, low(t))
        },
        Op::Rla => {
            let t = rol_t(v, carry(r));
            let a = r.a & low(t);
            rmw(fnz(Regs { a, c: (t & 0x100u16) != 0, ..r }, a as u16), m, ea, low(t))
        },
        Op::Sre => {
            let t = lsr_t(v);
            let a = r.a ^ low(t);
            rmw(fnz(Regs { a, c: (t & 0x100u16) != 0, ..r }, a as u16), m, ea, low(t))
        },
        Op::Rra => {
            let t = ror_t(v, carry(r));
            rmw(adc(Regs { c: (t & 0x100u16) != 0, ..r }, low(t)), m, ea, low(t))
        },
        Op::Dcp => rmw(compare(r, r.a, v.wrapping_sub(1)), m, ea, v.wrapping_sub(1)),
        Op::Isc => rmw(sbc(r, v.wrapping_add(1)), m, ea, v.wrapping_add(1)),
        Op::Anc => {
            let a = r.a & v;
            regs_only(Regs { a, c: (a & 0x80u8) != 0, ..fnz(r, a as u16) }, m)
        },
        Op::Alr => {
            let t = lsr_t(r.a & v);
            regs_only(fnzc(Regs { a: low(t), ..r }, t), m)
        },
        Op::Arr => regs_only(arr(r, v), m),
        Op::Ane => {
            let a = (r.a | 0xEEu8) & r.x & v;
            regs_only(fnz(Regs { a, ..r }, a as u16), m)
        },
        Op::Sbx => {
            let t = ((r.a & r.x) as u16).wrapping_sub(v as u16);
            regs_only(fnzb(Regs { x: low(t), ..r }, t), m)
        },
        Op::Inx => regs_only(fnz(Regs { x: r.x.wrapping_add(1), ..r }, r.x.wrapping_add(1) as u16), m),
        Op::Iny => regs_only(fnz(Regs { y: r.y.wrapping_add(1), ..r }, r.y.wrapping_add(1) as u16), m),
        Op::Dex => regs_only(fnz(Regs { x: r.x.wrapping_sub(1), ..r }, r.x.wrapping_sub(1) as u16), m),
        Op::Dey => regs_only(fnz(Regs { y: r.y.wrapping_sub(1), ..r }, r.y.wrapping_sub(1) as u16), m),
        Op::Tax => regs_only(fnz(Regs { x: r.a, ..r }, r.a as u16), m),
        Op::Tay => regs_only(fnz(Regs { y: r.a, ..r }, r.a as u16), m),
        Op::Tsx => regs_only(fnz(Regs { x: r.s, ..r }, r.s as u16), m),
        Op::Txa => regs_only(fnz(Regs { a: r.x, ..r }, r.x as u16), m),
        Op::Tya => regs_only(fnz(Regs { a: r.y, ..r }, r.y as u16), m),
        Op::Txs => regs_only(Regs { s: r.x, ..r }, m),
        Op::Clc => regs_only(Regs { c: false, ..r }, m),
        Op::Cld => regs_only(Regs { d: false, ..r }, m),
        Op::Cli => regs_only(Regs { i: false, ..r }, m),
        Op::Clv => regs_only(Regs { v: false, ..r }, m),
        Op::Sec => regs_only(Regs { c: true, ..r }, m),
        Op::Sed => regs_only(Regs { d: true, ..r }, m),
        Op::Sei => regs_only(Regs { i: true, ..r }, m),
        Op::Bcc => branch(r, m, ea, !r.c),
        Op::Bcs => branch(r, m, ea, r.c),
        Op::Beq => branch(r, m, ea, r.z),
        Op::Bne => branch(r, m, ea, !r.z),
        Op::Bmi => branch(r, m, ea, r.n),
        Op::Bpl => branch(r, m, ea, !r.n),
        Op::Bvc => branch(r, m, ea, !r.v),
        Op::Bvs => branch(r, m, ea, r.v),
        Op::Jmp => Effect { regs: Regs { pc: ea, ..r }, mem: m, cycles: -1 },
        Op::JmpInd => Effect { regs: Regs { pc: ea, ..r }, mem: m, cycles: 1 },
        Op::Jsr => {
            let ret = r.pc.wrapping_sub(1);
            let m1 = push(m, r.s, (ret >> 8u16) as u8);
            let m2 = push(m1, r.s.wrapping_sub(1), (ret & 0xFFu16) as u8);
            Effect { regs: Regs { pc: ea, s: r.s.wrapping_sub(2), ..r }, mem: m2, cycles: 2 }
        },
        Op::Rts => {
            let lo = rd(m, stack(r.s.wrapping_add(1)));
            let hi = rd(m, stack(r.s.wrapping_add(2)));
            Effect {
                regs: Regs { pc: word(lo, hi).wrapping_add(1), s: r.s.wrapping_add(2), ..r },
                mem: m,
                cycles: 4,
            }
        },
        Op::Rti => {
            let p = rd(m, stack(r.s.wrapping_add(1)));
            let lo = rd(m, stack(r.s.wrapping_add(2)));
            let hi = rd(m, stack(r.s.wrapping_add(3)));
            Effect {
                regs: with_status(Regs { pc: word(lo, hi), s: r.s.wrapping_add(3), ..r }, p),
                mem: m,
                cycles: 4,
            }
        },
        Op::Brk => {
            let pc1 = r.pc.wrapping_add(1);
            let m1 = push(m, r.s, (pc1 >> 8u16) as u8);
            let m2 = push(m1, r.s.wrapping_sub(1), (pc1 & 0xFFu16) as u8);
            let m3 = push(m2, r.s.wrapping_sub(2), status_byte(r));
            Effect {
                regs: Regs {
                    pc: word(rd(m3, 0xFFFE), rd(m3, 0xFFFF)),
                    s: r.s.wrapping_sub(3),
                    i: true,
                    d: false,
                    ..r
                },
                mem: m3,
                cycles: 5,
            }
        },
        Op::Pha => Effect {
            regs: Regs { s: r.s.wrapping_sub(1), ..r },
            mem: push(m, r.s, r.a),
            cycles: 1,
        },
        Op::Php => Effect {
            regs: Regs { s: r.s.wrapping_sub(1), ..r },
            mem: push(m, r.s, status_byte(r)),
            cycles: 1,
        },
        Op::Pla => {
            let s = r.s.wrapping_add(1);
            let a = rd(m, stack(s));
            Effect { regs: fnz(Regs { a, s, ..r }, a as u16), mem: m, cycles: 2 }
        },
        Op::Plp => {
            let s = r.s.wrapping_add(1);
            Effect { regs: with_status(Regs { s, ..r }, rd(m, stack(s))), mem: m, cycles: 2 }
        },
        Op::Nop => regs_only(r, m),
        Op::Kil => regs_only(Regs { pc: r.pc.wrapping_sub(1), ..r }, m),
    }
}

/// One instruction after its opcode was fetched: `r.pc` points past the
/// opcode.
pub open spec fn dispatch(opcode: u8, r: Regs, m: Seq<Region>) -> Effect {
    let (mode, op) = opcode_table(opcode);
    let o = address(mode, r, m);
    let e = operate(op, Regs { pc: o.pc, ..r }, m, o.ea);
    Effect { regs: e.regs, mem: e.mem, cycles: o.cycles + e.cycles }
}

/// The whole of one instruction: registers, memory and cycles after it.
/// `r.pc` points at the opcode.
pub open spec fn execute(r: Regs, m: Seq<Region>) -> Effect {
    dispatch(rd(m, r.pc), Regs { pc: r.pc.wrapping_add(1), ..r }, m)
}

/// Entering an interrupt handler: push the program counter and the status
/// byte with bit 4 clear, set I, and load the program counter from the
/// vector at `vector` and `vector + 1`. Seven cycles.
pub open spec fn interrupt(r: Regs, m: Seq<Region>, vector: u16) -> Effect {
    let m1 = push(m, r.s, (r.pc >> 8u16) as u8);
    let m2 = push(m1, r.s.wrapping_sub(1), (r.pc & 0xFFu16) as u8);
    let m3 = push(m2, r.s.wrapping_sub(2), status_byte(r) & 0xEFu8);
    Effect {
        regs: Regs {
            pc: word(rd(m3, vector), rd(m3, vector.wrapping_add(1))),
            s: r.s.wrapping_sub(3),
            i: true,
            ..r
        },
        mem: m3,
        cycles: 7,
    }
}

/// The vector of the non-maskable interrupt.
pub const NMI_VECTOR: u16 = 0xFFFA;

/// The vector of IRQ and BRK.
pub const IRQ_VECTOR: u16 = 0xFFFE;

/// One step: a pending NMI is taken first, then an IRQ when I is clear;
/// otherwise the instruction under the program counter runs.
pub open spec fn step_spec(r: Regs, m: Seq<Region>, irq: bool, nmi: bool) -> Effect {
    if nmi {
        interrupt(r, m, NMI_VECTOR)
    } else if irq && !r.i {
        interrupt(r, m, IRQ_VECTOR)
    } else {
        execute(r, m)
    }
}

/// The registers and memory that a reset leaves.
pub open spec fn reset_spec(r: Regs, m: Seq<Region>) -> (Regs, Seq<Region>) {
    (reset_regs(m), m)
}

/// The registers after a reset: all cleared but Z, and the program counter
/// loaded from the reset vector.
pub open spec fn reset_regs(m: Seq<Region>) -> Regs {
    Regs {
        pc: word(rd(m, 0xFFFC), rd(m, 0xFFFD)),
        a: 0,
        x: 0,
        y: 0,
        s: 0,
        n: false,
        v: false,
        d: false,
        i: false,
        z: true,
        c: false,
    }
}

} // verus!
