use vstd::prelude::*;

use crate::isa::{adc, arr, compare, fnz, fnzb, fnzc, sbc, status_byte, with_status, Regs};

verus! {

proof fn lemma_nibbles(x: u16)
    requires
        x < 256,
    ensures
        x & 0x0F <= 15,
        x >> 4u16 <= 15,
{
    assert(x & 0x0F <= 15 && x >> 4u16 <= 15) by (bit_vector)
        requires
            x < 256,
    ;
}

proof fn lemma_mod16(x: int)
    requires
        -32 <= x < 32,
    ensures
        x % 16 == (if x >= 16 {
            x - 16
        } else if x >= 0 {
            x
        } else if x >= -16 {
            x + 16
        } else {
            x + 32
        }),
{
    assert(x % 16 == (if x >= 16 {
        x - 16
    } else if x >= 0 {
        x
    } else if x >= -16 {
        x + 16
    } else {
        x + 32
    })) by (nonlinear_arith)
        requires
            -32 <= x < 32,
    ;
}

/// The low four bits of a small signed value, as its decimal digit slot.
fn digit(x: i16) -> (r: i16)
    requires
        -32 <= x < 32,
    ensures
        r == x % 16,
        0 <= r < 16,
{
    proof {
        lemma_mod16(x as int);
    }
    if x >= 16 {
        x - 16
    } else if x >= 0 {
        x
    } else if x >= -16 {
        x + 16
    } else {
        x + 32
    }
}

impl Regs {
    /// Z and N from the low byte of `v`.
    pub fn fnz(&mut self, v: u16)
        ensures
            *final(self) == fnz(*old(self), v),
    {
        self.z = (v & 0xFF) == 0;
        self.n = (v & 0x80) != 0;
    }

    /// Z and N from the low byte of `v`; C where bit 8 is clear (no borrow).
    pub fn fnzb(&mut self, v: u16)
        ensures
            *final(self) == fnzb(*old(self), v),
    {
        self.fnz(v);
        self.c = (v & 0x100) == 0;
    }

    /// Z and N from the low byte of `v`; C from bit 8 (carry out).
    pub fn fnzc(&mut self, v: u16)
        ensures
            *final(self) == fnzc(*old(self), v),
    {
        self.fnz(v);
        self.c = (v & 0x100) != 0;
    }

    /// The status byte as pushed, with bits 4 and 5 set.
    pub fn status_byte(&self) -> (r: u8)
        ensures
            r == status_byte(*self),
    {
        (if self.n { 0x80u8 } else { 0u8 }) | (if self.v { 0x40u8 } else { 0u8 }) | 0x30u8 | (
        if self.d {
            0x08u8
        } else {
            0u8
        }) | (if self.i { 0x04u8 } else { 0u8 }) | (if self.z { 0x02u8 } else { 0u8 }) | (
        if self.c {
            0x01u8
        } else {
            0u8
        })
    }

    /// Restores the six flags from a pulled status byte.
    pub fn restore_status(&mut self, p: u8)
        ensures
            *final(self) == with_status(*old(self), p),
    {
        self.n = (p & 0x80) != 0;
        self.v = (p & 0x40) != 0;
        self.d = (p & 0x08) != 0;
        self.i = (p & 0x04) != 0;
        self.z = (p & 0x02) != 0;
        self.c = (p & 0x01) != 0;
    }

    /// Flags after comparing `reg` with `m`.
    pub fn compare(&mut self, reg: u8, m: u8)
        ensures
            *final(self) == compare(*old(self), reg, m),
    {
        self.fnzb((reg as u16).wrapping_sub(m as u16));
    }

    /// ADC of `m`, binary or decimal after flag D.
    pub fn adc(&mut self, m: u8)
        ensures
            *final(self) == adc(*old(self), m),
    {
        let a = self.a as u16;
        let mm = m as u16;
        let c: u16 = if self.c { 1 } else { 0 };
        let sum: u16 = a + mm + c;
        if !self.d {
            self.z = (sum & 0xFF) == 0;
            self.n = (sum & 0x80) != 0;
            self.v = (!(a ^ mm) & (a ^ sum) & 0x80) != 0;
            self.c = (sum & 0x100) != 0;
            self.a = (sum & 0xFF) as u8;
        } else {
            proof {
                lemma_nibbles(a);
                lemma_nibbles(mm);
            }
            let al0: u16 = (a & 0x0F) + (mm & 0x0F) + c;
            let al: u16 = if al0 > 9 { al0 + 6 } else { al0 };
            let ah0: u16 = (a >> 4) + (mm >> 4) + (if al > 15 { 1u16 } else { 0u16 });
            let ah: u16 = if ah0 > 9 { ah0 + 6 } else { ah0 };
            self.z = (sum & 0xFF) == 0;
            self.n = (ah0 & 8) != 0;
            self.v = (!(a ^ mm) & (a ^ (ah0 << 4)) & 0x80) != 0;
            self.c = ah > 15;
            self.a = (((ah << 4) | (al & 0x0F)) & 0xFF) as u8;
        }
    }

    /// SBC of `m`, binary or decimal after flag D.
    pub fn sbc(&mut self, m: u8)
        ensures
            *final(self) == sbc(*old(self), m),
    {
        let a = self.a;
        let b: u8 = if self.c { 0 } else { 1 };
        let res = a.wrapping_sub(m).wrapping_sub(b);
        self.z = res == 0;
        self.n = (res & 0x80) != 0;
        self.v = ((a ^ m) & (a ^ res) & 0x80) != 0;
        self.c = (a as u16) >= (m as u16) + (b as u16);
        if !self.d {
            self.a = res;
        } else {
            proof {
                lemma_nibbles(a as u16);
                lemma_nibbles(m as u16);
                assert((a & 0x0F) as u16 == (a as u16) & 0x0F && (a >> 4) as u16 == (a as u16)
                    >> 4u16) by (bit_vector);
                assert((m & 0x0F) as u16 == (m as u16) & 0x0F && (m >> 4) as u16 == (m as u16)
                    >> 4u16) by (bit_vector);
            }
            let al0: i16 = (a & 0x0F) as i16 - (m & 0x0F) as i16 - b as i16;
            let al: i16 = if al0 < 0 { al0 - 6 } else { al0 };
            let ah0: i16 = (a >> 4) as i16 - (m >> 4) as i16 - (if al < 0 { 1i16 } else { 0i16 });
            let ah: i16 = if ah0 < 0 { ah0 - 6 } else { ah0 };
            proof {
                lemma_mod16(al as int);
                lemma_mod16(ah as int);
            }
            let digits: i16 = digit(ah) * 16 + digit(al);
            self.a = digits as u8;
        }
    }

    /// ARR: AND with `m`, then ROR of the accumulator, with the decimal-mode
    /// rules for the result, V and C.
    pub fn arr(&mut self, m: u8)
        ensures
            *final(self) == arr(*old(self), m),
    {
        let t = self.a & m;
        let rot = (t >> 1) | (if self.c { 0x80u8 } else { 0u8 });
        if !self.d {
            self.fnz(rot as u16);
            self.a = rot;
            self.c = (rot & 0x40) != 0;
            self.v = (((rot >> 6) ^ (rot >> 5)) & 1) != 0;
        } else {
            let lo_fixed = if ((t & 0x0F) as u16) + ((t & 0x01) as u16) > 5 {
                (rot & 0xF0) | (rot.wrapping_add(6) & 0x0F)
            } else {
                rot
            };
            let hi_carry = ((t & 0xF0) as u16) + ((t & 0x10) as u16) > 0x50;
            self.a = if hi_carry { lo_fixed.wrapping_add(0x60) } else { lo_fixed };
            self.n = self.c;
            self.z = rot == 0;
            self.v = ((t ^ rot) & 0x40) != 0;
            self.c = hi_carry;
        }
    }
}

} // verus!
