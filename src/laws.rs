use vstd::prelude::*;

use crate::address_spaces::{lemma_peek_store, stores, Region};
use crate::isa::{
    address, carry, dispatch, low, opcode_table, operate, page, rd, reset_spec, rol_t, ror_t,
    stack, status_byte, step_spec, word, Mode, Op, Regs,
};

verus! {

/// Which operations go with which addressing modes, as far as the cycle
/// counts depend on it.
proof fn lemma_table_shape(opcode: u8)
    ensures
        ({
            let (mode, op) = opcode_table(opcode);
            &&& (op == Op::Brk || op == Op::Rts || op == Op::Rti) ==> mode == Mode::Imp
            &&& op == Op::Jmp ==> mode == Mode::Abs
        }),
{
}

proof fn lemma_mode_cycles(mode: Mode, r: Regs, m: Seq<Region>)
    ensures
        2 <= address(mode, r, m).cycles <= 6,
        mode == Mode::Imp ==> address(mode, r, m).cycles == 2,
        mode == Mode::Abs ==> address(mode, r, m).cycles == 4,
{
}

proof fn lemma_op_cycles(op: Op, r: Regs, m: Seq<Region>, ea: u16)
    ensures
        -1 <= operate(op, r, m, ea).cycles <= 5,
        operate(op, r, m, ea).cycles > 2 ==> (op == Op::Brk || op == Op::Rts || op == Op::Rti),
        operate(op, r, m, ea).cycles < 0 ==> op == Op::Jmp,
{
    match op {
        Op::Adc => {},
        Op::Ahx => {},
        Op::Alr => {},
        Op::Anc => {},
        Op::And => {},
        Op::Ane => {},
        Op::Arr => {},
        Op::Asl => {},
        Op::AslA => {},
        Op::Bcc => {},
        Op::Bcs => {},
        Op::Beq => {},
        Op::Bit => {},
        Op::Bmi => {},
        Op::Bne => {},
        Op::Bpl => {},
        Op::Brk => {},
        Op::Bvc => {},
        Op::Bvs => {},
        Op::Clc => {},
        Op::Cld => {},
        Op::Cli => {},
        Op::Clv => {},
        Op::Cmp => {},
        Op::Cpx => {},
        Op::Cpy => {},
        Op::Dcp => {},
        Op::Dec => {},
        Op::Dex => {},
        Op::Dey => {},
        Op::Eor => {},
        Op::Inc => {},
        Op::Inx => {},
        Op::Iny => {},
        Op::Isc => {},
        Op::Jmp => {},
        Op::JmpInd => {},
        Op::Jsr => {},
        Op::Kil => {},
        Op::Las => {},
        Op::Lax => {},
        Op::Lda => {},
        Op::Ldx => {},
        Op::Ldy => {},
        Op::Lsr => {},
        Op::LsrA => {},
        Op::Nop => {},
        Op::Ora => {},
        Op::Pha => {},
        Op::Php => {},
        Op::Pla => {},
        Op::Plp => {},
        Op::Rla => {},
        Op::Rol => {},
        Op::RolA => {},
        Op::Ror => {},
        Op::RorA => {},
        Op::Rra => {},
        Op::Rti => {},
        Op::Rts => {},
        Op::Sax => {},
        Op::Sbc => {},
        Op::Sbx => {},
        Op::Sec => {},
        Op::Sed => {},
        Op::Sei => {},
        Op::Shs => {},
        Op::Shx => {},
        Op::Shy => {},
        Op::Slo => {},
        Op::Sre => {},
        Op::Sta => {},
        Op::Stx => {},
        Op::Sty => {},
        Op::Tax => {},
        Op::Tay => {},
        Op::Tsx => {},
        Op::Txa => {},
        Op::Txs => {},
        Op::Tya => {},
    }
}

/// Every instruction takes between two and eight cycles.
pub proof fn lemma_cycles_range(opcode: u8, r: Regs, m: Seq<Region>)
    ensures
        2 <= dispatch(opcode, r, m).cycles <= 8,
{
    let (mode, op) = opcode_table(opcode);
    let o = address(mode, r, m);
    lemma_table_shape(opcode);
    lemma_mode_cycles(mode, r, m);
    lemma_op_cycles(op, Regs { pc: o.pc, ..r }, m, o.ea);
}

/// Every step, instruction or interrupt entry, takes between two and eight
/// cycles.
pub proof fn law_step_cycles(r: Regs, m: Seq<Region>, irq: bool, nmi: bool)
    ensures
        2 <= step_spec(r, m, irq, nmi).cycles <= 8,
{
    lemma_cycles_range(rd(m, r.pc), Regs { pc: r.pc.wrapping_add(1), ..r }, m);
}

/// Registers and the opcode hold bytes, the program counter sixteen bits,
/// and each flag is a boolean.
pub proof fn law_register_ranges(r: Regs, opcode: u8)
    ensures
        0 <= r.a <= 255 && 0 <= r.x <= 255 && 0 <= r.y <= 255 && 0 <= r.s <= 255,
        0 <= opcode <= 255,
        0 <= r.pc <= 65535,
{
}

/// The number of operand bytes that follow the opcode in each mode.
pub open spec fn operand_length(mode: Mode) -> u16 {
    match mode {
        Mode::Imp => 0,
        Mode::Abs | Mode::Abx | Mode::Aby | Mode::Ind => 2,
        _ => 1,
    }
}

/// The operations that set the program counter themselves.
pub open spec fn transfers_control(op: Op) -> bool {
    match op {
        Op::Jmp | Op::JmpInd | Op::Jsr | Op::Rts | Op::Rti | Op::Brk | Op::Kil | Op::Bcc
        | Op::Bcs | Op::Beq | Op::Bne | Op::Bmi | Op::Bpl | Op::Bvc | Op::Bvs => true,
        _ => false,
    }
}

/// The conditional branches.
pub open spec fn is_branch(op: Op) -> bool {
    match op {
        Op::Bcc | Op::Bcs | Op::Beq | Op::Bne | Op::Bmi | Op::Bpl | Op::Bvc | Op::Bvs => true,
        _ => false,
    }
}

/// Whether a conditional branch is taken with the flags of `r`.
pub open spec fn branch_taken(op: Op, r: Regs) -> bool {
    match op {
        Op::Bcc => !r.c,
        Op::Bcs => r.c,
        Op::Beq => r.z,
        Op::Bne => !r.z,
        Op::Bmi => r.n,
        Op::Bpl => !r.n,
        Op::Bvc => !r.v,
        Op::Bvs => r.v,
        _ => false,
    }
}

proof fn lemma_mode_pc(mode: Mode, r: Regs, m: Seq<Region>)
    ensures
        address(mode, r, m).pc == r.pc.wrapping_add(operand_length(mode)),
{
}

proof fn lemma_op_keeps_pc(op: Op, r: Regs, m: Seq<Region>, ea: u16)
    ensures
        !transfers_control(op) ==> operate(op, r, m, ea).regs.pc == r.pc,
        op == Op::Kil ==> operate(op, r, m, ea).regs.pc == r.pc.wrapping_sub(1),
        (op == Op::Jmp || op == Op::JmpInd || op == Op::Jsr) ==> operate(op, r, m, ea).regs.pc
            == ea,
        is_branch(op) ==> operate(op, r, m, ea).regs.pc == (if branch_taken(op, r) {
            ea
        } else {
            r.pc
        }),
{
    match op {
        Op::Adc => {},
        Op::Ahx => {},
        Op::Alr => {},
        Op::Anc => {},
        Op::And => {},
        Op::Ane => {},
        Op::Arr => {},
        Op::Asl => {},
        Op::AslA => {},
        Op::Bcc => {},
        Op::Bcs => {},
        Op::Beq => {},
        Op::Bit => {},
        Op::Bmi => {},
        Op::Bne => {},
        Op::Bpl => {},
        Op::Brk => {},
        Op::Bvc => {},
        Op::Bvs => {},
        Op::Clc => {},
        Op::Cld => {},
        Op::Cli => {},
        Op::Clv => {},
        Op::Cmp => {},
        Op::Cpx => {},
        Op::Cpy => {},
        Op::Dcp => {},
        Op::Dec => {},
        Op::Dex => {},
        Op::Dey => {},
        Op::Eor => {},
        Op::Inc => {},
        Op::Inx => {},
        Op::Iny => {},
        Op::Isc => {},
        Op::Jmp => {},
        Op::JmpInd => {},
        Op::Jsr => {},
        Op::Kil => {},
        Op::Las => {},
        Op::Lax => {},
        Op::Lda => {},
        Op::Ldx => {},
        Op::Ldy => {},
        Op::Lsr => {},
        Op::LsrA => {},
        Op::Nop => {},
        Op::Ora => {},
        Op::Pha => {},
        Op::Php => {},
        Op::Pla => {},
        Op::Plp => {},
        Op::Rla => {},
        Op::Rol => {},
        Op::RolA => {},
        Op::Ror => {},
        Op::RorA => {},
        Op::Rra => {},
        Op::Rti => {},
        Op::Rts => {},
        Op::Sax => {},
        Op::Sbc => {},
        Op::Sbx => {},
        Op::Sec => {},
        Op::Sed => {},
        Op::Sei => {},
        Op::Shs => {},
        Op::Shx => {},
        Op::Shy => {},
        Op::Slo => {},
        Op::Sre => {},
        Op::Sta => {},
        Op::Stx => {},
        Op::Sty => {},
        Op::Tax => {},
        Op::Tay => {},
        Op::Tsx => {},
        Op::Txa => {},
        Op::Txs => {},
        Op::Tya => {},
    }
}

/// Each instruction moves the program counter past its opcode and operand
/// bytes, except those that set it: jumps and JSR go to the effective
/// address, a branch goes there when taken and past its operand when not,
/// and KIL stays on its own opcode.
pub proof fn law_pc_advance(r: Regs, m: Seq<Region>)
    ensures
        ({
            let (mode, op) = opcode_table(rd(m, r.pc));
            let after = r.pc.wrapping_add(1).wrapping_add(operand_length(mode));
            let o = address(mode, Regs { pc: r.pc.wrapping_add(1), ..r }, m);
            let pc = crate::isa::execute(r, m).regs.pc;
            &&& !transfers_control(op) ==> pc == after
            &&& op == Op::Kil ==> pc == r.pc
            &&& (op == Op::Jmp || op == Op::JmpInd || op == Op::Jsr) ==> pc == o.ea
            &&& is_branch(op) ==> pc == (if branch_taken(op, r) {
                o.ea
            } else {
                after
            })
        }),
{
    let (mode, op) = opcode_table(rd(m, r.pc));
    let r1 = Regs { pc: r.pc.wrapping_add(1), ..r };
    let o = address(mode, r1, m);
    lemma_mode_pc(mode, r1, m);
    lemma_op_keeps_pc(op, Regs { pc: o.pc, ..r1 }, m, o.ea);
    if op == Op::Kil {
        assert(opcode_table(rd(m, r.pc)).0 == Mode::Imp) by {
            lemma_kil_is_implied(rd(m, r.pc));
        }
    }
}

proof fn lemma_kil_is_implied(opcode: u8)
    ensures
        opcode_table(opcode).1 == Op::Kil ==> opcode_table(opcode).0 == Mode::Imp,
{
}

/// A taken branch adds one cycle, two when its target lies on another page
/// than the instruction that follows it; a branch not taken adds none.
pub proof fn law_branch_cycles(op: Op, r: Regs, m: Seq<Region>, ea: u16)
    requires
        is_branch(op),
    ensures
        operate(op, r, m, ea).cycles == (if branch_taken(op, r) {
            if page(ea) != page(r.pc) {
                2int
            } else {
                1int
            }
        } else {
            0int
        }),
{
}

/// Absolute X, absolute Y and indirect Y add one cycle exactly when the
/// effective address lies on another page than the base address.
pub proof fn law_page_cross_penalty(mode: Mode, r: Regs, m: Seq<Region>)
    requires
        mode == Mode::Abx || mode == Mode::Aby || mode == Mode::Izy,
    ensures
        ({
            let pc = r.pc;
            let base = if mode == Mode::Izy {
                let z = rd(m, pc) as u16;
                word(rd(m, z), rd(m, ((z + 1) as u16) & 0xFFu16))
            } else {
                word(rd(m, pc), rd(m, pc.wrapping_add(1)))
            };
            let o = address(mode, r, m);
            let plain: int = if mode == Mode::Izy { 5 } else { 4 };
            o.cycles == plain + (if page(base) != page(o.ea) { 1int } else { 0int })
        }),
{
}

/// A second reset changes nothing that the first one left.
pub proof fn law_reset_idempotent(r: Regs, m: Seq<Region>)
    ensures
        reset_spec(reset_spec(r, m).0, reset_spec(r, m).1) == reset_spec(r, m),
{
}

/// PLA after PHA restores the accumulator and the stack pointer, where the
/// stack slot is writable memory.
pub proof fn law_pha_pla(r: Regs, m: Seq<Region>, ea1: u16, ea2: u16)
    requires
        stores(m, stack(r.s)),
    ensures
        ({
            let e1 = operate(Op::Pha, r, m, ea1);
            let e2 = operate(Op::Pla, e1.regs, e1.mem, ea2);
            &&& e2.regs.a == r.a
            &&& e2.regs.s == r.s
        }),
{
    lemma_peek_store(m, stack(r.s), r.a, stack(r.s));
}

proof fn lemma_status_round_trip(n: bool, v: bool, d: bool, i: bool, z: bool, c: bool)
    ensures
        ({
            let p = (if n { 0x80u8 } else { 0u8 }) | (if v { 0x40u8 } else { 0u8 }) | 0x30u8 | (
            if d {
                0x08u8
            } else {
                0u8
            }) | (if i { 0x04u8 } else { 0u8 }) | (if z { 0x02u8 } else { 0u8 }) | (if c {
                0x01u8
            } else {
                0u8
            });
            &&& ((p & 0x80u8) != 0) == n
            &&& ((p & 0x40u8) != 0) == v
            &&& ((p & 0x08u8) != 0) == d
            &&& ((p & 0x04u8) != 0) == i
            &&& ((p & 0x02u8) != 0) == z
            &&& ((p & 0x01u8) != 0) == c
        }),
{
    let nb: u8 = if n { 0x80u8 } else { 0u8 };
    let vb: u8 = if v { 0x40u8 } else { 0u8 };
    let db: u8 = if d { 0x08u8 } else { 0u8 };
    let ib: u8 = if i { 0x04u8 } else { 0u8 };
    let zb: u8 = if z { 0x02u8 } else { 0u8 };
    let cb: u8 = if c { 0x01u8 } else { 0u8 };
    let p = nb | vb | 0x30u8 | db | ib | zb | cb;
    assert(((p & 0x80u8) != 0) == (nb != 0) && ((p & 0x40u8) != 0) == (vb != 0) && ((p & 0x08u8)
        != 0) == (db != 0) && ((p & 0x04u8) != 0) == (ib != 0) && ((p & 0x02u8) != 0) == (zb != 0)
        && ((p & 0x01u8) != 0) == (cb != 0)) by (bit_vector)
        requires
            nb == 0x80u8 || nb == 0u8,
            vb == 0x40u8 || vb == 0u8,
            db == 0x08u8 || db == 0u8,
            ib == 0x04u8 || ib == 0u8,
            zb == 0x02u8 || zb == 0u8,
            cb == 0x01u8 || cb == 0u8,
            p == nb | vb | 0x30u8 | db | ib | zb | cb,
    ;
}

/// PLP after PHP restores all six flags and the stack pointer, where the
/// stack slot is writable memory.
pub proof fn law_php_plp(r: Regs, m: Seq<Region>, ea1: u16, ea2: u16)
    requires
        stores(m, stack(r.s)),
    ensures
        ({
            let e1 = operate(Op::Php, r, m, ea1);
            let e2 = operate(Op::Plp, e1.regs, e1.mem, ea2);
            &&& e2.regs.n == r.n && e2.regs.v == r.v && e2.regs.d == r.d
            &&& e2.regs.i == r.i && e2.regs.z == r.z && e2.regs.c == r.c
            &&& e2.regs.s == r.s
            &&& e2.regs.a == r.a
        }),
{
    lemma_peek_store(m, stack(r.s), status_byte(r), stack(r.s));
    lemma_status_round_trip(r.n, r.v, r.d, r.i, r.z, r.c);
}

/// LDA of an address that STA wrote returns the stored accumulator, where
/// the address is writable memory.
pub proof fn law_sta_lda(r: Regs, m: Seq<Region>, ea: u16)
    requires
        stores(m, ea),
    ensures
        ({
            let e1 = operate(Op::Sta, r, m, ea);
            let e2 = operate(Op::Lda, e1.regs, e1.mem, ea);
            &&& rd(e1.mem, ea) == r.a
            &&& e2.regs.a == r.a
        }),
{
    lemma_peek_store(m, ea, r.a, ea);
}

/// ROR of the accumulator after ROL, through the carry, gives back both the
/// accumulator and the carry: together they make a nine-bit rotation.
pub proof fn law_rol_ror(r: Regs, m: Seq<Region>, ea1: u16, ea2: u16)
    ensures
        ({
            let e1 = operate(Op::RolA, r, m, ea1);
            let e2 = operate(Op::RorA, e1.regs, e1.mem, ea2);
            &&& e2.regs.a == r.a
            &&& e2.regs.c == r.c
        }),
{
    let a = r.a;
    let c = carry(r);
    let t = rol_t(a, c);
    let a1 = low(t);
    let c1: u16 = if (t & 0x100u16) != 0 { 1 } else { 0 };
    let t2 = ror_t(a1, c1);
    assert(low(t2) == a && ((t2 & 0x100u16) != 0) == (c == 1)) by (bit_vector)
        requires
            c == 0 || c == 1,
            t == ((a as u16) << 1u16) | c,
            a1 == (t & 0xFFu16) as u8,
            c1 == (if (t & 0x100u16) != 0 { 1u16 } else { 0u16 }),
            t2 == (((a1 as u16) & 1u16) << 8u16) | (c1 << 7u16) | ((a1 as u16) >> 1u16),
    ;
}

proof fn lemma_word_split(x: u16)
    ensures
        word((x & 0xFFu16) as u8, (x >> 8u16) as u8) == x,
{
    assert((((((x >> 8u16) as u8) as u16) << 8u16) | (((x & 0xFFu16) as u8) as u16)) == x)
        by (bit_vector);
}

/// RTS after JSR returns to the instruction that follows the JSR and gives
/// back the two stack slots, where both slots are writable memory.
pub proof fn law_jsr_rts(r: Regs, m: Seq<Region>, ea: u16, ea2: u16)
    requires
        stores(m, stack(r.s)),
        stores(m, stack(r.s.wrapping_sub(1))),
    ensures
        ({
            let e1 = operate(Op::Jsr, r, m, ea);
            let e2 = operate(Op::Rts, e1.regs, e1.mem, ea2);
            &&& e1.regs.pc == ea
            &&& e2.regs.pc == r.pc
            &&& e2.regs.s == r.s
        }),
{
    let ret = r.pc.wrapping_sub(1);
    let hi = (ret >> 8u16) as u8;
    let lo = (ret & 0xFFu16) as u8;
    let m1 = crate::isa::push(m, r.s, hi);
    lemma_peek_store(m, stack(r.s), hi, stack(r.s));
    lemma_peek_store(m, stack(r.s), hi, stack(r.s.wrapping_sub(1)));
    lemma_peek_store(m1, stack(r.s.wrapping_sub(1)), lo, stack(r.s.wrapping_sub(1)));
    lemma_peek_store(m1, stack(r.s.wrapping_sub(1)), lo, stack(r.s));
    lemma_word_split(ret);
}

} // verus!
