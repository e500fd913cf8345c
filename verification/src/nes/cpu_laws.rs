use vstd::prelude::*;

use super::cpu::{
    adc_spec, branch_cond, carry_of, compare_flags, group1_alu, implied_spec, read_op_spec, interrupt_entered, pulled_status, rmw_spec,
    stack_outcome, unofficial_rmw_spec, with_flag, with_zn, CpuRegs, RmwOp, UnofficialRmwOp, FLAG_BREAK, FLAG_CARRY, FLAG_DECIMAL,
    FLAG_INTERRUPT, FLAG_NEGATIVE,
    FLAG_OVERFLOW, FLAG_UNUSED, FLAG_ZERO,
};
use super::{controller_shift_after, ram_after_write, ram_index, ram_value, Nes};

verus! {

/// Setting or clearing one status flag sets that flag as asked and leaves
/// every other flag bit alone.
proof fn lemma_flag_bits(p: u8, f: u8, g: u8, b: bool)
    by (bit_vector)
    requires
        f == 0x01 || f == 0x02 || f == 0x04 || f == 0x08 || f == 0x10 || f == 0x40 || f == 0x80,
        g == 0x01 || g == 0x02 || g == 0x04 || g == 0x08 || g == 0x10 || g == 0x40 || g == 0x80,
        f != g,
    ensures
        ((with_flag(p, f, b) & f) != 0) == b,
        ((with_flag(p, f, b) & g) != 0) == ((p & g) != 0),
{
}

/// Byte facts behind the shift, rotate and subtract laws.
proof fn lemma_byte_bits(v: u8, c: bool)
    by (bit_vector)
    ensures
        v ^ 0xFF == (255 - v) as u8,
        ((v & 0x80) != 0) == (v >= 128),
        ((v & 0x01) != 0) == (v % 2 == 1),
        (v << 1) == ((2 * v) % 256) as u8,
        (v >> 1) == v / 2,
        (((v << 1) | (if c {
            1u8
        } else {
            0u8
        })) >> 1) | (if (v & 0x80) != 0 {
            0x80u8
        } else {
            0u8
        }) == v,
        ((((v << 1) | (if c {
            1u8
        } else {
            0u8
        })) & 0x01) != 0) == c,
        (((v >> 1) | (if c {
            0x80u8
        } else {
            0u8
        })) << 1) | (if (v & 0x01) != 0 {
            1u8
        } else {
            0u8
        }) == v,
        ((((v >> 1) | (if c {
            0x80u8
        } else {
            0u8
        })) & 0x80) != 0) == c,
{
}

/// Z and N after an update from `v` leave the carry alone, and say whether
/// `v` is zero and whether it is 128 or more.
proof fn lemma_zn(p: u8, v: u8)
    ensures
        carry_of(with_zn(p, v)) == carry_of(p),
        ((with_zn(p, v) & FLAG_ZERO) != 0) == (v == 0),
        ((with_zn(p, v) & FLAG_NEGATIVE) != 0) == (v >= 128),
        ((with_zn(p, v) & FLAG_OVERFLOW) != 0) == ((p & FLAG_OVERFLOW) != 0),
        ((with_zn(p, v) & FLAG_INTERRUPT) != 0) == ((p & FLAG_INTERRUPT) != 0),
        ((with_zn(p, v) & FLAG_DECIMAL) != 0) == ((p & FLAG_DECIMAL) != 0),
{
    let p1 = with_flag(p, FLAG_ZERO, v == 0);
    lemma_flag_bits(p, FLAG_ZERO, FLAG_INTERRUPT, v == 0);
    lemma_flag_bits(p, FLAG_ZERO, FLAG_DECIMAL, v == 0);
    lemma_flag_bits(p1, FLAG_NEGATIVE, FLAG_INTERRUPT, (v & 0x80) != 0);
    lemma_flag_bits(p1, FLAG_NEGATIVE, FLAG_DECIMAL, (v & 0x80) != 0);
    lemma_flag_bits(p, FLAG_ZERO, FLAG_CARRY, v == 0);
    lemma_flag_bits(p, FLAG_ZERO, FLAG_OVERFLOW, v == 0);
    lemma_flag_bits(p1, FLAG_NEGATIVE, FLAG_CARRY, (v & 0x80) != 0);
    lemma_flag_bits(p1, FLAG_NEGATIVE, FLAG_ZERO, (v & 0x80) != 0);
    lemma_flag_bits(p1, FLAG_NEGATIVE, FLAG_OVERFLOW, (v & 0x80) != 0);
    lemma_byte_bits(v, false);
}

/// `q` holds the registers `a`, `x`, `y` and `sp`, PC as in `r`, Z and N
/// describing the byte `v`, and C, I, D and V as in `r`.
pub open spec fn transferred(q: Option<CpuRegs>, r: CpuRegs, a: u8, x: u8, y: u8, sp: u8, v: u8) -> bool {
    &&& q is Some
    &&& q->0.a == a
    &&& q->0.x == x
    &&& q->0.y == y
    &&& q->0.sp == sp
    &&& q->0.pc == r.pc
    &&& ((q->0.p & FLAG_ZERO) != 0) == (v == 0)
    &&& ((q->0.p & FLAG_NEGATIVE) != 0) == (v >= 128)
    &&& carry_of(q->0.p) == carry_of(r.p)
    &&& ((q->0.p & FLAG_INTERRUPT) != 0) == ((r.p & FLAG_INTERRUPT) != 0)
    &&& ((q->0.p & FLAG_DECIMAL) != 0) == ((r.p & FLAG_DECIMAL) != 0)
    &&& ((q->0.p & FLAG_OVERFLOW) != 0) == ((r.p & FLAG_OVERFLOW) != 0)
}

/// The register transfers copy one register into another: TXA and TYA put
/// X or Y in A, TAX and TSX put A or S in X, TAY puts A in Y, each with Z and
/// N describing the byte copied; TXS puts X in S and touches no flag. The
/// increments and decrements of X and Y count modulo 256 with Z and N from
/// the new value. Every register an instruction does not name keeps its
/// value.
pub proof fn law_register_transfers(r: CpuRegs)
    ensures
        transferred(implied_spec(0x8A, r), r, r.x, r.x, r.y, r.sp, r.x),
        transferred(implied_spec(0x98, r), r, r.y, r.x, r.y, r.sp, r.y),
        transferred(implied_spec(0xAA, r), r, r.a, r.a, r.y, r.sp, r.a),
        transferred(implied_spec(0xA8, r), r, r.a, r.x, r.a, r.sp, r.a),
        transferred(implied_spec(0xBA, r), r, r.a, r.sp, r.y, r.sp, r.sp),
        implied_spec(0x9A, r) == Some(CpuRegs { sp: r.x, ..r }),
        transferred(
            implied_spec(0xE8, r),
            r,
            r.a,
            ((r.x + 1) % 256) as u8,
            r.y,
            r.sp,
            ((r.x + 1) % 256) as u8,
        ),
        transferred(
            implied_spec(0xCA, r),
            r,
            r.a,
            ((r.x + 255) % 256) as u8,
            r.y,
            r.sp,
            ((r.x + 255) % 256) as u8,
        ),
        transferred(
            implied_spec(0xC8, r),
            r,
            r.a,
            r.x,
            ((r.y + 1) % 256) as u8,
            r.sp,
            ((r.y + 1) % 256) as u8,
        ),
        transferred(
            implied_spec(0x88, r),
            r,
            r.a,
            r.x,
            ((r.y + 255) % 256) as u8,
            r.sp,
            ((r.y + 255) % 256) as u8,
        ),
{
    lemma_zn(r.p, r.x);
    lemma_zn(r.p, r.y);
    lemma_zn(r.p, r.a);
    lemma_zn(r.p, r.sp);
    lemma_zn(r.p, r.x.wrapping_add(1));
    lemma_zn(r.p, r.x.wrapping_sub(1));
    lemma_zn(r.p, r.y.wrapping_add(1));
    lemma_zn(r.p, r.y.wrapping_sub(1));
}

/// `q` is `r` with status flag `f` set to `b` and every other flag and
/// every register as in `r`.
pub open spec fn flag_changed(q: Option<CpuRegs>, r: CpuRegs, f: u8, b: bool) -> bool {
    &&& q is Some
    &&& q->0 == CpuRegs { p: q->0.p, ..r }
    &&& ((q->0.p & f) != 0) == b
    &&& forall|g: u8|
        (g == FLAG_CARRY || g == FLAG_ZERO || g == FLAG_INTERRUPT || g == FLAG_DECIMAL || g
            == FLAG_OVERFLOW || g == FLAG_NEGATIVE) && g != f ==> ((q->0.p & g) != 0) == ((r.p
            & g) != 0)
}

proof fn lemma_one_flag(p: u8, f: u8, b: bool)
    requires
        f == FLAG_CARRY || f == FLAG_INTERRUPT || f == FLAG_DECIMAL || f == FLAG_OVERFLOW,
    ensures
        ((with_flag(p, f, b) & f) != 0) == b,
        forall|g: u8|
            (g == FLAG_CARRY || g == FLAG_ZERO || g == FLAG_INTERRUPT || g == FLAG_DECIMAL || g
                == FLAG_OVERFLOW || g == FLAG_NEGATIVE) && g != f ==> ((with_flag(p, f, b) & g)
                != 0) == ((p & g) != 0),
{
    lemma_flag_bits(p, f, FLAG_NEGATIVE, b);
    if f != FLAG_CARRY {
        lemma_flag_bits(p, f, FLAG_CARRY, b);
    }
    lemma_flag_bits(p, f, FLAG_ZERO, b);
    if f != FLAG_INTERRUPT {
        lemma_flag_bits(p, f, FLAG_INTERRUPT, b);
    }
    if f != FLAG_DECIMAL {
        lemma_flag_bits(p, f, FLAG_DECIMAL, b);
    }
    if f != FLAG_OVERFLOW {
        lemma_flag_bits(p, f, FLAG_OVERFLOW, b);
    }
}

/// CLC and SEC clear and set the carry, CLI and SEI the interrupt disable,
/// CLD and SED the decimal flag, and CLV clears the overflow flag; nothing
/// else changes. NOP changes nothing.
pub proof fn law_flag_instructions(r: CpuRegs)
    ensures
        flag_changed(implied_spec(0x18, r), r, FLAG_CARRY, false),
        flag_changed(implied_spec(0x38, r), r, FLAG_CARRY, true),
        flag_changed(implied_spec(0x58, r), r, FLAG_INTERRUPT, false),
        flag_changed(implied_spec(0x78, r), r, FLAG_INTERRUPT, true),
        flag_changed(implied_spec(0xD8, r), r, FLAG_DECIMAL, false),
        flag_changed(implied_spec(0xF8, r), r, FLAG_DECIMAL, true),
        flag_changed(implied_spec(0xB8, r), r, FLAG_OVERFLOW, false),
        implied_spec(0xEA, r) == Some(r),
{
    lemma_one_flag(r.p, FLAG_CARRY, false);
    lemma_one_flag(r.p, FLAG_CARRY, true);
    lemma_one_flag(r.p, FLAG_INTERRUPT, false);
    lemma_one_flag(r.p, FLAG_INTERRUPT, true);
    lemma_one_flag(r.p, FLAG_DECIMAL, false);
    lemma_one_flag(r.p, FLAG_DECIMAL, true);
    lemma_one_flag(r.p, FLAG_OVERFLOW, false);
}

/// ORA, AND and EOR combine A with the operand bit by bit (or, and,
/// exclusive or) and LDA loads it; each sets Z and N from the new A and
/// leaves X, Y, S, PC, C, I, D and V alone. CMP changes only the flags.
pub proof fn law_accumulator_ops(r: CpuRegs, v: u8)
    ensures
        transferred(Some(group1_alu(r, 0, v)), r, r.a | v, r.x, r.y, r.sp, r.a | v),
        transferred(Some(group1_alu(r, 1, v)), r, r.a & v, r.x, r.y, r.sp, r.a & v),
        transferred(Some(group1_alu(r, 2, v)), r, r.a ^ v, r.x, r.y, r.sp, r.a ^ v),
        transferred(Some(group1_alu(r, 5, v)), r, v, r.x, r.y, r.sp, v),
        group1_alu(r, 6, v) == (CpuRegs { p: group1_alu(r, 6, v).p, ..r }),
{
    lemma_zn(r.p, r.a | v);
    lemma_zn(r.p, r.a & v);
    lemma_zn(r.p, r.a ^ v);
    lemma_zn(r.p, v);
}

/// The branches test one flag each: BPL and BMI the negative flag, BVC and
/// BVS the overflow flag, BCC and BCS the carry, BNE and BEQ the zero flag;
/// the first of each pair is taken when the flag is clear, the second when
/// it is set.
pub proof fn law_branch_conditions(p: u8)
    ensures
        branch_cond(0x10, p) == Some((p & FLAG_NEGATIVE) == 0),
        branch_cond(0x30, p) == Some((p & FLAG_NEGATIVE) != 0),
        branch_cond(0x50, p) == Some((p & FLAG_OVERFLOW) == 0),
        branch_cond(0x70, p) == Some((p & FLAG_OVERFLOW) != 0),
        branch_cond(0x90, p) == Some(!carry_of(p)),
        branch_cond(0xB0, p) == Some(carry_of(p)),
        branch_cond(0xD0, p) == Some((p & FLAG_ZERO) == 0),
        branch_cond(0xF0, p) == Some((p & FLAG_ZERO) != 0),
{
}

/// BIT copies bit 7 of the operand into N and bit 6 into V and sets Z when
/// A and the operand share no set bit, leaving the registers and C alone.
/// LDY loads Y with Z and N from it; CPY and CPX compare Y and X with the
/// operand and change only the flags.
pub proof fn law_bit_and_index_reads(r: CpuRegs, v: u8)
    ensures
        ({
            let q = read_op_spec(0x24, r, v);
            &&& q == (CpuRegs { p: q.p, ..r })
            &&& ((q.p & FLAG_ZERO) != 0) == ((r.a & v) == 0)
            &&& ((q.p & FLAG_NEGATIVE) != 0) == (v >= 128)
            &&& ((q.p & FLAG_OVERFLOW) != 0) == ((v & 0x40) != 0)
            &&& carry_of(q.p) == carry_of(r.p)
        }),
        transferred(Some(read_op_spec(0xA4, r, v)), r, r.a, r.x, v, r.sp, v),
        read_op_spec(0xC4, r, v) == (CpuRegs { p: compare_flags(r.p, r.y, v), ..r }),
        read_op_spec(0xE4, r, v) == (CpuRegs { p: compare_flags(r.p, r.x, v), ..r }),
{
    let p1 = with_flag(r.p, FLAG_ZERO, (r.a & v) == 0);
    let p2 = with_flag(p1, FLAG_NEGATIVE, (v & 0x80) != 0);
    lemma_flag_bits(r.p, FLAG_ZERO, FLAG_CARRY, (r.a & v) == 0);
    lemma_flag_bits(p1, FLAG_NEGATIVE, FLAG_CARRY, (v & 0x80) != 0);
    lemma_flag_bits(p1, FLAG_NEGATIVE, FLAG_ZERO, (v & 0x80) != 0);
    lemma_flag_bits(p2, FLAG_OVERFLOW, FLAG_CARRY, (v & 0x40) != 0);
    lemma_flag_bits(p2, FLAG_OVERFLOW, FLAG_ZERO, (v & 0x40) != 0);
    lemma_flag_bits(p2, FLAG_OVERFLOW, FLAG_NEGATIVE, (v & 0x40) != 0);
    lemma_byte_bits(v, false);
    lemma_zn(r.p, v);
    super::cpu::lemma_opcode_fields(0);
}

/// The combined read-modify-write instructions are an official shift or
/// step followed by an accumulator operation on the byte written back: SLO
/// is ASL then ORA, RLA is ROL then AND, SRE is LSR then EOR, RRA is ROR
/// then ADC, DCP is DEC then CMP, and ISC is INC then SBC.
pub proof fn law_combined_rmw(r: CpuRegs, v: u8)
    ensures
        ({
            let (r1, out) = rmw_spec(r, RmwOp::Asl, v);
            unofficial_rmw_spec(r, UnofficialRmwOp::Slo, v) == (group1_alu(r1, 0, out), out)
        }),
        ({
            let (r1, out) = rmw_spec(r, RmwOp::Rol, v);
            unofficial_rmw_spec(r, UnofficialRmwOp::Rla, v) == (group1_alu(r1, 1, out), out)
        }),
        ({
            let (r1, out) = rmw_spec(r, RmwOp::Lsr, v);
            unofficial_rmw_spec(r, UnofficialRmwOp::Sre, v) == (group1_alu(r1, 2, out), out)
        }),
        ({
            let (r1, out) = rmw_spec(r, RmwOp::Ror, v);
            unofficial_rmw_spec(r, UnofficialRmwOp::Rra, v) == (group1_alu(r1, 3, out), out)
        }),
        ({
            let out = ((v + 255) % 256) as u8;
            unofficial_rmw_spec(r, UnofficialRmwOp::Dcp, v) == (group1_alu(r, 6, out), out)
        }),
        ({
            let out = ((v + 1) % 256) as u8;
            unofficial_rmw_spec(r, UnofficialRmwOp::Isc, v) == (group1_alu(r, 7, out), out)
        }),
{
}

/// ADC adds: the result byte and the carry out together make A + v + C;
/// Z and N describe the result, and X, Y, S and PC stay.
pub proof fn law_adc_sum(r: CpuRegs, v: u8)
    ensures
        adc_spec(r, v).a + 256 * (if carry_of(adc_spec(r, v).p) {
            1int
        } else {
            0int
        }) == r.a + v + (if carry_of(r.p) {
            1int
        } else {
            0int
        }),
        ((adc_spec(r, v).p & FLAG_ZERO) != 0) == (adc_spec(r, v).a == 0),
        ((adc_spec(r, v).p & FLAG_NEGATIVE) != 0) == (adc_spec(r, v).a >= 128),
        adc_spec(r, v) == (CpuRegs { a: adc_spec(r, v).a, p: adc_spec(r, v).p, ..r }),
{
    let sum = r.a + v + (if carry_of(r.p) {
        1int
    } else {
        0int
    });
    let out = (sum % 256) as u8;
    let p1 = with_flag(r.p, FLAG_CARRY, sum > 0xFF);
    let ovf = ((r.a ^ out) & (v ^ out) & 0x80) != 0;
    let p2 = with_flag(p1, FLAG_OVERFLOW, ovf);
    lemma_flag_bits(r.p, FLAG_CARRY, FLAG_OVERFLOW, sum > 0xFF);
    lemma_flag_bits(p1, FLAG_OVERFLOW, FLAG_CARRY, ovf);
    lemma_zn(p2, out);
}

/// SBC subtracts with borrow (the carry clear): the result is
/// A - v - borrow modulo 256, and the carry out is set exactly when that
/// difference is not negative.
pub proof fn law_sbc_difference(r: CpuRegs, v: u8)
    ensures
        ({
            let borrow = if carry_of(r.p) {
                0int
            } else {
                1int
            };
            &&& adc_spec(r, v ^ 0xFF).a == (r.a - v - borrow) % 256
            &&& carry_of(adc_spec(r, v ^ 0xFF).p) == (r.a - v - borrow >= 0)
        }),
{
    lemma_byte_bits(v, false);
    law_adc_sum(r, v ^ 0xFF);
}

/// CMP, CPX and CPY: C says the register is at least the operand, Z that
/// they are equal; V stays.
pub proof fn law_compare(p: u8, reg: u8, v: u8)
    ensures
        carry_of(compare_flags(p, reg, v)) == (reg >= v),
        ((compare_flags(p, reg, v) & FLAG_ZERO) != 0) == (reg == v),
        ((compare_flags(p, reg, v) & FLAG_OVERFLOW) != 0) == ((p & FLAG_OVERFLOW) != 0),
{
    let p1 = with_flag(p, FLAG_CARRY, reg >= v);
    lemma_flag_bits(p, FLAG_CARRY, FLAG_OVERFLOW, reg >= v);
    lemma_zn(p1, reg.wrapping_sub(v));
}

/// ROR undoes ROL: the byte comes back and so does the carry; A, X, Y, S
/// and PC stay throughout.
pub proof fn law_rol_then_ror(r: CpuRegs, v: u8)
    ensures
        ({
            let (r1, out1) = rmw_spec(r, RmwOp::Rol, v);
            let (r2, out2) = rmw_spec(r1, RmwOp::Ror, out1);
            &&& out2 == v
            &&& carry_of(r2.p) == carry_of(r.p)
            &&& r2 == (CpuRegs { p: r2.p, ..r })
        }),
{
    let c = carry_of(r.p);
    let (r1, out1) = rmw_spec(r, RmwOp::Rol, v);
    let q1 = with_flag(r.p, FLAG_CARRY, (v & 0x80) != 0);
    lemma_flag_bits(r.p, FLAG_CARRY, FLAG_ZERO, (v & 0x80) != 0);
    lemma_zn(q1, out1);
    lemma_byte_bits(v, c);
    let q2 = with_flag(r1.p, FLAG_CARRY, (out1 & 0x01) != 0);
    lemma_flag_bits(r1.p, FLAG_CARRY, FLAG_ZERO, (out1 & 0x01) != 0);
    let (r2, out2) = rmw_spec(r1, RmwOp::Ror, out1);
    lemma_zn(q2, out2);
}

/// ROL undoes ROR.
pub proof fn law_ror_then_rol(r: CpuRegs, v: u8)
    ensures
        ({
            let (r1, out1) = rmw_spec(r, RmwOp::Ror, v);
            let (r2, out2) = rmw_spec(r1, RmwOp::Rol, out1);
            &&& out2 == v
            &&& carry_of(r2.p) == carry_of(r.p)
            &&& r2 == (CpuRegs { p: r2.p, ..r })
        }),
{
    let c = carry_of(r.p);
    let (r1, out1) = rmw_spec(r, RmwOp::Ror, v);
    let q1 = with_flag(r.p, FLAG_CARRY, (v & 0x01) != 0);
    lemma_flag_bits(r.p, FLAG_CARRY, FLAG_ZERO, (v & 0x01) != 0);
    lemma_zn(q1, out1);
    lemma_byte_bits(v, c);
    let q2 = with_flag(r1.p, FLAG_CARRY, (out1 & 0x80) != 0);
    lemma_flag_bits(r1.p, FLAG_CARRY, FLAG_ZERO, (out1 & 0x80) != 0);
    let (r2, out2) = rmw_spec(r1, RmwOp::Rol, out1);
    lemma_zn(q2, out2);
}

/// ASL doubles: the result and the carry out together make 2 * v. LSR
/// halves: the result is v / 2 and the carry is the bit shifted out.
pub proof fn law_shifts(r: CpuRegs, v: u8)
    ensures
        ({
            let (r1, out) = rmw_spec(r, RmwOp::Asl, v);
            out + 256 * (if carry_of(r1.p) {
                1int
            } else {
                0int
            }) == 2 * v
        }),
        ({
            let (r1, out) = rmw_spec(r, RmwOp::Lsr, v);
            out == v / 2 && carry_of(r1.p) == (v % 2 == 1)
        }),
{
    lemma_byte_bits(v, false);
    let qa = with_flag(r.p, FLAG_CARRY, (v & 0x80) != 0);
    lemma_flag_bits(r.p, FLAG_CARRY, FLAG_ZERO, (v & 0x80) != 0);
    lemma_zn(qa, v << 1);
    let ql = with_flag(r.p, FLAG_CARRY, (v & 0x01) != 0);
    lemma_flag_bits(r.p, FLAG_CARRY, FLAG_ZERO, (v & 0x01) != 0);
    lemma_zn(ql, v >> 1);
}

/// INC undoes DEC and DEC undoes INC, on any byte.
pub proof fn law_inc_dec(r: CpuRegs, v: u8)
    ensures
        rmw_spec(rmw_spec(r, RmwOp::Dec, v).0, RmwOp::Inc, rmw_spec(r, RmwOp::Dec, v).1).1 == v,
        rmw_spec(rmw_spec(r, RmwOp::Inc, v).0, RmwOp::Dec, rmw_spec(r, RmwOp::Inc, v).1).1 == v,
{
}

/// RTS after JSR: the return lands on the instruction after the JSR (its
/// opcode's address plus three) with S back where it was, when nothing
/// touched the stack between them.
pub proof fn law_jsr_then_rts(b1: Nes, a1: Nes, r1: u32, b2: Nes, a2: Nes, r2: u32)
    requires
        stack_outcome(b1, a1, 0x20, r1),
        b2.cpu.sp == a1.cpu.sp,
        b2.ram == a1.ram,
        stack_outcome(b2, a2, 0x60, r2),
    ensures
        a2.cpu.pc == b1.cpu.pc.wrapping_add(2),
        a2.cpu.sp == b1.cpu.sp,
{
    let sp = b1.cpu.sp;
    let w = b1.cpu.pc.wrapping_add(1);
    assert(ram_index(super::stack_addr(sp)) != ram_index(super::stack_addr(sp.wrapping_sub(1))));
    assert(b2.cpu.sp.wrapping_add(1) == sp.wrapping_sub(1));
    assert(b2.cpu.sp.wrapping_add(2) == sp);
    assert((w / 256) as u8 * 256 + (w % 256) as u8 == w);
}

/// RTI after an interrupt entry: PC comes back and so does the status, with
/// B clear and bit 5 set, and S, when nothing touched the stack between.
pub proof fn law_interrupt_then_rti(b1: Nes, a1: Nes, b2: Nes, a2: Nes, r2: u32)
    requires
        interrupt_entered(b1, a1),
        b2.cpu.sp == a1.cpu.sp,
        b2.ram == a1.ram,
        stack_outcome(b2, a2, 0x40, r2),
    ensures
        a2.cpu.pc == b1.cpu.pc,
        a2.cpu.p == pulled_status(b1.cpu.p),
        a2.cpu.sp == b1.cpu.sp,
{
    let sp = b1.cpu.sp;
    let w = b1.cpu.pc;
    assert(b2.cpu.sp.wrapping_add(1) == sp.wrapping_sub(2));
    assert(b2.cpu.sp.wrapping_add(2) == sp.wrapping_sub(1));
    assert(b2.cpu.sp.wrapping_add(3) == sp);
    assert((w / 256) as u8 * 256 + (w % 256) as u8 == w);
    lemma_pulled_status_idempotent(b1.cpu.p);
}

/// Clearing B and setting bit 5 twice is doing it once.
proof fn lemma_pulled_status_idempotent(p: u8)
    by (bit_vector)
    ensures
        pulled_status(pulled_status(p)) == pulled_status(p),
        pulled_status(p | FLAG_BREAK | FLAG_UNUSED) == pulled_status(p),
{
}

/// RTI after BRK: execution resumes past BRK's padding byte, with the
/// status as it was but B clear and bit 5 set.
pub proof fn law_brk_then_rti(b1: Nes, a1: Nes, r1: u32, b2: Nes, a2: Nes, r2: u32)
    requires
        stack_outcome(b1, a1, 0x00, r1),
        b2.cpu.sp == a1.cpu.sp,
        b2.ram == a1.ram,
        stack_outcome(b2, a2, 0x40, r2),
    ensures
        a2.cpu.pc == b1.cpu.pc.wrapping_add(1),
        a2.cpu.p == pulled_status(b1.cpu.p),
        a2.cpu.sp == b1.cpu.sp,
{
    let sp = b1.cpu.sp;
    let w = b1.cpu.pc.wrapping_add(1);
    assert(b2.cpu.sp.wrapping_add(1) == sp.wrapping_sub(2));
    assert(b2.cpu.sp.wrapping_add(2) == sp.wrapping_sub(1));
    assert(b2.cpu.sp.wrapping_add(3) == sp);
    assert((w / 256) as u8 * 256 + (w % 256) as u8 == w);
    lemma_pulled_status_idempotent(b1.cpu.p);
}

/// PLA after PHA gives A back; PLP after PHP gives the status back with B
/// clear and bit 5 set; S returns either way.
pub proof fn law_push_then_pull(b1: Nes, a1: Nes, r1: u32, b2: Nes, a2: Nes, r2: u32, op: u8)
    requires
        op == 0x48 || op == 0x08,
        stack_outcome(b1, a1, op, r1),
        b2.cpu.sp == a1.cpu.sp,
        b2.ram == a1.ram,
        stack_outcome(b2, a2, if op == 0x48 {
            0x68u8
        } else {
            0x28u8
        }, r2),
    ensures
        op == 0x48 ==> a2.cpu.a == b1.cpu.a,
        op == 0x08 ==> a2.cpu.p == pulled_status(b1.cpu.p),
        a2.cpu.sp == b1.cpu.sp,
{
    assert(b2.cpu.sp.wrapping_add(1) == b1.cpu.sp);
    lemma_pulled_status_idempotent(b1.cpu.p);
}

/// A read of internal RAM gives back what a write to any of its mirrors
/// wrote, and a write leaves the bytes of other addresses alone.
pub proof fn law_ram_write_read(before: Nes, after: Nes, addr: u16, v: u8, addr2: u16)
    requires
        after.ram@ == ram_after_write(before.ram@, addr, v),
        addr <= 0x1FFF,
        addr2 <= 0x1FFF,
    ensures
        addr % 2048 == addr2 % 2048 ==> ram_value(after, addr2) == Some(v),
        addr % 2048 != addr2 % 2048 ==> ram_value(after, addr2) == ram_value(before, addr2),
{
}

/// Internal RAM appears four times below $2000.
pub proof fn law_ram_mirrors(n: Nes, addr: u16)
    requires
        addr < 0x1800,
    ensures
        ram_value(n, addr) == ram_value(n, (addr + 0x800) as u16),
{
}

/// One read of the serial shift register in closed form.
proof fn lemma_serial_step(s: u8, k: u8)
    by (bit_vector)
    requires
        k < 8,
    ensures
        (((s >> k) | !(0xFFu8 >> k)) >> 1) | 0x80 == (s >> ((k + 1) as u8)) | !(0xFFu8 >> ((k
            + 1) as u8)),
        (((s >> k) | !(0xFFu8 >> k)) & 0x01) == ((s >> k) & 0x01),
        (s >> 8u8) | !(0xFFu8 >> 8u8) == 0xFF,
        (0xFFu8 >> 1) | 0x80 == 0xFF,
        (s >> 0u8) | !(0xFFu8 >> 0u8) == s,
        0xFFu8 & 0x01 == 1,
{
}

/// The shift register after `k` reads: the buttons not yet read, with 1s
/// filled in above them; all 1s from the eighth read on.
proof fn lemma_serial_form(s: u8, k: nat)
    ensures
        k <= 8 ==> controller_shift_after(s, k) == (s >> (k as u8)) | !(0xFFu8 >> (k as u8)),
        k >= 8 ==> controller_shift_after(s, k) == 0xFF,
    decreases k,
{
    if k > 0 {
        lemma_serial_form(s, (k - 1) as nat);
        if k <= 8 {
            lemma_serial_step(s, (k - 1) as u8);
        } else {
            lemma_serial_step(s, 0);
        }
    } else {
        lemma_serial_step(s, 0);
    }
}

/// The controller reads out in order: after the strobe falls, the k-th
/// $4016 read (from 0) has the latched byte's bit k in bit 0 (A, B, Select,
/// Start, Up, Down, Left, Right), and every read after the eighth has 1.
pub proof fn law_controller_read_order(s: u8, k: nat)
    ensures
        k < 8 ==> (controller_shift_after(s, k) & 0x01) == ((s >> (k as u8)) & 0x01),
        k >= 8 ==> (controller_shift_after(s, k) & 0x01) == 1,
{
    lemma_serial_form(s, k);
    if k < 8 {
        lemma_serial_step(s, k as u8);
    } else {
        lemma_serial_step(s, 0);
    }
}

} // verus!
