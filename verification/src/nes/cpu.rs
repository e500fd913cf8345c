use vstd::prelude::*;

use super::{bus_read, bus_write, page_bug_high_addr, ram_after_write, ram_index, ram_value, stack_addr, Nes};

verus! {

pub const FLAG_CARRY: u8 = 0x01;

pub const FLAG_ZERO: u8 = 0x02;

pub const FLAG_INTERRUPT: u8 = 0x04;

pub const FLAG_DECIMAL: u8 = 0x08;

pub const FLAG_BREAK: u8 = 0x10;

pub const FLAG_UNUSED: u8 = 0x20;

pub const FLAG_OVERFLOW: u8 = 0x40;

pub const FLAG_NEGATIVE: u8 = 0x80;

/// The 6502 register file.
#[derive(Debug, Clone, Copy, PartialEq, Eq, Structural)]
pub struct CpuRegs {
    pub a: u8,
    pub x: u8,
    pub y: u8,
    pub p: u8,
    pub sp: u8,
    pub pc: u16,
}

/// Status byte `p` with `flag` set or cleared; bit 5 always reads as set.
pub open spec fn with_flag(p: u8, flag: u8, value: bool) -> u8 {
    (if value {
        p | flag
    } else {
        p & !flag
    }) | FLAG_UNUSED
}

/// Status byte `p` with Z and N taken from `v`.
pub open spec fn with_zn(p: u8, v: u8) -> u8 {
    with_flag(with_flag(p, FLAG_ZERO, v == 0), FLAG_NEGATIVE, (v & 0x80) != 0)
}

pub open spec fn carry_of(p: u8) -> bool {
    (p & FLAG_CARRY) != 0
}

/// The sum of an add with carry, as a 9-bit number.
pub open spec fn adc_sum(a: u8, v: u8, p: u8) -> int {
    a + v + if carry_of(p) {
        1int
    } else {
        0int
    }
}

/// The registers after ADC `v`: A takes the low byte of A + v + C, C the
/// carry out, V whether the signed result overflowed, Z and N from the result.
pub open spec fn adc_spec(r: CpuRegs, v: u8) -> CpuRegs {
    let sum = adc_sum(r.a, v, r.p);
    let out = (sum % 256) as u8;
    let p1 = with_flag(r.p, FLAG_CARRY, sum > 0xFF);
    let p2 = with_flag(p1, FLAG_OVERFLOW, ((r.a ^ out) & (v ^ out) & 0x80) != 0);
    CpuRegs { a: out, p: with_zn(p2, out), ..r }
}

/// The flags after comparing `reg` with `v`: C when `reg` >= `v`, Z and N
/// from `reg` - `v`.
pub open spec fn compare_flags(p: u8, reg: u8, v: u8) -> u8 {
    with_zn(with_flag(p, FLAG_CARRY, reg >= v), reg.wrapping_sub(v))
}

impl CpuRegs {
    pub fn set_flag(&mut self, flag: u8, value: bool)
        ensures
            *final(self) == (CpuRegs { p: with_flag(old(self).p, flag, value), ..*old(self) }),
    {
        if value {
            self.p = self.p | flag;
        } else {
            self.p = self.p & !flag;
        }
        self.p = self.p | FLAG_UNUSED;
    }

    pub fn get_flag(&self, flag: u8) -> (r: bool)
        ensures
            r == ((self.p & flag) != 0),
    {
        (self.p & flag) != 0
    }

    pub fn update_zn(&mut self, value: u8)
        ensures
            *final(self) == (CpuRegs { p: with_zn(old(self).p, value), ..*old(self) }),
    {
        self.set_flag(FLAG_ZERO, value == 0);
        self.set_flag(FLAG_NEGATIVE, (value & 0x80) != 0);
    }

    /// A := A | v.
    pub fn ora(&mut self, value: u8)
        ensures
            *final(self) == (CpuRegs {
                a: old(self).a | value,
                p: with_zn(old(self).p, old(self).a | value),
                ..*old(self)
            }),
    {
        self.a = self.a | value;
        self.update_zn(self.a);
    }

    /// A := A & v.
    pub fn and(&mut self, value: u8)
        ensures
            *final(self) == (CpuRegs {
                a: old(self).a & value,
                p: with_zn(old(self).p, old(self).a & value),
                ..*old(self)
            }),
    {
        self.a = self.a & value;
        self.update_zn(self.a);
    }

    /// A := A ^ v.
    pub fn eor(&mut self, value: u8)
        ensures
            *final(self) == (CpuRegs {
                a: old(self).a ^ value,
                p: with_zn(old(self).p, old(self).a ^ value),
                ..*old(self)
            }),
    {
        self.a = self.a ^ value;
        self.update_zn(self.a);
    }

    /// BIT: Z from A & v, N and V from bits 7 and 6 of v.
    pub fn bit(&mut self, value: u8)
        ensures
            *final(self) == (CpuRegs {
                p: with_flag(
                    with_flag(
                        with_flag(old(self).p, FLAG_ZERO, (old(self).a & value) == 0),
                        FLAG_NEGATIVE,
                        (value & 0x80) != 0,
                    ),
                    FLAG_OVERFLOW,
                    (value & 0x40) != 0,
                ),
                ..*old(self)
            }),
    {
        self.set_flag(FLAG_ZERO, (self.a & value) == 0);
        self.set_flag(FLAG_NEGATIVE, (value & 0x80) != 0);
        self.set_flag(FLAG_OVERFLOW, (value & 0x40) != 0);
    }

    /// CMP/CPX/CPY: flags from `register` - `value`.
    pub fn compare(&mut self, register: u8, value: u8)
        ensures
            *final(self) == (CpuRegs {
                p: compare_flags(old(self).p, register, value),
                ..*old(self)
            }),
    {
        let result = register.wrapping_sub(value);
        self.set_flag(FLAG_CARRY, register >= value);
        self.update_zn(result);
    }

    pub fn adc(&mut self, value: u8)
        ensures
            *final(self) == adc_spec(*old(self), value),
    {
        let carry_in: u16 = if self.get_flag(FLAG_CARRY) {
            1
        } else {
            0
        };
        let a = self.a as u16;
        let b = value as u16;
        let result: u16 = a + b + carry_in;
        let out = (result % 256) as u8;
        self.set_flag(FLAG_CARRY, result > 0xFF);
        self.set_flag(FLAG_OVERFLOW, ((self.a ^ out) & (value ^ out) & 0x80) != 0);
        self.a = out;
        self.update_zn(self.a);
    }

    /// SBC is ADC of the complement.
    pub fn sbc(&mut self, value: u8)
        ensures
            *final(self) == adc_spec(*old(self), value ^ 0xFF),
    {
        self.adc(value ^ 0xFF);
    }

    /// ASL: C from bit 7, result shifted left.
    pub fn asl(&mut self, value: u8) -> (r: u8)
        ensures
            r == value << 1,
            *final(self) == (CpuRegs {
                p: with_zn(with_flag(old(self).p, FLAG_CARRY, (value & 0x80) != 0), r),
                ..*old(self)
            }),
    {
        self.set_flag(FLAG_CARRY, (value & 0x80) != 0);
        let result = value << 1;
        self.update_zn(result);
        result
    }

    /// LSR: C from bit 0, result shifted right.
    pub fn lsr(&mut self, value: u8) -> (r: u8)
        ensures
            r == value >> 1,
            *final(self) == (CpuRegs {
                p: with_zn(with_flag(old(self).p, FLAG_CARRY, (value & 0x01) != 0), r),
                ..*old(self)
            }),
    {
        self.set_flag(FLAG_CARRY, (value & 0x01) != 0);
        let result = value >> 1;
        self.update_zn(result);
        result
    }

    /// ROL: the old carry enters bit 0, bit 7 becomes the carry.
    pub fn rol(&mut self, value: u8) -> (r: u8)
        ensures
            r == (value << 1) | (if carry_of(old(self).p) {
                1u8
            } else {
                0u8
            }),
            *final(self) == (CpuRegs {
                p: with_zn(with_flag(old(self).p, FLAG_CARRY, (value & 0x80) != 0), r),
                ..*old(self)
            }),
    {
        let carry_in: u8 = if self.get_flag(FLAG_CARRY) {
            1
        } else {
            0
        };
        self.set_flag(FLAG_CARRY, (value & 0x80) != 0);
        let result = (value << 1) | carry_in;
        self.update_zn(result);
        result
    }

    /// ROR: the old carry enters bit 7, bit 0 becomes the carry.
    pub fn ror(&mut self, value: u8) -> (r: u8)
        ensures
            r == (value >> 1) | (if carry_of(old(self).p) {
                0x80u8
            } else {
                0u8
            }),
            *final(self) == (CpuRegs {
                p: with_zn(with_flag(old(self).p, FLAG_CARRY, (value & 0x01) != 0), r),
                ..*old(self)
            }),
    {
        let carry_in: u8 = if self.get_flag(FLAG_CARRY) {
            0x80
        } else {
            0
        };
        self.set_flag(FLAG_CARRY, (value & 0x01) != 0);
        let result = (value >> 1) | carry_in;
        self.update_zn(result);
        result
    }
}


/// `b` sign-extended to 16 bits, for relative branches.
pub open spec fn sign_extended(b: u8) -> u16 {
    if b < 128 {
        b as u16
    } else {
        (b as u16) | 0xFF00
    }
}

/// Whether two addresses lie in different 256-byte pages.
pub open spec fn crosses_page(a: u16, b: u16) -> bool {
    (a & 0xFF00) != (b & 0xFF00)
}

/// The little-endian pointer at `z` in page zero, its high byte wrapping
/// within the page.
pub open spec fn zp_ptr(ram: Seq<u8>, z: int) -> u16 {
    (ram[z] + 256 * ram[(z + 1) % 256]) as u16
}

/// `w` is the operand of addressing mode `bbb` read at `pc`: a word for
/// the absolute modes, a byte otherwise (as far as RAM fixes it).
pub open spec fn operand_at(ram: Seq<u8>, pc: u16, bbb: u8, w: u16) -> bool {
    if operand_len(bbb) == 2 {
        word_loaded(ram, pc, w)
    } else {
        w < 256 && loaded(ram, pc, w as u8)
    }
}

/// The unindexed address of mode `bbb` for operand `w`: the pointer in
/// page zero for (indirect),Y, the operand itself otherwise.
pub open spec fn mode_base(bbb: u8, ram: Seq<u8>, w: u16) -> u16 {
    if bbb == 4 {
        zp_ptr(ram, w as int)
    } else {
        w
    }
}

/// The index register of mode `bbb`: Y for (indirect),Y and absolute,Y,
/// and for the other indexed modes where the instruction indexes by Y.
pub open spec fn mode_index(bbb: u8, regs: CpuRegs, use_y: bool) -> u8 {
    if bbb == 4 || bbb == 6 || use_y {
        regs.y
    } else {
        regs.x
    }
}

/// The effective address of addressing mode `bbb` (as the opcode's middle
/// bits give it) for operand `w`: (indirect,X), zero page, absolute,
/// (indirect),Y, zero page indexed (wrapping in page zero), absolute,Y and
/// absolute indexed.
pub open spec fn mode_addr(bbb: u8, regs: CpuRegs, ram: Seq<u8>, w: u16, use_y: bool) -> u16 {
    let i = mode_index(bbb, regs, use_y);
    if bbb == 0 {
        zp_ptr(ram, ((w + regs.x) % 256) as int)
    } else if bbb == 1 || bbb == 3 {
        w
    } else if bbb == 5 {
        ((w + i) % 256) as u16
    } else {
        mode_base(bbb, ram, w).wrapping_add(i as u16)
    }
}

/// With registers `regs` (PC at the operand), mode `bbb` addresses `addr`,
/// and `crossed` says whether indexing crossed a page.
pub open spec fn addressed(ram: Seq<u8>, regs: CpuRegs, bbb: u8, use_y: bool, addr: u16, crossed: bool) -> bool {
    exists|w: u16|
        #[trigger] operand_at(ram, regs.pc, bbb, w) && addr == mode_addr(bbb, regs, ram, w, use_y)
            && crossed == (indexed_mode(bbb) && crosses_page(mode_base(bbb, ram, w), addr))
}

impl Nes {
    /// What a CPU operation leaves alone: the board's presence, name and
    /// number, the step flag, the file name and the cycle and NMI counts.
    pub open spec fn exec_frame(&self, other: &Self) -> bool {
        &&& (other.mapper is Some <==> self.mapper is Some)
        &&& other.cpu_step_in_progress == self.cpu_step_in_progress
        &&& other.loaded_rom_name == self.loaded_rom_name
        &&& other.mapper_name == self.mapper_name
        &&& other.mapper_id == self.mapper_id
        &&& other.total_cycles == self.total_cycles
        &&& other.nmi_serviced_count == self.nmi_serviced_count
        &&& (self.halted ==> other.halted)
    }

    /// Zero page: the operand byte is the address.
    fn addr_zp(&mut self) -> (r: u16)
        requires
            old(self).wf(),
        ensures
            final(self).wf(),
            old(self).machine_frame(&*final(self)),
            final(self).cpu == (CpuRegs { pc: old(self).cpu.pc.wrapping_add(1), ..old(self).cpu }),
            final(self).ram == old(self).ram,
            r < 256,
            ram_value(*old(self), old(self).cpu.pc) matches Some(b) ==> r == b,
            addressed(old(self).ram@, old(self).cpu, 1, false, r, false),
            addressed(old(self).ram@, old(self).cpu, 1, true, r, false),
    {
        let b = self.fetch_byte();
        proof {
            assert(operand_at(old(self).ram@, old(self).cpu.pc, 1, b as u16));
        }
        b as u16
    }

    /// Zero page indexed: the operand plus X (or Y), wrapping in page zero,
    /// after a dummy read of the unindexed address.
    fn addr_zp_indexed(&mut self, index: u8) -> (r: u16)
        requires
            old(self).wf(),
        ensures
            final(self).wf(),
            old(self).machine_frame(&*final(self)),
            final(self).cpu == (CpuRegs { pc: old(self).cpu.pc.wrapping_add(1), ..old(self).cpu }),
            final(self).ram == old(self).ram,
            r < 256,
            ram_value(*old(self), old(self).cpu.pc) matches Some(b) ==> r == (b + index) % 256,
            exists|b: u8| #[trigger] loaded(old(self).ram@, old(self).cpu.pc, b) && r == (b + index) % 256,
    {
        let base = self.fetch_byte();
        let _ = self.cpu_read(base as u16);
        proof {
            assert(loaded(old(self).ram@, old(self).cpu.pc, base));
        }
        base.wrapping_add(index) as u16
    }

    fn addr_zpx(&mut self) -> (r: u16)
        requires
            old(self).wf(),
        ensures
            final(self).wf(),
            old(self).machine_frame(&*final(self)),
            final(self).cpu == (CpuRegs { pc: old(self).cpu.pc.wrapping_add(1), ..old(self).cpu }),
            final(self).ram == old(self).ram,
            r < 256,
            ram_value(*old(self), old(self).cpu.pc) matches Some(b) ==> r == (b + old(self).cpu.x)
                % 256,
            addressed(old(self).ram@, old(self).cpu, 5, false, r, false),
    {
        let x = self.cpu.x;
        let r = self.addr_zp_indexed(x);
        proof {
            let b = choose|b: u8| #[trigger] loaded(old(self).ram@, old(self).cpu.pc, b) && r == (b + x) % 256;
            assert(operand_at(old(self).ram@, old(self).cpu.pc, 5, b as u16));
        }
        r
    }

    fn addr_zpy(&mut self) -> (r: u16)
        requires
            old(self).wf(),
        ensures
            final(self).wf(),
            old(self).machine_frame(&*final(self)),
            final(self).cpu == (CpuRegs { pc: old(self).cpu.pc.wrapping_add(1), ..old(self).cpu }),
            final(self).ram == old(self).ram,
            r < 256,
            ram_value(*old(self), old(self).cpu.pc) matches Some(b) ==> r == (b + old(self).cpu.y)
                % 256,
            addressed(old(self).ram@, old(self).cpu, 5, true, r, false),
    {
        let y = self.cpu.y;
        let r = self.addr_zp_indexed(y);
        proof {
            let b = choose|b: u8| #[trigger] loaded(old(self).ram@, old(self).cpu.pc, b) && r == (b + y) % 256;
            assert(operand_at(old(self).ram@, old(self).cpu.pc, 5, b as u16));
        }
        r
    }

    /// Absolute: the two operand bytes are the address.
    fn addr_abs(&mut self) -> (r: u16)
        requires
            old(self).wf(),
        ensures
            final(self).wf(),
            old(self).machine_frame(&*final(self)),
            final(self).cpu == (CpuRegs { pc: old(self).cpu.pc.wrapping_add(2), ..old(self).cpu }),
            final(self).ram == old(self).ram,
            addressed(old(self).ram@, old(self).cpu, 3, false, r, false),
            addressed(old(self).ram@, old(self).cpu, 3, true, r, false),
    {
        let w = self.fetch_word();
        proof {
            assert(operand_at(old(self).ram@, old(self).cpu.pc, 3, w));
        }
        w
    }

    /// Absolute indexed: the address, whether indexing crossed a page, and the
    /// unindexed base.
    fn addr_abs_indexed(&mut self, index: u8) -> (r: (u16, bool, u16))
        requires
            old(self).wf(),
        ensures
            final(self).wf(),
            old(self).machine_frame(&*final(self)),
            final(self).cpu == (CpuRegs { pc: old(self).cpu.pc.wrapping_add(2), ..old(self).cpu }),
            final(self).ram == old(self).ram,
            r.0 == r.2.wrapping_add(index as u16),
            r.1 == crosses_page(r.2, r.0),
            word_loaded(old(self).ram@, old(self).cpu.pc, r.2),
    {
        let base = self.fetch_word();
        let addr = base.wrapping_add(index as u16);
        (addr, (base & 0xFF00) != (addr & 0xFF00), base)
    }

    fn addr_absx_with_base(&mut self) -> (r: (u16, bool, u16))
        requires
            old(self).wf(),
        ensures
            final(self).wf(),
            old(self).machine_frame(&*final(self)),
            final(self).cpu == (CpuRegs { pc: old(self).cpu.pc.wrapping_add(2), ..old(self).cpu }),
            final(self).ram == old(self).ram,
            r.0 == r.2.wrapping_add(old(self).cpu.x as u16),
            r.1 == crosses_page(r.2, r.0),
            addressed(old(self).ram@, old(self).cpu, 7, false, r.0, r.1),
            r.2 == mode_base(7, old(self).ram@, r.2),
    {
        let x = self.cpu.x;
        let r = self.addr_abs_indexed(x);
        proof {
            assert(operand_at(old(self).ram@, old(self).cpu.pc, 7, r.2));
        }
        r
    }

    fn addr_absy_with_base(&mut self) -> (r: (u16, bool, u16))
        requires
            old(self).wf(),
        ensures
            final(self).wf(),
            old(self).machine_frame(&*final(self)),
            final(self).cpu == (CpuRegs { pc: old(self).cpu.pc.wrapping_add(2), ..old(self).cpu }),
            final(self).ram == old(self).ram,
            r.0 == r.2.wrapping_add(old(self).cpu.y as u16),
            r.1 == crosses_page(r.2, r.0),
            addressed(old(self).ram@, old(self).cpu, 6, false, r.0, r.1),
            addressed(old(self).ram@, old(self).cpu, 6, true, r.0, r.1),
            addressed(old(self).ram@, old(self).cpu, 7, true, r.0, r.1),
    {
        let y = self.cpu.y;
        let r = self.addr_abs_indexed(y);
        proof {
            assert(operand_at(old(self).ram@, old(self).cpu.pc, 6, r.2));
            assert(operand_at(old(self).ram@, old(self).cpu.pc, 7, r.2));
        }
        r
    }

    /// A pointer from page zero, its high byte wrapping within the page.
    fn read_zp_u16(&mut self, addr: u8) -> (r: u16)
        requires
            old(self).wf(),
        ensures
            final(self).wf(),
            old(self).bus_frame(&*final(self)),
            final(self).ram == old(self).ram,
            r == old(self).ram[addr as int] + 256 * old(self).ram[((addr + 1) % 256) as int],
    {
        let lo = self.cpu_read(addr as u16) as u16;
        let hi = self.cpu_read(addr.wrapping_add(1) as u16) as u16;
        proof {
            super::lemma_word_bits(lo, hi);
        }
        (hi << 8) | lo
    }

    /// (Indirect,X): the pointer at the operand plus X in page zero.
    #[verifier::rlimit(30)]
    fn addr_indx(&mut self) -> (r: u16)
        requires
            old(self).wf(),
        ensures
            final(self).wf(),
            old(self).machine_frame(&*final(self)),
            final(self).cpu == (CpuRegs { pc: old(self).cpu.pc.wrapping_add(1), ..old(self).cpu }),
            final(self).ram == old(self).ram,
            ram_value(*old(self), old(self).cpu.pc) matches Some(b) ==> {
                let z = (b + old(self).cpu.x) % 256;
                r == old(self).ram[z] + 256 * old(self).ram[(z + 1) % 256]
            },
            addressed(old(self).ram@, old(self).cpu, 0, false, r, false),
            addressed(old(self).ram@, old(self).cpu, 0, true, r, false),
    {
        let zp = self.fetch_byte();
        let _ = self.cpu_read(zp as u16);
        let base = zp.wrapping_add(self.cpu.x);
        let r = self.read_zp_u16(base);
        proof {
            assert(operand_at(old(self).ram@, old(self).cpu.pc, 0, zp as u16));
        }
        r
    }

    /// (Indirect),Y: the pointer at the operand in page zero, plus Y; also
    /// whether that crossed a page, and the pointer.
    fn addr_indy_with_base(&mut self) -> (r: (u16, bool, u16))
        requires
            old(self).wf(),
        ensures
            final(self).wf(),
            old(self).machine_frame(&*final(self)),
            final(self).cpu == (CpuRegs { pc: old(self).cpu.pc.wrapping_add(1), ..old(self).cpu }),
            final(self).ram == old(self).ram,
            r.0 == r.2.wrapping_add(old(self).cpu.y as u16),
            r.1 == crosses_page(r.2, r.0),
            ram_value(*old(self), old(self).cpu.pc) matches Some(b) ==> r.2 == old(self).ram[b as int]
                + 256 * old(self).ram[((b + 1) % 256) as int],
            addressed(old(self).ram@, old(self).cpu, 4, false, r.0, r.1),
            addressed(old(self).ram@, old(self).cpu, 4, true, r.0, r.1),
    {
        let base = self.fetch_byte();
        let ptr = self.read_zp_u16(base);
        let addr = ptr.wrapping_add(self.cpu.y as u16);
        proof {
            assert(operand_at(old(self).ram@, old(self).cpu.pc, 4, base as u16));
        }
        (addr, (ptr & 0xFF00) != (addr & 0xFF00), ptr)
    }

    /// A relative branch: 2 cycles if not taken; if taken, PC moves by the
    /// signed operand, 3 cycles, or 4 if it lands in another page.
    fn branch(&mut self, condition: bool) -> (r: u32)
        requires
            old(self).wf(),
        ensures
            final(self).wf(),
            old(self).machine_frame(&*final(self)),
            branch_outcome(*old(self), *final(self), condition, r),
    {
        let offset = self.fetch_byte();
        proof {
            assert(loaded(old(self).ram@, old(self).cpu.pc, offset));
        }
        if condition {
            let old_pc = self.cpu.pc;
            let _ = self.cpu_read(old_pc);
            let extended: u16 = if offset < 128 {
                offset as u16
            } else {
                (offset as u16) | 0xFF00
            };
            let new_pc = self.cpu.pc.wrapping_add(extended);
            if (old_pc & 0xFF00) != (new_pc & 0xFF00) {
                let dummy_addr = (old_pc & 0xFF00) | (new_pc & 0x00FF);
                let _ = self.cpu_read(dummy_addr);
                self.cpu.pc = new_pc;
                4
            } else {
                self.cpu.pc = new_pc;
                3
            }
        } else {
            2
        }
    }
}

/// Where a branch at `next` (the address after its operand) with offset `b`
/// lands.
pub open spec fn branch_target(next: u16, b: u8) -> u16 {
    next.wrapping_add(sign_extended(b))
}

/// What a branch does: when taken, PC moves by the signed operand, costing 3
/// cycles, or 4 across a page; when not, PC steps past the operand in 2.
pub open spec fn branch_outcome(before: Nes, after: Nes, taken: bool, r: u32) -> bool {
    &&& after.ram == before.ram
    &&& after.cpu == CpuRegs { pc: after.cpu.pc, ..before.cpu }
    &&& if taken {
        exists|b: u8|
            #[trigger] loaded(before.ram@, before.cpu.pc, b) && {
                let next = before.cpu.pc.wrapping_add(1);
                let target = branch_target(next, b);
                &&& after.cpu.pc == target
                &&& r == if crosses_page(next, target) {
                    4u32
                } else {
                    3u32
                }
            }
    } else {
        after.cpu.pc == before.cpu.pc.wrapping_add(1) && r == 2
    }
}

/// `w` is the little-endian word at `addr` where its bytes are internal RAM.
pub open spec fn word_loaded(ram: Seq<u8>, addr: u16, w: u16) -> bool {
    loaded(ram, addr, (w % 256) as u8) && loaded(ram, addr.wrapping_add(1), (w / 256) as u8)
}

/// The read-modify-write operations of the official instruction set.
#[derive(Debug, Clone, Copy, PartialEq, Eq, Structural)]
pub enum RmwOp {
    Asl,
    Rol,
    Lsr,
    Ror,
    Dec,
    Inc,
}

/// The read-modify-write operations of the unofficial instruction set: each
/// modifies memory as a shift or step, then combines the result into A.
#[derive(Debug, Clone, Copy, PartialEq, Eq, Structural)]
pub enum UnofficialRmwOp {
    Slo,
    Rla,
    Sre,
    Rra,
    Dcp,
    Isc,
}

/// The registers and result of a read-modify-write operation on `v`.
pub open spec fn rmw_spec(r: CpuRegs, op: RmwOp, v: u8) -> (CpuRegs, u8) {
    match op {
        RmwOp::Asl => {
            let out = v << 1;
            (CpuRegs { p: with_zn(with_flag(r.p, FLAG_CARRY, (v & 0x80) != 0), out), ..r }, out)
        },
        RmwOp::Lsr => {
            let out = v >> 1;
            (CpuRegs { p: with_zn(with_flag(r.p, FLAG_CARRY, (v & 0x01) != 0), out), ..r }, out)
        },
        RmwOp::Rol => {
            let out = (v << 1) | (if carry_of(r.p) {
                1u8
            } else {
                0u8
            });
            (CpuRegs { p: with_zn(with_flag(r.p, FLAG_CARRY, (v & 0x80) != 0), out), ..r }, out)
        },
        RmwOp::Ror => {
            let out = (v >> 1) | (if carry_of(r.p) {
                0x80u8
            } else {
                0u8
            });
            (CpuRegs { p: with_zn(with_flag(r.p, FLAG_CARRY, (v & 0x01) != 0), out), ..r }, out)
        },
        RmwOp::Dec => {
            let out = v.wrapping_sub(1);
            (CpuRegs { p: with_zn(r.p, out), ..r }, out)
        },
        RmwOp::Inc => {
            let out = v.wrapping_add(1);
            (CpuRegs { p: with_zn(r.p, out), ..r }, out)
        },
    }
}

/// The registers and memory result of an unofficial read-modify-write on `v`.
pub open spec fn unofficial_rmw_spec(r: CpuRegs, op: UnofficialRmwOp, v: u8) -> (CpuRegs, u8) {
    match op {
        UnofficialRmwOp::Slo => {
            let (r1, out) = rmw_spec(r, RmwOp::Asl, v);
            (CpuRegs { a: r1.a | out, p: with_zn(r1.p, r1.a | out), ..r1 }, out)
        },
        UnofficialRmwOp::Rla => {
            let (r1, out) = rmw_spec(r, RmwOp::Rol, v);
            (CpuRegs { a: r1.a & out, p: with_zn(r1.p, r1.a & out), ..r1 }, out)
        },
        UnofficialRmwOp::Sre => {
            let (r1, out) = rmw_spec(r, RmwOp::Lsr, v);
            (CpuRegs { a: r1.a ^ out, p: with_zn(r1.p, r1.a ^ out), ..r1 }, out)
        },
        UnofficialRmwOp::Rra => {
            let (r1, out) = rmw_spec(r, RmwOp::Ror, v);
            (adc_spec(r1, out), out)
        },
        UnofficialRmwOp::Dcp => {
            let out = v.wrapping_sub(1);
            (CpuRegs { p: compare_flags(r.p, r.a, out), ..r }, out)
        },
        UnofficialRmwOp::Isc => {
            let out = v.wrapping_add(1);
            (adc_spec(r, out ^ 0xFF), out)
        },
    }
}

/// The registers after the group-one operation `aaa` with operand `v`:
/// ORA, AND, EOR, ADC, (STA), LDA, CMP, SBC.
pub open spec fn group1_alu(r: CpuRegs, aaa: u8, v: u8) -> CpuRegs {
    if aaa == 0 {
        CpuRegs { a: r.a | v, p: with_zn(r.p, r.a | v), ..r }
    } else if aaa == 1 {
        CpuRegs { a: r.a & v, p: with_zn(r.p, r.a & v), ..r }
    } else if aaa == 2 {
        CpuRegs { a: r.a ^ v, p: with_zn(r.p, r.a ^ v), ..r }
    } else if aaa == 3 {
        adc_spec(r, v)
    } else if aaa == 5 {
        CpuRegs { a: v, p: with_zn(r.p, v), ..r }
    } else if aaa == 6 {
        CpuRegs { p: compare_flags(r.p, r.a, v), ..r }
    } else if aaa == 7 {
        adc_spec(r, v ^ 0xFF)
    } else {
        r
    }
}

impl CpuRegs {
    pub fn apply_rmw(&mut self, op: RmwOp, value: u8) -> (r: u8)
        ensures
            (*final(self), r) == rmw_spec(*old(self), op, value),
    {
        match op {
            RmwOp::Asl => self.asl(value),
            RmwOp::Rol => self.rol(value),
            RmwOp::Lsr => self.lsr(value),
            RmwOp::Ror => self.ror(value),
            RmwOp::Dec => {
                let out = value.wrapping_sub(1);
                self.update_zn(out);
                out
            },
            RmwOp::Inc => {
                let out = value.wrapping_add(1);
                self.update_zn(out);
                out
            },
        }
    }

    pub fn apply_unofficial_rmw(&mut self, op: UnofficialRmwOp, value: u8) -> (r: u8)
        ensures
            (*final(self), r) == unofficial_rmw_spec(*old(self), op, value),
    {
        match op {
            UnofficialRmwOp::Slo => {
                let shifted = self.asl(value);
                self.a = self.a | shifted;
                self.update_zn(self.a);
                shifted
            },
            UnofficialRmwOp::Rla => {
                let shifted = self.rol(value);
                self.a = self.a & shifted;
                self.update_zn(self.a);
                shifted
            },
            UnofficialRmwOp::Sre => {
                let shifted = self.lsr(value);
                self.a = self.a ^ shifted;
                self.update_zn(self.a);
                shifted
            },
            UnofficialRmwOp::Rra => {
                let shifted = self.ror(value);
                self.adc(shifted);
                shifted
            },
            UnofficialRmwOp::Dcp => {
                let decremented = value.wrapping_sub(1);
                let a = self.a;
                self.compare(a, decremented);
                decremented
            },
            UnofficialRmwOp::Isc => {
                let incremented = value.wrapping_add(1);
                self.sbc(incremented);
                incremented
            },
        }
    }

    pub fn exec_group1_alu(&mut self, aaa: u8, value: u8)
        ensures
            *final(self) == group1_alu(*old(self), aaa, value),
    {
        if aaa == 0 {
            self.ora(value);
        } else if aaa == 1 {
            self.and(value);
        } else if aaa == 2 {
            self.eor(value);
        } else if aaa == 3 {
            self.adc(value);
        } else if aaa == 5 {
            self.a = value;
            self.update_zn(self.a);
        } else if aaa == 6 {
            let a = self.a;
            self.compare(a, value);
        } else if aaa == 7 {
            self.sbc(value);
        }
    }
}

/// A read-modify-write of `v` at `addr` with registers `regs` beforehand:
/// `v` is the byte there when `addr` is RAM, the registers end as the
/// operation leaves them and the result is written back.
pub open spec fn rmw_done(ram: Seq<u8>, regs: CpuRegs, after: Nes, addr: u16, op: RmwOp, v: u8) -> bool {
    &&& (addr <= 0x1FFF ==> v == ram[ram_index(addr)])
    &&& after.cpu == rmw_spec(regs, op, v).0
    &&& after.ram@ == ram_after_write(ram, addr, rmw_spec(regs, op, v).1)
    &&& written_on_bus(after, addr, rmw_spec(regs, op, v).1)
}

/// The unofficial counterpart of `rmw_done`.
pub open spec fn unofficial_rmw_done(
    ram: Seq<u8>,
    regs: CpuRegs,
    after: Nes,
    addr: u16,
    op: UnofficialRmwOp,
    v: u8,
) -> bool {
    &&& (addr <= 0x1FFF ==> v == ram[ram_index(addr)])
    &&& after.cpu == unofficial_rmw_spec(regs, op, v).0
    &&& after.ram@ == ram_after_write(ram, addr, unofficial_rmw_spec(regs, op, v).1)
    &&& written_on_bus(after, addr, unofficial_rmw_spec(regs, op, v).1)
}

/// A load of `v` from `addr` into the group-one operation `aaa`.
pub open spec fn load_done(ram: Seq<u8>, regs: CpuRegs, after: Nes, addr: u16, aaa: u8, v: u8) -> bool {
    &&& (addr <= 0x1FFF ==> v == ram[ram_index(addr)])
    &&& after.cpu == group1_alu(regs, aaa, v)
    &&& after.ram@ == ram
    &&& read_on_bus(after, addr, v)
}

impl Nes {
    /// A read-modify-write at `addr`: read, write the byte back unchanged (as
    /// the 6502 does), then write the result.
    fn rmw_at(&mut self, addr: u16, op: RmwOp) -> (v: u8)
        requires
            old(self).wf(),
        ensures
            final(self).wf(),
            old(self).machine_frame(&*final(self)),
            rmw_done(old(self).ram@, old(self).cpu, *final(self), addr, op, v),
    {
        let value = self.cpu_read(addr);
        self.cpu_write(addr, value);
        let out = self.cpu.apply_rmw(op, value);
        let ghost pre = *self;
        self.cpu_write(addr, out);
        proof {
            assert(written_on_bus(*self, addr, out));
        }
        proof {
            if addr <= 0x1FFF {
                assert(self.ram@ =~= old(self).ram@.update(ram_index(addr), out));
            }
        }
        value
    }

    /// An unofficial read-modify-write at `addr`.
    fn exec_unofficial_rmw(&mut self, addr: u16, op: UnofficialRmwOp) -> (v: u8)
        requires
            old(self).wf(),
        ensures
            final(self).wf(),
            old(self).machine_frame(&*final(self)),
            unofficial_rmw_done(old(self).ram@, old(self).cpu, *final(self), addr, op, v),
    {
        let value = self.cpu_read(addr);
        self.cpu_write(addr, value);
        let out = self.cpu.apply_unofficial_rmw(op, value);
        let ghost pre = *self;
        self.cpu_write(addr, out);
        proof {
            assert(written_on_bus(*self, addr, out));
        }
        proof {
            if addr <= 0x1FFF {
                assert(self.ram@ =~= old(self).ram@.update(ram_index(addr), out));
            }
        }
        value
    }

    /// A group-one load or ALU operation from `addr`.
    fn load_alu(&mut self, addr: u16, aaa: u8) -> (v: u8)
        requires
            old(self).wf(),
        ensures
            final(self).wf(),
            old(self).machine_frame(&*final(self)),
            load_done(old(self).ram@, old(self).cpu, *final(self), addr, aaa, v),
    {
        let ghost pre = *self;
        let value = self.cpu_read(addr);
        let ghost post = *self;
        self.cpu.exec_group1_alu(aaa, value);
        proof {
            assert(Nes { cpu: pre.cpu, ..*self } == post);
            assert(read_on_bus(*self, addr, value));
        }
        value
    }
}

/// Registers with PC moved past `n` operand bytes.
pub open spec fn advance(r: CpuRegs, n: u16) -> CpuRegs {
    CpuRegs { pc: r.pc.wrapping_add(n), ..r }
}

/// `v` is what a read of `addr` gives where that is internal RAM.
pub open spec fn loaded(ram: Seq<u8>, addr: u16, v: u8) -> bool {
    addr <= 0x1FFF ==> v == ram[ram_index(addr)]
}

/// The operand bytes of addressing mode `bbb` in groups one and three:
/// two for absolute and absolute indexed, one otherwise.
pub open spec fn operand_len(bbb: u8) -> u16 {
    if bbb == 3 || bbb == 6 || bbb == 7 {
        2
    } else {
        1
    }
}

/// The indexed modes that pay a cycle when they cross a page.
pub open spec fn indexed_mode(bbb: u8) -> bool {
    bbb == 4 || bbb == 6 || bbb == 7
}

/// Cycles of a group-one read with addressing `bbb`, before a page crossing.
pub open spec fn load_cycles(bbb: u8) -> u32 {
    if bbb == 0 {
        6
    } else if bbb == 1 {
        3
    } else if bbb == 2 {
        2
    } else if bbb == 4 {
        5
    } else {
        4
    }
}

/// Cycles of STA with addressing `bbb`.
pub open spec fn store_cycles(bbb: u8) -> u32 {
    if bbb == 0 || bbb == 4 {
        6
    } else if bbb == 1 {
        3
    } else if bbb == 2 {
        2
    } else if bbb == 6 || bbb == 7 {
        5
    } else {
        4
    }
}

/// Cycles of a read-modify-write on memory with addressing `bbb`.
pub open spec fn rmw_cycles(bbb: u8) -> u32 {
    if bbb == 1 {
        5
    } else if bbb == 3 || bbb == 5 {
        6
    } else {
        7
    }
}

/// The registers after loading `v` into X.
pub open spec fn load_x(r: CpuRegs, v: u8) -> CpuRegs {
    CpuRegs { x: v, p: with_zn(r.p, v), ..r }
}

/// The registers after loading `v` into Y.
pub open spec fn load_y(r: CpuRegs, v: u8) -> CpuRegs {
    CpuRegs { y: v, p: with_zn(r.p, v), ..r }
}

/// A store of `v` went to some address.
pub open spec fn stored(before: Seq<u8>, after: Seq<u8>, v: u8) -> bool {
    exists|addr: u16| #[trigger] ram_after_write(before, addr, v) == after
}

/// Mode `bbb` (the index register Y where `use_y`) addressed a byte where
/// `v` was stored.
pub open spec fn store_via(before: Nes, after: Nes, bbb: u8, use_y: bool, v: u8) -> bool {
    exists|addr: u16, c: bool|
        #[trigger] addressed(before.ram@, before.cpu, bbb, use_y, addr, c) && after.ram@
            == ram_after_write(before.ram@, addr, v) && written_on_bus(after, addr, v)
}

/// Mode `bbb` addressed a byte that reads as `v` (where it is RAM), crossing
/// a page or not as `crossed` says.
pub open spec fn read_via(before: Nes, after: Nes, bbb: u8, use_y: bool, v: u8, crossed: bool) -> bool {
    exists|addr: u16|
        #[trigger] addressed(before.ram@, before.cpu, bbb, use_y, addr, crossed) && loaded(
            before.ram@,
            addr,
            v,
        ) && read_on_bus(after, addr, v)
}

/// The instruction's last bus access wrote `v` to `addr`, with the effect a
/// bus write has, and left the machine as `after`.
pub open spec fn written_on_bus(after: Nes, addr: u16, v: u8) -> bool {
    exists|pre: Nes| #[trigger] bus_write(pre, after, addr, v)
}

/// The instruction's last bus access read `v` from `addr`, with the effect
/// a bus read has; after it only the registers changed, to `after`'s.
pub open spec fn read_on_bus(after: Nes, addr: u16, v: u8) -> bool {
    exists|pre: Nes| #[trigger] bus_read(pre, Nes { cpu: pre.cpu, ..after }, addr, v)
}

/// The extra cycle a page crossing costs.
pub open spec fn cross_cycle(crossed: bool) -> u32 {
    if crossed {
        1
    } else {
        0
    }
}

/// Nothing the CPU sees changed.
pub open spec fn untouched(before: Nes, after: Nes) -> bool {
    after.cpu == before.cpu && after.ram == before.ram
}

/// What a group-one instruction (ORA, AND, EOR, ADC, STA, LDA, CMP, SBC)
/// with addressing `bbb` does, from the registers and RAM after the opcode
/// fetch. STA immediate does nothing.
#[verifier::opaque]
pub open spec fn group1_outcome(before: Nes, after: Nes, aaa: u8, bbb: u8, r: u32) -> bool {
    if aaa == 4 {
        if bbb == 2 {
            untouched(before, after) && r == 2
        } else {
            &&& after.cpu == advance(before.cpu, operand_len(bbb))
            &&& store_via(before, after, bbb, false, before.cpu.a)
            &&& r == store_cycles(bbb)
        }
    } else if bbb == 2 {
        &&& exists|v: u8|
            #[trigger] loaded(before.ram@, before.cpu.pc, v) && after.cpu == group1_alu(
                advance(before.cpu, 1),
                aaa,
                v,
            )
        &&& after.ram == before.ram
        &&& r == 2
    } else {
        &&& exists|v: u8, c: bool|
            #[trigger] read_via(before, after, bbb, false, v, c) && after.cpu == group1_alu(
                advance(before.cpu, operand_len(bbb)),
                aaa,
                v,
            ) && r == load_cycles(bbb) + cross_cycle(c)
        &&& after.ram@ == before.ram@
    }
}

/// What STX with addressing `bbb` does; the modes it lacks do nothing.
pub open spec fn stx_outcome(before: Nes, after: Nes, bbb: u8, r: u32) -> bool {
    if bbb == 1 || bbb == 3 || bbb == 5 {
        &&& after.cpu == advance(before.cpu, operand_len(bbb))
        &&& store_via(before, after, bbb, true, before.cpu.x)
        &&& r == (if bbb == 1 {
            3u32
        } else {
            4u32
        })
    } else {
        untouched(before, after) && r == 2
    }
}

/// What LDX with addressing `bbb` does; the modes it lacks do nothing.
pub open spec fn ldx_outcome(before: Nes, after: Nes, bbb: u8, r: u32) -> bool {
    if bbb == 0 || bbb == 2 {
        &&& exists|v: u8|
            #[trigger] loaded(before.ram@, before.cpu.pc, v) && after.cpu == load_x(
                advance(before.cpu, 1),
                v,
            )
        &&& after.ram == before.ram
        &&& r == 2
    } else if bbb == 1 || bbb == 3 || bbb == 5 || bbb == 7 {
        &&& exists|v: u8, c: bool|
            #[trigger] read_via(before, after, bbb, true, v, c) && after.cpu == load_x(
                advance(before.cpu, operand_len(bbb)),
                v,
            ) && r == (if bbb == 1 {
                3u32
            } else {
                4u32
            }) + cross_cycle(c)
        &&& after.ram == before.ram
    } else {
        untouched(before, after) && r == 2
    }
}

/// What a read-modify-write with addressing `bbb` does: on A for `bbb` 2
/// (where DEC and INC do nothing), on memory for the zero page and absolute
/// modes, and nothing for the others.
pub open spec fn rmw_outcome(before: Nes, after: Nes, bbb: u8, op: RmwOp, r: u32) -> bool {
    if bbb == 2 {
        &&& after.ram == before.ram
        &&& r == 2
        &&& after.cpu == if op is Dec || op is Inc {
            before.cpu
        } else {
            CpuRegs { a: rmw_spec(before.cpu, op, before.cpu.a).1, ..rmw_spec(before.cpu, op, before.cpu.a).0 }
        }
    } else if bbb == 1 || bbb == 3 || bbb == 5 || bbb == 7 {
        &&& exists|addr: u16, c: bool, v: u8|
            #![trigger addressed(before.ram@, before.cpu, bbb, false, addr, c), rmw_done(before.ram@, advance(before.cpu, operand_len(bbb)), after, addr, op, v)]
            addressed(before.ram@, before.cpu, bbb, false, addr, c) && rmw_done(
                before.ram@,
                advance(before.cpu, operand_len(bbb)),
                after,
                addr,
                op,
                v,
            )
        &&& r == rmw_cycles(bbb)
    } else {
        untouched(before, after) && r == 2
    }
}

/// What a group-two instruction does: ASL, ROL, LSR, ROR, STX, LDX, DEC, INC.
#[verifier::opaque]
pub open spec fn group2_outcome(before: Nes, after: Nes, aaa: u8, bbb: u8, r: u32) -> bool {
    if aaa == 4 {
        stx_outcome(before, after, bbb, r)
    } else if aaa == 5 {
        ldx_outcome(before, after, bbb, r)
    } else {
        rmw_outcome(before, after, bbb, rmw_op_of(aaa), r)
    }
}

/// The read-modify-write operation of group-two row `aaa`.
pub open spec fn rmw_op_of(aaa: u8) -> RmwOp {
    if aaa == 0 {
        RmwOp::Asl
    } else if aaa == 1 {
        RmwOp::Rol
    } else if aaa == 2 {
        RmwOp::Lsr
    } else if aaa == 3 {
        RmwOp::Ror
    } else if aaa == 6 {
        RmwOp::Dec
    } else {
        RmwOp::Inc
    }
}

impl Nes {
    /// Read-modify-write `op` with addressing `bbb`.
    fn exec_rmw(&mut self, bbb: u8, op: RmwOp) -> (r: u32)
        requires
            old(self).wf(),
        ensures
            final(self).wf(),
            old(self).machine_frame(&*final(self)),
            rmw_outcome(*old(self), *final(self), bbb, op, r),
    {
        if bbb == 2 {
            if op == RmwOp::Dec || op == RmwOp::Inc {
                return 2;
            }
            let a = self.cpu.a;
            let out = self.cpu.apply_rmw(op, a);
            self.cpu.a = out;
            return 2;
        }
        let addr: u16;
        let cycles: u32;
        let ghost mut crossed = false;
        if bbb == 1 {
            addr = self.addr_zp();
            cycles = 5;
        } else if bbb == 3 {
            addr = self.addr_abs();
            cycles = 6;
        } else if bbb == 5 {
            addr = self.addr_zpx();
            cycles = 6;
        } else if bbb == 7 {
            let (a, page, base) = self.addr_absx_with_base();
            proof {
                crossed = page;
            }
            let _ = self.cpu_read((base & 0xFF00) | (a & 0x00FF));
            addr = a;
            cycles = 7;
        } else {
            return 2;
        }
        let v = self.rmw_at(addr, op);
        proof {
            assert(rmw_done(old(self).ram@, advance(old(self).cpu, operand_len(bbb)), *self, addr, op, v));
            assert(addressed(old(self).ram@, old(self).cpu, bbb, false, addr, crossed));
        }
        cycles
    }

    /// STX with addressing `bbb`.
    fn exec_stx(&mut self, bbb: u8) -> (r: u32)
        requires
            old(self).wf(),
        ensures
            final(self).wf(),
            old(self).machine_frame(&*final(self)),
            stx_outcome(*old(self), *final(self), bbb, r),
    {
        let x = self.cpu.x;
        if bbb == 1 {
            let addr = self.addr_zp();
            let ghost pre = *self;
            self.cpu_write(addr, x);
            proof {
                assert(written_on_bus(*self, addr, x));
                assert(ram_after_write(old(self).ram@, addr, x) == self.ram@);
                assert(addressed(old(self).ram@, old(self).cpu, bbb, true, addr, false));
            }
            3
        } else if bbb == 3 {
            let addr = self.addr_abs();
            let ghost pre = *self;
            self.cpu_write(addr, x);
            proof {
                assert(written_on_bus(*self, addr, x));
                assert(ram_after_write(old(self).ram@, addr, x) == self.ram@);
                assert(addressed(old(self).ram@, old(self).cpu, bbb, true, addr, false));
            }
            4
        } else if bbb == 5 {
            let addr = self.addr_zpy();
            let ghost pre = *self;
            self.cpu_write(addr, x);
            proof {
                assert(written_on_bus(*self, addr, x));
                assert(ram_after_write(old(self).ram@, addr, x) == self.ram@);
                assert(addressed(old(self).ram@, old(self).cpu, bbb, true, addr, false));
            }
            4
        } else {
            2
        }
    }

    /// LDX with addressing `bbb`.
    fn exec_ldx(&mut self, bbb: u8) -> (r: u32)
        requires
            old(self).wf(),
        ensures
            final(self).wf(),
            old(self).machine_frame(&*final(self)),
            ldx_outcome(*old(self), *final(self), bbb, r),
    {
        if bbb == 0 || bbb == 2 {
            let v = self.fetch_byte();
            self.cpu.x = v;
            self.cpu.update_zn(v);
            proof {
                assert(loaded(old(self).ram@, old(self).cpu.pc, v));
            }
            return 2;
        }
        let addr: u16;
        let mut cycles: u32;
        let ghost mut crossed = false;
        if bbb == 1 {
            addr = self.addr_zp();
            cycles = 3;
        } else if bbb == 3 {
            addr = self.addr_abs();
            cycles = 4;
        } else if bbb == 5 {
            addr = self.addr_zpy();
            cycles = 4;
        } else if bbb == 7 {
            let (a, page, base) = self.addr_absy_with_base();
            proof {
                crossed = page;
            }
            cycles = 4;
            if page {
                let _ = self.cpu_read((base & 0xFF00) | (a & 0x00FF));
                cycles = 5;
            }
            addr = a;
        } else {
            return 2;
        }
        let ghost pre = *self;
        let v = self.cpu_read(addr);
        let ghost post = *self;
        self.cpu.x = v;
        self.cpu.update_zn(v);
        proof {
            assert(loaded(old(self).ram@, addr, v));
            assert(Nes { cpu: pre.cpu, ..*self } == post);
            assert(read_on_bus(*self, addr, v));
            assert(read_via(*old(self), *self, bbb, true, v, crossed));
        }
        cycles
    }

    /// Group two, dispatched on the row `aaa`.
    fn exec_group2(&mut self, aaa: u8, bbb: u8) -> (r: u32)
        requires
            old(self).wf(),
            aaa < 8,
        ensures
            final(self).wf(),
            old(self).machine_frame(&*final(self)),
            group2_outcome(*old(self), *final(self), aaa, bbb, r),
            1 <= r <= 8,
    {
        proof {
            reveal(group2_outcome);
        }
        if aaa == 4 {
            self.exec_stx(bbb)
        } else if aaa == 5 {
            self.exec_ldx(bbb)
        } else if aaa == 6 {
            self.exec_rmw(bbb, RmwOp::Dec)
        } else if aaa == 7 {
            self.exec_rmw(bbb, RmwOp::Inc)
        } else if aaa == 0 {
            self.exec_rmw(bbb, RmwOp::Asl)
        } else if aaa == 1 {
            self.exec_rmw(bbb, RmwOp::Rol)
        } else if aaa == 2 {
            self.exec_rmw(bbb, RmwOp::Lsr)
        } else {
            self.exec_rmw(bbb, RmwOp::Ror)
        }
    }

    /// Group one: addressing `bbb`, operation `aaa` (4 is STA).
    fn exec_group1(&mut self, aaa: u8, bbb: u8) -> (r: u32)
        requires
            old(self).wf(),
            bbb < 8,
        ensures
            final(self).wf(),
            old(self).machine_frame(&*final(self)),
            group1_outcome(*old(self), *final(self), aaa, bbb, r),
            1 <= r <= 8,
    {
        proof {
            reveal(group1_outcome);
        }
        let is_store = aaa == 4;
        if bbb == 2 {
            if is_store {
                return 2;
            }
            let v = self.fetch_byte();
            self.cpu.exec_group1_alu(aaa, v);
            proof {
                assert(loaded(old(self).ram@, old(self).cpu.pc, v));
            }
            return 2;
        }
        let addr: u16;
        let base: u16;
        let page_crossed: bool;
        let mut cycles: u32;
        if bbb == 0 {
            addr = self.addr_indx();
            base = 0;
            page_crossed = false;
            cycles = 6;
        } else if bbb == 1 {
            addr = self.addr_zp();
            base = 0;
            page_crossed = false;
            cycles = 3;
        } else if bbb == 3 {
            addr = self.addr_abs();
            base = 0;
            page_crossed = false;
            cycles = 4;
        } else if bbb == 4 {
            let (a, page, b) = self.addr_indy_with_base();
            addr = a;
            base = b;
            page_crossed = page;
            cycles = 5;
        } else if bbb == 5 {
            addr = self.addr_zpx();
            base = 0;
            page_crossed = false;
            cycles = 4;
        } else if bbb == 6 {
            let (a, page, b) = self.addr_absy_with_base();
            addr = a;
            base = b;
            page_crossed = page;
            cycles = 4;
        } else {
            let (a, page, b) = self.addr_absx_with_base();
            addr = a;
            base = b;
            page_crossed = page;
            cycles = 4;
        }
        if is_store {
            // Indexed stores always make the dummy read before the write.
            if bbb == 4 || bbb == 6 || bbb == 7 {
                let _ = self.cpu_read((base & 0xFF00) | (addr & 0x00FF));
            }
            let a = self.cpu.a;
            let ghost pre = *self;
            self.cpu_write(addr, a);
            proof {
                assert(written_on_bus(*self, addr, a));
                assert(ram_after_write(old(self).ram@, addr, a) == self.ram@);
                assert(addressed(old(self).ram@, old(self).cpu, bbb, false, addr, page_crossed));
            }
            return if bbb == 4 {
                6
            } else if bbb == 6 || bbb == 7 {
                5
            } else {
                cycles
            };
        }
        if page_crossed && (bbb == 4 || bbb == 6 || bbb == 7) {
            let _ = self.cpu_read((base & 0xFF00) | (addr & 0x00FF));
            cycles = cycles + 1;
        }
        let v = self.load_alu(addr, aaa);
        proof {
            assert(load_done(old(self).ram@, advance(old(self).cpu, operand_len(bbb)), *self, addr, aaa, v));
            assert(addressed(old(self).ram@, old(self).cpu, bbb, false, addr, page_crossed));
            assert(read_on_bus(*self, addr, v));
            assert(read_via(*old(self), *self, bbb, false, v, page_crossed));
            assert(cycles == load_cycles(bbb) + cross_cycle(page_crossed));
        }
        cycles
    }
}

/// The registers after an unofficial immediate operation of row `aaa` with
/// operand `v`: ANC (rows 0 and 1), ALR, ARR, ANE, LXA, AXS and SBC. ANE and
/// LXA use the constant $EE for the unstable bits, as the RP2A03 tends to.
pub open spec fn unofficial_imm(r: CpuRegs, aaa: u8, v: u8) -> CpuRegs {
    if aaa == 0 || aaa == 1 {
        let a = r.a & v;
        CpuRegs { a: a, p: with_flag(with_zn(r.p, a), FLAG_CARRY, (a & 0x80) != 0), ..r }
    } else if aaa == 2 {
        let a = r.a & v;
        let out = a >> 1;
        CpuRegs { a: out, p: with_zn(with_flag(r.p, FLAG_CARRY, (a & 0x01) != 0), out), ..r }
    } else if aaa == 3 {
        let a = ((r.a & v) >> 1) | (if carry_of(r.p) {
            0x80u8
        } else {
            0u8
        });
        let p1 = with_flag(with_zn(r.p, a), FLAG_CARRY, (a & 0x40) != 0);
        CpuRegs {
            a: a,
            p: with_flag(p1, FLAG_OVERFLOW, (((a >> 6) & 0x01) ^ ((a >> 5) & 0x01)) != 0),
            ..r
        }
    } else if aaa == 4 {
        let a = (r.a | 0xEE) & r.x & v;
        CpuRegs { a: a, p: with_zn(r.p, a), ..r }
    } else if aaa == 5 {
        let a = (r.a | 0xEE) & v;
        CpuRegs { a: a, x: a, p: with_zn(r.p, a), ..r }
    } else if aaa == 6 {
        let ax = r.a & r.x;
        let x = ax.wrapping_sub(v);
        CpuRegs { x: x, p: with_zn(with_flag(r.p, FLAG_CARRY, ax >= v), x), ..r }
    } else {
        adc_spec(r, v ^ 0xFF)
    }
}

/// LAS: A, X and S all take `v` & S.
pub open spec fn las(r: CpuRegs, v: u8) -> CpuRegs {
    let out = v & r.sp;
    CpuRegs { a: out, x: out, sp: out, p: with_zn(r.p, out), ..r }
}

/// LAX: A and X both take `v`.
pub open spec fn lax(r: CpuRegs, v: u8) -> CpuRegs {
    CpuRegs { a: v, x: v, p: with_zn(r.p, v), ..r }
}

/// The unofficial read-modify-write of row `aaa`.
pub open spec fn unofficial_rmw_op(aaa: u8) -> UnofficialRmwOp {
    if aaa == 0 {
        UnofficialRmwOp::Slo
    } else if aaa == 1 {
        UnofficialRmwOp::Rla
    } else if aaa == 2 {
        UnofficialRmwOp::Sre
    } else if aaa == 3 {
        UnofficialRmwOp::Rra
    } else if aaa == 6 {
        UnofficialRmwOp::Dcp
    } else {
        UnofficialRmwOp::Isc
    }
}

/// Cycles of an unofficial read-modify-write with addressing `bbb`.
pub open spec fn unofficial_rmw_cycles(bbb: u8) -> u32 {
    if bbb == 0 || bbb == 4 {
        8
    } else if bbb == 1 {
        5
    } else if bbb == 3 || bbb == 5 {
        6
    } else {
        7
    }
}

/// A register ANDed with the high byte of the base address plus one went to
/// memory, as SHA, SHX, SHY and SHS store.
pub open spec fn stored_masked(before: Seq<u8>, after: Seq<u8>, src: u8) -> bool {
    exists|h: u8| #[trigger] stored(before, after, src & h)
}

/// What the unofficial opcode `opcode` does, or `None` with nothing done
/// when it is not one.
#[verifier::opaque]
pub open spec fn unofficial_outcome(before: Nes, after: Nes, opcode: u8, r: Option<u32>) -> bool {
    let aaa = opcode >> 5;
    let bbb = (opcode >> 2) & 0x07;
    let regs = before.cpu;
    if opcode == 0x93 || opcode == 0x9F {
        &&& after.cpu == advance(regs, if opcode == 0x93 {
            1u16
        } else {
            2u16
        })
        &&& stored_masked(before.ram@, after.ram@, regs.a & regs.x)
        &&& r == Some(if opcode == 0x93 {
            6u32
        } else {
            5u32
        })
    } else if opcode == 0x9B {
        &&& after.cpu == CpuRegs { sp: regs.a & regs.x, ..advance(regs, 2) }
        &&& stored_masked(before.ram@, after.ram@, regs.a & regs.x)
        &&& r == Some(5u32)
    } else if opcode == 0x9C {
        &&& after.cpu == advance(regs, 2)
        &&& stored_masked(before.ram@, after.ram@, regs.y)
        &&& r == Some(5u32)
    } else if opcode == 0x9E {
        &&& after.cpu == advance(regs, 2)
        &&& stored_masked(before.ram@, after.ram@, regs.x)
        &&& r == Some(5u32)
    } else if opcode == 0xBB {
        &&& exists|v: u8, c: bool|
            #[trigger] read_via(before, after, 6, false, v, c) && after.cpu == las(advance(regs, 2), v)
                && r == Some((4 + cross_cycle(c)) as u32)
        &&& after.ram == before.ram
    } else if (opcode & 0x03) != 0x03 {
        untouched(before, after) && r is None
    } else if bbb == 2 {
        &&& exists|v: u8|
            #[trigger] loaded(before.ram@, regs.pc, v) && after.cpu == unofficial_imm(
                advance(regs, 1),
                aaa,
                v,
            )
        &&& after.ram == before.ram
        &&& r == Some(2u32)
    } else if aaa == 4 {
        if bbb == 0 || bbb == 1 || bbb == 3 || bbb == 5 {
            &&& after.cpu == advance(regs, operand_len(bbb))
            &&& store_via(before, after, bbb, true, regs.a & regs.x)
            &&& r == Some(load_cycles(bbb))
        } else {
            untouched(before, after) && r is None
        }
    } else if aaa == 5 {
        &&& exists|v: u8, c: bool|
            #[trigger] read_via(before, after, bbb, true, v, c) && after.cpu == lax(
                advance(regs, operand_len(bbb)),
                v,
            ) && r == Some((load_cycles(bbb) + cross_cycle(c)) as u32)
        &&& after.ram == before.ram
    } else {
        &&& exists|addr: u16, c: bool, v: u8|
            #![trigger addressed(before.ram@, before.cpu, bbb, false, addr, c), unofficial_rmw_done(before.ram@, advance(regs, operand_len(bbb)), after, addr, unofficial_rmw_op(aaa), v)]
            addressed(before.ram@, before.cpu, bbb, false, addr, c) && unofficial_rmw_done(
                before.ram@,
                advance(regs, operand_len(bbb)),
                after,
                addr,
                unofficial_rmw_op(aaa),
                v,
            )
        &&& r == Some(unofficial_rmw_cycles(bbb))
    }
}

impl CpuRegs {
    /// The unofficial immediate operation of row `aaa`.
    pub fn exec_unofficial_imm(&mut self, aaa: u8, imm: u8)
        ensures
            *final(self) == unofficial_imm(*old(self), aaa, imm),
    {
        if aaa == 0 || aaa == 1 {
            self.a = self.a & imm;
            self.update_zn(self.a);
            self.set_flag(FLAG_CARRY, (self.a & 0x80) != 0);
        } else if aaa == 2 {
            self.a = self.a & imm;
            let a = self.a;
            self.a = self.lsr(a);
        } else if aaa == 3 {
            self.a = self.a & imm;
            let carry_in: u8 = if self.get_flag(FLAG_CARRY) {
                0x80
            } else {
                0
            };
            self.a = (self.a >> 1) | carry_in;
            self.update_zn(self.a);
            self.set_flag(FLAG_CARRY, (self.a & 0x40) != 0);
            self.set_flag(FLAG_OVERFLOW, (((self.a >> 6) & 0x01) ^ ((self.a >> 5) & 0x01)) != 0);
        } else if aaa == 4 {
            self.a = (self.a | 0xEE) & self.x & imm;
            self.update_zn(self.a);
        } else if aaa == 5 {
            self.a = (self.a | 0xEE) & imm;
            self.x = self.a;
            self.update_zn(self.a);
        } else if aaa == 6 {
            let in_ax = self.a & self.x;
            self.set_flag(FLAG_CARRY, in_ax >= imm);
            self.x = in_ax.wrapping_sub(imm);
            self.update_zn(self.x);
        } else {
            self.sbc(imm);
        }
    }
}

impl Nes {
    /// The store of SHA, SHX, SHY and SHS: after the dummy read, `src` ANDed
    /// with the base's high byte plus one goes to the address, whose high
    /// byte is corrupted when indexing crossed a page.
    fn store_masked(&mut self, addr: u16, page: bool, base: u16, src: u8, corrupt_with: u8)
        requires
            old(self).wf(),
        ensures
            final(self).wf(),
            old(self).machine_frame(&*final(self)),
            final(self).cpu == old(self).cpu,
            stored_masked(old(self).ram@, final(self).ram@, src),
    {
        let _ = self.cpu_read((base & 0xFF00) | (addr & 0x00FF));
        let h = ((base >> 8) as u8).wrapping_add(1);
        let value = src & h;
        let write_addr = if page {
            let unstable_hi = h & corrupt_with;
            ((unstable_hi as u16) << 8) | (addr & 0x00FF)
        } else {
            addr
        };
        self.cpu_write(write_addr, value);
        proof {
            assert(ram_after_write(old(self).ram@, write_addr, value) == self.ram@);
            assert(stored(old(self).ram@, self.ram@, src & h));
        }
    }

    /// The unofficial opcodes; `None`, with nothing done, for any other.
    #[verifier::spinoff_prover]
    #[verifier::rlimit(80)]
    fn exec_unofficial(&mut self, opcode: u8) -> (r: Option<u32>)
        requires
            old(self).wf(),
        ensures
            final(self).wf(),
            old(self).machine_frame(&*final(self)),
            unofficial_outcome(*old(self), *final(self), opcode, r),
            r matches Some(c) ==> 1 <= c <= 8,
            r is None <==> unofficial_none(opcode),
            r is None ==> *final(self) == *old(self),
    {
        proof {
            reveal(unofficial_outcome);
        }
        if opcode == 0x93 {
            let (addr, page, base) = self.addr_indy_with_base();
            let ax = self.cpu.a & self.cpu.x;
            let x = self.cpu.x;
            self.store_masked(addr, page, base, ax, x);
            return Some(6);
        }
        if opcode == 0x9F {
            let (addr, page, base) = self.addr_absy_with_base();
            let ax = self.cpu.a & self.cpu.x;
            let x = self.cpu.x;
            self.store_masked(addr, page, base, ax, x);
            return Some(5);
        }
        if opcode == 0x9B {
            let (addr, page, base) = self.addr_absy_with_base();
            self.cpu.sp = self.cpu.a & self.cpu.x;
            let sp = self.cpu.sp;
            let x = self.cpu.x;
            self.store_masked(addr, page, base, sp, x);
            return Some(5);
        }
        if opcode == 0x9C {
            let (addr, page, base) = self.addr_absx_with_base();
            let y = self.cpu.y;
            let h = ((base >> 8) as u8).wrapping_add(1);
            self.store_masked(addr, page, base, y, y & h);
            return Some(5);
        }
        if opcode == 0x9E {
            let (addr, page, base) = self.addr_absy_with_base();
            let x = self.cpu.x;
            let h = ((base >> 8) as u8).wrapping_add(1);
            self.store_masked(addr, page, base, x, x & h);
            return Some(5);
        }
        if opcode == 0xBB {
            let (addr, page, base) = self.addr_absy_with_base();
            if page {
                let _ = self.cpu_read((base & 0xFF00) | (addr & 0x00FF));
            }
            let ghost pre = *self;
            let v = self.cpu_read(addr);
            let ghost post = *self;
            let value = v & self.cpu.sp;
            self.cpu.a = value;
            self.cpu.x = value;
            self.cpu.sp = value;
            self.cpu.update_zn(value);
            proof {
                assert(loaded(old(self).ram@, addr, v));
                assert(Nes { cpu: pre.cpu, ..*self } == post);
                assert(read_on_bus(*self, addr, v));
                assert(read_via(*old(self), *self, 6, false, v, page));
            }
            return Some(if page {
                5
            } else {
                4
            });
        }
        if (opcode & 0x03) != 0x03 {
            return None;
        }
        let aaa = opcode >> 5;
        let bbb = (opcode >> 2) & 0x07;
        proof {
            lemma_opcode_fields(opcode);
        }
        if bbb == 2 {
            let imm = self.fetch_byte();
            self.cpu.exec_unofficial_imm(aaa, imm);
            proof {
                assert(loaded(old(self).ram@, old(self).cpu.pc, imm));
            }
            return Some(2);
        }
        if aaa == 4 {
            let addr: u16;
            if bbb == 0 {
                addr = self.addr_indx();
            } else if bbb == 1 {
                addr = self.addr_zp();
            } else if bbb == 3 {
                addr = self.addr_abs();
            } else if bbb == 5 {
                addr = self.addr_zpy();
            } else {
                return None;
            }
            let value = self.cpu.a & self.cpu.x;
            let ghost pre = *self;
            self.cpu_write(addr, value);
            proof {
                assert(written_on_bus(*self, addr, value));
                assert(ram_after_write(old(self).ram@, addr, value) == self.ram@);
                assert(addressed(old(self).ram@, old(self).cpu, bbb, true, addr, false));
            }
            return Some(
                if bbb == 0 {
                    6
                } else if bbb == 1 {
                    3
                } else {
                    4
                },
            );
        }
        if aaa == 5 {
            let addr: u16;
            let mut cycles: u32;
            let ghost mut crossed = false;
            if bbb == 0 {
                addr = self.addr_indx();
                cycles = 6;
            } else if bbb == 1 {
                addr = self.addr_zp();
                cycles = 3;
            } else if bbb == 3 {
                addr = self.addr_abs();
                cycles = 4;
            } else if bbb == 4 {
                let (a, page, base) = self.addr_indy_with_base();
                proof {
                    crossed = page;
                }
                cycles = 5;
                if page {
                    let _ = self.cpu_read((base & 0xFF00) | (a & 0x00FF));
                    cycles = 6;
                }
                addr = a;
            } else if bbb == 5 {
                addr = self.addr_zpy();
                cycles = 4;
            } else {
                let (a, page, base) = self.addr_absy_with_base();
                proof {
                    crossed = page;
                }
                cycles = 4;
                if page {
                    let _ = self.cpu_read((base & 0xFF00) | (a & 0x00FF));
                    cycles = 5;
                }
                addr = a;
            }
            let ghost pre = *self;
            let v = self.cpu_read(addr);
            let ghost post = *self;
            self.cpu.a = v;
            self.cpu.x = v;
            self.cpu.update_zn(v);
            proof {
                assert(loaded(old(self).ram@, addr, v));
                assert(Nes { cpu: pre.cpu, ..*self } == post);
                assert(read_on_bus(*self, addr, v));
                assert(read_via(*old(self), *self, bbb, true, v, crossed));
                assert(cycles == load_cycles(bbb) + cross_cycle(crossed));
            }
            return Some(cycles);
        }
        let addr: u16;
        let cycles: u32;
        let ghost mut crossed = false;
        if bbb == 0 {
            addr = self.addr_indx();
            cycles = 8;
        } else if bbb == 1 {
            addr = self.addr_zp();
            cycles = 5;
        } else if bbb == 3 {
            addr = self.addr_abs();
            cycles = 6;
        } else if bbb == 4 {
            let (a, page, base) = self.addr_indy_with_base();
            proof {
                crossed = page;
            }
            let _ = self.cpu_read((base & 0xFF00) | (a & 0x00FF));
            addr = a;
            cycles = 8;
        } else if bbb == 5 {
            addr = self.addr_zpx();
            cycles = 6;
        } else if bbb == 6 {
            let (a, page, base) = self.addr_absy_with_base();
            proof {
                crossed = page;
            }
            let _ = self.cpu_read((base & 0xFF00) | (a & 0x00FF));
            addr = a;
            cycles = 7;
        } else {
            let (a, page, base) = self.addr_absx_with_base();
            proof {
                crossed = page;
            }
            let _ = self.cpu_read((base & 0xFF00) | (a & 0x00FF));
            addr = a;
            cycles = 7;
        }
        let op = if aaa == 0 {
            UnofficialRmwOp::Slo
        } else if aaa == 1 {
            UnofficialRmwOp::Rla
        } else if aaa == 2 {
            UnofficialRmwOp::Sre
        } else if aaa == 3 {
            UnofficialRmwOp::Rra
        } else if aaa == 6 {
            UnofficialRmwOp::Dcp
        } else {
            UnofficialRmwOp::Isc
        };
        let v = self.exec_unofficial_rmw(addr, op);
        proof {
            assert(unofficial_rmw_done(
                old(self).ram@,
                advance(old(self).cpu, operand_len(bbb)),
                *self,
                addr,
                unofficial_rmw_op(aaa),
                v,
            ));
            assert(addressed(old(self).ram@, old(self).cpu, bbb, false, addr, crossed));
        }
        Some(cycles)
    }
}

/// The one-byte implied instructions, 2 cycles each: flag changes, register
/// transfers, increments and decrements, and the NOPs.
pub open spec fn implied_spec(op: u8, r: CpuRegs) -> Option<CpuRegs> {
    if op == 0x18 {
        Some(CpuRegs { p: with_flag(r.p, FLAG_CARRY, false), ..r })
    } else if op == 0x38 {
        Some(CpuRegs { p: with_flag(r.p, FLAG_CARRY, true), ..r })
    } else if op == 0x58 {
        Some(CpuRegs { p: with_flag(r.p, FLAG_INTERRUPT, false), ..r })
    } else if op == 0x78 {
        Some(CpuRegs { p: with_flag(r.p, FLAG_INTERRUPT, true), ..r })
    } else if op == 0xB8 {
        Some(CpuRegs { p: with_flag(r.p, FLAG_OVERFLOW, false), ..r })
    } else if op == 0xD8 {
        Some(CpuRegs { p: with_flag(r.p, FLAG_DECIMAL, false), ..r })
    } else if op == 0xF8 {
        Some(CpuRegs { p: with_flag(r.p, FLAG_DECIMAL, true), ..r })
    } else if op == 0x88 {
        Some(load_y(r, r.y.wrapping_sub(1)))
    } else if op == 0xC8 {
        Some(load_y(r, r.y.wrapping_add(1)))
    } else if op == 0xCA {
        Some(load_x(r, r.x.wrapping_sub(1)))
    } else if op == 0xE8 {
        Some(load_x(r, r.x.wrapping_add(1)))
    } else if op == 0x8A {
        Some(CpuRegs { a: r.x, p: with_zn(r.p, r.x), ..r })
    } else if op == 0x98 {
        Some(CpuRegs { a: r.y, p: with_zn(r.p, r.y), ..r })
    } else if op == 0xA8 {
        Some(load_y(r, r.a))
    } else if op == 0xAA {
        Some(load_x(r, r.a))
    } else if op == 0x9A {
        Some(CpuRegs { sp: r.x, ..r })
    } else if op == 0xBA {
        Some(load_x(r, r.sp))
    } else if op == 0xEA || op == 0x1A || op == 0x3A || op == 0x5A || op == 0x7A || op == 0xDA
        || op == 0xFA {
        Some(r)
    } else {
        None
    }
}

/// The condition under which branch opcode `op` is taken, on status `p`.
pub open spec fn branch_cond(op: u8, p: u8) -> Option<bool> {
    if op == 0x10 {
        Some((p & FLAG_NEGATIVE) == 0)
    } else if op == 0x30 {
        Some((p & FLAG_NEGATIVE) != 0)
    } else if op == 0x50 {
        Some((p & FLAG_OVERFLOW) == 0)
    } else if op == 0x70 {
        Some((p & FLAG_OVERFLOW) != 0)
    } else if op == 0x90 {
        Some((p & FLAG_CARRY) == 0)
    } else if op == 0xB0 {
        Some((p & FLAG_CARRY) != 0)
    } else if op == 0xD0 {
        Some((p & FLAG_ZERO) == 0)
    } else if op == 0xF0 {
        Some((p & FLAG_ZERO) != 0)
    } else {
        None
    }
}

/// BRK, PHP, JSR, PLP, RTI, PHA, RTS and PLA.
pub open spec fn is_stack_op(op: u8) -> bool {
    op == 0x00 || op == 0x08 || op == 0x20 || op == 0x28 || op == 0x40 || op == 0x48 || op == 0x60
        || op == 0x68
}

/// The stack slot of stack pointer `sp`, as an index into RAM.
pub open spec fn slot(sp: u8) -> int {
    ram_index(stack_addr(sp))
}

/// RAM after pushing the word `w`, high byte first, at stack pointer `sp`.
pub open spec fn pushed_word(ram: Seq<u8>, sp: u8, w: u16) -> Seq<u8> {
    ram.update(slot(sp), (w / 256) as u8).update(slot(sp.wrapping_sub(1)), (w % 256) as u8)
}

/// A status byte with B cleared and bit 5 set: what PLP and RTI pull and
/// what an interrupt pushes.
pub open spec fn pulled_status(v: u8) -> u8 {
    (v & !FLAG_BREAK) | FLAG_UNUSED
}

/// What the stack instructions do, from the registers after the opcode.
pub open spec fn stack_outcome(before: Nes, after: Nes, op: u8, r: u32) -> bool {
    let regs = before.cpu;
    let ram = before.ram@;
    let sp = regs.sp;
    if op == 0x00 {
        // BRK skips a padding byte, pushes the return address and the status
        // with B set, sets I and jumps through the vector at $FFFE.
        &&& after.cpu == CpuRegs {
            sp: sp.wrapping_sub(3),
            p: with_flag(regs.p, FLAG_INTERRUPT, true),
            pc: after.cpu.pc,
            ..regs
        }
        &&& after.ram@ == pushed_word(ram, sp, regs.pc.wrapping_add(1)).update(
            slot(sp.wrapping_sub(2)),
            regs.p | FLAG_BREAK | FLAG_UNUSED,
        )
        &&& r == 7
    } else if op == 0x08 {
        &&& after.cpu == CpuRegs { sp: sp.wrapping_sub(1), ..regs }
        &&& after.ram@ == ram.update(slot(sp), regs.p | FLAG_BREAK | FLAG_UNUSED)
        &&& r == 3
    } else if op == 0x20 {
        // JSR pushes the address of its last operand byte and jumps.
        &&& after.cpu == CpuRegs { sp: sp.wrapping_sub(2), pc: after.cpu.pc, ..regs }
        &&& word_loaded(ram, regs.pc, after.cpu.pc)
        &&& after.ram@ == pushed_word(ram, sp, regs.pc.wrapping_add(1))
        &&& r == 6
    } else if op == 0x28 {
        &&& after.cpu == CpuRegs {
            sp: sp.wrapping_add(1),
            p: pulled_status(ram[slot(sp.wrapping_add(1))]),
            ..regs
        }
        &&& after.ram == before.ram
        &&& r == 4
    } else if op == 0x40 {
        &&& after.cpu == CpuRegs {
            sp: sp.wrapping_add(3),
            p: pulled_status(ram[slot(sp.wrapping_add(1))]),
            pc: (ram[slot(sp.wrapping_add(2))] + 256 * ram[slot(sp.wrapping_add(3))]) as u16,
            ..regs
        }
        &&& after.ram == before.ram
        &&& r == 6
    } else if op == 0x48 {
        &&& after.cpu == CpuRegs { sp: sp.wrapping_sub(1), ..regs }
        &&& after.ram@ == ram.update(slot(sp), regs.a)
        &&& r == 3
    } else if op == 0x60 {
        // RTS returns to the pulled address plus one.
        &&& after.cpu == CpuRegs {
            sp: sp.wrapping_add(2),
            pc: ((ram[slot(sp.wrapping_add(1))] + 256 * ram[slot(sp.wrapping_add(2))]) as u16).wrapping_add(1),
            ..regs
        }
        &&& after.ram == before.ram
        &&& r == 6
    } else {
        let v = ram[slot(sp.wrapping_add(1))];
        &&& after.cpu == CpuRegs { sp: sp.wrapping_add(1), a: v, p: with_zn(regs.p, v), ..regs }
        &&& after.ram == before.ram
        &&& r == 4
    }
}

/// The group-zero instructions that read an operand: LDY, CPY, CPX, BIT, the
/// unofficial SBC immediate and the NOPs that read.
pub open spec fn is_read_op(op: u8) -> bool {
    ||| op == 0xA0 || op == 0xA4 || op == 0xAC || op == 0xB4 || op == 0xBC
    ||| op == 0xC0 || op == 0xC4 || op == 0xCC
    ||| op == 0xE0 || op == 0xE4 || op == 0xEC || op == 0xEB
    ||| op == 0x24 || op == 0x2C
    ||| op == 0x04 || op == 0x44 || op == 0x64 || op == 0x0C
    ||| op == 0x14 || op == 0x34 || op == 0x54 || op == 0x74 || op == 0xD4 || op == 0xF4
    ||| op == 0x1C || op == 0x3C || op == 0x5C || op == 0x7C || op == 0xDC || op == 0xFC
}

/// The registers after read instruction `op` with operand `v`.
pub open spec fn read_op_spec(op: u8, r: CpuRegs, v: u8) -> CpuRegs {
    let aaa = op >> 5;
    if aaa == 5 {
        load_y(r, v)
    } else if aaa == 6 {
        CpuRegs { p: compare_flags(r.p, r.y, v), ..r }
    } else if op == 0xEB {
        adc_spec(r, v ^ 0xFF)
    } else if aaa == 7 {
        CpuRegs { p: compare_flags(r.p, r.x, v), ..r }
    } else if aaa == 1 {
        CpuRegs {
            p: with_flag(
                with_flag(with_flag(r.p, FLAG_ZERO, (r.a & v) == 0), FLAG_NEGATIVE, (v & 0x80) != 0),
                FLAG_OVERFLOW,
                (v & 0x40) != 0,
            ),
            ..r
        }
    } else {
        r
    }
}

/// Cycles of a group-zero operand instruction with addressing `bbb`.
pub open spec fn operand_cycles(bbb: u8) -> u32 {
    if bbb == 0 {
        2
    } else {
        load_cycles(bbb)
    }
}

/// STY.
pub open spec fn is_sty(op: u8) -> bool {
    op == 0x84 || op == 0x8C || op == 0x94
}

/// The opcodes that jam a real 6502.
pub open spec fn is_kil(op: u8) -> bool {
    op == 0x02 || op == 0x12 || op == 0x22 || op == 0x32 || op == 0x42 || op == 0x52 || op == 0x62
        || op == 0x72 || op == 0x92 || op == 0xB2 || op == 0xD2 || op == 0xF2
}

/// Whether group zero knows opcode `op`.
pub open spec fn group0_known(op: u8, p: u8) -> bool {
    ||| implied_spec(op, CpuRegs { a: 0, x: 0, y: 0, p: p, sp: 0, pc: 0 }) is Some
    ||| branch_cond(op, p) is Some
    ||| is_stack_op(op)
    ||| is_read_op(op)
    ||| is_sty(op)
    ||| op == 0x4C || op == 0x6C
    ||| is_kil(op)
}

/// The addressing of a group-zero operand instruction, numbered as in
/// groups one and two: 0 immediate, 1 zero page, 3 absolute, 5 zero page,X,
/// 7 absolute,X.
pub open spec fn g0_mode(op: u8) -> u8 {
    if op == 0xA4 || op == 0xC4 || op == 0xE4 || op == 0x24 || op == 0x04 || op == 0x44 || op
        == 0x64 || op == 0x84 {
        1
    } else if op == 0xAC || op == 0xCC || op == 0xEC || op == 0x2C || op == 0x0C || op == 0x8C {
        3
    } else if op == 0xB4 || op == 0x14 || op == 0x34 || op == 0x54 || op == 0x74 || op == 0xD4
        || op == 0xF4 || op == 0x94 {
        5
    } else if op == 0xBC || op == 0x1C || op == 0x3C || op == 0x5C || op == 0x7C || op == 0xDC
        || op == 0xFC {
        7
    } else {
        0
    }
}

/// What read instruction `op` (LDY, CPY, CPX, BIT, the unofficial SBC and
/// the reading NOPs) does: immediate operands come from PC, the others
/// through their addressing mode, with a cycle more where absolute,X
/// crosses a page.
pub open spec fn read_instr_done(before: Nes, after: Nes, op: u8, r: u32) -> bool {
    let regs = before.cpu;
    let bbb = g0_mode(op);
    if bbb == 0 {
        &&& exists|v: u8|
            #[trigger] loaded(before.ram@, regs.pc, v) && after.cpu == read_op_spec(
                op,
                advance(regs, 1),
                v,
            )
        &&& r == 2
    } else {
        exists|v: u8, c: bool|
            #[trigger] read_via(before, after, bbb, false, v, c) && after.cpu == read_op_spec(
                op,
                advance(regs, operand_len(bbb)),
                v,
            ) && r == operand_cycles(bbb) + cross_cycle(c)
    }
}

/// What group-zero opcode `op` does, from the registers after the opcode.
#[verifier::opaque]
pub open spec fn group0_outcome(before: Nes, after: Nes, op: u8, r: u32) -> bool {
    let regs = before.cpu;
    let ram = before.ram@;
    let bbb = g0_mode(op);
    &&& after.halted == (before.halted || is_kil(op))
    &&& after.unknown_opcode_count == if group0_known(op, regs.p) {
        before.unknown_opcode_count
    } else {
        before.unknown_opcode_count.wrapping_add(1)
    }
    &&& if implied_spec(op, regs) is Some {
        after.cpu == implied_spec(op, regs)->0 && after.ram == before.ram && r == 2
    } else if branch_cond(op, regs.p) is Some {
        branch_outcome(before, after, branch_cond(op, regs.p)->0, r)
    } else if is_stack_op(op) {
        stack_outcome(before, after, op, r)
    } else if is_read_op(op) {
        &&& read_instr_done(before, after, op, r)
        &&& after.ram == before.ram
    } else if is_sty(op) {
        &&& after.cpu == advance(regs, operand_len(bbb))
        &&& store_via(before, after, bbb, false, regs.y)
        &&& r == operand_cycles(bbb)
    } else if op == 0x4C {
        &&& after.cpu == CpuRegs { pc: after.cpu.pc, ..regs }
        &&& word_loaded(ram, regs.pc, after.cpu.pc)
        &&& after.ram == before.ram
        &&& r == 3
    } else if op == 0x6C {
        // The pointer's high byte is read from the same page.
        &&& after.cpu == CpuRegs { pc: after.cpu.pc, ..regs }
        &&& exists|ptr: u16|
            #[trigger] word_loaded(ram, regs.pc, ptr) && (ptr <= 0x1FFF ==> after.cpu.pc == ram[ram_index(
                ptr,
            )] + 256 * ram[ram_index(page_bug_high_addr(ptr))])
        &&& after.ram == before.ram
        &&& r == 5
    } else {
        untouched(before, after) && r == 2
    }
}

impl CpuRegs {
    /// Runs `op` if it is an implied instruction, and says whether it was.
    pub fn exec_implied(&mut self, op: u8) -> (handled: bool)
        ensures
            handled == implied_spec(op, *old(self)) is Some,
            handled ==> *final(self) == implied_spec(op, *old(self))->0,
            !handled ==> *final(self) == *old(self),
    {
        if op == 0x18 {
            self.set_flag(FLAG_CARRY, false);
        } else if op == 0x38 {
            self.set_flag(FLAG_CARRY, true);
        } else if op == 0x58 {
            self.set_flag(FLAG_INTERRUPT, false);
        } else if op == 0x78 {
            self.set_flag(FLAG_INTERRUPT, true);
        } else if op == 0xB8 {
            self.set_flag(FLAG_OVERFLOW, false);
        } else if op == 0xD8 {
            self.set_flag(FLAG_DECIMAL, false);
        } else if op == 0xF8 {
            self.set_flag(FLAG_DECIMAL, true);
        } else if op == 0x88 {
            self.y = self.y.wrapping_sub(1);
            self.update_zn(self.y);
        } else if op == 0xC8 {
            self.y = self.y.wrapping_add(1);
            self.update_zn(self.y);
        } else if op == 0xCA {
            self.x = self.x.wrapping_sub(1);
            self.update_zn(self.x);
        } else if op == 0xE8 {
            self.x = self.x.wrapping_add(1);
            self.update_zn(self.x);
        } else if op == 0x8A {
            self.a = self.x;
            self.update_zn(self.a);
        } else if op == 0x98 {
            self.a = self.y;
            self.update_zn(self.a);
        } else if op == 0xA8 {
            self.y = self.a;
            self.update_zn(self.y);
        } else if op == 0xAA {
            self.x = self.a;
            self.update_zn(self.x);
        } else if op == 0x9A {
            self.sp = self.x;
        } else if op == 0xBA {
            self.x = self.sp;
            self.update_zn(self.x);
        } else if op == 0xEA || op == 0x1A || op == 0x3A || op == 0x5A || op == 0x7A || op == 0xDA
            || op == 0xFA {
        } else {
            return false;
        }
        true
    }

    /// The condition of branch opcode `op`, if it is one.
    pub fn branch_condition(&self, op: u8) -> (r: Option<bool>)
        ensures
            r == branch_cond(op, self.p),
    {
        if op == 0x10 {
            Some(!self.get_flag(FLAG_NEGATIVE))
        } else if op == 0x30 {
            Some(self.get_flag(FLAG_NEGATIVE))
        } else if op == 0x50 {
            Some(!self.get_flag(FLAG_OVERFLOW))
        } else if op == 0x70 {
            Some(self.get_flag(FLAG_OVERFLOW))
        } else if op == 0x90 {
            Some(!self.get_flag(FLAG_CARRY))
        } else if op == 0xB0 {
            Some(self.get_flag(FLAG_CARRY))
        } else if op == 0xD0 {
            Some(!self.get_flag(FLAG_ZERO))
        } else if op == 0xF0 {
            Some(self.get_flag(FLAG_ZERO))
        } else {
            None
        }
    }

    /// The register effect of read instruction `op` on operand `value`.
    pub fn exec_read_op(&mut self, op: u8, value: u8)
        ensures
            *final(self) == read_op_spec(op, *old(self), value),
    {
        let aaa = op >> 5;
        if aaa == 5 {
            self.y = value;
            self.update_zn(value);
        } else if aaa == 6 {
            let y = self.y;
            self.compare(y, value);
        } else if op == 0xEB {
            self.sbc(value);
        } else if aaa == 7 {
            let x = self.x;
            self.compare(x, value);
        } else if aaa == 1 {
            self.bit(value);
        }
    }
}

/// The addressing of group-zero opcode `op`.
fn operand_mode(op: u8) -> (r: u8)
    ensures
        r == g0_mode(op),
{
    if op == 0xA4 || op == 0xC4 || op == 0xE4 || op == 0x24 || op == 0x04 || op == 0x44 || op
        == 0x64 || op == 0x84 {
        1
    } else if op == 0xAC || op == 0xCC || op == 0xEC || op == 0x2C || op == 0x0C || op == 0x8C {
        3
    } else if op == 0xB4 || op == 0x14 || op == 0x34 || op == 0x54 || op == 0x74 || op == 0xD4
        || op == 0xF4 || op == 0x94 {
        5
    } else if op == 0xBC || op == 0x1C || op == 0x3C || op == 0x5C || op == 0x7C || op == 0xDC
        || op == 0xFC {
        7
    } else {
        0
    }
}

fn is_read_opcode(op: u8) -> (r: bool)
    ensures
        r == is_read_op(op),
{
    op == 0xA0 || op == 0xA4 || op == 0xAC || op == 0xB4 || op == 0xBC || op == 0xC0 || op == 0xC4
        || op == 0xCC || op == 0xE0 || op == 0xE4 || op == 0xEC || op == 0xEB || op == 0x24 || op
        == 0x2C || op == 0x04 || op == 0x44 || op == 0x64 || op == 0x0C || op == 0x14 || op == 0x34
        || op == 0x54 || op == 0x74 || op == 0xD4 || op == 0xF4 || op == 0x1C || op == 0x3C || op
        == 0x5C || op == 0x7C || op == 0xDC || op == 0xFC
}

impl Nes {
    /// BRK, PHP, JSR, PLP, RTI, PHA, RTS and PLA.
    fn exec_stack_op(&mut self, op: u8) -> (r: u32)
        requires
            old(self).wf(),
            is_stack_op(op),
        ensures
            final(self).wf(),
            old(self).machine_frame(&*final(self)),
            stack_outcome(*old(self), *final(self), op, r),
    {
        if op == 0x00 {
            self.cpu.pc = self.cpu.pc.wrapping_add(1);
            let pc = self.cpu.pc;
            self.push_u16(pc);
            let p = self.cpu.p;
            self.push(p | FLAG_BREAK | FLAG_UNUSED);
            self.cpu.set_flag(FLAG_INTERRUPT, true);
            self.cpu.pc = self.read_u16(0xFFFE);
            7
        } else if op == 0x08 {
            let p = self.cpu.p;
            self.push(p | FLAG_BREAK | FLAG_UNUSED);
            3
        } else if op == 0x20 {
            let addr = self.fetch_word();
            let ret = self.cpu.pc.wrapping_sub(1);
            self.push_u16(ret);
            self.cpu.pc = addr;
            6
        } else if op == 0x28 {
            let v = self.pop();
            self.cpu.p = v;
            self.cpu.p = self.cpu.p & !FLAG_BREAK;
            self.cpu.p = self.cpu.p | FLAG_UNUSED;
            4
        } else if op == 0x40 {
            let v = self.pop();
            self.cpu.p = v;
            self.cpu.p = self.cpu.p & !FLAG_BREAK;
            self.cpu.p = self.cpu.p | FLAG_UNUSED;
            self.cpu.pc = self.pop_u16();
            6
        } else if op == 0x48 {
            let a = self.cpu.a;
            self.push(a);
            3
        } else if op == 0x60 {
            self.cpu.pc = self.pop_u16().wrapping_add(1);
            6
        } else {
            let v = self.pop();
            self.cpu.a = v;
            self.cpu.update_zn(v);
            4
        }
    }

    /// LDY, CPY, CPX, BIT, SBC immediate and the NOPs that read.
    fn exec_read_instr(&mut self, op: u8) -> (r: u32)
        requires
            old(self).wf(),
            is_read_op(op),
        ensures
            final(self).wf(),
            old(self).machine_frame(&*final(self)),
            final(self).ram == old(self).ram,
            read_instr_done(*old(self), *final(self), op, r),
    {
        let mode = operand_mode(op);
        if mode == 0 {
            let v = self.fetch_byte();
            self.cpu.exec_read_op(op, v);
            proof {
                assert(loaded(old(self).ram@, old(self).cpu.pc, v));
            }
            return 2;
        }
        let addr: u16;
        let mut cycles: u32;
        let ghost mut crossed = false;
        if mode == 1 {
            addr = self.addr_zp();
            cycles = 3;
        } else if mode == 3 {
            addr = self.addr_abs();
            cycles = 4;
        } else if mode == 5 {
            addr = self.addr_zpx();
            cycles = 4;
        } else {
            let (a, page, base) = self.addr_absx_with_base();
            proof {
                crossed = page;
            }
            cycles = 4;
            if page {
                let _ = self.cpu_read((base & 0xFF00) | (a & 0x00FF));
                cycles = 5;
            }
            addr = a;
        }
        let ghost pre = *self;
        let v = self.cpu_read(addr);
        let ghost post = *self;
        self.cpu.exec_read_op(op, v);
        proof {
            assert(loaded(old(self).ram@, addr, v));
            assert(Nes { cpu: pre.cpu, ..*self } == post);
            assert(read_on_bus(*self, addr, v));
            assert(read_via(*old(self), *self, g0_mode(op), false, v, crossed));
            assert(cycles == operand_cycles(g0_mode(op)) + cross_cycle(crossed));
        }
        cycles
    }

    /// Group zero: control flow, the stack, flags, Y, compares and NOPs.
    #[verifier::spinoff_prover]
    #[verifier::rlimit(40)]
    fn exec_group0(&mut self, op: u8, opcode_pc: u16) -> (r: u32)
        requires
            old(self).wf(),
        ensures
            final(self).wf(),
            old(self).exec_frame(&*final(self)),
            group0_outcome(*old(self), *final(self), op, r),
            1 <= r <= 8,
            final(self).halted == (old(self).halted || is_kil(op)),
    {
        proof {
            reveal(group0_outcome);
        }
        if self.cpu.exec_implied(op) {
            return 2;
        }
        match self.cpu.branch_condition(op) {
            Some(taken) => {
                return self.branch(taken);
            },
            None => {},
        }
        if op == 0x00 || op == 0x08 || op == 0x20 || op == 0x28 || op == 0x40 || op == 0x48 || op
            == 0x60 || op == 0x68 {
            return self.exec_stack_op(op);
        }
        if is_read_opcode(op) {
            return self.exec_read_instr(op);
        }
        if op == 0x84 || op == 0x8C || op == 0x94 {
            let y = self.cpu.y;
            let addr = if op == 0x84 {
                self.addr_zp()
            } else if op == 0x8C {
                self.addr_abs()
            } else {
                self.addr_zpx()
            };
            let ghost pre = *self;
            self.cpu_write(addr, y);
            proof {
                assert(written_on_bus(*self, addr, y));
                assert(ram_after_write(old(self).ram@, addr, y) == self.ram@);
                assert(addressed(old(self).ram@, old(self).cpu, g0_mode(op), false, addr, false));
            }
            return if op == 0x84 {
                3
            } else {
                4
            };
        }
        if op == 0x4C {
            self.cpu.pc = self.fetch_word();
            return 3;
        }
        if op == 0x6C {
            let ptr = self.fetch_word();
            self.cpu.pc = self.read_u16_bug(ptr);
            proof {
                assert(word_loaded(old(self).ram@, old(self).cpu.pc, ptr));
            }
            return 5;
        }
        if op == 0x02 || op == 0x12 || op == 0x22 || op == 0x32 || op == 0x42 || op == 0x52 || op
            == 0x62 || op == 0x72 || op == 0x92 || op == 0xB2 || op == 0xD2 || op == 0xF2 {
            self.halted = true;
            return 2;
        }
        self.note_unknown_opcode(op, opcode_pc);
        2
    }
}

/// The transfers and NOP that `step_cpu` runs before any dispatch.
pub open spec fn is_fast_implied(op: u8) -> bool {
    op == 0x8A || op == 0x9A || op == 0xAA || op == 0xBA || op == 0xCA || op == 0xEA
}

/// The two-byte NOPs: the operand is fetched and ignored.
pub open spec fn is_skip_nop(op: u8) -> bool {
    op == 0x80 || op == 0x82 || op == 0x89 || op == 0xC2 || op == 0xE2
}

/// The opcodes the unofficial-opcode stage passes on.
pub open spec fn unofficial_none(op: u8) -> bool {
    let aaa = op >> 5;
    let bbb = (op >> 2) & 0x07;
    &&& !(op == 0x93 || op == 0x9F || op == 0x9B || op == 0x9C || op == 0x9E || op == 0xBB)
    &&& ((op & 0x03) != 0x03 || (bbb != 2 && aaa == 4 && !(bbb == 0 || bbb == 1 || bbb == 3 || bbb
        == 5)))
}

/// What instruction `op` does, from the registers after its opcode fetch.
pub open spec fn instruction_outcome(before: Nes, after: Nes, op: u8, r: u32) -> bool {
    &&& after.halted == (before.halted || is_kil(op))
    &&& instruction_effect(before, after, op, r)
}

/// What instruction `op` does to the registers, RAM and cycle count. The
/// jam opcodes stop the CPU and change nothing else.
pub open spec fn instruction_effect(before: Nes, after: Nes, op: u8, r: u32) -> bool {
    if is_kil(op) {
        untouched(before, after) && r == 2
    } else if is_fast_implied(op) {
        after.cpu == implied_spec(op, before.cpu)->0 && after.ram == before.ram && r == 2
    } else if is_skip_nop(op) {
        after.cpu == advance(before.cpu, 1) && after.ram == before.ram && r == 2
    } else if !unofficial_none(op) {
        unofficial_outcome(before, after, op, Some(r))
    } else if (op & 0x03) == 1 {
        group1_outcome(before, after, op >> 5, (op >> 2) & 0x07, r)
    } else if (op & 0x03) == 2 {
        group2_outcome(before, after, op >> 5, (op >> 2) & 0x07, r)
    } else if (op & 0x03) == 3 {
        untouched(before, after) && r == 2
    } else {
        group0_outcome(before, after, op, r)
    }
}

/// An interrupt was entered: PC and the status (B clear) pushed, I set, PC
/// taken from the vector.
pub open spec fn interrupt_entered(before: Nes, after: Nes) -> bool {
    let regs = before.cpu;
    &&& after.cpu == CpuRegs {
        sp: regs.sp.wrapping_sub(3),
        p: with_flag(regs.p, FLAG_INTERRUPT, true),
        pc: after.cpu.pc,
        ..regs
    }
    &&& after.ram@ == pushed_word(before.ram@, regs.sp, regs.pc).update(
        slot(regs.sp.wrapping_sub(2)),
        pulled_status(regs.p),
    )
}

/// The parts of the machine an instruction's outcome speaks of agree.
pub open spec fn same_cpu_view(a: Nes, b: Nes) -> bool {
    &&& a.cpu == b.cpu
    &&& a.ram == b.ram
    &&& a.halted == b.halted
    &&& a.unknown_opcode_count == b.unknown_opcode_count
}

/// The opcode `op` was read over the bus at the step's PC, from the machine
/// as the step found it, leaving it as `mid` with PC past the opcode.
pub open spec fn opcode_fetched(a: Nes, mid: Nes, op: u8) -> bool {
    let start = Nes { cpu_step_ticked_cycles: 0, cpu_step_in_progress: true, ..a };
    &&& bus_read(start, Nes { cpu: a.cpu, ..mid }, a.cpu.pc, op)
    &&& mid.cpu == advance(a.cpu, 1)
}

/// What one CPU step does: a stalled DMA cycle, an NMI or IRQ entry, or
/// one instruction, with the cycles `r` it took.
pub open spec fn step_outcome(a: Nes, b: Nes, r: u32) -> bool {
    let irq_taken = a.pending_irq && (a.cpu.p & FLAG_INTERRUPT) == 0;
    &&& a.board_frame(&b)
    &&& !b.cpu_step_in_progress
    &&& 1 <= r <= 8
    &&& a.dma_cycles > 0 ==> r == 1 && b == (Nes {
        dma_cycles: (a.dma_cycles - 1) as u32,
        total_cycles: a.total_cycles.wrapping_add(1),
        cpu_step_ticked_cycles: 0,
        cpu_step_in_progress: false,
        ..a
    })
    &&& a.dma_cycles == 0 ==> b.total_cycles == a.total_cycles.wrapping_add(r as u64)
    &&& a.dma_cycles == 0 && (a.pending_nmi || irq_taken) ==> b.halted == a.halted
    &&& a.dma_cycles == 0 && a.pending_nmi ==> {
        &&& r == 7
        &&& interrupt_entered(a, b)
        &&& b.nmi_serviced_count == a.nmi_serviced_count.wrapping_add(1)
    }
    &&& a.dma_cycles == 0 && !a.pending_nmi && irq_taken ==> r == 7 && interrupt_entered(a, b)
    &&& a.dma_cycles == 0 && !a.pending_nmi && !irq_taken ==> exists|op: u8, mid: Nes, end: Nes|
        #![trigger instruction_outcome(mid, end, op, r)]
        loaded(a.ram@, a.cpu.pc, op) && opcode_fetched(a, mid, op) && same_cpu_view(
            mid,
            (Nes { cpu: advance(a.cpu, 1), ..a }),
        )
            && b == (Nes { total_cycles: b.total_cycles, cpu_step_in_progress: false, ..end })
            && instruction_outcome(mid, end, op, r)
}

impl Nes {
    /// The board, its name and number and the file name stay.
    pub open spec fn board_frame(&self, other: &Self) -> bool {
        &&& (other.mapper is Some <==> self.mapper is Some)
        &&& other.loaded_rom_name == self.loaded_rom_name
        &&& other.mapper_name == self.mapper_name
        &&& other.mapper_id == self.mapper_id
    }

    /// Runs the instruction whose opcode `op` (fetched at `opcode_pc`) has
    /// just been read, and returns its cycles.
    #[verifier::spinoff_prover]
    #[verifier::rlimit(60)]
    fn execute_opcode(&mut self, op: u8, opcode_pc: u16) -> (cycles: u32)
        requires
            old(self).wf(),
        ensures
            final(self).wf(),
            old(self).board_frame(&*final(self)),
            final(self).total_cycles == old(self).total_cycles,
            1 <= cycles <= 8,
            instruction_outcome(*old(self), *final(self), op, cycles),
    {
        let cycles: u32;
        if op == 0x8A || op == 0x9A || op == 0xAA || op == 0xBA || op == 0xCA || op == 0xEA {
            self.cpu.exec_implied(op);
            cycles = 2;
        } else if op == 0x80 || op == 0x82 || op == 0x89 || op == 0xC2 || op == 0xE2 {
            let _ = self.fetch_byte();
            cycles = 2;
        } else if is_jam(op) {
            self.halted = true;
            cycles = 2;
        } else {
            match self.exec_unofficial(op) {
                Some(c) => {
                    cycles = c;
                },
                None => {
                    let cc = op & 0x03;
                    let aaa = op >> 5;
                    let bbb = (op >> 2) & 0x07;
                    proof {
                        lemma_opcode_fields(op);
                    }
                    if cc == 1 {
                        cycles = self.exec_group1(aaa, bbb);
                    } else if cc == 2 {
                        cycles = self.exec_group2(aaa, bbb);
                    } else if cc == 3 {
                        self.note_unknown_opcode(op, opcode_pc);
                        cycles = 2;
                    } else {
                        cycles = self.exec_group0(op, opcode_pc);
                    }
                },
            }
        }
        cycles
    }

    /// One CPU step: a stalled DMA cycle, an NMI or IRQ entry (7 cycles), or
    /// one instruction. Returns the cycles it took; the bus cycles run
    /// inside it have already clocked the rest of the machine.
    #[verifier::spinoff_prover]
    #[verifier::rlimit(100)]
    pub fn step_cpu(&mut self) -> (r: u32)
        requires
            old(self).wf(),
        ensures
            final(self).wf(),
            step_outcome(*old(self), *final(self), r),
    {
        self.cpu_step_ticked_cycles = 0;
        self.cpu_step_in_progress = false;
        if self.dma_cycles > 0 {
            self.dma_cycles = self.dma_cycles - 1;
            self.total_cycles = self.total_cycles.wrapping_add(1);
            return 1;
        }
        self.cpu_step_in_progress = true;
        if self.pending_nmi {
            self.pending_nmi = false;
            self.service_nmi();
            self.total_cycles = self.total_cycles.wrapping_add(7);
            self.cpu_step_in_progress = false;
            return 7;
        }
        if self.pending_irq && !self.cpu.get_flag(FLAG_INTERRUPT) {
            self.pending_irq = false;
            self.service_irq();
            self.total_cycles = self.total_cycles.wrapping_add(7);
            self.cpu_step_in_progress = false;
            return 7;
        }
        let opcode_pc = self.cpu.pc;
        let ghost start = *self;
        let op = self.fetch_byte();
        let ghost mid = *self;
        proof {
            assert(start == (Nes { cpu_step_ticked_cycles: 0, cpu_step_in_progress: true, ..*old(self) }));
        }
        proof {
            assert(loaded(old(self).ram@, old(self).cpu.pc, op));
        }
        let cycles: u32 = self.execute_opcode(op, opcode_pc);
        let ghost end = *self;
        proof {
            assert(instruction_outcome(mid, end, op, cycles));
        }
        self.total_cycles = self.total_cycles.wrapping_add(cycles as u64);
        self.cpu_step_in_progress = false;
        proof {
            assert(*self == (Nes {
                total_cycles: self.total_cycles,
                cpu_step_in_progress: false,
                ..end
            }));
            assert(opcode_fetched(*old(self), mid, op));
            assert(loaded(old(self).ram@, old(self).cpu.pc, op) && opcode_fetched(*old(self), mid, op) && same_cpu_view(
                mid,
                (Nes { cpu: advance(old(self).cpu, 1), ..*old(self) }),
            ) && instruction_outcome(mid, end, op, cycles));
        }
        cycles
    }
}

/// Whether `op` is one of the opcodes that jam the CPU.
fn is_jam(op: u8) -> (r: bool)
    ensures
        r == is_kil(op),
{
    op == 0x02 || op == 0x12 || op == 0x22 || op == 0x32 || op == 0x42 || op == 0x52 || op == 0x62
        || op == 0x72 || op == 0x92 || op == 0xB2 || op == 0xD2 || op == 0xF2
}

/// The row and addressing fields of an opcode are below 8.
pub proof fn lemma_opcode_fields(op: u8)
    by (bit_vector)
    ensures
        op >> 5 < 8,
        (op >> 2) & 0x07 < 8,
        0x24u8 >> 5 == 1,
        0xA4u8 >> 5 == 5,
        0xC4u8 >> 5 == 6,
        0xE4u8 >> 5 == 7,
{
}

} // verus!
