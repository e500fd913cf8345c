use vstd::prelude::*;

use super::{Mapper, Mirroring};
use super::bank::{
    bank_count, bank_count_spec, banked_read_spec, fresh_prg_ram, lemma_bank_fits,
    lemma_ram_roundtrip, memory_ok, new_prg_ram, ram_read_spec, ram_write_spec, read_banked,
    read_ram, read_wrapped, wrapped_read_spec, write_ram,
};
use crate::nes::cartridge::Cartridge;

verus! {

/// MMC1 (mapper 1): registers are loaded one bit at a time through a 5-bit
/// serial shift register.
pub struct Mapper1 {
    pub prg_rom: Vec<u8>,
    pub chr: Vec<u8>,
    pub chr_is_ram: bool,
    pub prg_ram: Vec<u8>,
    pub shift_register: u8,
    pub control: u8,
    pub chr_bank0: u8,
    pub chr_bank1: u8,
    pub prg_bank: u8,
}

impl Mapper1 {
    pub open spec fn wf(&self) -> bool {
        &&& memory_ok(self.prg_rom@)
        &&& memory_ok(self.chr@)
        &&& memory_ok(self.prg_ram@)
    }

    pub open spec fn initialized_from(&self, cart: &Cartridge) -> bool {
        &&& self.prg_rom@ == cart.prg_rom@
        &&& self.chr@ == cart.chr_data@
        &&& self.chr_is_ram == cart.chr_is_ram
        &&& self.prg_ram@ == fresh_prg_ram(cart.prg_ram_size)
        &&& self.shift_register == 0x10
        &&& self.control == 0x0C
        &&& self.chr_bank0 == 0
        &&& self.chr_bank1 == 0
        &&& self.prg_bank == 0
    }

    pub fn new(cart: Cartridge) -> (m: Self)
        requires
            cart.wf(),
        ensures
            m.initialized_from(&cart),
            m.wf(),
    {
        Self {
            prg_rom: cart.prg_rom,
            chr: cart.chr_data,
            chr_is_ram: cart.chr_is_ram,
            prg_ram: new_prg_ram(cart.prg_ram_size),
            shift_register: 0x10,
            control: 0x0C,
            chr_bank0: 0,
            chr_bank1: 0,
            prg_bank: 0,
        }
    }

    pub open spec fn prg_bank_count_spec(&self) -> nat {
        bank_count_spec(self.prg_rom@.len(), 0x4000)
    }

    pub fn prg_bank_count_16k(&self) -> (r: usize)
        ensures
            r == self.prg_bank_count_spec(),
            r >= 1,
    {
        bank_count(self.prg_rom.len(), 0x4000)
    }

    pub open spec fn chr_bank_count_spec(&self) -> nat {
        bank_count_spec(self.chr@.len(), 0x1000)
    }

    pub fn chr_bank_count_4k(&self) -> (r: usize)
        ensures
            r == self.chr_bank_count_spec(),
            r >= 1,
    {
        bank_count(self.chr.len(), 0x1000)
    }

    fn read_prg_bank(&self, bank: usize, offset: usize) -> (r: u8)
        requires
            self.wf(),
            offset < 0x4000,
        ensures
            r == banked_read_spec(self.prg_rom@, bank as nat, 0x4000, offset as nat),
    {
        read_banked(&self.prg_rom, bank, 0x4000, offset)
    }

    /// The effect of a write to $8000-$FFFF on the serial port. A write with bit
    /// 7 set resets the shift register and forces PRG mode 3. Otherwise bit 0
    /// enters the shift register from the top; on the fifth write (the marker
    /// bit reaches bit 0) the assembled value goes to the register that the
    /// address selects and the shift register resets.
    pub open spec fn serial_write_post(&self, post: &Self, addr: u16, value: u8) -> bool {
        if (value & 0x80) != 0 {
            *post == Mapper1 { shift_register: 0x10, control: self.control | 0x0C, ..*self }
        } else {
            let shifted = (self.shift_register >> 1) | ((value & 0x01) << 4);
            if (self.shift_register & 0x01) != 0 {
                if addr <= 0x9FFF {
                    *post == Mapper1 { shift_register: 0x10, control: shifted, ..*self }
                } else if addr <= 0xBFFF {
                    *post == Mapper1 { shift_register: 0x10, chr_bank0: shifted, ..*self }
                } else if addr <= 0xDFFF {
                    *post == Mapper1 { shift_register: 0x10, chr_bank1: shifted, ..*self }
                } else {
                    *post == Mapper1 { shift_register: 0x10, prg_bank: shifted & 0x0F, ..*self }
                }
            } else {
                *post == Mapper1 { shift_register: shifted, ..*self }
            }
        }
    }

    fn write_shift_register(&mut self, addr: u16, value: u8)
        requires
            0x8000 <= addr,
        ensures
            old(self).serial_write_post(&*final(self), addr, value),
    {
        if (value & 0x80) != 0 {
            self.shift_register = 0x10;
            self.control = self.control | 0x0C;
            return;
        }
        let commit = (self.shift_register & 0x01) != 0;
        self.shift_register = self.shift_register >> 1;
        self.shift_register = self.shift_register | ((value & 0x01) << 4);
        if commit {
            let data = self.shift_register;
            if addr <= 0x9FFF {
                self.control = data;
            } else if addr <= 0xBFFF {
                self.chr_bank0 = data;
            } else if addr <= 0xDFFF {
                self.chr_bank1 = data;
            } else {
                self.prg_bank = data & 0x0F;
            }
            self.shift_register = 0x10;
        }
    }

    /// Index in CHR of a pattern address: one 8 KiB bank (even `chr_bank0`) when
    /// control bit 4 is clear, else two 4 KiB banks.
    pub open spec fn chr_index(&self, addr: u16) -> nat {
        let c = self.chr_bank_count_spec();
        let len = self.chr@.len() as int;
        if (self.control & 0x10) == 0 {
            ((((self.chr_bank0 & 0x1E) as nat % c) * 0x1000 + addr) % len) as nat
        } else if addr < 0x1000 {
            ((((self.chr_bank0 as nat) % c) * 0x1000 + addr) % len) as nat
        } else {
            ((((self.chr_bank1 as nat) % c) * 0x1000 + (addr - 0x1000)) % len) as nat
        }
    }

    fn read_chr(&self, addr: u16) -> (r: usize)
        requires
            self.wf(),
        ensures
            r == self.chr_index(addr),
            r < self.chr@.len(),
    {
        let addr_usize = addr as usize;
        let len = self.chr.len();
        let count = self.chr_bank_count_4k();
        if (self.control & 0x10) == 0 {
            let bank = ((self.chr_bank0 & 0x1E) as usize) % count;
            proof {
                lemma_bank_fits(len as nat, 0x1000, (self.chr_bank0 & 0x1E) as nat, 0);
            }
            let base = bank * 0x1000;
            (base + addr_usize) % len
        } else if addr_usize < 0x1000 {
            let bank = (self.chr_bank0 as usize) % count;
            proof {
                lemma_bank_fits(len as nat, 0x1000, self.chr_bank0 as nat, 0);
            }
            (bank * 0x1000 + addr_usize) % len
        } else {
            let bank = (self.chr_bank1 as usize) % count;
            proof {
                lemma_bank_fits(len as nat, 0x1000, self.chr_bank1 as nat, 0);
            }
            (bank * 0x1000 + (addr_usize - 0x1000)) % len
        }
    }

    /// The byte the CPU reads at `addr`. PRG mode (control bits 2-3): 0 and 1
    /// map one 32 KiB bank (the even bank below `prg_bank`), 2 fixes the first
    /// bank at $8000, 3 fixes the last bank at $C000.
    pub open spec fn cpu_read_value(&self, addr: u16) -> u8 {
        let mode = (self.control >> 2) & 0x03;
        let bank = self.prg_bank as nat;
        let offset = (addr & 0x3FFF) as nat;
        if 0x6000 <= addr <= 0x7FFF {
            ram_read_spec(self.prg_ram@, addr)
        } else if 0x8000 <= addr {
            if mode <= 1 {
                wrapped_read_spec(
                    self.prg_rom@,
                    (((self.prg_bank as usize) & !1usize) * 0x4000 + (addr - 0x8000)) as nat,
                )
            } else if mode == 2 {
                if addr < 0xC000 {
                    banked_read_spec(self.prg_rom@, 0, 0x4000, offset)
                } else {
                    banked_read_spec(self.prg_rom@, bank, 0x4000, offset)
                }
            } else {
                if addr < 0xC000 {
                    banked_read_spec(self.prg_rom@, bank, 0x4000, offset)
                } else {
                    banked_read_spec(
                        self.prg_rom@,
                        (self.prg_bank_count_spec() - 1) as nat,
                        0x4000,
                        offset,
                    )
                }
            }
        } else {
            0
        }
    }

    pub open spec fn cpu_write_post(&self, post: &Self, addr: u16, value: u8) -> bool {
        if 0x6000 <= addr <= 0x7FFF {
            &&& post.prg_ram@ == ram_write_spec(self.prg_ram@, addr, value)
            &&& *post == Mapper1 { prg_ram: post.prg_ram, ..*self }
        } else if 0x8000 <= addr {
            self.serial_write_post(post, addr, value)
        } else {
            *post == *self
        }
    }

    pub open spec fn ppu_read_value(&self, addr: u16) -> u8 {
        self.chr@[self.chr_index(addr) as int]
    }

    pub open spec fn ppu_write_post(&self, post: &Self, addr: u16, value: u8) -> bool {
        if self.chr_is_ram {
            &&& post.chr@ == self.chr@.update(self.chr_index(addr) as int, value)
            &&& *post == Mapper1 { chr: post.chr, ..*self }
        } else {
            *post == *self
        }
    }

    /// Nametable arrangement from control bits 0-1.
    pub open spec fn mirroring_spec(&self) -> Mirroring {
        let m = self.control & 0x03;
        if m == 0 {
            Mirroring::OneScreenLower
        } else if m == 1 {
            Mirroring::OneScreenUpper
        } else if m == 2 {
            Mirroring::Vertical
        } else {
            Mirroring::Horizontal
        }
    }

    /// Control bits 0-1 choose the mirroring: one screen (lower), one screen
    /// (upper), vertical, horizontal.
    pub proof fn law_mirroring(m: Self)
        ensures
            (m.control & 0x03) == 0 ==> m.mirroring_spec() == Mirroring::OneScreenLower,
            (m.control & 0x03) == 1 ==> m.mirroring_spec() == Mirroring::OneScreenUpper,
            (m.control & 0x03) == 2 ==> m.mirroring_spec() == Mirroring::Vertical,
            (m.control & 0x03) == 3 ==> m.mirroring_spec() == Mirroring::Horizontal,
    {
    }

    /// A byte written to PRG RAM reads back at the same address.
    pub proof fn law_prg_ram_roundtrip(m0: Self, m1: Self, addr: u16, value: u8)
        requires
            m0.wf(),
            0x6000 <= addr <= 0x7FFF,
            m0.cpu_write_post(&m1, addr, value),
        ensures
            m1.cpu_read_value(addr) == value,
    {
        lemma_ram_roundtrip(m0.prg_ram@, addr, value);
    }

    /// The pattern tables in the two CHR modes. With control bit 4 set (4 KiB
    /// mode) $0000-$0FFF show the 4 KiB bank that `chr_bank0` selects and
    /// $1000-$1FFF the bank that `chr_bank1` (loaded through $C000-$DFFF)
    /// selects; with it clear one 8 KiB bank spans both tables, chosen by
    /// `chr_bank0` with its low bit ignored. Bank numbers wrap at the number
    /// of 4 KiB banks in CHR and indices at its length.
    pub proof fn law_chr_banks(m: Self, k: u16)
        requires
            m.wf(),
            k < 0x1000,
        ensures
            ({
                let c = m.chr_bank_count_spec() as int;
                let len = m.chr@.len() as int;
                &&& (m.control & 0x10) != 0 ==> m.ppu_read_value(k) == m.chr@[((m.chr_bank0 as int
                    % c) * 0x1000 + k) % len]
                &&& (m.control & 0x10) != 0 ==> m.ppu_read_value((0x1000 + k) as u16)
                    == m.chr@[((m.chr_bank1 as int % c) * 0x1000 + k) % len]
                &&& (m.control & 0x10) == 0 ==> m.ppu_read_value(k) == m.chr@[(((m.chr_bank0
                    & 0x1E) as int % c) * 0x1000 + k) % len]
                &&& (m.control & 0x10) == 0 ==> m.ppu_read_value((0x1000 + k) as u16)
                    == m.chr@[(((m.chr_bank0 & 0x1E) as int % c) * 0x1000 + 0x1000 + k) % len]
            }),
    {
    }

    /// Which register a pattern read follows: in 4 KiB mode reads of
    /// $1000-$1FFF do not depend on `chr_bank0` and reads of $0000-$0FFF do
    /// not depend on `chr_bank1`; in 8 KiB mode no read depends on
    /// `chr_bank1`.
    pub proof fn law_chr_register_roles(m: Self, b: u8, addr: u16)
        requires
            addr < 0x2000,
        ensures
            (m.control & 0x10) != 0 && addr >= 0x1000 ==> (Mapper1 { chr_bank0: b, ..m }).ppu_read_value(
                addr,
            ) == m.ppu_read_value(addr),
            (m.control & 0x10) != 0 && addr < 0x1000 ==> (Mapper1 { chr_bank1: b, ..m }).ppu_read_value(
                addr,
            ) == m.ppu_read_value(addr),
            (m.control & 0x10) == 0 ==> (Mapper1 { chr_bank1: b, ..m }).ppu_read_value(addr)
                == m.ppu_read_value(addr),
    {
    }

    /// Which register a PRG read follows: in mode 3 (control bits 2-3) the
    /// window $C000-$FFFF holds the last 16 KiB bank whatever `prg_bank`
    /// holds, and $8000-$BFFF the bank `prg_bank` selects; in mode 2
    /// $8000-$BFFF holds the first bank whatever `prg_bank` holds, and
    /// $C000-$FFFF the selected one.
    pub proof fn law_prg_modes(m: Self, b: u8, addr: u16)
        requires
            0x8000 <= addr,
        ensures
            ({
                let mode = (m.control >> 2) & 0x03;
                let n = (Mapper1 { prg_bank: b, ..m });
                let len = m.prg_rom@.len() as int;
                let c = m.prg_bank_count_spec() as int;
                let off = (addr & 0x3FFF) as int;
                &&& mode == 3 && addr >= 0xC000 ==> n.cpu_read_value(addr) == m.cpu_read_value(addr)
                    && m.cpu_read_value(addr) == m.prg_rom@[(((c - 1) % c) * 0x4000 + off) % len]
                &&& mode == 3 && addr < 0xC000 ==> m.cpu_read_value(addr) == m.prg_rom@[((
                m.prg_bank as int % c) * 0x4000 + off) % len]
                &&& mode == 2 && addr < 0xC000 ==> n.cpu_read_value(addr) == m.cpu_read_value(addr)
                    && m.cpu_read_value(addr) == m.prg_rom@[(0 * 0x4000 + off) % len]
                &&& mode == 2 && addr >= 0xC000 ==> m.cpu_read_value(addr) == m.prg_rom@[((
                m.prg_bank as int % c) * 0x4000 + off) % len]
            }),
    {
    }

    /// Five serial writes from a reset shift register load the register that
    /// the fifth address selects with bits 0 of the five values, first write in
    /// bit 0, and leave the shift register reset. Shown for the PRG bank
    /// register ($E000-$FFFF), which keeps the low four bits.
    pub proof fn law_serial_load_prg_bank(
        m0: Self,
        m1: Self,
        m2: Self,
        m3: Self,
        m4: Self,
        m5: Self,
        a0: u16,
        a1: u16,
        a2: u16,
        a3: u16,
        a4: u16,
        v0: u8,
        v1: u8,
        v2: u8,
        v3: u8,
        v4: u8,
    )
        requires
            m0.shift_register == 0x10,
            0x8000 <= a0 && 0x8000 <= a1 && 0x8000 <= a2 && 0x8000 <= a3,
            0xE000 <= a4,
            (v0 & 0x80) == 0 && (v1 & 0x80) == 0 && (v2 & 0x80) == 0 && (v3 & 0x80) == 0
                && (v4 & 0x80) == 0,
            m0.cpu_write_post(&m1, a0, v0),
            m1.cpu_write_post(&m2, a1, v1),
            m2.cpu_write_post(&m3, a2, v2),
            m3.cpu_write_post(&m4, a3, v3),
            m4.cpu_write_post(&m5, a4, v4),
        ensures
            m5.prg_bank == ((v0 & 1) | ((v1 & 1) << 1) | ((v2 & 1) << 2) | ((v3 & 1) << 3)) & 0x0F,
            m5.shift_register == 0x10,
            m5.control == m0.control,
            m5.chr_bank0 == m0.chr_bank0,
            m5.chr_bank1 == m0.chr_bank1,
    {
        lemma_serial_steps(v0, v1, v2, v3, v4);
        assert(m1.shift_register == (0x10u8 >> 1) | ((v0 & 0x01) << 4));
        assert(m2.shift_register == (m1.shift_register >> 1) | ((v1 & 0x01) << 4));
        assert(m3.shift_register == (m2.shift_register >> 1) | ((v2 & 0x01) << 4));
        assert(m4.shift_register == (m3.shift_register >> 1) | ((v3 & 0x01) << 4));
        assert(m4.control == m0.control);
        assert(m4.shift_register & 0x01 == 1);
        assert(m5.prg_bank == ((m4.shift_register >> 1) | ((v4 & 0x01) << 4)) & 0x0F);
    }
}

proof fn lemma_serial_steps(v0: u8, v1: u8, v2: u8, v3: u8, v4: u8)
    ensures
        0x10u8 & 0x01 == 0,
        ((0x10u8 >> 1) | ((v0 & 0x01) << 4)) & 0x01 == 0,
        ((((0x10u8 >> 1) | ((v0 & 0x01) << 4)) >> 1) | ((v1 & 0x01) << 4)) & 0x01 == 0,
        ((((((0x10u8 >> 1) | ((v0 & 0x01) << 4)) >> 1) | ((v1 & 0x01) << 4)) >> 1) | ((v2 & 0x01)
            << 4)) & 0x01 == 0,
        ((((((((0x10u8 >> 1) | ((v0 & 0x01) << 4)) >> 1) | ((v1 & 0x01) << 4)) >> 1) | ((v2
            & 0x01) << 4)) >> 1) | ((v3 & 0x01) << 4)) & 0x01 == 1,
        ((((((((((0x10u8 >> 1) | ((v0 & 0x01) << 4)) >> 1) | ((v1 & 0x01) << 4)) >> 1) | ((v2
            & 0x01) << 4)) >> 1) | ((v3 & 0x01) << 4)) >> 1) | ((v4 & 0x01) << 4)) & 0x0F == ((v0
            & 1) | ((v1 & 1) << 1) | ((v2 & 1) << 2) | ((v3 & 1) << 3)) & 0x0F,
{
    assert(0x10u8 & 0x01 == 0) by (bit_vector);
    assert(((0x10u8 >> 1) | ((v0 & 0x01) << 4)) & 0x01 == 0) by (bit_vector);
    assert(((((0x10u8 >> 1) | ((v0 & 0x01) << 4)) >> 1) | ((v1 & 0x01) << 4)) & 0x01 == 0)
        by (bit_vector);
    assert(((((((0x10u8 >> 1) | ((v0 & 0x01) << 4)) >> 1) | ((v1 & 0x01) << 4)) >> 1) | ((v2
        & 0x01) << 4)) & 0x01 == 0) by (bit_vector);
    assert(((((((((0x10u8 >> 1) | ((v0 & 0x01) << 4)) >> 1) | ((v1 & 0x01) << 4)) >> 1) | ((v2
        & 0x01) << 4)) >> 1) | ((v3 & 0x01) << 4)) & 0x01 == 1) by (bit_vector);
    assert(((((((((((0x10u8 >> 1) | ((v0 & 0x01) << 4)) >> 1) | ((v1 & 0x01) << 4)) >> 1) | ((v2
        & 0x01) << 4)) >> 1) | ((v3 & 0x01) << 4)) >> 1) | ((v4 & 0x01) << 4)) & 0x0F == ((v0
        & 1) | ((v1 & 1) << 1) | ((v2 & 1) << 2) | ((v3 & 1) << 3)) & 0x0F) by (bit_vector);
}

impl Mapper for Mapper1 {
    open spec fn chr_read_post(&self, post: &Self, addr: u16, r: u8) -> bool {
        r == self.ppu_read_value(addr) && *post == *self
    }

    open spec fn read_seen_post(&self, post: &Self, addr: u16) -> bool {
        *post == *self
    }

    open spec fn nametable_read_spec(&self, post: &Self, addr: u16, vram: Seq<u8>, r: Option<u8>) -> bool {
        r is None && *post == *self
    }

    open spec fn inv(&self) -> bool {
        self.wf()
    }

    open spec fn suppresses_a12_view(&self) -> bool {
        false
    }

    open spec fn relaxed_sprite0_view(&self) -> bool {
        false
    }

    open spec fn owns_nametables(&self) -> bool {
        false
    }

    open spec fn mirroring_view(&self) -> Mirroring {
        self.mirroring_spec()
    }

    fn cpu_read(&mut self, addr: u16) -> (r: u8)
        ensures
            r == old(self).cpu_read_value(addr),
            *final(self) == *old(self),
    {
        if 0x6000 <= addr && addr <= 0x7FFF {
            read_ram(&self.prg_ram, addr)
        } else if 0x8000 <= addr {
            let mode = (self.control >> 2) & 0x03;
            let bank = self.prg_bank as usize;
            proof {
                super::bank::lemma_and_u16(addr, 0x3FFF);
            }
            let offset_16k = (addr as usize) & 0x3FFF;
            assert(offset_16k == (addr & 0x3FFF) as usize) by (bit_vector)
                requires
                    offset_16k == (addr as usize) & 0x3FFF,
            ;
            if mode <= 1 {
                let bank32 = bank & !1usize;
                proof {
                    super::bank::lemma_and_usize(bank, !1usize);
                }
                let idx = bank32 * 0x4000 + (addr as usize - 0x8000);
                read_wrapped(&self.prg_rom, idx)
            } else if mode == 2 {
                if addr < 0xC000 {
                    self.read_prg_bank(0, offset_16k)
                } else {
                    self.read_prg_bank(bank, offset_16k)
                }
            } else {
                if addr < 0xC000 {
                    self.read_prg_bank(bank, offset_16k)
                } else {
                    let last = self.prg_bank_count_16k() - 1;
                    self.read_prg_bank(last, offset_16k)
                }
            }
        } else {
            0
        }
    }

    fn cpu_write(&mut self, addr: u16, value: u8)
        ensures
            old(self).cpu_write_post(&*final(self), addr, value),
    {
        if 0x6000 <= addr && addr <= 0x7FFF {
            write_ram(&mut self.prg_ram, addr, value);
        } else if 0x8000 <= addr {
            self.write_shift_register(addr, value);
        }
    }

    fn ppu_read(&mut self, addr: u16) -> (r: u8)
        ensures
            r == old(self).ppu_read_value(addr),
            *final(self) == *old(self),
    {
        let idx = self.read_chr(addr);
        self.chr[idx]
    }

    fn ppu_write(&mut self, addr: u16, value: u8)
        ensures
            old(self).ppu_write_post(&*final(self), addr, value),
    {
        if self.chr_is_ram {
            let idx = self.read_chr(addr);
            self.chr.set(idx, value);
        }
    }

    fn mirroring(&self) -> (r: Mirroring)
        ensures
            r == self.mirroring_spec(),
    {
        let m = self.control & 0x03;
        if m == 0 {
            Mirroring::OneScreenLower
        } else if m == 1 {
            Mirroring::OneScreenUpper
        } else if m == 2 {
            Mirroring::Vertical
        } else {
            Mirroring::Horizontal
        }
    }

    fn suppress_a12_on_sprite_eval_reads(&self) -> (r: bool) {
        false
    }

    fn allow_relaxed_sprite0_hit(&self) -> (r: bool) {
        false
    }

    fn ppu_nametable_read(&mut self, addr: u16, vram: &[u8; 4096]) -> (r: Option<u8>)
        ensures
            r is None,
            *final(self) == *old(self),
    {
        None
    }

    fn notify_ppu_read_addr(&mut self, addr: u16)
        ensures
            *final(self) == *old(self),
    {
    }
}

} // verus!
