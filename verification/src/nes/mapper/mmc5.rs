use vstd::prelude::*;

use super::{Mapper, Mirroring};
use super::bank::{
    bank_count, bank_count_spec, banked_index_spec, banked_read_spec, fresh_prg_ram,
    lemma_and_u16, lemma_and_u8, lemma_bank_fits, memory_ok, new_prg_ram, read_banked,
    write_banked,
};
use crate::nes::cartridge::Cartridge;

verus! {

/// Where a PRG window of MMC5 points.
#[derive(Clone, Copy, Debug, PartialEq, Eq, Structural)]
pub enum Mapper5PrgTarget {
    Rom,
    Ram,
}

/// MMC5 (mapper 5): four PRG banking modes over ROM and RAM, four CHR banking
/// modes, per-quadrant nametable sources (console RAM pages, ExRAM or a fill
/// tile), a scanline IRQ detected from nametable fetches, and an 8x8
/// multiplier.
pub struct Mapper5 {
    pub prg_rom: Vec<u8>,
    pub chr: Vec<u8>,
    pub chr_is_ram: bool,
    pub prg_ram: Vec<u8>,
    pub exram: [u8; 1024],
    pub nametable_map: [u8; 4],
    pub prg_mode: u8,
    pub chr_mode: u8,
    pub exram_mode: u8,
    pub fill_tile: u8,
    pub fill_attr: u8,
    pub prg_ram_protect_1: u8,
    pub prg_ram_protect_2: u8,
    pub prg_regs: [u8; 5],
    pub chr_regs: [u16; 12],
    pub chr_upper_bits: u8,
    pub irq_scanline_compare: u8,
    pub irq_enabled: bool,
    pub irq_pending: bool,
    pub in_frame: bool,
    pub scanline_counter: u8,
    pub last_nametable_probe: u16,
    pub repeated_nametable_reads: u8,
    pub scanline_detect_armed: bool,
    pub cpu_cycles_since_ppu_read: u8,
    pub mul_a: u8,
    pub mul_b: u8,
}

/// Nametable sources that a cartridge's mirroring stands for.
pub open spec fn default_nametable_map_spec(mirroring: Mirroring) -> Seq<u8> {
    match mirroring {
        Mirroring::Horizontal => seq![0u8, 0u8, 1u8, 1u8],
        Mirroring::Vertical => seq![0u8, 1u8, 0u8, 1u8],
        Mirroring::OneScreenLower => seq![0u8, 0u8, 0u8, 0u8],
        Mirroring::OneScreenUpper => seq![1u8, 1u8, 1u8, 1u8],
        Mirroring::FourScreen => seq![0u8, 1u8, 0u8, 1u8],
    }
}

/// The 8 KiB bank number within a PRG window of `window_size_kb` KiB.
pub open spec fn window_bank_spec(reg: u8, window_size_kb: u8, window_offset: nat) -> nat {
    if window_size_kb == 8 {
        (reg & 0x7F) as nat
    } else if window_size_kb == 16 {
        (reg & 0x7E) as nat + ((window_offset as usize >> 13) & 0x01) as nat
    } else if window_size_kb == 32 {
        (reg & 0x7C) as nat + ((window_offset as usize >> 13) & 0x03) as nat
    } else {
        0
    }
}

impl Mapper5 {
    pub open spec fn wf(&self) -> bool {
        &&& memory_ok(self.prg_rom@)
        &&& memory_ok(self.chr@)
        &&& memory_ok(self.prg_ram@)
    }

    pub open spec fn initialized_from(&self, cart: &Cartridge) -> bool {
        &&& self.prg_rom@ == cart.prg_rom@
        &&& self.chr@ == cart.chr_data@
        &&& self.chr_is_ram == cart.chr_is_ram
        &&& self.prg_ram@ == fresh_prg_ram(cart.prg_ram_size)
        &&& self.exram@ == Seq::new(1024, |i: int| 0u8)
        &&& self.nametable_map@ == default_nametable_map_spec(cart.mirroring)
        &&& self.prg_mode == 3
        &&& self.chr_mode == 3
        &&& self.exram_mode == 0
        &&& self.fill_tile == 0
        &&& self.fill_attr == 0
        &&& self.prg_ram_protect_1 == 0
        &&& self.prg_ram_protect_2 == 0
        &&& self.prg_regs@ == seq![0u8, 0u8, 0u8, 0u8, 0xFFu8]
        &&& self.chr_regs@ == Seq::new(12, |i: int| i as u16)
        &&& self.chr_upper_bits == 0
        &&& self.irq_scanline_compare == 0
        &&& !self.irq_enabled
        &&& !self.irq_pending
        &&& !self.in_frame
        &&& self.scanline_counter == 0
        &&& self.last_nametable_probe == 0
        &&& self.repeated_nametable_reads == 0
        &&& !self.scanline_detect_armed
        &&& self.cpu_cycles_since_ppu_read == 3
        &&& self.mul_a == 0
        &&& self.mul_b == 0
    }

    fn default_nametable_map(mirroring: Mirroring) -> (r: [u8; 4])
        ensures
            r@ == default_nametable_map_spec(mirroring),
    {
        let r = match mirroring {
            Mirroring::Horizontal => [0, 0, 1, 1],
            Mirroring::Vertical => [0, 1, 0, 1],
            Mirroring::OneScreenLower => [0, 0, 0, 0],
            Mirroring::OneScreenUpper => [1, 1, 1, 1],
            Mirroring::FourScreen => [0, 1, 0, 1],
        };
        assert(r@ =~= default_nametable_map_spec(mirroring));
        r
    }

    pub fn new(cart: Cartridge) -> (m: Self)
        requires
            cart.wf(),
        ensures
            m.initialized_from(&cart),
            m.wf(),
    {
        let m = Self {
            prg_rom: cart.prg_rom,
            chr: cart.chr_data,
            chr_is_ram: cart.chr_is_ram,
            prg_ram: new_prg_ram(cart.prg_ram_size),
            exram: [0; 1024],
            nametable_map: Self::default_nametable_map(cart.mirroring),
            prg_mode: 3,
            chr_mode: 3,
            exram_mode: 0,
            fill_tile: 0,
            fill_attr: 0,
            prg_ram_protect_1: 0,
            prg_ram_protect_2: 0,
            prg_regs: [0, 0, 0, 0, 0xFF],
            chr_regs: [0, 1, 2, 3, 4, 5, 6, 7, 8, 9, 10, 11],
            chr_upper_bits: 0,
            irq_scanline_compare: 0,
            irq_enabled: false,
            irq_pending: false,
            in_frame: false,
            scanline_counter: 0,
            last_nametable_probe: 0,
            repeated_nametable_reads: 0,
            scanline_detect_armed: false,
            cpu_cycles_since_ppu_read: 3,
            mul_a: 0,
            mul_b: 0,
        };
        assert(m.exram@ =~= Seq::new(1024, |i: int| 0u8));
        assert(m.prg_regs@ =~= seq![0u8, 0u8, 0u8, 0u8, 0xFFu8]);
        assert(m.chr_regs@ =~= Seq::new(12, |i: int| i as u16));
        m
    }

    pub fn prg_rom_bank_count_8k(&self) -> (r: usize)
        ensures
            r == bank_count_spec(self.prg_rom@.len(), 0x2000),
            r >= 1,
    {
        bank_count(self.prg_rom.len(), 0x2000)
    }

    pub fn prg_ram_bank_count_8k(&self) -> (r: usize)
        ensures
            r == bank_count_spec(self.prg_ram@.len(), 0x2000),
            r >= 1,
    {
        bank_count(self.prg_ram.len(), 0x2000)
    }

    pub open spec fn chr_bank_count_spec(&self) -> nat {
        bank_count_spec(self.chr@.len(), 0x0400)
    }

    pub fn chr_bank_count_1k(&self) -> (r: usize)
        ensures
            r == self.chr_bank_count_spec(),
            r >= 1,
    {
        bank_count(self.chr.len(), 0x0400)
    }

    /// PRG RAM accepts writes only when $5102 holds 2 and $5103 holds 1 in
    /// their low two bits.
    pub open spec fn prg_ram_write_enabled_spec(&self) -> bool {
        (self.prg_ram_protect_1 & 0x03) == 0x02 && (self.prg_ram_protect_2 & 0x03) == 0x01
    }

    fn prg_ram_write_enabled(&self) -> (r: bool)
        ensures
            r == self.prg_ram_write_enabled_spec(),
    {
        (self.prg_ram_protect_1 & 0x03) == 0x02 && (self.prg_ram_protect_2 & 0x03) == 0x01
    }

    fn read_prg_rom_8k(&self, bank: usize, offset: usize) -> (r: u8)
        requires
            self.wf(),
            offset < 0x2000,
        ensures
            r == banked_read_spec(self.prg_rom@, bank as nat, 0x2000, offset as nat),
    {
        read_banked(&self.prg_rom, bank, 0x2000, offset)
    }

    fn read_prg_ram_8k(&self, bank: usize, offset: usize) -> (r: u8)
        requires
            self.wf(),
            offset < 0x2000,
        ensures
            r == banked_read_spec(self.prg_ram@, bank as nat, 0x2000, offset as nat),
    {
        read_banked(&self.prg_ram, bank, 0x2000, offset)
    }

    fn write_prg_ram_8k(&mut self, bank: usize, offset: usize, value: u8)
        requires
            old(self).wf(),
            offset < 0x2000,
        ensures
            final(self).prg_ram@ == old(self).prg_ram@.update(
                banked_index_spec(old(self).prg_ram@.len(), bank as nat, 0x2000, offset as nat)
                    as int,
                value,
            ),
            *final(self) == (Mapper5 { prg_ram: final(self).prg_ram, ..*old(self) }),
    {
        write_banked(&mut self.prg_ram, bank, 0x2000, offset, value);
    }

    fn decode_window_bank(reg: u8, window_size_kb: u8, window_offset: usize) -> (r: usize)
        ensures
            r == window_bank_spec(reg, window_size_kb, window_offset as nat),
    {
        proof {
            lemma_and_u8(reg, 0x7F);
            lemma_and_usize_small(window_offset >> 13);
        }
        match window_size_kb {
            8 => (reg & 0x7F) as usize,
            16 => ((reg & 0x7E) as usize) + ((window_offset >> 13) & 0x01),
            32 => ((reg & 0x7C) as usize) + ((window_offset >> 13) & 0x03),
            _ => 0,
        }
    }

    /// The PRG window of a CPU address from $8000: its bank register, its size
    /// in KiB, the offset into it, whether it may map RAM, whether it is
    /// always ROM.
    pub open spec fn prg_window(&self, addr: u16) -> (u8, u8, nat, bool, bool) {
        let mode = self.prg_mode & 0x03;
        if mode == 0 {
            (self.prg_regs@[4], 32, (addr - 0x8000) as nat, false, true)
        } else if mode == 1 {
            if addr < 0xC000 {
                (self.prg_regs@[2], 16, (addr - 0x8000) as nat, true, false)
            } else {
                (self.prg_regs@[4], 16, (addr - 0xC000) as nat, false, true)
            }
        } else if mode == 2 {
            if addr < 0xC000 {
                (self.prg_regs@[2], 16, (addr - 0x8000) as nat, true, false)
            } else if addr < 0xE000 {
                (self.prg_regs@[3], 8, (addr - 0xC000) as nat, true, false)
            } else {
                (self.prg_regs@[4], 8, (addr - 0xE000) as nat, false, true)
            }
        } else {
            if addr < 0xA000 {
                (self.prg_regs@[1], 8, (addr - 0x8000) as nat, true, false)
            } else if addr < 0xC000 {
                (self.prg_regs@[2], 8, (addr - 0xA000) as nat, true, false)
            } else if addr < 0xE000 {
                (self.prg_regs@[3], 8, (addr - 0xC000) as nat, true, false)
            } else {
                (self.prg_regs@[4], 8, (addr - 0xE000) as nat, false, true)
            }
        }
    }

    /// Where a CPU address lands: $6000-$7FFF in the RAM bank of $5113, and
    /// from $8000 the window's bank, in RAM when the window allows RAM and
    /// the register's bit 7 is clear, in ROM otherwise.
    pub open spec fn prg_map(&self, addr: u16) -> Option<(Mapper5PrgTarget, nat, nat)> {
        if 0x6000 <= addr <= 0x7FFF {
            Some((Mapper5PrgTarget::Ram, (self.prg_regs@[0] & 0x7F) as nat, (addr - 0x6000) as nat))
        } else if addr < 0x8000 {
            None
        } else {
            let (reg, size, window_offset, allows_ram, force_rom) = self.prg_window(addr);
            let target = if force_rom {
                Mapper5PrgTarget::Rom
            } else if allows_ram && (reg & 0x80) == 0 {
                Mapper5PrgTarget::Ram
            } else {
                Mapper5PrgTarget::Rom
            };
            Some(
                (
                    target,
                    window_bank_spec(reg, size, window_offset),
                    (window_offset as usize & 0x1FFF) as nat,
                ),
            )
        }
    }

    fn map_prg_addr(&self, addr: u16) -> (r: Option<(Mapper5PrgTarget, usize, usize)>)
        ensures
            r matches Some((t, b, o)) ==> self.prg_map(addr) == Some((t, b as nat, o as nat)) && o
                < 0x2000,
            r is None ==> self.prg_map(addr) is None,
    {
        if 0x6000 <= addr && addr <= 0x7FFF {
            let bank = (self.prg_regs[0] & 0x7F) as usize;
            let offset = (addr as usize) - 0x6000;
            return Some((Mapper5PrgTarget::Ram, bank, offset));
        }
        if addr < 0x8000 {
            return None;
        }
        let mode = self.prg_mode & 0x03;
        let (reg, window_size_kb, window_offset, allows_ram, force_rom): (u8, u8, usize, bool, bool) =
            if mode == 0 {
            (self.prg_regs[4], 32, (addr as usize) - 0x8000, false, true)
        } else if mode == 1 {
            if addr < 0xC000 {
                (self.prg_regs[2], 16, (addr as usize) - 0x8000, true, false)
            } else {
                (self.prg_regs[4], 16, (addr as usize) - 0xC000, false, true)
            }
        } else if mode == 2 {
            if addr < 0xC000 {
                (self.prg_regs[2], 16, (addr as usize) - 0x8000, true, false)
            } else if addr < 0xE000 {
                (self.prg_regs[3], 8, (addr as usize) - 0xC000, true, false)
            } else {
                (self.prg_regs[4], 8, (addr as usize) - 0xE000, false, true)
            }
        } else {
            if addr < 0xA000 {
                (self.prg_regs[1], 8, (addr as usize) - 0x8000, true, false)
            } else if addr < 0xC000 {
                (self.prg_regs[2], 8, (addr as usize) - 0xA000, true, false)
            } else if addr < 0xE000 {
                (self.prg_regs[3], 8, (addr as usize) - 0xC000, true, false)
            } else {
                (self.prg_regs[4], 8, (addr as usize) - 0xE000, false, true)
            }
        };
        let target = if force_rom {
            Mapper5PrgTarget::Rom
        } else if allows_ram && (reg & 0x80) == 0 {
            Mapper5PrgTarget::Ram
        } else {
            Mapper5PrgTarget::Rom
        };
        let bank = Self::decode_window_bank(reg, window_size_kb, window_offset);
        proof {
            super::bank::lemma_and_usize(window_offset, 0x1FFF);
        }
        let offset = window_offset & 0x1FFF;
        Some((target, bank, offset))
    }

    /// The CHR bank register value for a 1 KiB slot under the CHR mode: 8 KiB,
    /// 4 KiB, 2 KiB or 1 KiB pages, in 1 KiB bank units.
    pub open spec fn chr_bank_1k(&self, slot: nat) -> nat {
        let mode = self.chr_mode & 0x03;
        if mode == 0 {
            self.chr_regs@[7] as nat * 8 + slot
        } else if mode == 1 {
            (if slot < 4 { self.chr_regs@[3] } else { self.chr_regs@[7] }) as nat * 4 + (slot
                % 4)
        } else if mode == 2 {
            (if slot <= 1 {
                self.chr_regs@[1]
            } else if slot <= 3 {
                self.chr_regs@[3]
            } else if slot <= 5 {
                self.chr_regs@[5]
            } else {
                self.chr_regs@[7]
            }) as nat * 2 + (slot % 2)
        } else {
            self.chr_regs@[slot as int] as nat
        }
    }

    /// Index in CHR of a pattern address (before wrapping to the CHR size).
    pub open spec fn chr_map(&self, addr: u16) -> nat {
        let slot = ((addr & 0x1FFF) / 0x0400) as nat;
        (self.chr_bank_1k(slot) % self.chr_bank_count_spec()) * 0x0400 + (addr & 0x03FF) as nat
    }

    fn map_chr_addr(&self, addr: u16) -> (r: usize)
        requires
            self.wf(),
        ensures
            r == self.chr_map(addr),
            r < self.chr@.len() + 0x0400,
    {
        proof {
            lemma_and_u16(addr, 0x1FFF);
            lemma_and_u16(addr, 0x03FF);
        }
        let slot = ((addr & 0x1FFF) as usize) / 0x0400;
        let slot_offset = (addr & 0x03FF) as usize;
        let mode = self.chr_mode & 0x03;
        let bank_1k: usize = if mode == 0 {
            let base = self.chr_regs[7] as usize * 8;
            base + slot
        } else if mode == 1 {
            let reg = if slot < 4 {
                self.chr_regs[3]
            } else {
                self.chr_regs[7]
            };
            let base = reg as usize * 4;
            base + (slot % 4)
        } else if mode == 2 {
            let reg = if slot <= 1 {
                self.chr_regs[1]
            } else if slot <= 3 {
                self.chr_regs[3]
            } else if slot <= 5 {
                self.chr_regs[5]
            } else {
                self.chr_regs[7]
            };
            let base = reg as usize * 2;
            base + (slot % 2)
        } else {
            self.chr_regs[slot] as usize
        };
        let len = self.chr.len();
        let bank = bank_1k % self.chr_bank_count_1k();
        proof {
            lemma_bank_fits(len as nat, 0x0400, bank_1k as nat, 0);
        }
        bank * 0x0400 + slot_offset
    }

    /// The fill-mode attribute byte: the fill palette in all four quadrants.
    pub open spec fn fill_attribute_spec(&self) -> u8 {
        let bits = self.fill_attr & 0x03;
        bits | (bits << 2) | (bits << 4) | (bits << 6)
    }

    fn fill_attribute_byte(&self) -> (r: u8)
        ensures
            r == self.fill_attribute_spec(),
    {
        let bits = self.fill_attr & 0x03;
        bits | (bits << 2) | (bits << 4) | (bits << 6)
    }

    /// A scanline boundary: the first one of a frame enters the frame and
    /// zeroes the counter; later ones count, and reaching a non-zero compare
    /// value raises the IRQ.
    pub open spec fn scanline_clocked(self) -> Self {
        if !self.in_frame {
            Mapper5 { in_frame: true, scanline_counter: 0, ..self }
        } else {
            let counter = self.scanline_counter.wrapping_add(1);
            Mapper5 {
                scanline_counter: counter,
                irq_pending: self.irq_pending || (self.irq_scanline_compare != 0 && counter
                    == self.irq_scanline_compare),
                ..self
            }
        }
    }

    fn clock_scanline_detector(&mut self)
        ensures
            *final(self) == old(self).scanline_clocked(),
    {
        if !self.in_frame {
            self.in_frame = true;
            self.scanline_counter = 0;
            return;
        }
        self.scanline_counter = self.scanline_counter.wrapping_add(1);
        if self.irq_scanline_compare != 0 && self.scanline_counter == self.irq_scanline_compare {
            self.irq_pending = true;
        }
    }

    /// The status byte of $5204: bit 7 the pending IRQ, bit 6 in-frame.
    pub open spec fn status_spec(&self) -> u8 {
        (if self.irq_pending { 0x80u8 } else { 0u8 }) | (if self.in_frame { 0x40u8 } else { 0u8 })
    }

    /// The byte a CPU read at `addr` returns, for every address but $5204.
    pub open spec fn cpu_read_value(&self, addr: u16) -> u8 {
        if 0x5C00 <= addr <= 0x5FFF {
            self.exram@[addr - 0x5C00]
        } else if addr == 0x5205 {
            ((self.mul_a as nat * self.mul_b as nat) % 256) as u8
        } else if addr == 0x5206 {
            ((self.mul_a as nat * self.mul_b as nat) / 256) as u8
        } else {
            match self.prg_map(addr) {
                Some((Mapper5PrgTarget::Rom, bank, offset)) => banked_read_spec(
                    self.prg_rom@,
                    bank,
                    0x2000,
                    offset,
                ),
                Some((Mapper5PrgTarget::Ram, bank, offset)) => banked_read_spec(
                    self.prg_ram@,
                    bank,
                    0x2000,
                    offset,
                ),
                None => 0,
            }
        }
    }

    /// A CPU read: $5204 returns the status and acknowledges the IRQ; every
    /// other address is read without side effect.
    pub open spec fn cpu_read_post(&self, post: &Self, addr: u16, r: u8) -> bool {
        if addr == 0x5204 {
            r == self.status_spec() && *post == Mapper5 { irq_pending: false, ..*self }
        } else {
            r == self.cpu_read_value(addr) && *post == *self
        }
    }

    /// A CPU write to the configuration registers, ExRAM or PRG RAM.
    pub open spec fn cpu_write_post(&self, post: &Self, addr: u16, value: u8) -> bool {
        if addr == 0x5100 {
            *post == Mapper5 { prg_mode: value & 0x03, ..*self }
        } else if addr == 0x5101 {
            *post == Mapper5 { chr_mode: value & 0x03, ..*self }
        } else if addr == 0x5102 {
            *post == Mapper5 { prg_ram_protect_1: value, ..*self }
        } else if addr == 0x5103 {
            *post == Mapper5 { prg_ram_protect_2: value, ..*self }
        } else if addr == 0x5104 {
            *post == Mapper5 { exram_mode: value & 0x03, ..*self }
        } else if addr == 0x5105 {
            &&& post.nametable_map@ == seq![
                value & 0x03,
                (value >> 2) & 0x03,
                (value >> 4) & 0x03,
                (value >> 6) & 0x03,
            ]
            &&& *post == Mapper5 { nametable_map: post.nametable_map, ..*self }
        } else if addr == 0x5106 {
            *post == Mapper5 { fill_tile: value, ..*self }
        } else if addr == 0x5107 {
            *post == Mapper5 { fill_attr: value & 0x03, ..*self }
        } else if 0x5113 <= addr <= 0x5117 {
            &&& post.prg_regs@ == self.prg_regs@.update(addr - 0x5113, value)
            &&& *post == Mapper5 { prg_regs: post.prg_regs, ..*self }
        } else if 0x5120 <= addr <= 0x512B {
            &&& post.chr_regs@ == self.chr_regs@.update(
                addr - 0x5120,
                ((self.chr_upper_bits as u16) << 8) | value as u16,
            )
            &&& *post == Mapper5 { chr_regs: post.chr_regs, ..*self }
        } else if addr == 0x5130 {
            *post == Mapper5 { chr_upper_bits: value & 0x03, ..*self }
        } else if addr == 0x5203 {
            *post == Mapper5 { irq_scanline_compare: value, ..*self }
        } else if addr == 0x5204 {
            *post == Mapper5 { irq_enabled: (value & 0x80) != 0, ..*self }
        } else if addr == 0x5205 {
            *post == Mapper5 { mul_a: value, ..*self }
        } else if addr == 0x5206 {
            *post == Mapper5 { mul_b: value, ..*self }
        } else if 0x5C00 <= addr <= 0x5FFF {
            if self.exram_mode != 3 {
                &&& post.exram@ == self.exram@.update(addr - 0x5C00, value)
                &&& *post == Mapper5 { exram: post.exram, ..*self }
            } else {
                *post == *self
            }
        } else if 0x6000 <= addr && self.prg_ram_write_enabled_spec() {
            match self.prg_map(addr) {
                Some((Mapper5PrgTarget::Ram, bank, offset)) => {
                    &&& post.prg_ram@ == self.prg_ram@.update(
                        banked_index_spec(self.prg_ram@.len(), bank, 0x2000, offset) as int,
                        value,
                    )
                    &&& *post == Mapper5 { prg_ram: post.prg_ram, ..*self }
                },
                _ => *post == *self,
            }
        } else {
            *post == *self
        }
    }

    pub open spec fn ppu_read_value(&self, addr: u16) -> u8 {
        self.chr@[(self.chr_map(addr) % self.chr@.len()) as int]
    }

    pub open spec fn ppu_write_post(&self, post: &Self, addr: u16, value: u8) -> bool {
        if self.chr_is_ram {
            &&& post.chr@ == self.chr@.update((self.chr_map(addr) % self.chr@.len()) as int, value)
            &&& *post == Mapper5 { chr: post.chr, ..*self }
        } else {
            *post == *self
        }
    }

    /// The byte a nametable address (in $2000-$2FFF) reads: a console RAM page,
    /// ExRAM (zero in the ExRAM modes 2 and 3), or the fill tile and attribute.
    pub open spec fn nametable_value(&self, addr: u16, vram: Seq<u8>) -> u8 {
        let table = ((addr - 0x2000) / 0x400) as int;
        let offset = ((addr - 0x2000) % 0x400) as int;
        let source = self.nametable_map@[table] & 0x03;
        if source <= 1 {
            vram[((self.nametable_map@[table] & 0x01) as int) * 0x400 + offset]
        } else if source == 2 {
            if self.exram_mode >= 2 {
                0
            } else {
                self.exram@[offset]
            }
        } else if offset < 0x3C0 {
            self.fill_tile
        } else {
            self.fill_attribute_spec()
        }
    }

    /// A nametable write lands in a console RAM page, in ExRAM (unless ExRAM
    /// is read-only, mode 3), or nowhere for fill quadrants.
    pub open spec fn nametable_write_post(
        &self,
        post: &Self,
        addr: u16,
        value: u8,
        vram: Seq<u8>,
        new_vram: Seq<u8>,
    ) -> bool {
        let table = ((addr - 0x2000) / 0x400) as int;
        let offset = ((addr - 0x2000) % 0x400) as int;
        let source = self.nametable_map@[table] & 0x03;
        if source <= 1 {
            &&& new_vram == vram.update(
                ((self.nametable_map@[table] & 0x01) as int) * 0x400 + offset,
                value,
            )
            &&& *post == *self
        } else if source == 2 && self.exram_mode != 3 {
            &&& post.exram@ == self.exram@.update(offset, value)
            &&& *post == Mapper5 { exram: post.exram, ..*self }
            &&& new_vram == vram
        } else {
            &&& *post == *self
            &&& new_vram == vram
        }
    }

    /// A CPU cycle: three cycles without a PPU read mean the PPU stopped
    /// rendering, which leaves the frame and clears the scanline IRQ state.
    pub open spec fn cpu_cycled(self) -> Self {
        let c = if self.cpu_cycles_since_ppu_read.saturating_add(1) <= 3 {
            self.cpu_cycles_since_ppu_read.saturating_add(1)
        } else {
            3u8
        };
        if c >= 3 {
            Mapper5 {
                cpu_cycles_since_ppu_read: c,
                in_frame: false,
                scanline_counter: 0,
                irq_pending: false,
                scanline_detect_armed: false,
                repeated_nametable_reads: 0,
                ..self
            }
        } else {
            Mapper5 { cpu_cycles_since_ppu_read: c, ..self }
        }
    }

    /// A PPU read: an armed detector clocks the scanline counter; three
    /// consecutive reads of one nametable address arm it.
    pub open spec fn after_ppu_read(self, addr: u16) -> Self {
        let s0 = Mapper5 { cpu_cycles_since_ppu_read: 0, ..self };
        let s1 = if s0.scanline_detect_armed {
            Mapper5 { scanline_detect_armed: false, ..s0.scanline_clocked() }
        } else {
            s0
        };
        if 0x2000 <= addr <= 0x3EFF {
            let probe = (0x2000 + ((addr - 0x2000) % 0x1000)) as u16;
            let s2 = if probe == s1.last_nametable_probe {
                Mapper5 { repeated_nametable_reads: s1.repeated_nametable_reads.saturating_add(1), ..s1 }
            } else {
                Mapper5 { last_nametable_probe: probe, repeated_nametable_reads: 1, ..s1 }
            };
            if s2.repeated_nametable_reads >= 3 {
                Mapper5 { scanline_detect_armed: true, repeated_nametable_reads: 0, ..s2 }
            } else {
                s2
            }
        } else {
            Mapper5 { repeated_nametable_reads: 0, ..s1 }
        }
    }

    /// PRG RAM keeps its contents through CPU writes while the protect
    /// registers do not hold the unlock values.
    pub proof fn law_prg_ram_protected(m0: Self, m1: Self, addr: u16, value: u8)
        requires
            m0.cpu_write_post(&m1, addr, value),
            !m0.prg_ram_write_enabled_spec(),
        ensures
            m1.prg_ram@ == m0.prg_ram@,
    {
    }

    /// The PRG windows in 8 KiB mode (mode 3): $8000, $A000 and $C000 show
    /// the banks of registers 1, 2 and 3 (low seven bits), in PRG RAM where
    /// the register's bit 7 is clear and in ROM where it is set; in every
    /// mode $E000-$FFFF shows ROM, and in 32 KiB mode (mode 0) all of
    /// $8000-$FFFF is ROM from register 4 with its low two bits replaced by
    /// the 8 KiB quarter.
    pub proof fn law_prg_windows(m: Self, a: u16)
        requires
            0x8000 <= a,
        ensures
            ({
                let mode = m.prg_mode & 0x03;
                let r1 = m.prg_regs@[1];
                let r2 = m.prg_regs@[2];
                let r3 = m.prg_regs@[3];
                &&& 0xE000 <= a ==> (m.prg_map(a) matches Some((t, _, _)) && t
                    == Mapper5PrgTarget::Rom)
                &&& mode == 3 && a < 0xA000 ==> (m.prg_map(a) matches Some((t, b, _)) && b == (r1
                    & 0x7F) as nat && (t == Mapper5PrgTarget::Ram) == ((r1 & 0x80) == 0))
                &&& mode == 3 && 0xA000 <= a < 0xC000 ==> (m.prg_map(a) matches Some((t, b, _))
                    && b == (r2 & 0x7F) as nat && (t == Mapper5PrgTarget::Ram) == ((r2 & 0x80)
                    == 0))
                &&& mode == 3 && 0xC000 <= a < 0xE000 ==> (m.prg_map(a) matches Some((t, b, _))
                    && b == (r3 & 0x7F) as nat && (t == Mapper5PrgTarget::Ram) == ((r3 & 0x80)
                    == 0))
                &&& mode == 3 && 0xE000 <= a ==> (m.prg_map(a) matches Some((_, b, _)) && b == (
                m.prg_regs@[4] & 0x7F) as nat)
                &&& mode == 0 ==> (m.prg_map(a) matches Some((t, b, _)) && t
                    == Mapper5PrgTarget::Rom && b == (m.prg_regs@[4] & 0x7C) as nat + (((a
                    - 0x8000) as usize >> 13) & 0x03) as nat)
            }),
    {
    }

    /// CHR in 1 KiB mode (mode 3) maps slot k (1 KiB at k * $400) to the bank
    /// of register k; in 8 KiB mode (mode 0) slot k is bank 8 * register 7
    /// plus k.
    pub proof fn law_chr_slots(m: Self, k: nat)
        requires
            k < 8,
        ensures
            (m.chr_mode & 0x03) == 3 ==> m.chr_bank_1k(k) == m.chr_regs@[k as int] as nat,
            (m.chr_mode & 0x03) == 0 ==> m.chr_bank_1k(k) == m.chr_regs@[7] as nat * 8 + k,
    {
    }

    /// With PRG RAM unlocked, a byte written at $6000-$7FFF reads back.
    pub proof fn law_prg_ram_roundtrip(m0: Self, m1: Self, m2: Self, addr: u16, value: u8, r: u8)
        requires
            m0.wf(),
            0x6000 <= addr <= 0x7FFF,
            m0.prg_ram_write_enabled_spec(),
            m0.cpu_write_post(&m1, addr, value),
            m1.cpu_read_post(&m2, addr, r),
        ensures
            r == value,
    {
    }

    /// After writing the two factors, $5205 and $5206 read the low and high
    /// bytes of their product.
    pub proof fn law_multiplier(m0: Self, m1: Self, m2: Self, a: u8, b: u8)
        requires
            m0.cpu_write_post(&m1, 0x5205, a),
            m1.cpu_write_post(&m2, 0x5206, b),
        ensures
            m2.cpu_read_value(0x5205) as int + 256 * m2.cpu_read_value(0x5206) as int == a as int
                * b as int,
    {
        assert(a as int * b as int <= 65025) by (nonlinear_arith)
            requires
                a <= 255,
                b <= 255,
        ;
    }
}

proof fn lemma_product_fits(a: u8, b: u8)
    ensures
        a as nat * b as nat <= 65025,
{
    assert(a as nat * b as nat <= 65025) by (nonlinear_arith)
        requires
            a <= 255,
            b <= 255,
    ;
}

proof fn lemma_u16_bytes(p: u16)
    ensures
        p & 0xFF == p % 256,
        p >> 8 == p / 256,
{
    assert(p & 0xFF == p % 256) by (bit_vector);
    assert(p >> 8 == p / 256) by (bit_vector);
}

pub proof fn lemma_and_usize_small(x: usize)
    ensures
        x & 0x01 <= 1,
        x & 0x03 <= 3,
{
    assert(x & 0x01 <= 1) by (bit_vector);
    assert(x & 0x03 <= 3) by (bit_vector);
}

impl Mapper for Mapper5 {
    open spec fn chr_read_post(&self, post: &Self, addr: u16, r: u8) -> bool {
        r == self.ppu_read_value(addr) && *post == *self
    }

    open spec fn read_seen_post(&self, post: &Self, addr: u16) -> bool {
        *post == self.after_ppu_read(addr)
    }

    open spec fn nametable_read_spec(&self, post: &Self, addr: u16, vram: Seq<u8>, r: Option<u8>) -> bool {
        r == Some(self.nametable_value(addr, vram)) && *post == *self
    }

    open spec fn inv(&self) -> bool {
        self.wf()
    }

    open spec fn suppresses_a12_view(&self) -> bool {
        false
    }

    open spec fn relaxed_sprite0_view(&self) -> bool {
        false
    }

    open spec fn owns_nametables(&self) -> bool {
        true
    }

    open spec fn mirroring_view(&self) -> Mirroring {
        Mirroring::FourScreen
    }

    fn cpu_read(&mut self, addr: u16) -> (r: u8)
        ensures
            old(self).cpu_read_post(&*final(self), addr, r),
    {
        if 0x5C00 <= addr && addr <= 0x5FFF {
            self.exram[(addr as usize) - 0x5C00]
        } else if addr == 0x5204 {
            let status = (if self.irq_pending {
                0x80u8
            } else {
                0u8
            }) | (if self.in_frame {
                0x40u8
            } else {
                0u8
            });
            self.irq_pending = false;
            status
        } else if addr == 0x5205 {
            proof {
                lemma_product_fits(self.mul_a, self.mul_b);
            }
            let product = (self.mul_a as u16) * (self.mul_b as u16);
            proof {
                lemma_u16_bytes(product);
            }
            (product & 0xFF) as u8
        } else if addr == 0x5206 {
            proof {
                lemma_product_fits(self.mul_a, self.mul_b);
            }
            let product = (self.mul_a as u16) * (self.mul_b as u16);
            proof {
                lemma_u16_bytes(product);
            }
            (product >> 8) as u8
        } else {
            match self.map_prg_addr(addr) {
                Some((Mapper5PrgTarget::Rom, bank, offset)) => self.read_prg_rom_8k(bank, offset),
                Some((Mapper5PrgTarget::Ram, bank, offset)) => self.read_prg_ram_8k(bank, offset),
                None => 0,
            }
        }
    }

    fn cpu_write(&mut self, addr: u16, value: u8)
        ensures
            old(self).cpu_write_post(&*final(self), addr, value),
    {
        if addr == 0x5100 {
            self.prg_mode = value & 0x03;
        } else if addr == 0x5101 {
            self.chr_mode = value & 0x03;
        } else if addr == 0x5102 {
            self.prg_ram_protect_1 = value;
        } else if addr == 0x5103 {
            self.prg_ram_protect_2 = value;
        } else if addr == 0x5104 {
            self.exram_mode = value & 0x03;
        } else if addr == 0x5105 {
            self.nametable_map[0] = value & 0x03;
            self.nametable_map[1] = (value >> 2) & 0x03;
            self.nametable_map[2] = (value >> 4) & 0x03;
            self.nametable_map[3] = (value >> 6) & 0x03;
            assert(self.nametable_map@ =~= seq![
                value & 0x03,
                (value >> 2) & 0x03,
                (value >> 4) & 0x03,
                (value >> 6) & 0x03,
            ]);
        } else if addr == 0x5106 {
            self.fill_tile = value;
        } else if addr == 0x5107 {
            self.fill_attr = value & 0x03;
        } else if 0x5113 <= addr && addr <= 0x5117 {
            self.prg_regs[(addr - 0x5113) as usize] = value;
        } else if 0x5120 <= addr && addr <= 0x512B {
            let idx = (addr as usize) - 0x5120;
            self.chr_regs[idx] = ((self.chr_upper_bits as u16) << 8) | value as u16;
        } else if addr == 0x5130 {
            self.chr_upper_bits = value & 0x03;
        } else if addr == 0x5203 {
            self.irq_scanline_compare = value;
        } else if addr == 0x5204 {
            self.irq_enabled = (value & 0x80) != 0;
        } else if addr == 0x5205 {
            self.mul_a = value;
        } else if addr == 0x5206 {
            self.mul_b = value;
        } else if 0x5C00 <= addr && addr <= 0x5FFF {
            if self.exram_mode != 3 {
                self.exram[(addr as usize) - 0x5C00] = value;
            }
        } else if 0x6000 <= addr {
            if !self.prg_ram_write_enabled() {
                return;
            }
            match self.map_prg_addr(addr) {
                Some((Mapper5PrgTarget::Ram, bank, offset)) => {
                    self.write_prg_ram_8k(bank, offset, value);
                },
                _ => {},
            }
        }
    }

    fn ppu_read(&mut self, addr: u16) -> (r: u8)
        ensures
            r == old(self).ppu_read_value(addr),
            *final(self) == *old(self),
    {
        let idx = self.map_chr_addr(addr & 0x1FFF);
        assert(self.chr_map(addr & 0x1FFF) == self.chr_map(addr)) by {
            assert((addr & 0x1FFF) & 0x1FFF == addr & 0x1FFF) by (bit_vector);
            assert((addr & 0x1FFF) & 0x03FF == addr & 0x03FF) by (bit_vector);
        }
        self.chr[idx % self.chr.len()]
    }

    fn ppu_write(&mut self, addr: u16, value: u8)
        ensures
            old(self).ppu_write_post(&*final(self), addr, value),
    {
        if self.chr_is_ram {
            let idx = self.map_chr_addr(addr & 0x1FFF);
            assert(self.chr_map(addr & 0x1FFF) == self.chr_map(addr)) by {
                assert((addr & 0x1FFF) & 0x1FFF == addr & 0x1FFF) by (bit_vector);
                assert((addr & 0x1FFF) & 0x03FF == addr & 0x03FF) by (bit_vector);
            }
            let len = self.chr.len();
            self.chr.set(idx % len, value);
        }
    }

    fn ppu_nametable_read(&mut self, addr: u16, vram: &[u8; 4096]) -> (r: Option<u8>)
        ensures
            r == Some(old(self).nametable_value(addr, vram@)),
            *final(self) == *old(self),
    {
        let mirrored = 0x2000 + ((addr - 0x2000) % 0x1000);
        let table = ((mirrored - 0x2000) / 0x400) as usize;
        let offset = ((mirrored - 0x2000) % 0x400) as usize;
        let source = self.nametable_map[table] & 0x03;
        let value = if source <= 1 {
            let page = (self.nametable_map[table] & 0x01) as usize;
            proof {
                lemma_and_u8(self.nametable_map@[table as int], 0x01);
            }
            vram[page * 0x400 + offset]
        } else if source == 2 {
            if self.exram_mode >= 2 {
                0
            } else {
                self.exram[offset]
            }
        } else {
            if offset < 0x3C0 {
                self.fill_tile
            } else {
                self.fill_attribute_byte()
            }
        };
        Some(value)
    }

    fn ppu_nametable_write(&mut self, addr: u16, value: u8, vram: &mut [u8; 4096]) -> (r: bool)
        ensures
            r,
            old(self).nametable_write_post(&*final(self), addr, value, old(vram)@, final(vram)@),
    {
        let mirrored = 0x2000 + ((addr - 0x2000) % 0x1000);
        let table = ((mirrored - 0x2000) / 0x400) as usize;
        let offset = ((mirrored - 0x2000) % 0x400) as usize;
        let source = self.nametable_map[table] & 0x03;
        if source <= 1 {
            let page = (self.nametable_map[table] & 0x01) as usize;
            proof {
                lemma_and_u8(self.nametable_map@[table as int], 0x01);
            }
            vram[page * 0x400 + offset] = value;
        } else if source == 2 {
            if self.exram_mode != 3 {
                self.exram[offset] = value;
            }
        }
        true
    }

    fn mirroring(&self) -> (r: Mirroring)
        ensures
            r == Mirroring::FourScreen,
    {
        Mirroring::FourScreen
    }

    fn tick_cpu_cycle(&mut self)
        ensures
            *final(self) == old(self).cpu_cycled(),
    {
        let c = self.cpu_cycles_since_ppu_read.saturating_add(1);
        self.cpu_cycles_since_ppu_read = if c <= 3 {
            c
        } else {
            3
        };
        if self.cpu_cycles_since_ppu_read >= 3 {
            self.in_frame = false;
            self.scanline_counter = 0;
            self.irq_pending = false;
            self.scanline_detect_armed = false;
            self.repeated_nametable_reads = 0;
        }
    }

    fn notify_ppu_read_addr(&mut self, addr: u16)
        ensures
            *final(self) == old(self).after_ppu_read(addr),
    {
        self.cpu_cycles_since_ppu_read = 0;
        if self.scanline_detect_armed {
            self.clock_scanline_detector();
            self.scanline_detect_armed = false;
        }
        if 0x2000 <= addr && addr <= 0x3EFF {
            let probe = 0x2000 + ((addr - 0x2000) % 0x1000);
            if probe < 0x3000 {
                if probe == self.last_nametable_probe {
                    self.repeated_nametable_reads = self.repeated_nametable_reads.saturating_add(1);
                } else {
                    self.last_nametable_probe = probe;
                    self.repeated_nametable_reads = 1;
                }
                if self.repeated_nametable_reads >= 3 {
                    self.scanline_detect_armed = true;
                    self.repeated_nametable_reads = 0;
                }
                return;
            }
        }
        self.repeated_nametable_reads = 0;
    }

    fn irq_pending(&self) -> (r: bool)
        ensures
            r == (self.irq_pending && self.irq_enabled),
    {
        self.irq_pending && self.irq_enabled
    }

    fn clear_irq(&mut self)
        ensures
            *final(self) == (Mapper5 { irq_pending: false, ..*old(self) }),
    {
        self.irq_pending = false;
    }

    fn suppress_a12_on_sprite_eval_reads(&self) -> (r: bool) {
        false
    }

    fn allow_relaxed_sprite0_hit(&self) -> (r: bool) {
        false
    }
}

} // verus!
