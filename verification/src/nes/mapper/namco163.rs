use vstd::prelude::*;

use super::{Mapper, Mirroring};
use super::bank::{
    bank_count, bank_count_spec, banked_index_spec, banked_read_spec, fresh_prg_ram,
    lemma_and_u16, lemma_ram_roundtrip, memory_ok, new_prg_ram, ram_read_spec, ram_write_spec,
    read_banked, read_ram, write_ram,
};
use crate::nes::cartridge::Cartridge;

verus! {

/// Namco 163 (mapper 19): three switchable 8 KiB PRG banks, twelve 1 KiB bank
/// registers for the pattern tables and nametables (values $E0 and up select
/// console nametable RAM), 128 bytes of internal RAM behind an address port,
/// write-protected PRG RAM and a 15-bit up-counting CPU-cycle IRQ.
pub struct Mapper19 {
    pub prg_rom: Vec<u8>,
    pub chr: Vec<u8>,
    pub chr_is_ram: bool,
    pub prg_ram: Vec<u8>,
    pub chr_nt_banks: [u8; 12],
    pub prg_bank_8000: u8,
    pub prg_bank_a000: u8,
    pub prg_bank_c000: u8,
    pub disable_chrram_low: bool,
    pub disable_chrram_high: bool,
    pub ram_write_protect: u8,
    pub irq_counter: u16,
    pub irq_enabled: bool,
    pub irq_pending: bool,
    pub ciram_shadow: [u8; 2048],
    pub internal_ram: [u8; 128],
    pub internal_addr: u8,
    pub internal_auto_inc: bool,
}

/// Index in the console's nametable RAM of a CIRAM-selecting bank value.
pub open spec fn ciram_index_spec(bank: u8, offset: nat) -> nat {
    ((bank & 0x01) as nat) * 0x0400 + offset
}

impl Mapper19 {
    pub open spec fn wf(&self) -> bool {
        &&& memory_ok(self.prg_rom@)
        &&& memory_ok(self.chr@)
        &&& memory_ok(self.prg_ram@)
    }

    pub open spec fn initialized_from(&self, cart: &Cartridge) -> bool {
        &&& self.prg_rom@ == cart.prg_rom@
        &&& self.chr@ == cart.chr_data@
        &&& self.chr_is_ram == cart.chr_is_ram
        &&& self.prg_ram@ == fresh_prg_ram(cart.prg_ram_size)
        &&& self.chr_nt_banks@ == Seq::new(12, |i: int| i as u8)
        &&& self.prg_bank_8000 == 0
        &&& self.prg_bank_a000 == 1
        &&& self.prg_bank_c000 == 2
        &&& !self.disable_chrram_low
        &&& !self.disable_chrram_high
        &&& self.ram_write_protect == 0x4F
        &&& self.irq_counter == 0
        &&& !self.irq_enabled
        &&& !self.irq_pending
        &&& self.ciram_shadow@ == Seq::new(2048, |i: int| 0u8)
        &&& self.internal_ram@ == Seq::new(128, |i: int| 0u8)
        &&& self.internal_addr == 0
        &&& !self.internal_auto_inc
    }

    pub fn new(cart: Cartridge) -> (m: Self)
        requires
            cart.wf(),
        ensures
            m.initialized_from(&cart),
            m.wf(),
    {
        let m = Self {
            prg_rom: cart.prg_rom,
            chr: cart.chr_data,
            chr_is_ram: cart.chr_is_ram,
            prg_ram: new_prg_ram(cart.prg_ram_size),
            chr_nt_banks: [0, 1, 2, 3, 4, 5, 6, 7, 8, 9, 10, 11],
            prg_bank_8000: 0,
            prg_bank_a000: 1,
            prg_bank_c000: 2,
            disable_chrram_low: false,
            disable_chrram_high: false,
            ram_write_protect: 0x4F,
            irq_counter: 0,
            irq_enabled: false,
            irq_pending: false,
            ciram_shadow: [0; 2048],
            internal_ram: [0; 128],
            internal_addr: 0,
            internal_auto_inc: false,
        };
        assert(m.chr_nt_banks@ =~= Seq::new(12, |i: int| i as u8));
        assert(m.ciram_shadow@ =~= Seq::new(2048, |i: int| 0u8));
        assert(m.internal_ram@ =~= Seq::new(128, |i: int| 0u8));
        m
    }

    pub open spec fn prg_bank_count_spec(&self) -> nat {
        bank_count_spec(self.prg_rom@.len(), 0x2000)
    }

    pub fn prg_bank_count_8k(&self) -> (r: usize)
        ensures
            r == self.prg_bank_count_spec(),
            r >= 1,
    {
        bank_count(self.prg_rom.len(), 0x2000)
    }

    pub fn chr_bank_count_1k(&self) -> (r: usize)
        ensures
            r == bank_count_spec(self.chr@.len(), 0x0400),
            r >= 1,
    {
        bank_count(self.chr.len(), 0x0400)
    }

    fn read_prg_rom_8k(&self, bank: usize, offset: usize) -> (r: u8)
        requires
            self.wf(),
            offset < 0x2000,
        ensures
            r == banked_read_spec(self.prg_rom@, bank as nat, 0x2000, offset as nat),
    {
        read_banked(&self.prg_rom, bank, 0x2000, offset)
    }

    fn map_chr_bank(&self, bank: u8, offset: usize) -> (r: usize)
        requires
            self.wf(),
            offset < 0x0400,
        ensures
            r == banked_index_spec(self.chr@.len(), bank as nat, 0x0400, offset as nat),
            r < self.chr@.len(),
    {
        super::bank::banked_index(self.chr.len(), bank as usize, 0x0400, offset)
    }

    /// A pattern slot shows console nametable RAM when its bank value is $E0
    /// or more and CIRAM is not disabled for its half.
    pub open spec fn slot_uses_ciram(&self, slot: nat, bank: u8) -> bool {
        bank >= 0xE0 && (if slot < 4 {
            !self.disable_chrram_low
        } else {
            !self.disable_chrram_high
        })
    }

    fn pattern_slot_uses_ciram(&self, slot: usize, bank: u8) -> (r: bool)
        ensures
            r == self.slot_uses_ciram(slot as nat, bank),
    {
        if bank < 0xE0 {
            return false;
        }
        if slot < 4 {
            !self.disable_chrram_low
        } else {
            !self.disable_chrram_high
        }
    }

    fn ciram_index(bank: u8, offset: usize) -> (r: usize)
        requires
            offset < 0x0400,
        ensures
            r == ciram_index_spec(bank, offset as nat),
            r < 0x0800,
    {
        proof {
            super::bank::lemma_and_u8(bank, 0x01);
        }
        ((bank as usize) & 0x01) * 0x0400 + offset
    }

    /// PRG RAM at `addr` accepts writes when the protect register's high
    /// nibble is 4 and the bit of the 2 KiB window is clear.
    pub open spec fn prg_ram_writable(&self, addr: u16) -> bool {
        ((self.ram_write_protect >> 4) & 0x0F) == 0x04 && ((self.ram_write_protect >> ((addr
            - 0x6000) / 0x0800) as u8) & 0x01) == 0
    }

    fn prg_ram_write_enabled_for_addr(&self, addr: u16) -> (r: bool)
        requires
            0x6000 <= addr <= 0x7FFF,
        ensures
            r == self.prg_ram_writable(addr),
    {
        let key = (self.ram_write_protect >> 4) & 0x0F;
        if key != 0x04 {
            return false;
        }
        let window = ((addr - 0x6000) / 0x0800) as u8;
        ((self.ram_write_protect >> window) & 0x01) == 0
    }

    /// The next internal RAM address: it advances (within 7 bits) only with
    /// auto-increment on.
    pub open spec fn next_internal_addr(&self) -> u8 {
        if self.internal_auto_inc {
            self.internal_addr.wrapping_add(1) & 0x7F
        } else {
            self.internal_addr
        }
    }

    fn read_internal_ram(&mut self) -> (r: u8)
        ensures
            r == old(self).internal_ram@[(old(self).internal_addr & 0x7F) as int],
            *final(self) == (Mapper19 {
                internal_addr: old(self).next_internal_addr(),
                ..*old(self)
            }),
    {
        proof {
            super::bank::lemma_and_u8(self.internal_addr, 0x7F);
        }
        let idx = (self.internal_addr & 0x7F) as usize;
        let value = self.internal_ram[idx];
        if self.internal_auto_inc {
            self.internal_addr = (self.internal_addr.wrapping_add(1)) & 0x7F;
        }
        value
    }

    fn write_internal_ram(&mut self, value: u8)
        ensures
            final(self).internal_ram@ == old(self).internal_ram@.update(
                (old(self).internal_addr & 0x7F) as int,
                value,
            ),
            *final(self) == (Mapper19 {
                internal_ram: final(self).internal_ram,
                internal_addr: old(self).next_internal_addr(),
                ..*old(self)
            }),
    {
        proof {
            super::bank::lemma_and_u8(self.internal_addr, 0x7F);
        }
        let idx = (self.internal_addr & 0x7F) as usize;
        self.internal_ram[idx] = value;
        if self.internal_auto_inc {
            self.internal_addr = (self.internal_addr.wrapping_add(1)) & 0x7F;
        }
    }

    /// The byte a CPU read returns, for every address but $4800.
    pub open spec fn cpu_read_value(&self, addr: u16) -> u8 {
        if addr == 0x5000 {
            (self.irq_counter & 0x00FF) as u8
        } else if addr == 0x5800 {
            (if self.irq_enabled { 0x80u8 } else { 0u8 }) | ((self.irq_counter >> 8) as u8 & 0x7F)
        } else if 0x6000 <= addr <= 0x7FFF {
            ram_read_spec(self.prg_ram@, addr)
        } else if 0x8000 <= addr <= 0x9FFF {
            banked_read_spec(self.prg_rom@, self.prg_bank_8000 as nat, 0x2000, (addr - 0x8000) as nat)
        } else if 0xA000 <= addr <= 0xBFFF {
            banked_read_spec(self.prg_rom@, self.prg_bank_a000 as nat, 0x2000, (addr - 0xA000) as nat)
        } else if 0xC000 <= addr <= 0xDFFF {
            banked_read_spec(self.prg_rom@, self.prg_bank_c000 as nat, 0x2000, (addr - 0xC000) as nat)
        } else if 0xE000 <= addr {
            banked_read_spec(
                self.prg_rom@,
                (self.prg_bank_count_spec() - 1) as nat,
                0x2000,
                (addr - 0xE000) as nat,
            )
        } else {
            0
        }
    }

    /// A CPU read: $4800 reads internal RAM through the address port (which
    /// may advance); every other address is read without side effect.
    pub open spec fn cpu_read_post(&self, post: &Self, addr: u16, r: u8) -> bool {
        if addr == 0x4800 {
            &&& r == self.internal_ram@[(self.internal_addr & 0x7F) as int]
            &&& *post == Mapper19 { internal_addr: self.next_internal_addr(), ..*self }
        } else {
            r == self.cpu_read_value(addr) && *post == *self
        }
    }

    pub open spec fn cpu_write_post(&self, post: &Self, addr: u16, value: u8) -> bool {
        if addr == 0x4800 {
            &&& post.internal_ram@ == self.internal_ram@.update(
                (self.internal_addr & 0x7F) as int,
                value,
            )
            &&& *post == Mapper19 {
                internal_ram: post.internal_ram,
                internal_addr: self.next_internal_addr(),
                ..*self
            }
        } else if addr == 0x5000 {
            *post == Mapper19 {
                irq_counter: (self.irq_counter & 0x7F00) | value as u16,
                irq_pending: false,
                ..*self
            }
        } else if addr == 0x5800 {
            *post == Mapper19 {
                irq_counter: (self.irq_counter & 0x00FF) | (((value as u16) & 0x7F) << 8),
                irq_enabled: (value & 0x80) != 0,
                irq_pending: false,
                ..*self
            }
        } else if 0x6000 <= addr <= 0x7FFF {
            if self.prg_ram_writable(addr) {
                &&& post.prg_ram@ == ram_write_spec(self.prg_ram@, addr, value)
                &&& *post == Mapper19 { prg_ram: post.prg_ram, ..*self }
            } else {
                *post == *self
            }
        } else if 0x8000 <= addr <= 0xDFFF {
            &&& post.chr_nt_banks@ == self.chr_nt_banks@.update(((addr - 0x8000) / 0x0800) as int, value)
            &&& *post == Mapper19 { chr_nt_banks: post.chr_nt_banks, ..*self }
        } else if 0xE000 <= addr <= 0xE7FF {
            *post == Mapper19 { prg_bank_8000: value & 0x3F, ..*self }
        } else if 0xE800 <= addr <= 0xEFFF {
            *post == Mapper19 {
                prg_bank_a000: value & 0x3F,
                disable_chrram_low: (value & 0x40) != 0,
                disable_chrram_high: (value & 0x80) != 0,
                ..*self
            }
        } else if 0xF000 <= addr <= 0xF7FF {
            *post == Mapper19 { prg_bank_c000: value & 0x3F, ..*self }
        } else if 0xF800 <= addr {
            *post == Mapper19 {
                ram_write_protect: value,
                internal_addr: value & 0x7F,
                internal_auto_inc: (value & 0x80) != 0,
                ..*self
            }
        } else {
            *post == *self
        }
    }

    /// The byte a pattern address reads: CIRAM or a 1 KiB CHR bank.
    pub open spec fn ppu_read_value(&self, addr: u16) -> u8 {
        let slot = ((addr & 0x1FFF) / 0x0400) as nat;
        let offset = (addr & 0x03FF) as nat;
        let bank = self.chr_nt_banks@[slot as int];
        if self.slot_uses_ciram(slot, bank) {
            self.ciram_shadow@[ciram_index_spec(bank, offset) as int]
        } else {
            self.chr@[banked_index_spec(self.chr@.len(), bank as nat, 0x0400, offset) as int]
        }
    }

    pub open spec fn ppu_write_post(&self, post: &Self, addr: u16, value: u8) -> bool {
        let slot = ((addr & 0x1FFF) / 0x0400) as nat;
        let offset = (addr & 0x03FF) as nat;
        let bank = self.chr_nt_banks@[slot as int];
        if self.slot_uses_ciram(slot, bank) {
            &&& post.ciram_shadow@ == self.ciram_shadow@.update(
                ciram_index_spec(bank, offset) as int,
                value,
            )
            &&& *post == Mapper19 { ciram_shadow: post.ciram_shadow, ..*self }
        } else if self.chr_is_ram {
            &&& post.chr@ == self.chr@.update(
                banked_index_spec(self.chr@.len(), bank as nat, 0x0400, offset) as int,
                value,
            )
            &&& *post == Mapper19 { chr: post.chr, ..*self }
        } else {
            *post == *self
        }
    }

    /// A nametable read (address in $2000-$2FFF): a CIRAM page, which the
    /// shadow copy also records, or a 1 KiB CHR bank.
    pub open spec fn nametable_read_post(
        &self,
        post: &Self,
        addr: u16,
        vram: Seq<u8>,
        r: Option<u8>,
    ) -> bool {
        let slot = ((addr - 0x2000) / 0x0400) as int;
        let offset = ((addr - 0x2000) % 0x0400) as nat;
        let bank = self.chr_nt_banks@[8 + slot];
        if bank >= 0xE0 {
            let idx = ciram_index_spec(bank, offset) as int;
            &&& r == Some(vram[idx])
            &&& post.ciram_shadow@ == self.ciram_shadow@.update(idx, vram[idx])
            &&& *post == Mapper19 { ciram_shadow: post.ciram_shadow, ..*self }
        } else {
            &&& r == Some(
                self.chr@[banked_index_spec(self.chr@.len(), bank as nat, 0x0400, offset) as int],
            )
            &&& *post == *self
        }
    }

    /// A nametable write: into CIRAM and its shadow, or into CHR RAM.
    pub open spec fn nametable_write_post(
        &self,
        post: &Self,
        addr: u16,
        value: u8,
        vram: Seq<u8>,
        new_vram: Seq<u8>,
    ) -> bool {
        let slot = ((addr - 0x2000) / 0x0400) as int;
        let offset = ((addr - 0x2000) % 0x0400) as nat;
        let bank = self.chr_nt_banks@[8 + slot];
        if bank >= 0xE0 {
            let idx = ciram_index_spec(bank, offset) as int;
            &&& new_vram == vram.update(idx, value)
            &&& post.ciram_shadow@ == self.ciram_shadow@.update(idx, value)
            &&& *post == Mapper19 { ciram_shadow: post.ciram_shadow, ..*self }
        } else if self.chr_is_ram {
            &&& new_vram == vram
            &&& post.chr@ == self.chr@.update(
                banked_index_spec(self.chr@.len(), bank as nat, 0x0400, offset) as int,
                value,
            )
            &&& *post == Mapper19 { chr: post.chr, ..*self }
        } else {
            &&& new_vram == vram
            &&& *post == *self
        }
    }

    /// A CPU cycle: an enabled counter with no IRQ pending counts up to $7FFF,
    /// where it raises the IRQ.
    pub open spec fn tick_cpu_post(&self, post: &Self) -> bool {
        if !self.irq_enabled || self.irq_pending || self.irq_counter >= 0x7FFF {
            *post == *self
        } else {
            *post == Mapper19 {
                irq_counter: (self.irq_counter + 1) as u16,
                irq_pending: self.irq_counter + 1 == 0x7FFF,
                ..*self
            }
        }
    }

    /// The PRG bank registers: a write to $E000-$E7FF, $E800-$EFFF or
    /// $F000-$F7FF sets (from its low six bits) the 8 KiB bank that
    /// $8000-$9FFF, $A000-$BFFF or $C000-$DFFF then shows; the other windows
    /// keep theirs, and $E000-$FFFF always shows the last bank.
    pub proof fn law_prg_bank_registers(m0: Self, m1: Self, addr: u16, v: u8, a: u16)
        requires
            0xE000 <= addr <= 0xF7FF,
            m0.cpu_write_post(&m1, addr, v),
            0x8000 <= a,
        ensures
            ({
                let w: u16 = if addr <= 0xE7FF {
                    0x8000
                } else if addr <= 0xEFFF {
                    0xA000
                } else {
                    0xC000
                };
                &&& w <= a < w + 0x2000 ==> m1.cpu_read_value(a) == banked_read_spec(
                    m0.prg_rom@,
                    (v & 0x3F) as nat,
                    0x2000,
                    (a - w) as nat,
                )
                &&& !(w <= a < w + 0x2000) ==> m1.cpu_read_value(a) == m0.cpu_read_value(a)
                &&& 0xE000 <= a ==> m1.cpu_read_value(a) == banked_read_spec(
                    m0.prg_rom@,
                    (bank_count_spec(m0.prg_rom@.len(), 0x2000) - 1) as nat,
                    0x2000,
                    (a - 0xE000) as nat,
                )
            }),
    {
    }

    /// A byte written to writable PRG RAM reads back at the same address.
    pub proof fn law_prg_ram_roundtrip(m0: Self, m1: Self, addr: u16, value: u8)
        requires
            m0.wf(),
            0x6000 <= addr <= 0x7FFF,
            m0.prg_ram_writable(addr),
            m0.cpu_write_post(&m1, addr, value),
        ensures
            m1.cpu_read_value(addr) == value,
    {
        lemma_ram_roundtrip(m0.prg_ram@, addr, value);
    }

    /// A nametable byte written to a CIRAM-backed quadrant reads back.
    pub proof fn law_ciram_nametable_roundtrip(
        m0: Self,
        m1: Self,
        m2: Self,
        addr: u16,
        value: u8,
        vram0: Seq<u8>,
        vram1: Seq<u8>,
        r: Option<u8>,
    )
        requires
            0x2000 <= addr < 0x3000,
            vram0.len() == 4096,
            m0.chr_nt_banks@[8 + (addr - 0x2000) / 0x0400] >= 0xE0,
            m0.nametable_write_post(&m1, addr, value, vram0, vram1),
            m1.nametable_read_post(&m2, addr, vram1, r),
        ensures
            r == Some(value),
    {
        super::bank::lemma_and_u8(m0.chr_nt_banks@[8 + (addr - 0x2000) / 0x0400], 0x01);
    }
}

impl Mapper for Mapper19 {
    open spec fn chr_read_post(&self, post: &Self, addr: u16, r: u8) -> bool {
        r == self.ppu_read_value(addr) && *post == *self
    }

    open spec fn read_seen_post(&self, post: &Self, addr: u16) -> bool {
        *post == *self
    }

    open spec fn nametable_read_spec(&self, post: &Self, addr: u16, vram: Seq<u8>, r: Option<u8>) -> bool {
        self.nametable_read_post(post, addr, vram, r)
    }

    open spec fn inv(&self) -> bool {
        self.wf()
    }

    open spec fn suppresses_a12_view(&self) -> bool {
        false
    }

    open spec fn relaxed_sprite0_view(&self) -> bool {
        false
    }

    open spec fn owns_nametables(&self) -> bool {
        true
    }

    open spec fn mirroring_view(&self) -> Mirroring {
        Mirroring::FourScreen
    }

    fn cpu_read(&mut self, addr: u16) -> (r: u8)
        ensures
            old(self).cpu_read_post(&*final(self), addr, r),
    {
        if addr == 0x4800 {
            self.read_internal_ram()
        } else if addr == 0x5000 {
            (self.irq_counter & 0x00FF) as u8
        } else if addr == 0x5800 {
            (if self.irq_enabled {
                0x80u8
            } else {
                0u8
            }) | ((self.irq_counter >> 8) as u8 & 0x7F)
        } else if 0x6000 <= addr && addr <= 0x7FFF {
            read_ram(&self.prg_ram, addr)
        } else if 0x8000 <= addr && addr <= 0x9FFF {
            self.read_prg_rom_8k(self.prg_bank_8000 as usize, addr as usize - 0x8000)
        } else if 0xA000 <= addr && addr <= 0xBFFF {
            self.read_prg_rom_8k(self.prg_bank_a000 as usize, addr as usize - 0xA000)
        } else if 0xC000 <= addr && addr <= 0xDFFF {
            self.read_prg_rom_8k(self.prg_bank_c000 as usize, addr as usize - 0xC000)
        } else if 0xE000 <= addr {
            let last = self.prg_bank_count_8k().saturating_sub(1);
            self.read_prg_rom_8k(last, addr as usize - 0xE000)
        } else {
            0
        }
    }

    fn cpu_write(&mut self, addr: u16, value: u8)
        ensures
            old(self).cpu_write_post(&*final(self), addr, value),
    {
        if addr == 0x4800 {
            self.write_internal_ram(value);
        } else if addr == 0x5000 {
            self.irq_counter = (self.irq_counter & 0x7F00) | value as u16;
            self.irq_pending = false;
        } else if addr == 0x5800 {
            self.irq_counter = (self.irq_counter & 0x00FF) | (((value as u16) & 0x7F) << 8);
            self.irq_enabled = (value & 0x80) != 0;
            self.irq_pending = false;
        } else if 0x6000 <= addr && addr <= 0x7FFF {
            if self.prg_ram_write_enabled_for_addr(addr) {
                write_ram(&mut self.prg_ram, addr, value);
            }
        } else if 0x8000 <= addr && addr <= 0xDFFF {
            let idx = ((addr - 0x8000) / 0x0800) as usize;
            if idx < 12 {
                self.chr_nt_banks[idx] = value;
            }
        } else if 0xE000 <= addr && addr <= 0xE7FF {
            self.prg_bank_8000 = value & 0x3F;
        } else if 0xE800 <= addr && addr <= 0xEFFF {
            self.prg_bank_a000 = value & 0x3F;
            self.disable_chrram_low = (value & 0x40) != 0;
            self.disable_chrram_high = (value & 0x80) != 0;
        } else if 0xF000 <= addr && addr <= 0xF7FF {
            self.prg_bank_c000 = value & 0x3F;
        } else if 0xF800 <= addr {
            self.ram_write_protect = value;
            self.internal_addr = value & 0x7F;
            self.internal_auto_inc = (value & 0x80) != 0;
        }
    }

    fn ppu_read(&mut self, addr: u16) -> (r: u8)
        ensures
            r == old(self).ppu_read_value(addr),
            *final(self) == *old(self),
    {
        proof {
            lemma_and_u16(addr, 0x1FFF);
            lemma_and_u16(addr, 0x03FF);
        }
        let slot = ((addr & 0x1FFF) as usize) / 0x0400;
        let offset = (addr & 0x03FF) as usize;
        let bank = self.chr_nt_banks[slot];
        if self.pattern_slot_uses_ciram(slot, bank) {
            let idx = Self::ciram_index(bank, offset);
            self.ciram_shadow[idx]
        } else {
            let idx = self.map_chr_bank(bank, offset);
            self.chr[idx]
        }
    }

    fn ppu_write(&mut self, addr: u16, value: u8)
        ensures
            old(self).ppu_write_post(&*final(self), addr, value),
    {
        proof {
            lemma_and_u16(addr, 0x1FFF);
            lemma_and_u16(addr, 0x03FF);
        }
        let slot = ((addr & 0x1FFF) as usize) / 0x0400;
        let offset = (addr & 0x03FF) as usize;
        let bank = self.chr_nt_banks[slot];
        if self.pattern_slot_uses_ciram(slot, bank) {
            let idx = Self::ciram_index(bank, offset);
            self.ciram_shadow[idx] = value;
            return;
        }
        if self.chr_is_ram {
            let idx = self.map_chr_bank(bank, offset);
            self.chr.set(idx, value);
        }
    }

    fn ppu_nametable_read(&mut self, addr: u16, vram: &[u8; 4096]) -> (r: Option<u8>)
        ensures
            old(self).nametable_read_post(&*final(self), addr, vram@, r),
    {
        let mirrored = 0x2000 + ((addr - 0x2000) % 0x1000);
        let slot = ((mirrored - 0x2000) / 0x0400) as usize;
        let offset = ((mirrored - 0x2000) % 0x0400) as usize;
        let bank = self.chr_nt_banks[8 + slot];
        if bank >= 0xE0 {
            let idx = Self::ciram_index(bank, offset);
            self.ciram_shadow[idx] = vram[idx];
            Some(vram[idx])
        } else {
            let idx = self.map_chr_bank(bank, offset);
            Some(self.chr[idx])
        }
    }

    fn ppu_nametable_write(&mut self, addr: u16, value: u8, vram: &mut [u8; 4096]) -> (r: bool)
        ensures
            r,
            old(self).nametable_write_post(&*final(self), addr, value, old(vram)@, final(vram)@),
    {
        let mirrored = 0x2000 + ((addr - 0x2000) % 0x1000);
        let slot = ((mirrored - 0x2000) / 0x0400) as usize;
        let offset = ((mirrored - 0x2000) % 0x0400) as usize;
        let bank = self.chr_nt_banks[8 + slot];
        if bank >= 0xE0 {
            let idx = Self::ciram_index(bank, offset);
            vram[idx] = value;
            self.ciram_shadow[idx] = value;
        } else if self.chr_is_ram {
            let idx = self.map_chr_bank(bank, offset);
            self.chr.set(idx, value);
        }
        true
    }

    fn mirroring(&self) -> (r: Mirroring)
        ensures
            r == Mirroring::FourScreen,
    {
        Mirroring::FourScreen
    }

    fn tick_cpu_cycle(&mut self)
        ensures
            old(self).tick_cpu_post(&*final(self)),
    {
        if !self.irq_enabled || self.irq_pending {
            return;
        }
        if self.irq_counter < 0x7FFF {
            self.irq_counter = self.irq_counter.wrapping_add(1);
            if self.irq_counter == 0x7FFF {
                self.irq_pending = true;
            }
        }
    }

    fn irq_pending(&self) -> (r: bool)
        ensures
            r == self.irq_pending,
    {
        self.irq_pending
    }

    fn clear_irq(&mut self)
        ensures
            *final(self) == (Mapper19 { irq_pending: false, ..*old(self) }),
    {
        self.irq_pending = false;
    }

    fn suppress_a12_on_sprite_eval_reads(&self) -> (r: bool) {
        false
    }

    fn allow_relaxed_sprite0_hit(&self) -> (r: bool) {
        false
    }

    fn notify_ppu_read_addr(&mut self, addr: u16)
        ensures
            *final(self) == *old(self),
    {
    }
}

} // verus!
