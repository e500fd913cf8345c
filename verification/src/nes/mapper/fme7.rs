use vstd::prelude::*;

use super::{Mapper, Mirroring};
use super::bank::{
    bank_count, bank_count_spec, banked_index_spec, banked_read_spec, fresh_prg_ram,
    lemma_and_u16, lemma_and_u8, memory_ok, new_prg_ram, read_banked, write_banked,
};
use crate::nes::cartridge::Cartridge;

verus! {

/// FME-7 / Sunsoft 5B (mapper 69): a command register at $8000 and its
/// parameter at $A000 select eight 1 KiB CHR banks, three 8 KiB PRG banks, a
/// RAM-or-ROM bank at $6000, mirroring and a 16-bit down-counting IRQ.
pub struct Mapper69 {
    pub prg_rom: Vec<u8>,
    pub chr: Vec<u8>,
    pub chr_is_ram: bool,
    pub prg_ram: Vec<u8>,
    pub mirroring: Mirroring,
    pub command: u8,
    pub chr_banks: [u8; 8],
    pub prg_banks: [u8; 3],
    pub prg_bank_6000: u8,
    pub map_6000_to_ram: bool,
    pub ram_enable: bool,
    pub irq_counter: u16,
    pub irq_enabled: bool,
    pub irq_counter_enabled: bool,
    pub irq_pending: bool,
}

impl Mapper69 {
    pub open spec fn wf(&self) -> bool {
        &&& memory_ok(self.prg_rom@)
        &&& memory_ok(self.chr@)
        &&& memory_ok(self.prg_ram@)
    }

    pub open spec fn initialized_from(&self, cart: &Cartridge) -> bool {
        &&& self.prg_rom@ == cart.prg_rom@
        &&& self.chr@ == cart.chr_data@
        &&& self.chr_is_ram == cart.chr_is_ram
        &&& self.prg_ram@ == fresh_prg_ram(cart.prg_ram_size)
        &&& self.mirroring == cart.mirroring
        &&& self.command == 0
        &&& self.chr_banks@ == Seq::new(8, |i: int| i as u8)
        &&& self.prg_banks@ == seq![0u8, 1u8, 2u8]
        &&& self.prg_bank_6000 == 0
        &&& self.map_6000_to_ram
        &&& self.ram_enable
        &&& self.irq_counter == 0
        &&& !self.irq_enabled
        &&& !self.irq_counter_enabled
        &&& !self.irq_pending
    }

    pub fn new(cart: Cartridge) -> (m: Self)
        requires
            cart.wf(),
        ensures
            m.initialized_from(&cart),
            m.wf(),
    {
        let m = Self {
            prg_rom: cart.prg_rom,
            chr: cart.chr_data,
            chr_is_ram: cart.chr_is_ram,
            prg_ram: new_prg_ram(cart.prg_ram_size),
            mirroring: cart.mirroring,
            command: 0,
            chr_banks: [0, 1, 2, 3, 4, 5, 6, 7],
            prg_banks: [0, 1, 2],
            prg_bank_6000: 0,
            map_6000_to_ram: true,
            ram_enable: true,
            irq_counter: 0,
            irq_enabled: false,
            irq_counter_enabled: false,
            irq_pending: false,
        };
        assert(m.chr_banks@ =~= Seq::new(8, |i: int| i as u8));
        assert(m.prg_banks@ =~= seq![0u8, 1u8, 2u8]);
        m
    }

    pub open spec fn prg_bank_count_spec(&self) -> nat {
        bank_count_spec(self.prg_rom@.len(), 0x2000)
    }

    pub fn prg_bank_count_8k(&self) -> (r: usize)
        ensures
            r == self.prg_bank_count_spec(),
            r >= 1,
    {
        bank_count(self.prg_rom.len(), 0x2000)
    }

    pub fn chr_bank_count_1k(&self) -> (r: usize)
        ensures
            r == bank_count_spec(self.chr@.len(), 0x0400),
            r >= 1,
    {
        bank_count(self.chr.len(), 0x0400)
    }

    pub fn prg_ram_bank_count_8k(&self) -> (r: usize)
        ensures
            r == bank_count_spec(self.prg_ram@.len(), 0x2000),
            r >= 1,
    {
        bank_count(self.prg_ram.len(), 0x2000)
    }

    fn read_prg_8k(&self, bank: usize, offset: usize) -> (r: u8)
        requires
            self.wf(),
            offset < 0x2000,
        ensures
            r == banked_read_spec(self.prg_rom@, bank as nat, 0x2000, offset as nat),
    {
        read_banked(&self.prg_rom, bank, 0x2000, offset)
    }

    /// The byte the CPU reads at `addr`: $6000-$7FFF is the RAM bank (zero
    /// while RAM is disabled) or a ROM bank, then three switchable 8 KiB ROM
    /// banks and the last bank at $E000.
    pub open spec fn cpu_read_value(&self, addr: u16) -> u8 {
        if 0x6000 <= addr <= 0x7FFF {
            if self.map_6000_to_ram {
                if !self.ram_enable {
                    0
                } else {
                    banked_read_spec(self.prg_ram@, self.prg_bank_6000 as nat, 0x2000, (addr - 0x6000) as nat)
                }
            } else {
                banked_read_spec(self.prg_rom@, self.prg_bank_6000 as nat, 0x2000, (addr - 0x6000) as nat)
            }
        } else if 0x8000 <= addr <= 0xDFFF {
            banked_read_spec(
                self.prg_rom@,
                self.prg_banks@[((addr - 0x8000) / 0x2000) as int] as nat,
                0x2000,
                ((addr - 0x8000) % 0x2000) as nat,
            )
        } else if 0xE000 <= addr {
            banked_read_spec(
                self.prg_rom@,
                (self.prg_bank_count_spec() - 1) as nat,
                0x2000,
                (addr - 0xE000) as nat,
            )
        } else {
            0
        }
    }

    /// The effect of a parameter write under the current command.
    pub open spec fn command_post(&self, post: &Self, value: u8) -> bool {
        let cmd = self.command & 0x0F;
        if cmd <= 7 {
            &&& post.chr_banks@ == self.chr_banks@.update((self.command & 0x07) as int, value)
            &&& *post == Mapper69 { chr_banks: post.chr_banks, ..*self }
        } else if cmd == 8 {
            *post == Mapper69 {
                prg_bank_6000: value & 0x3F,
                map_6000_to_ram: (value & 0x40) != 0,
                ram_enable: (value & 0x80) != 0,
                ..*self
            }
        } else if cmd <= 0xB {
            &&& post.prg_banks@ == self.prg_banks@.update(cmd - 9, value & 0x3F)
            &&& *post == Mapper69 { prg_banks: post.prg_banks, ..*self }
        } else if cmd == 0xC {
            *post == Mapper69 {
                mirroring: if (value & 0x03) == 0 {
                    Mirroring::Vertical
                } else if (value & 0x03) == 1 {
                    Mirroring::Horizontal
                } else if (value & 0x03) == 2 {
                    Mirroring::OneScreenLower
                } else {
                    Mirroring::OneScreenUpper
                },
                ..*self
            }
        } else if cmd == 0xD {
            *post == Mapper69 {
                irq_pending: false,
                irq_enabled: (value & 0x01) != 0,
                irq_counter_enabled: (value & 0x80) != 0,
                ..*self
            }
        } else if cmd == 0xE {
            *post == Mapper69 { irq_counter: (self.irq_counter & 0xFF00) | value as u16, ..*self }
        } else {
            *post == Mapper69 { irq_counter: (self.irq_counter & 0x00FF) | ((value as u16) << 8), ..*self }
        }
    }

    fn write_command_param(&mut self, value: u8)
        ensures
            old(self).command_post(&*final(self), value),
    {
        let cmd = self.command & 0x0F;
        proof {
            lemma_and_u8(self.command, 0x07);
        }
        if cmd <= 7 {
            self.chr_banks[(self.command & 0x07) as usize] = value;
        } else if cmd == 8 {
            self.prg_bank_6000 = value & 0x3F;
            self.map_6000_to_ram = (value & 0x40) != 0;
            self.ram_enable = (value & 0x80) != 0;
        } else if cmd == 9 {
            self.prg_banks[0] = value & 0x3F;
        } else if cmd == 0xA {
            self.prg_banks[1] = value & 0x3F;
        } else if cmd == 0xB {
            self.prg_banks[2] = value & 0x3F;
        } else if cmd == 0xC {
            self.mirroring = if (value & 0x03) == 0 {
                Mirroring::Vertical
            } else if (value & 0x03) == 1 {
                Mirroring::Horizontal
            } else if (value & 0x03) == 2 {
                Mirroring::OneScreenLower
            } else {
                Mirroring::OneScreenUpper
            };
        } else if cmd == 0xD {
            // Writes to the IRQ control acknowledge a pending IRQ.
            self.irq_pending = false;
            self.irq_enabled = (value & 0x01) != 0;
            self.irq_counter_enabled = (value & 0x80) != 0;
        } else if cmd == 0xE {
            self.irq_counter = (self.irq_counter & 0xFF00) | value as u16;
        } else {
            proof {
                lemma_and_u8(self.command, 0x0F);
            }
            self.irq_counter = (self.irq_counter & 0x00FF) | ((value as u16) << 8);
        }
    }

    pub open spec fn cpu_write_post(&self, post: &Self, addr: u16, value: u8) -> bool {
        if 0x6000 <= addr <= 0x7FFF {
            if self.map_6000_to_ram && self.ram_enable {
                &&& post.prg_ram@ == self.prg_ram@.update(
                    banked_index_spec(
                        self.prg_ram@.len(),
                        self.prg_bank_6000 as nat,
                        0x2000,
                        (addr - 0x6000) as nat,
                    ) as int,
                    value,
                )
                &&& *post == Mapper69 { prg_ram: post.prg_ram, ..*self }
            } else {
                *post == *self
            }
        } else if 0x8000 <= addr <= 0x9FFF {
            *post == Mapper69 { command: value & 0x0F, ..*self }
        } else if 0xA000 <= addr <= 0xBFFF {
            self.command_post(post, value)
        } else {
            *post == *self
        }
    }

    pub open spec fn chr_index(&self, addr: u16) -> nat {
        banked_index_spec(
            self.chr@.len(),
            self.chr_banks@[((addr & 0x1FFF) / 0x0400) as int] as nat,
            0x0400,
            (addr & 0x03FF) as nat,
        )
    }

    fn map_chr_addr(&self, addr: u16) -> (r: usize)
        requires
            self.wf(),
        ensures
            r == self.chr_index(addr),
            r < self.chr@.len(),
    {
        proof {
            lemma_and_u16(addr, 0x1FFF);
            lemma_and_u16(addr, 0x03FF);
        }
        let slot = ((addr & 0x1FFF) as usize) / 0x0400;
        super::bank::banked_index(
            self.chr.len(),
            self.chr_banks[slot] as usize,
            0x0400,
            (addr & 0x03FF) as usize,
        )
    }

    pub open spec fn ppu_read_value(&self, addr: u16) -> u8 {
        self.chr@[self.chr_index(addr) as int]
    }

    pub open spec fn ppu_write_post(&self, post: &Self, addr: u16, value: u8) -> bool {
        if self.chr_is_ram {
            &&& post.chr@ == self.chr@.update(self.chr_index(addr) as int, value)
            &&& *post == Mapper69 { chr: post.chr, ..*self }
        } else {
            *post == *self
        }
    }

    /// A CPU cycle: while counting, the counter decrements (wrapping); leaving
    /// zero with IRQs enabled raises the IRQ.
    pub open spec fn tick_cpu_post(&self, post: &Self) -> bool {
        if !self.irq_counter_enabled {
            *post == *self
        } else {
            *post == Mapper69 {
                irq_counter: self.irq_counter.wrapping_sub(1),
                irq_pending: self.irq_pending || (self.irq_counter == 0 && self.irq_enabled),
                ..*self
            }
        }
    }

    /// With the $6000 window on enabled RAM, a byte written there reads back.
    /// Commands: writing a command to $8000-$9FFF and then `v` to
    /// $A000-$BFFF loads CHR slot `k` (1 KiB at `k` * $400) with bank `v` for
    /// commands 0-7, and the 8 KiB PRG window at $8000, $A000 or $C000 with
    /// the bank in the low six bits of `v` for commands 9, 10 and 11;
    /// $E000-$FFFF keeps the last bank.
    pub proof fn law_command_banks(m0: Self, m1: Self, m2: Self, a0: u16, a1: u16, c: u8, v: u8, a: u16)
        requires
            0x8000 <= a0 <= 0x9FFF,
            0xA000 <= a1 <= 0xBFFF,
            m0.cpu_write_post(&m1, a0, c),
            m1.cpu_write_post(&m2, a1, v),
        ensures
            ({
                let k = c & 0x0F;
                &&& k <= 7 && (a & 0x1FFF) / 0x0400 == (k & 0x07) ==> m2.ppu_read_value(a)
                    == m0.chr@[banked_index_spec(m0.chr@.len(), v as nat, 0x0400, (a & 0x03FF) as nat)
                    as int]
                &&& 9 <= k <= 11 && 0x8000 <= a <= 0xDFFF && (a - 0x8000) / 0x2000 == k - 9
                    ==> m2.cpu_read_value(a) == banked_read_spec(
                    m0.prg_rom@,
                    (v & 0x3F) as nat,
                    0x2000,
                    ((a - 0x8000) % 0x2000) as nat,
                )
                &&& 0xE000 <= a ==> m2.cpu_read_value(a) == m0.cpu_read_value(a)
            }),
    {
        lemma_and_u8(c, 0x0F);
        lemma_and_u8(c & 0x0F, 0x07);
        assert(m1.command == (c & 0x0F));
        assert(m1.chr_banks@.len() == 8 && m1.prg_banks@.len() == 3);
    }

    pub proof fn law_prg_ram_roundtrip(m0: Self, m1: Self, addr: u16, value: u8)
        requires
            m0.wf(),
            0x6000 <= addr <= 0x7FFF,
            m0.map_6000_to_ram && m0.ram_enable,
            m0.cpu_write_post(&m1, addr, value),
        ensures
            m1.cpu_read_value(addr) == value,
    {
    }
}

impl Mapper for Mapper69 {
    open spec fn chr_read_post(&self, post: &Self, addr: u16, r: u8) -> bool {
        r == self.ppu_read_value(addr) && *post == *self
    }

    open spec fn read_seen_post(&self, post: &Self, addr: u16) -> bool {
        *post == *self
    }

    open spec fn nametable_read_spec(&self, post: &Self, addr: u16, vram: Seq<u8>, r: Option<u8>) -> bool {
        r is None && *post == *self
    }

    open spec fn inv(&self) -> bool {
        self.wf()
    }

    open spec fn suppresses_a12_view(&self) -> bool {
        false
    }

    open spec fn relaxed_sprite0_view(&self) -> bool {
        false
    }

    open spec fn owns_nametables(&self) -> bool {
        false
    }

    open spec fn mirroring_view(&self) -> Mirroring {
        self.mirroring
    }

    fn cpu_read(&mut self, addr: u16) -> (r: u8)
        ensures
            r == old(self).cpu_read_value(addr),
            *final(self) == *old(self),
    {
        if 0x6000 <= addr && addr <= 0x7FFF {
            let offset = (addr as usize) - 0x6000;
            if self.map_6000_to_ram {
                if !self.ram_enable {
                    return 0;
                }
                read_banked(&self.prg_ram, self.prg_bank_6000 as usize, 0x2000, offset)
            } else {
                self.read_prg_8k(self.prg_bank_6000 as usize, offset)
            }
        } else if 0x8000 <= addr && addr <= 0x9FFF {
            self.read_prg_8k(self.prg_banks[0] as usize, addr as usize - 0x8000)
        } else if 0xA000 <= addr && addr <= 0xBFFF {
            self.read_prg_8k(self.prg_banks[1] as usize, addr as usize - 0xA000)
        } else if 0xC000 <= addr && addr <= 0xDFFF {
            self.read_prg_8k(self.prg_banks[2] as usize, addr as usize - 0xC000)
        } else if 0xE000 <= addr {
            let last = self.prg_bank_count_8k().saturating_sub(1);
            self.read_prg_8k(last, addr as usize - 0xE000)
        } else {
            0
        }
    }

    fn cpu_write(&mut self, addr: u16, value: u8)
        ensures
            old(self).cpu_write_post(&*final(self), addr, value),
    {
        if 0x6000 <= addr && addr <= 0x7FFF {
            if self.map_6000_to_ram && self.ram_enable {
                let offset = (addr as usize) - 0x6000;
                write_banked(&mut self.prg_ram, self.prg_bank_6000 as usize, 0x2000, offset, value);
            }
        } else if 0x8000 <= addr && addr <= 0x9FFF {
            self.command = value & 0x0F;
        } else if 0xA000 <= addr && addr <= 0xBFFF {
            self.write_command_param(value);
        }
    }

    fn ppu_read(&mut self, addr: u16) -> (r: u8)
        ensures
            r == old(self).ppu_read_value(addr),
            *final(self) == *old(self),
    {
        let idx = self.map_chr_addr(addr);
        self.chr[idx]
    }

    fn ppu_write(&mut self, addr: u16, value: u8)
        ensures
            old(self).ppu_write_post(&*final(self), addr, value),
    {
        if self.chr_is_ram {
            let idx = self.map_chr_addr(addr);
            self.chr.set(idx, value);
        }
    }

    fn mirroring(&self) -> (r: Mirroring)
        ensures
            r == self.mirroring,
    {
        self.mirroring
    }

    fn tick_cpu_cycle(&mut self)
        ensures
            old(self).tick_cpu_post(&*final(self)),
    {
        if !self.irq_counter_enabled {
            return;
        }
        let previous = self.irq_counter;
        self.irq_counter = self.irq_counter.wrapping_sub(1);
        if previous == 0 && self.irq_enabled {
            self.irq_pending = true;
        }
    }

    fn irq_pending(&self) -> (r: bool)
        ensures
            r == self.irq_pending,
    {
        self.irq_pending
    }

    fn clear_irq(&mut self)
        ensures
            *final(self) == (Mapper69 { irq_pending: false, ..*old(self) }),
    {
        self.irq_pending = false;
    }

    fn suppress_a12_on_sprite_eval_reads(&self) -> (r: bool) {
        false
    }

    fn allow_relaxed_sprite0_hit(&self) -> (r: bool) {
        false
    }

    fn ppu_nametable_read(&mut self, addr: u16, vram: &[u8; 4096]) -> (r: Option<u8>)
        ensures
            r is None,
            *final(self) == *old(self),
    {
        None
    }

    fn notify_ppu_read_addr(&mut self, addr: u16)
        ensures
            *final(self) == *old(self),
    {
    }
}

} // verus!
