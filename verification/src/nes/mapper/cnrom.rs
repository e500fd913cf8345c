use vstd::prelude::*;

use super::{Mapper, Mirroring};
use super::bank::{
    memory_ok,
    bank_count_spec, banked_index_spec, banked_read_spec, fresh_prg_ram, lemma_and_u16, lemma_ram_roundtrip,
    new_prg_ram, ram_read_spec, ram_write_spec, read_banked, read_ram, write_banked, write_ram,
};
use crate::nes::cartridge::Cartridge;

verus! {

/// CNROM (mapper 3): fixed PRG ROM and a switchable 8 KiB CHR bank.
pub struct Mapper3 {
    pub prg_rom: Vec<u8>,
    pub chr: Vec<u8>,
    pub chr_is_ram: bool,
    pub prg_ram: Vec<u8>,
    pub chr_bank_select: u8,
    pub mirroring: Mirroring,
}

impl Mapper3 {
    pub open spec fn wf(&self) -> bool {
        &&& memory_ok(self.prg_rom@)
        &&& self.prg_rom@.len() % 0x4000 == 0
        &&& memory_ok(self.chr@)
        &&& memory_ok(self.prg_ram@)
    }

    pub open spec fn initialized_from(&self, cart: &Cartridge) -> bool {
        &&& self.prg_rom@ == cart.prg_rom@
        &&& self.chr@ == cart.chr_data@
        &&& self.chr_is_ram == cart.chr_is_ram
        &&& self.prg_ram@ == fresh_prg_ram(cart.prg_ram_size)
        &&& self.chr_bank_select == 0
        &&& self.mirroring == cart.mirroring
    }

    pub fn new(cart: Cartridge) -> (m: Self)
        requires
            cart.wf(),
            cart.whole_prg_banks(),
        ensures
            m.initialized_from(&cart),
            m.wf(),
    {
        Self {
            prg_rom: cart.prg_rom,
            chr: cart.chr_data,
            chr_is_ram: cart.chr_is_ram,
            prg_ram: new_prg_ram(cart.prg_ram_size),
            chr_bank_select: 0,
            mirroring: cart.mirroring,
        }
    }

    /// PRG ROM from $8000, a 16 KiB ROM mirrored into both halves.
    pub open spec fn prg_read_value(&self, addr: u16) -> u8 {
        if self.prg_rom@.len() == 0x4000 {
            self.prg_rom@[(addr - 0x8000) % 0x4000]
        } else {
            self.prg_rom@[addr - 0x8000]
        }
    }

    fn prg_read(&self, addr: u16) -> (r: u8)
        requires
            self.wf(),
            0x8000 <= addr,
        ensures
            r == self.prg_read_value(addr),
    {
        let mut idx = addr as usize - 0x8000;
        if self.prg_rom.len() == 0x4000 {
            idx = idx % 0x4000;
        }
        self.prg_rom[idx]
    }

    pub open spec fn cpu_read_value(&self, addr: u16) -> u8 {
        if 0x6000 <= addr <= 0x7FFF {
            ram_read_spec(self.prg_ram@, addr)
        } else if 0x8000 <= addr {
            self.prg_read_value(addr)
        } else {
            0
        }
    }

    pub open spec fn cpu_write_post(&self, post: &Self, addr: u16, value: u8) -> bool {
        if 0x6000 <= addr <= 0x7FFF {
            &&& post.prg_ram@ == ram_write_spec(self.prg_ram@, addr, value)
            &&& *post == Mapper3 { prg_ram: post.prg_ram, ..*self }
        } else if 0x8000 <= addr {
            *post == Mapper3 { chr_bank_select: value, ..*self }
        } else {
            *post == *self
        }
    }

    /// Index in CHR of a pattern address: the selected 8 KiB bank.
    pub open spec fn chr_index(&self, addr: u16) -> nat {
        banked_index_spec(self.chr@.len(), self.chr_bank_select as nat, 0x2000, (addr & 0x1FFF) as nat)
    }

    pub open spec fn ppu_read_value(&self, addr: u16) -> u8 {
        self.chr@[self.chr_index(addr) as int]
    }

    pub open spec fn ppu_write_post(&self, post: &Self, addr: u16, value: u8) -> bool {
        if self.chr_is_ram {
            &&& post.chr@ == self.chr@.update(self.chr_index(addr) as int, value)
            &&& *post == Mapper3 { chr: post.chr, ..*self }
        } else {
            *post == *self
        }
    }

    /// A write to $8000-$FFFF selects the 8 KiB CHR bank the pattern tables
    /// then show (wrapping at the number of banks and at CHR's length); PRG
    /// reads do not change.
    pub proof fn law_chr_bank_switch(m0: Self, m1: Self, addr: u16, value: u8, a: u16)
        requires
            0x8000 <= addr,
            m0.cpu_write_post(&m1, addr, value),
        ensures
            ({
                let c = bank_count_spec(m0.chr@.len(), 0x2000) as int;
                &&& m1.ppu_read_value(a) == m0.chr@[((value as int % c) * 0x2000 + (a & 0x1FFF)
                    as int) % (m0.chr@.len() as int)]
                &&& 0x8000 <= a ==> m1.cpu_read_value(a) == m0.cpu_read_value(a)
            }),
    {
    }

    /// A byte written to PRG RAM reads back at the same address.
    pub proof fn law_prg_ram_roundtrip(m0: Self, m1: Self, addr: u16, value: u8)
        requires
            m0.wf(),
            0x6000 <= addr <= 0x7FFF,
            m0.cpu_write_post(&m1, addr, value),
        ensures
            m1.cpu_read_value(addr) == value,
    {
        lemma_ram_roundtrip(m0.prg_ram@, addr, value);
    }

    /// On a board with CHR RAM, a byte the PPU writes reads back in the same bank.
    pub proof fn law_chr_ram_roundtrip(m0: Self, m1: Self, addr: u16, value: u8)
        requires
            m0.wf(),
            m0.chr_is_ram,
            m0.ppu_write_post(&m1, addr, value),
        ensures
            m1.ppu_read_value(addr) == value,
    {
    }
}

impl Mapper for Mapper3 {
    open spec fn chr_read_post(&self, post: &Self, addr: u16, r: u8) -> bool {
        r == self.ppu_read_value(addr) && *post == *self
    }

    open spec fn read_seen_post(&self, post: &Self, addr: u16) -> bool {
        *post == *self
    }

    open spec fn nametable_read_spec(&self, post: &Self, addr: u16, vram: Seq<u8>, r: Option<u8>) -> bool {
        r is None && *post == *self
    }

    open spec fn inv(&self) -> bool {
        self.wf()
    }

    open spec fn suppresses_a12_view(&self) -> bool {
        false
    }

    open spec fn relaxed_sprite0_view(&self) -> bool {
        false
    }

    open spec fn owns_nametables(&self) -> bool {
        false
    }

    open spec fn mirroring_view(&self) -> Mirroring {
        self.mirroring
    }

    fn cpu_read(&mut self, addr: u16) -> (r: u8)
        ensures
            r == old(self).cpu_read_value(addr),
            *final(self) == *old(self),
    {
        if 0x6000 <= addr && addr <= 0x7FFF {
            read_ram(&self.prg_ram, addr)
        } else if 0x8000 <= addr {
            self.prg_read(addr)
        } else {
            0
        }
    }

    fn cpu_write(&mut self, addr: u16, value: u8)
        ensures
            old(self).cpu_write_post(&*final(self), addr, value),
    {
        if 0x6000 <= addr && addr <= 0x7FFF {
            write_ram(&mut self.prg_ram, addr, value);
        } else if 0x8000 <= addr {
            self.chr_bank_select = value;
        }
    }

    fn ppu_read(&mut self, addr: u16) -> (r: u8)
        ensures
            r == old(self).ppu_read_value(addr),
            *final(self) == *old(self),
    {
        proof {
            lemma_and_u16(addr, 0x1FFF);
        }
        read_banked(&self.chr, self.chr_bank_select as usize, 0x2000, (addr & 0x1FFF) as usize)
    }

    fn ppu_write(&mut self, addr: u16, value: u8)
        ensures
            old(self).ppu_write_post(&*final(self), addr, value),
    {
        if self.chr_is_ram {
            proof {
                lemma_and_u16(addr, 0x1FFF);
            }
            write_banked(
                &mut self.chr,
                self.chr_bank_select as usize,
                0x2000,
                (addr & 0x1FFF) as usize,
                value,
            );
        }
    }

    fn mirroring(&self) -> (r: Mirroring)
        ensures
            r == self.mirroring,
    {
        self.mirroring
    }

    fn suppress_a12_on_sprite_eval_reads(&self) -> (r: bool) {
        false
    }

    fn allow_relaxed_sprite0_hit(&self) -> (r: bool) {
        false
    }

    fn ppu_nametable_read(&mut self, addr: u16, vram: &[u8; 4096]) -> (r: Option<u8>)
        ensures
            r is None,
            *final(self) == *old(self),
    {
        None
    }

    fn notify_ppu_read_addr(&mut self, addr: u16)
        ensures
            *final(self) == *old(self),
    {
    }
}

} // verus!
