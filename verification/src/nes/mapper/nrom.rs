use vstd::prelude::*;

use super::{Mapper, Mirroring};
use super::bank::{
    memory_ok,
    fresh_prg_ram, lemma_ram_roundtrip, lemma_wrapped_roundtrip, new_prg_ram, ram_read_spec,
    ram_write_spec, read_ram, read_wrapped, wrapped_read_spec, wrapped_write_spec, write_ram,
    write_wrapped,
};
use crate::nes::cartridge::Cartridge;

verus! {

/// NROM (mapper 0): 16 or 32 KiB of fixed PRG ROM; a 16 KiB ROM is mirrored.
pub struct Mapper0 {
    pub prg_rom: Vec<u8>,
    pub chr: Vec<u8>,
    pub chr_is_ram: bool,
    pub prg_ram: Vec<u8>,
    pub mirroring: Mirroring,
}

impl Mapper0 {
    pub open spec fn wf(&self) -> bool {
        &&& memory_ok(self.prg_rom@)
        &&& self.prg_rom@.len() % 0x4000 == 0
        &&& memory_ok(self.chr@)
        &&& memory_ok(self.prg_ram@)
    }

    pub open spec fn initialized_from(&self, cart: &Cartridge) -> bool {
        &&& self.prg_rom@ == cart.prg_rom@
        &&& self.chr@ == cart.chr_data@
        &&& self.chr_is_ram == cart.chr_is_ram
        &&& self.prg_ram@ == fresh_prg_ram(cart.prg_ram_size)
        &&& self.mirroring == cart.mirroring
    }

    pub fn new(cart: Cartridge) -> (m: Self)
        requires
            cart.wf(),
            cart.whole_prg_banks(),
        ensures
            m.initialized_from(&cart),
            m.wf(),
    {
        Self {
            prg_rom: cart.prg_rom,
            chr: cart.chr_data,
            chr_is_ram: cart.chr_is_ram,
            prg_ram: new_prg_ram(cart.prg_ram_size),
            mirroring: cart.mirroring,
        }
    }

    /// The byte the CPU reads at `addr`: PRG RAM at $6000-$7FFF, PRG ROM from
    /// $8000 with a 16 KiB ROM mirrored into both halves.
    pub open spec fn cpu_read_value(&self, addr: u16) -> u8 {
        if 0x6000 <= addr <= 0x7FFF {
            ram_read_spec(self.prg_ram@, addr)
        } else if 0x8000 <= addr {
            if self.prg_rom@.len() == 0x4000 {
                self.prg_rom@[(addr - 0x8000) % 0x4000]
            } else {
                self.prg_rom@[addr - 0x8000]
            }
        } else {
            0
        }
    }

    pub open spec fn cpu_write_post(&self, post: &Self, addr: u16, value: u8) -> bool {
        if 0x6000 <= addr <= 0x7FFF {
            &&& post.prg_ram@ == ram_write_spec(self.prg_ram@, addr, value)
            &&& *post == Mapper0 { prg_ram: post.prg_ram, ..*self }
        } else {
            *post == *self
        }
    }

    pub open spec fn ppu_write_post(&self, post: &Self, addr: u16, value: u8) -> bool {
        if self.chr_is_ram {
            &&& post.chr@ == wrapped_write_spec(self.chr@, addr as nat, value)
            &&& *post == Mapper0 { chr: post.chr, ..*self }
        } else {
            *post == *self
        }
    }

    /// A 16 KiB image appears twice, at $8000 and at $C000; a 32 KiB one
    /// fills $8000-$FFFF in order. Writes to $8000-$FFFF change nothing.
    pub proof fn law_prg_layout(m0: Self, m1: Self, addr: u16, value: u8, a: u16)
        requires
            0x8000 <= addr,
            m0.cpu_write_post(&m1, addr, value),
        ensures
            m1 == m0,
            m0.prg_rom@.len() == 0x4000 && 0x8000 <= a < 0xC000 ==> m0.cpu_read_value(a)
                == m0.cpu_read_value((a + 0x4000) as u16) && m0.cpu_read_value(a)
                == m0.prg_rom@[a - 0x8000],
            m0.prg_rom@.len() == 0x8000 && 0x8000 <= a ==> m0.cpu_read_value(a)
                == m0.prg_rom@[a - 0x8000],
    {
    }

    /// A byte written to PRG RAM reads back at the same address.
    pub proof fn law_prg_ram_roundtrip(m0: Self, m1: Self, addr: u16, value: u8)
        requires
            m0.wf(),
            0x6000 <= addr <= 0x7FFF,
            m0.cpu_write_post(&m1, addr, value),
        ensures
            m1.cpu_read_value(addr) == value,
    {
        lemma_ram_roundtrip(m0.prg_ram@, addr, value);
    }

    /// On a board with CHR RAM, a byte the PPU writes reads back.
    pub proof fn law_chr_ram_roundtrip(m0: Self, m1: Self, addr: u16, value: u8)
        requires
            m0.wf(),
            m0.chr_is_ram,
            m0.ppu_write_post(&m1, addr, value),
        ensures
            wrapped_read_spec(m1.chr@, addr as nat) == value,
    {
        lemma_wrapped_roundtrip(m0.chr@, addr as nat, value);
    }
}

impl Mapper for Mapper0 {
    open spec fn chr_read_post(&self, post: &Self, addr: u16, r: u8) -> bool {
        r == wrapped_read_spec(self.chr@, addr as nat) && *post == *self
    }

    open spec fn read_seen_post(&self, post: &Self, addr: u16) -> bool {
        *post == *self
    }

    open spec fn nametable_read_spec(&self, post: &Self, addr: u16, vram: Seq<u8>, r: Option<u8>) -> bool {
        r is None && *post == *self
    }

    open spec fn inv(&self) -> bool {
        self.wf()
    }

    open spec fn suppresses_a12_view(&self) -> bool {
        false
    }

    open spec fn relaxed_sprite0_view(&self) -> bool {
        false
    }

    open spec fn owns_nametables(&self) -> bool {
        false
    }

    open spec fn mirroring_view(&self) -> Mirroring {
        self.mirroring
    }

    fn cpu_read(&mut self, addr: u16) -> (r: u8)
        ensures
            r == old(self).cpu_read_value(addr),
            *final(self) == *old(self),
    {
        if 0x6000 <= addr && addr <= 0x7FFF {
            read_ram(&self.prg_ram, addr)
        } else if 0x8000 <= addr {
            let mut idx = addr as usize - 0x8000;
            if self.prg_rom.len() == 0x4000 {
                idx = idx % 0x4000;
            }
            self.prg_rom[idx]
        } else {
            0
        }
    }

    fn cpu_write(&mut self, addr: u16, value: u8)
        ensures
            old(self).cpu_write_post(&*final(self), addr, value),
    {
        if 0x6000 <= addr && addr <= 0x7FFF {
            write_ram(&mut self.prg_ram, addr, value);
        }
    }

    fn ppu_read(&mut self, addr: u16) -> (r: u8)
        ensures
            r == wrapped_read_spec(old(self).chr@, addr as nat),
            *final(self) == *old(self),
    {
        read_wrapped(&self.chr, addr as usize)
    }

    fn ppu_write(&mut self, addr: u16, value: u8)
        ensures
            old(self).ppu_write_post(&*final(self), addr, value),
    {
        if self.chr_is_ram {
            write_wrapped(&mut self.chr, addr as usize, value);
        }
    }

    fn mirroring(&self) -> (r: Mirroring)
        ensures
            r == self.mirroring,
    {
        self.mirroring
    }

    fn debug_peek_chr(&self, addr: u16) -> (r: u8)
        ensures
            r == wrapped_read_spec(self.chr@, addr as nat),
    {
        read_wrapped(&self.chr, addr as usize)
    }

    fn suppress_a12_on_sprite_eval_reads(&self) -> (r: bool) {
        false
    }

    fn allow_relaxed_sprite0_hit(&self) -> (r: bool) {
        false
    }

    fn ppu_nametable_read(&mut self, addr: u16, vram: &[u8; 4096]) -> (r: Option<u8>)
        ensures
            r is None,
            *final(self) == *old(self),
    {
        None
    }

    fn notify_ppu_read_addr(&mut self, addr: u16)
        ensures
            *final(self) == *old(self),
    {
    }
}

} // verus!
