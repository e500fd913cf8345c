use vstd::prelude::*;

use super::{Mapper, Mirroring};
use super::bank::{
    memory_ok,
    bank_count, bank_count_spec, banked_index_spec, banked_read_spec, fresh_prg_ram, lemma_and_u16,
    lemma_ram_roundtrip, new_prg_ram, ram_read_spec, ram_write_spec, read_banked, read_ram,
    read_wrapped, wrapped_read_spec, wrapped_write_spec, write_ram, write_wrapped,
};
use crate::nes::cartridge::Cartridge;

verus! {

/// AxROM (mapper 7): one switchable 32 KiB PRG bank and one-screen mirroring
/// chosen by the same register.
pub struct Mapper7 {
    pub prg_rom: Vec<u8>,
    pub chr: Vec<u8>,
    pub chr_is_ram: bool,
    pub prg_ram: Vec<u8>,
    pub prg_bank_select: u8,
    pub mirroring: Mirroring,
}

impl Mapper7 {
    pub open spec fn wf(&self) -> bool {
        &&& memory_ok(self.prg_rom@)
        &&& memory_ok(self.chr@)
        &&& memory_ok(self.prg_ram@)
    }

    pub open spec fn initialized_from(&self, cart: &Cartridge) -> bool {
        &&& self.prg_rom@ == cart.prg_rom@
        &&& self.chr@ == cart.chr_data@
        &&& self.chr_is_ram == cart.chr_is_ram
        &&& self.prg_ram@ == fresh_prg_ram(cart.prg_ram_size)
        &&& self.prg_bank_select == 0
        &&& self.mirroring == cart.mirroring
    }

    pub fn new(cart: Cartridge) -> (m: Self)
        requires
            cart.wf(),
        ensures
            m.initialized_from(&cart),
            m.wf(),
    {
        Self {
            prg_rom: cart.prg_rom,
            chr: cart.chr_data,
            chr_is_ram: cart.chr_is_ram,
            prg_ram: new_prg_ram(cart.prg_ram_size),
            prg_bank_select: 0,
            mirroring: cart.mirroring,
        }
    }

    pub fn prg_bank_count_32k(&self) -> (r: usize)
        ensures
            r == bank_count_spec(self.prg_rom@.len(), 0x8000),
            r >= 1,
    {
        bank_count(self.prg_rom.len(), 0x8000)
    }

    pub open spec fn cpu_read_value(&self, addr: u16) -> u8 {
        if 0x6000 <= addr <= 0x7FFF {
            ram_read_spec(self.prg_ram@, addr)
        } else if 0x8000 <= addr {
            banked_read_spec(self.prg_rom@, self.prg_bank_select as nat, 0x8000, (addr & 0x7FFF) as nat)
        } else {
            0
        }
    }

    /// $8000-$FFFF: bits 0-3 pick the 32 KiB bank, bit 4 the upper or lower screen.
    pub open spec fn cpu_write_post(&self, post: &Self, addr: u16, value: u8) -> bool {
        if 0x6000 <= addr <= 0x7FFF {
            &&& post.prg_ram@ == ram_write_spec(self.prg_ram@, addr, value)
            &&& *post == Mapper7 { prg_ram: post.prg_ram, ..*self }
        } else if 0x8000 <= addr {
            *post == Mapper7 {
                prg_bank_select: value & 0x0F,
                mirroring: if (value & 0x10) != 0 {
                    Mirroring::OneScreenUpper
                } else {
                    Mirroring::OneScreenLower
                },
                ..*self
            }
        } else {
            *post == *self
        }
    }

    pub open spec fn ppu_write_post(&self, post: &Self, addr: u16, value: u8) -> bool {
        if self.chr_is_ram {
            &&& post.chr@ == wrapped_write_spec(self.chr@, addr as nat, value)
            &&& *post == Mapper7 { chr: post.chr, ..*self }
        } else {
            *post == *self
        }
    }

    /// A write to $8000-$FFFF selects, by its low four bits, the 32 KiB bank
    /// that $8000-$FFFF then shows (wrapping at the number of banks and at
    /// PRG's length), and by bit 4 the upper or lower single screen.
    pub proof fn law_bank_switch(m0: Self, m1: Self, addr: u16, value: u8, a: u16)
        requires
            0x8000 <= addr,
            m0.cpu_write_post(&m1, addr, value),
        ensures
            ({
                let c = bank_count_spec(m0.prg_rom@.len(), 0x8000) as int;
                &&& 0x8000 <= a ==> m1.cpu_read_value(a) == m0.prg_rom@[(((value & 0x0F) as int
                    % c) * 0x8000 + (a & 0x7FFF) as int) % (m0.prg_rom@.len() as int)]
                &&& m1.mirroring == if (value & 0x10) != 0 {
                    Mirroring::OneScreenUpper
                } else {
                    Mirroring::OneScreenLower
                }
            }),
    {
    }

    /// A byte written to PRG RAM reads back at the same address.
    pub proof fn law_prg_ram_roundtrip(m0: Self, m1: Self, addr: u16, value: u8)
        requires
            m0.wf(),
            0x6000 <= addr <= 0x7FFF,
            m0.cpu_write_post(&m1, addr, value),
        ensures
            m1.cpu_read_value(addr) == value,
    {
        lemma_ram_roundtrip(m0.prg_ram@, addr, value);
    }
}

impl Mapper for Mapper7 {
    open spec fn chr_read_post(&self, post: &Self, addr: u16, r: u8) -> bool {
        r == wrapped_read_spec(self.chr@, addr as nat) && *post == *self
    }

    open spec fn read_seen_post(&self, post: &Self, addr: u16) -> bool {
        *post == *self
    }

    open spec fn nametable_read_spec(&self, post: &Self, addr: u16, vram: Seq<u8>, r: Option<u8>) -> bool {
        r is None && *post == *self
    }

    open spec fn inv(&self) -> bool {
        self.wf()
    }

    open spec fn suppresses_a12_view(&self) -> bool {
        false
    }

    open spec fn relaxed_sprite0_view(&self) -> bool {
        false
    }

    open spec fn owns_nametables(&self) -> bool {
        false
    }

    open spec fn mirroring_view(&self) -> Mirroring {
        self.mirroring
    }

    fn cpu_read(&mut self, addr: u16) -> (r: u8)
        ensures
            r == old(self).cpu_read_value(addr),
            *final(self) == *old(self),
    {
        if 0x6000 <= addr && addr <= 0x7FFF {
            read_ram(&self.prg_ram, addr)
        } else if 0x8000 <= addr {
            proof {
                lemma_and_u16(addr, 0x7FFF);
            }
            read_banked(&self.prg_rom, self.prg_bank_select as usize, 0x8000, (addr & 0x7FFF) as usize)
        } else {
            0
        }
    }

    fn cpu_write(&mut self, addr: u16, value: u8)
        ensures
            old(self).cpu_write_post(&*final(self), addr, value),
    {
        if 0x6000 <= addr && addr <= 0x7FFF {
            write_ram(&mut self.prg_ram, addr, value);
        } else if 0x8000 <= addr {
            self.prg_bank_select = value & 0x0F;
            self.mirroring = if (value & 0x10) != 0 {
                Mirroring::OneScreenUpper
            } else {
                Mirroring::OneScreenLower
            };
        }
    }

    fn ppu_read(&mut self, addr: u16) -> (r: u8)
        ensures
            r == wrapped_read_spec(old(self).chr@, addr as nat),
            *final(self) == *old(self),
    {
        read_wrapped(&self.chr, addr as usize)
    }

    fn ppu_write(&mut self, addr: u16, value: u8)
        ensures
            old(self).ppu_write_post(&*final(self), addr, value),
    {
        if self.chr_is_ram {
            write_wrapped(&mut self.chr, addr as usize, value);
        }
    }

    fn mirroring(&self) -> (r: Mirroring)
        ensures
            r == self.mirroring,
    {
        self.mirroring
    }

    fn debug_peek_chr(&self, addr: u16) -> (r: u8)
        ensures
            r == wrapped_read_spec(self.chr@, addr as nat),
    {
        read_wrapped(&self.chr, addr as usize)
    }

    fn suppress_a12_on_sprite_eval_reads(&self) -> (r: bool) {
        false
    }

    fn allow_relaxed_sprite0_hit(&self) -> (r: bool) {
        false
    }

    fn ppu_nametable_read(&mut self, addr: u16, vram: &[u8; 4096]) -> (r: Option<u8>)
        ensures
            r is None,
            *final(self) == *old(self),
    {
        None
    }

    fn notify_ppu_read_addr(&mut self, addr: u16)
        ensures
            *final(self) == *old(self),
    {
    }
}

} // verus!
