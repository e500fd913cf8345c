use vstd::prelude::*;

use super::{Mapper, Mirroring};
use super::bank::{
    memory_ok,
    bank_count, bank_count_spec, banked_index_spec, banked_read_spec, lemma_and_u16,
    read_banked, write_banked,
};
use crate::nes::cartridge::Cartridge;

verus! {

/// Mapper 79 (the AVE NINA-03/06 board, listed as Nina-001): a switchable
/// 32 KiB PRG bank and a switchable 8 KiB CHR bank, both set by one register
/// in the expansion area; no PRG RAM.
pub struct Mapper79 {
    pub prg_rom: Vec<u8>,
    pub chr: Vec<u8>,
    pub chr_is_ram: bool,
    pub prg_bank: u8,
    pub chr_bank: u8,
    pub mirroring: Mirroring,
}

/// The addresses the board's register decodes.
pub open spec fn register_addr(addr: u16) -> bool {
    addr & 0xE100 == 0x4100
}

impl Mapper79 {
    pub open spec fn wf(&self) -> bool {
        &&& memory_ok(self.prg_rom@)
        &&& memory_ok(self.chr@)
    }

    pub open spec fn initialized_from(&self, cart: &Cartridge) -> bool {
        &&& self.prg_rom@ == cart.prg_rom@
        &&& self.chr@ == cart.chr_data@
        &&& self.chr_is_ram == cart.chr_is_ram
        &&& self.prg_bank == 0
        &&& self.chr_bank == 0
        &&& self.mirroring == cart.mirroring
    }

    pub fn new(cart: Cartridge) -> (m: Self)
        requires
            cart.wf(),
        ensures
            m.initialized_from(&cart),
            m.wf(),
    {
        Self {
            prg_rom: cart.prg_rom,
            chr: cart.chr_data,
            chr_is_ram: cart.chr_is_ram,
            prg_bank: 0,
            chr_bank: 0,
            mirroring: cart.mirroring,
        }
    }

    pub fn prg_bank_count_32k(&self) -> (r: usize)
        ensures
            r == bank_count_spec(self.prg_rom@.len(), 0x8000),
            r >= 1,
    {
        bank_count(self.prg_rom.len(), 0x8000)
    }

    pub fn chr_bank_count_8k(&self) -> (r: usize)
        ensures
            r == bank_count_spec(self.chr@.len(), 0x2000),
            r >= 1,
    {
        bank_count(self.chr.len(), 0x2000)
    }

    pub open spec fn cpu_read_value(&self, addr: u16) -> u8 {
        if 0x8000 <= addr {
            banked_read_spec(self.prg_rom@, self.prg_bank as nat, 0x8000, (addr & 0x7FFF) as nat)
        } else {
            0
        }
    }

    /// The register answers at $4100-$5FFF where address bit 8 is set (and
    /// bit 13 clear): bits 0-2 pick the CHR bank, bit 3 the PRG bank.
    pub open spec fn cpu_write_post(&self, post: &Self, addr: u16, value: u8) -> bool {
        if register_addr(addr) {
            *post == Mapper79 { chr_bank: value & 0x07, prg_bank: (value >> 3) & 0x01, ..*self }
        } else {
            *post == *self
        }
    }

    /// A write the register decodes ($4100-$5FFF with address bit 8 set and
    /// bit 13 clear) selects with bit 3 the 32 KiB PRG bank and with bits 0-2
    /// the 8 KiB CHR bank; a write elsewhere changes nothing.
    pub proof fn law_bank_switch(m0: Self, m1: Self, addr: u16, value: u8, a: u16)
        requires
            m0.cpu_write_post(&m1, addr, value),
        ensures
            register_addr(addr) && 0x8000 <= a ==> m1.cpu_read_value(a) == banked_read_spec(
                m0.prg_rom@,
                ((value >> 3) & 0x01) as nat,
                0x8000,
                (a & 0x7FFF) as nat,
            ),
            register_addr(addr) ==> m1.ppu_read_value(a) == m0.chr@[banked_index_spec(
                m0.chr@.len(),
                (value & 0x07) as nat,
                0x2000,
                (a & 0x1FFF) as nat,
            ) as int],
            !register_addr(addr) ==> m1 == m0,
    {
    }

    pub open spec fn chr_index(&self, addr: u16) -> nat {
        banked_index_spec(self.chr@.len(), self.chr_bank as nat, 0x2000, (addr & 0x1FFF) as nat)
    }

    pub open spec fn ppu_read_value(&self, addr: u16) -> u8 {
        self.chr@[self.chr_index(addr) as int]
    }

    pub open spec fn ppu_write_post(&self, post: &Self, addr: u16, value: u8) -> bool {
        if self.chr_is_ram {
            &&& post.chr@ == self.chr@.update(self.chr_index(addr) as int, value)
            &&& *post == Mapper79 { chr: post.chr, ..*self }
        } else {
            *post == *self
        }
    }
}

impl Mapper for Mapper79 {
    open spec fn chr_read_post(&self, post: &Self, addr: u16, r: u8) -> bool {
        r == self.ppu_read_value(addr) && *post == *self
    }

    open spec fn read_seen_post(&self, post: &Self, addr: u16) -> bool {
        *post == *self
    }

    open spec fn nametable_read_spec(&self, post: &Self, addr: u16, vram: Seq<u8>, r: Option<u8>) -> bool {
        r is None && *post == *self
    }

    open spec fn inv(&self) -> bool {
        self.wf()
    }

    open spec fn suppresses_a12_view(&self) -> bool {
        false
    }

    open spec fn relaxed_sprite0_view(&self) -> bool {
        false
    }

    open spec fn owns_nametables(&self) -> bool {
        false
    }

    open spec fn mirroring_view(&self) -> Mirroring {
        self.mirroring
    }

    fn cpu_read(&mut self, addr: u16) -> (r: u8)
        ensures
            r == old(self).cpu_read_value(addr),
            *final(self) == *old(self),
    {
        if 0x8000 <= addr {
            proof {
                lemma_and_u16(addr, 0x7FFF);
            }
            read_banked(&self.prg_rom, self.prg_bank as usize, 0x8000, (addr & 0x7FFF) as usize)
        } else {
            0
        }
    }

    fn cpu_write(&mut self, addr: u16, value: u8)
        ensures
            old(self).cpu_write_post(&*final(self), addr, value),
    {
        if (addr & 0xE100) == 0x4100 {
            self.chr_bank = value & 0x07;
            self.prg_bank = (value >> 3) & 0x01;
        }
    }

    fn ppu_read(&mut self, addr: u16) -> (r: u8)
        ensures
            r == old(self).ppu_read_value(addr),
            *final(self) == *old(self),
    {
        proof {
            lemma_and_u16(addr, 0x1FFF);
        }
        read_banked(&self.chr, self.chr_bank as usize, 0x2000, (addr & 0x1FFF) as usize)
    }

    fn ppu_write(&mut self, addr: u16, value: u8)
        ensures
            old(self).ppu_write_post(&*final(self), addr, value),
    {
        if self.chr_is_ram {
            proof {
                lemma_and_u16(addr, 0x1FFF);
            }
            write_banked(&mut self.chr, self.chr_bank as usize, 0x2000, (addr & 0x1FFF) as usize, value);
        }
    }

    fn mirroring(&self) -> (r: Mirroring)
        ensures
            r == self.mirroring,
    {
        self.mirroring
    }

    fn suppress_a12_on_sprite_eval_reads(&self) -> (r: bool) {
        false
    }

    fn allow_relaxed_sprite0_hit(&self) -> (r: bool) {
        false
    }

    fn ppu_nametable_read(&mut self, addr: u16, vram: &[u8; 4096]) -> (r: Option<u8>)
        ensures
            r is None,
            *final(self) == *old(self),
    {
        None
    }

    fn notify_ppu_read_addr(&mut self, addr: u16)
        ensures
            *final(self) == *old(self),
    {
    }
}

} // verus!
