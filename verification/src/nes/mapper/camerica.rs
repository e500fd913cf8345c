use vstd::prelude::*;

use super::{Mapper, Mirroring};
use super::bank::{
    bank_count, bank_count_spec, banked_read_spec, fresh_prg_ram, lemma_ram_roundtrip,
    lemma_wrapped_roundtrip, memory_ok, new_prg_ram, ram_read_spec, ram_write_spec, read_banked,
    read_ram, read_wrapped, wrapped_read_spec, wrapped_write_spec, write_ram, write_wrapped,
};
use crate::nes::cartridge::Cartridge;

verus! {

/// Camerica (mapper 71): a switchable 16 KiB bank at $8000, the last bank at
/// $C000, and always-writable CHR. Submapper 1 (Fire Hawk) has 3-bit banking
/// and one-screen mirroring control at $9000-$9FFF.
pub struct Mapper71 {
    pub prg_rom: Vec<u8>,
    pub chr: Vec<u8>,
    pub prg_ram: Vec<u8>,
    pub bank_select: u8,
    pub bank_mask: u8,
    pub mirroring: Mirroring,
    pub submapper_id: u8,
    pub mirroring_control_supported: bool,
    pub debug_bank_write_count: u64,
    pub debug_mirroring_write_count: u64,
    pub debug_last_bank_write_addr: u16,
    pub debug_last_bank_value: u8,
    pub debug_last_mirroring_value: u8,
}

/// CHR as mapper 71 holds it: the cartridge's CHR, zero-padded to 8 KiB.
pub open spec fn padded_chr(chr: Seq<u8>) -> Seq<u8> {
    if chr.len() < 0x2000 {
        chr + Seq::new((0x2000 - chr.len()) as nat, |i: int| 0u8)
    } else {
        chr
    }
}

impl Mapper71 {
    pub open spec fn wf(&self) -> bool {
        &&& memory_ok(self.prg_rom@)
        &&& memory_ok(self.chr@)
        &&& memory_ok(self.prg_ram@)
    }

    pub open spec fn initialized_from(&self, cart: &Cartridge) -> bool {
        &&& self.prg_rom@ == cart.prg_rom@
        &&& self.chr@ == padded_chr(cart.chr_data@)
        &&& self.prg_ram@ == fresh_prg_ram(cart.prg_ram_size)
        &&& self.bank_select == 0
        &&& self.bank_mask == (if cart.submapper_id == 1 { 0x07u8 } else { 0x0Fu8 })
        &&& self.mirroring == cart.mirroring
        &&& self.submapper_id == cart.submapper_id
        &&& self.mirroring_control_supported == (cart.submapper_id == 1)
        &&& self.debug_bank_write_count == 0
        &&& self.debug_mirroring_write_count == 0
        &&& self.debug_last_bank_write_addr == 0
        &&& self.debug_last_bank_value == 0
        &&& self.debug_last_mirroring_value == 0
    }

    /// The board uses CHR RAM in hardware, so CHR shorter than 8 KiB is padded
    /// and writes are honoured even when the image announces CHR ROM.
    pub fn new(cart: Cartridge) -> (m: Self)
        requires
            cart.wf(),
        ensures
            m.initialized_from(&cart),
            m.wf(),
    {
        let mut chr = cart.chr_data;
        let ghost old_chr = chr@;
        if chr.len() < 0x2000 {
            let mut i = chr.len();
            while i < 0x2000
                invariant
                    old_chr.len() <= i <= 0x2000,
                    chr@ == old_chr + Seq::new((i - old_chr.len()) as nat, |j: int| 0u8),
                decreases 0x2000 - i,
            {
                chr.push(0);
                i = i + 1;
                assert(chr@ =~= old_chr + Seq::new((i - old_chr.len()) as nat, |j: int| 0u8));
            }
        }
        let bank_mask: u8 = if cart.submapper_id == 1 {
            0x07
        } else {
            0x0F
        };
        Self {
            prg_rom: cart.prg_rom,
            chr,
            prg_ram: new_prg_ram(cart.prg_ram_size),
            bank_select: 0,
            bank_mask,
            mirroring: cart.mirroring,
            submapper_id: cart.submapper_id,
            mirroring_control_supported: cart.submapper_id == 1,
            debug_bank_write_count: 0,
            debug_mirroring_write_count: 0,
            debug_last_bank_write_addr: 0,
            debug_last_bank_value: 0,
            debug_last_mirroring_value: 0,
        }
    }

    pub open spec fn prg_bank_count_spec(&self) -> nat {
        bank_count_spec(self.prg_rom@.len(), 0x4000)
    }

    pub fn prg_bank_count_16k(&self) -> (r: usize)
        ensures
            r == self.prg_bank_count_spec(),
            r >= 1,
    {
        bank_count(self.prg_rom.len(), 0x4000)
    }

    fn read_prg_16k(&self, bank: usize, offset: usize) -> (r: u8)
        requires
            self.wf(),
            offset < 0x4000,
        ensures
            r == banked_read_spec(self.prg_rom@, bank as nat, 0x4000, offset as nat),
    {
        read_banked(&self.prg_rom, bank, 0x4000, offset)
    }

    pub open spec fn cpu_read_value(&self, addr: u16) -> u8 {
        if 0x6000 <= addr <= 0x7FFF {
            ram_read_spec(self.prg_ram@, addr)
        } else if 0x8000 <= addr <= 0xBFFF {
            banked_read_spec(self.prg_rom@, self.bank_select as nat, 0x4000, (addr - 0x8000) as nat)
        } else if 0xC000 <= addr {
            banked_read_spec(
                self.prg_rom@,
                (self.prg_bank_count_spec() - 1) as nat,
                0x4000,
                (addr - 0xC000) as nat,
            )
        } else {
            0
        }
    }

    /// $9000-$9FFF sets one-screen mirroring where the submapper has that
    /// control; $C000-$FFFF selects the bank through the bank mask.
    pub open spec fn cpu_write_post(&self, post: &Self, addr: u16, value: u8) -> bool {
        if 0x6000 <= addr <= 0x7FFF {
            &&& post.prg_ram@ == ram_write_spec(self.prg_ram@, addr, value)
            &&& *post == Mapper71 { prg_ram: post.prg_ram, ..*self }
        } else if 0x9000 <= addr <= 0x9FFF && self.mirroring_control_supported {
            *post == Mapper71 {
                mirroring: if (value & 0x10) != 0 {
                    Mirroring::OneScreenUpper
                } else {
                    Mirroring::OneScreenLower
                },
                debug_mirroring_write_count: self.debug_mirroring_write_count.wrapping_add(1),
                debug_last_mirroring_value: value,
                ..*self
            }
        } else if 0xC000 <= addr {
            *post == Mapper71 {
                bank_select: value & self.bank_mask,
                debug_bank_write_count: self.debug_bank_write_count.wrapping_add(1),
                debug_last_bank_write_addr: addr,
                debug_last_bank_value: value,
                ..*self
            }
        } else {
            *post == *self
        }
    }

    pub open spec fn ppu_write_post(&self, post: &Self, addr: u16, value: u8) -> bool {
        &&& post.chr@ == wrapped_write_spec(self.chr@, addr as nat, value)
        &&& *post == Mapper71 { chr: post.chr, ..*self }
    }

    /// A write to $C000-$FFFF selects, through the bank mask, the 16 KiB bank
    /// that $8000-$BFFF then shows; $C000-$FFFF keeps showing the last bank.
    pub proof fn law_bank_switch(m0: Self, m1: Self, addr: u16, value: u8, a: u16)
        requires
            0xC000 <= addr,
            m0.cpu_write_post(&m1, addr, value),
        ensures
            0x8000 <= a <= 0xBFFF ==> m1.cpu_read_value(a) == banked_read_spec(
                m0.prg_rom@,
                (value & m0.bank_mask) as nat,
                0x4000,
                (a - 0x8000) as nat,
            ),
            0xC000 <= a ==> m1.cpu_read_value(a) == m0.cpu_read_value(a) && m0.cpu_read_value(a)
                == banked_read_spec(
                m0.prg_rom@,
                (bank_count_spec(m0.prg_rom@.len(), 0x4000) - 1) as nat,
                0x4000,
                (a - 0xC000) as nat,
            ),
    {
    }

    /// A byte written to PRG RAM reads back at the same address.
    pub proof fn law_prg_ram_roundtrip(m0: Self, m1: Self, addr: u16, value: u8)
        requires
            m0.wf(),
            0x6000 <= addr <= 0x7FFF,
            m0.cpu_write_post(&m1, addr, value),
        ensures
            m1.cpu_read_value(addr) == value,
    {
        lemma_ram_roundtrip(m0.prg_ram@, addr, value);
    }

    /// CHR is always writable: a byte the PPU writes reads back.
    pub proof fn law_chr_roundtrip(m0: Self, m1: Self, addr: u16, value: u8)
        requires
            m0.wf(),
            m0.ppu_write_post(&m1, addr, value),
        ensures
            wrapped_read_spec(m1.chr@, addr as nat) == value,
    {
        lemma_wrapped_roundtrip(m0.chr@, addr as nat, value);
    }
}

impl Mapper for Mapper71 {
    open spec fn chr_read_post(&self, post: &Self, addr: u16, r: u8) -> bool {
        r == wrapped_read_spec(self.chr@, addr as nat) && *post == *self
    }

    open spec fn read_seen_post(&self, post: &Self, addr: u16) -> bool {
        *post == *self
    }

    open spec fn nametable_read_spec(&self, post: &Self, addr: u16, vram: Seq<u8>, r: Option<u8>) -> bool {
        r is None && *post == *self
    }

    open spec fn inv(&self) -> bool {
        self.wf()
    }

    open spec fn suppresses_a12_view(&self) -> bool {
        false
    }

    open spec fn relaxed_sprite0_view(&self) -> bool {
        true
    }

    open spec fn owns_nametables(&self) -> bool {
        false
    }

    open spec fn mirroring_view(&self) -> Mirroring {
        self.mirroring
    }

    fn cpu_read(&mut self, addr: u16) -> (r: u8)
        ensures
            r == old(self).cpu_read_value(addr),
            *final(self) == *old(self),
    {
        if 0x6000 <= addr && addr <= 0x7FFF {
            read_ram(&self.prg_ram, addr)
        } else if 0x8000 <= addr && addr <= 0xBFFF {
            self.read_prg_16k(self.bank_select as usize, addr as usize - 0x8000)
        } else if 0xC000 <= addr {
            let last = self.prg_bank_count_16k() - 1;
            self.read_prg_16k(last, addr as usize - 0xC000)
        } else {
            0
        }
    }

    fn cpu_write(&mut self, addr: u16, value: u8)
        ensures
            old(self).cpu_write_post(&*final(self), addr, value),
    {
        if 0x6000 <= addr && addr <= 0x7FFF {
            write_ram(&mut self.prg_ram, addr, value);
        } else if 0x9000 <= addr && addr <= 0x9FFF {
            if self.mirroring_control_supported {
                self.mirroring = if (value & 0x10) != 0 {
                    Mirroring::OneScreenUpper
                } else {
                    Mirroring::OneScreenLower
                };
                self.debug_mirroring_write_count = self.debug_mirroring_write_count.wrapping_add(1);
                self.debug_last_mirroring_value = value;
            }
        } else if 0xC000 <= addr {
            self.bank_select = value & self.bank_mask;
            self.debug_bank_write_count = self.debug_bank_write_count.wrapping_add(1);
            self.debug_last_bank_write_addr = addr;
            self.debug_last_bank_value = value;
        }
    }

    fn ppu_read(&mut self, addr: u16) -> (r: u8)
        ensures
            r == wrapped_read_spec(old(self).chr@, addr as nat),
            *final(self) == *old(self),
    {
        read_wrapped(&self.chr, addr as usize)
    }

    fn ppu_write(&mut self, addr: u16, value: u8)
        ensures
            old(self).ppu_write_post(&*final(self), addr, value),
    {
        write_wrapped(&mut self.chr, addr as usize, value);
    }

    fn mirroring(&self) -> (r: Mirroring)
        ensures
            r == self.mirroring,
    {
        self.mirroring
    }

    fn debug_peek_chr(&self, addr: u16) -> (r: u8)
        ensures
            r == wrapped_read_spec(self.chr@, addr as nat),
    {
        read_wrapped(&self.chr, addr as usize)
    }

    fn allow_relaxed_sprite0_hit(&self) -> (r: bool)
        ensures
            r,
    {
        true
    }

    fn suppress_a12_on_sprite_eval_reads(&self) -> (r: bool) {
        false
    }

    fn ppu_nametable_read(&mut self, addr: u16, vram: &[u8; 4096]) -> (r: Option<u8>)
        ensures
            r is None,
            *final(self) == *old(self),
    {
        None
    }

    fn notify_ppu_read_addr(&mut self, addr: u16)
        ensures
            *final(self) == *old(self),
    {
    }
}

} // verus!
