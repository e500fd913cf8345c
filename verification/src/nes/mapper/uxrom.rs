use vstd::prelude::*;

use super::{Mapper, Mirroring};
use super::bank::{
    memory_ok,
    bank_count, bank_count_spec, fresh_prg_ram, lemma_ram_roundtrip, lemma_whole_banks,
    new_prg_ram, ram_read_spec, ram_write_spec, read_ram, read_wrapped, wrapped_read_spec,
    wrapped_write_spec, write_ram, write_wrapped,
};
use crate::nes::cartridge::Cartridge;

verus! {

/// UxROM (mapper 2): a switchable 16 KiB bank at $8000 and the last bank fixed
/// at $C000.
pub struct Mapper2 {
    pub prg_rom: Vec<u8>,
    pub chr: Vec<u8>,
    pub chr_is_ram: bool,
    pub prg_ram: Vec<u8>,
    pub bank_select: u8,
    pub mirroring: Mirroring,
}

impl Mapper2 {
    pub open spec fn wf(&self) -> bool {
        &&& memory_ok(self.prg_rom@)
        &&& self.prg_rom@.len() % 0x4000 == 0
        &&& memory_ok(self.chr@)
        &&& memory_ok(self.prg_ram@)
    }

    pub open spec fn initialized_from(&self, cart: &Cartridge) -> bool {
        &&& self.prg_rom@ == cart.prg_rom@
        &&& self.chr@ == cart.chr_data@
        &&& self.chr_is_ram == cart.chr_is_ram
        &&& self.prg_ram@ == fresh_prg_ram(cart.prg_ram_size)
        &&& self.bank_select == 0
        &&& self.mirroring == cart.mirroring
    }

    pub fn new(cart: Cartridge) -> (m: Self)
        requires
            cart.wf(),
            cart.whole_prg_banks(),
        ensures
            m.initialized_from(&cart),
            m.wf(),
    {
        Self {
            prg_rom: cart.prg_rom,
            chr: cart.chr_data,
            chr_is_ram: cart.chr_is_ram,
            prg_ram: new_prg_ram(cart.prg_ram_size),
            bank_select: 0,
            mirroring: cart.mirroring,
        }
    }

    pub open spec fn prg_banks_spec(&self) -> nat {
        bank_count_spec(self.prg_rom@.len(), 0x4000)
    }

    fn prg_banks(&self) -> (r: usize)
        ensures
            r == self.prg_banks_spec(),
            r >= 1,
    {
        bank_count(self.prg_rom.len(), 0x4000)
    }

    /// Byte `offset` of 16 KiB bank `bank`, the bank taken modulo the bank count.
    pub open spec fn prg_byte(&self, bank: nat, offset: nat) -> u8 {
        self.prg_rom@[((bank % self.prg_banks_spec()) * 0x4000 + offset) as int]
    }

    fn read_prg(&self, bank: usize, offset: usize) -> (r: u8)
        requires
            self.wf(),
            offset < 0x4000,
        ensures
            r == self.prg_byte(bank as nat, offset as nat),
    {
        let len = self.prg_rom.len();
        let count = self.prg_banks();
        let bank = bank % count;
        proof {
            lemma_whole_banks(self.prg_rom@.len(), 0x4000, bank as nat, offset as nat);
        }
        let idx = bank * 0x4000 + offset;
        self.prg_rom[idx]
    }

    /// The byte the CPU reads at `addr`.
    pub open spec fn cpu_read_value(&self, addr: u16) -> u8 {
        if 0x6000 <= addr <= 0x7FFF {
            ram_read_spec(self.prg_ram@, addr)
        } else if 0x8000 <= addr <= 0xBFFF {
            self.prg_byte(self.bank_select as nat, (addr - 0x8000) as nat)
        } else if 0xC000 <= addr {
            self.prg_byte((self.prg_banks_spec() - 1) as nat, (addr - 0xC000) as nat)
        } else {
            0
        }
    }

    /// A CPU write: PRG RAM at $6000-$7FFF, the bank register at $8000-$FFFF.
    pub open spec fn cpu_write_post(&self, post: &Self, addr: u16, value: u8) -> bool {
        if 0x6000 <= addr <= 0x7FFF {
            &&& post.prg_ram@ == ram_write_spec(self.prg_ram@, addr, value)
            &&& *post == Mapper2 { prg_ram: post.prg_ram, ..*self }
        } else if 0x8000 <= addr {
            *post == Mapper2 { bank_select: value & 0x0F, ..*self }
        } else {
            *post == *self
        }
    }

    /// A PPU write lands in CHR only when CHR is RAM.
    pub open spec fn ppu_write_post(&self, post: &Self, addr: u16, value: u8) -> bool {
        if self.chr_is_ram {
            &&& post.chr@ == wrapped_write_spec(self.chr@, addr as nat, value)
            &&& *post == Mapper2 { chr: post.chr, ..*self }
        } else {
            *post == *self
        }
    }

    /// A write to $8000-$FFFF selects, by its low four bits, the 16 KiB bank
    /// that $8000-$BFFF then shows (wrapping at the number of banks);
    /// $C000-$FFFF keeps showing the last bank, whatever was written.
    pub proof fn law_bank_switch(m0: Self, m1: Self, addr: u16, value: u8, a: u16)
        requires
            0x8000 <= addr,
            m0.cpu_write_post(&m1, addr, value),
        ensures
            ({
                let c = bank_count_spec(m0.prg_rom@.len(), 0x4000) as int;
                &&& 0x8000 <= a <= 0xBFFF ==> m1.cpu_read_value(a) == m0.prg_rom@[((value & 0x0F)
                    as int % c) * 0x4000 + (a - 0x8000)]
                &&& 0xC000 <= a ==> m1.cpu_read_value(a) == m0.cpu_read_value(a)
                    && m0.cpu_read_value(a) == m0.prg_rom@[(c - 1) * 0x4000 + (a - 0xC000)]
            }),
    {
        let c = bank_count_spec(m0.prg_rom@.len(), 0x4000);
        vstd::arithmetic::div_mod::lemma_small_mod((c - 1) as nat, c);
    }

    /// A byte written to PRG RAM reads back at the same address.
    pub proof fn law_prg_ram_roundtrip(m0: Self, m1: Self, addr: u16, value: u8)
        requires
            m0.wf(),
            0x6000 <= addr <= 0x7FFF,
            m0.cpu_write_post(&m1, addr, value),
        ensures
            m1.cpu_read_value(addr) == value,
    {
        lemma_ram_roundtrip(m0.prg_ram@, addr, value);
    }

    /// The last 16 KiB bank stays at $C000 whatever is written to the board.
    pub proof fn law_last_bank_fixed(m0: Self, m1: Self, addr: u16, value: u8, read_addr: u16)
        requires
            m0.wf(),
            m0.cpu_write_post(&m1, addr, value),
            0xC000 <= read_addr,
        ensures
            m1.cpu_read_value(read_addr) == m0.cpu_read_value(read_addr),
    {
    }
}

impl Mapper for Mapper2 {
    open spec fn chr_read_post(&self, post: &Self, addr: u16, r: u8) -> bool {
        r == wrapped_read_spec(self.chr@, addr as nat) && *post == *self
    }

    open spec fn read_seen_post(&self, post: &Self, addr: u16) -> bool {
        *post == *self
    }

    open spec fn nametable_read_spec(&self, post: &Self, addr: u16, vram: Seq<u8>, r: Option<u8>) -> bool {
        r is None && *post == *self
    }

    open spec fn inv(&self) -> bool {
        self.wf()
    }

    open spec fn suppresses_a12_view(&self) -> bool {
        false
    }

    open spec fn relaxed_sprite0_view(&self) -> bool {
        false
    }

    open spec fn owns_nametables(&self) -> bool {
        false
    }

    open spec fn mirroring_view(&self) -> Mirroring {
        self.mirroring
    }

    fn cpu_read(&mut self, addr: u16) -> (r: u8)
        ensures
            r == old(self).cpu_read_value(addr),
            *final(self) == *old(self),
    {
        if 0x6000 <= addr && addr <= 0x7FFF {
            read_ram(&self.prg_ram, addr)
        } else if 0x8000 <= addr && addr <= 0xBFFF {
            self.read_prg(self.bank_select as usize, addr as usize - 0x8000)
        } else if 0xC000 <= addr {
            let last = self.prg_banks() - 1;
            self.read_prg(last, addr as usize - 0xC000)
        } else {
            0
        }
    }

    fn cpu_write(&mut self, addr: u16, value: u8)
        ensures
            old(self).cpu_write_post(&*final(self), addr, value),
    {
        if 0x6000 <= addr && addr <= 0x7FFF {
            write_ram(&mut self.prg_ram, addr, value);
        } else if 0x8000 <= addr {
            self.bank_select = value & 0x0F;
        }
    }

    fn ppu_read(&mut self, addr: u16) -> (r: u8)
        ensures
            r == wrapped_read_spec(old(self).chr@, addr as nat),
            *final(self) == *old(self),
    {
        read_wrapped(&self.chr, addr as usize)
    }

    fn ppu_write(&mut self, addr: u16, value: u8)
        ensures
            old(self).ppu_write_post(&*final(self), addr, value),
    {
        if self.chr_is_ram {
            write_wrapped(&mut self.chr, addr as usize, value);
        }
    }

    fn mirroring(&self) -> (r: Mirroring)
        ensures
            r == self.mirroring,
    {
        self.mirroring
    }

    fn suppress_a12_on_sprite_eval_reads(&self) -> (r: bool) {
        false
    }

    fn allow_relaxed_sprite0_hit(&self) -> (r: bool) {
        false
    }

    fn ppu_nametable_read(&mut self, addr: u16, vram: &[u8; 4096]) -> (r: Option<u8>)
        ensures
            r is None,
            *final(self) == *old(self),
    {
        None
    }

    fn notify_ppu_read_addr(&mut self, addr: u16)
        ensures
            *final(self) == *old(self),
    {
    }
}

} // verus!
