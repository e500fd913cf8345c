use vstd::prelude::*;

use super::{Mapper, Mirroring};
use super::bank::{
    bank_count, bank_count_spec, banked_index_spec, banked_read_spec, fresh_prg_ram,
    lemma_and_u16, lemma_ram_roundtrip, memory_ok, new_prg_ram, ram_read_spec, ram_write_spec,
    read_banked, read_ram, write_banked, write_ram,
};
use crate::nes::cartridge::Cartridge;

verus! {

/// The 1 KiB CHR slot of a pattern address and its offset in the slot.
pub proof fn lemma_slot_1k(addr: u16)
    requires
        addr < 0x2000,
    ensures
        (addr >> 10) < 8,
        (addr & 0x03FF) <= 0x03FF,
{
    assert(addr < 0x2000 ==> (addr >> 10) < 8) by (bit_vector);
    assert((addr & 0x03FF) <= 0x03FF) by (bit_vector);
}

/// Konami VRC6a (mapper 24): four switchable 8 KiB PRG windows, eight 1 KiB
/// CHR banks and a 16-bit down-counting CPU-cycle IRQ.
pub struct Mapper24 {
    pub prg_rom: Vec<u8>,
    pub chr: Vec<u8>,
    pub chr_is_ram: bool,
    pub prg_ram: Vec<u8>,
    pub mirroring: Mirroring,
    pub prg_banks: [u8; 4],
    pub chr_banks: [u8; 8],
    pub irq_enabled: bool,
    pub irq_counter: u16,
    pub irq_pending: bool,
    pub control: u8,
}

impl Mapper24 {
    pub open spec fn wf(&self) -> bool {
        &&& memory_ok(self.prg_rom@)
        &&& memory_ok(self.chr@)
        &&& memory_ok(self.prg_ram@)
    }

    pub open spec fn initialized_from(&self, cart: &Cartridge) -> bool {
        &&& self.prg_rom@ == cart.prg_rom@
        &&& self.chr@ == cart.chr_data@
        &&& self.chr_is_ram == cart.chr_is_ram
        &&& self.prg_ram@ == fresh_prg_ram(cart.prg_ram_size)
        &&& self.mirroring == cart.mirroring
        &&& self.prg_banks@ == seq![0u8, 1u8, 0xFEu8, 0xFFu8]
        &&& self.chr_banks@ == Seq::new(8, |i: int| 0u8)
        &&& !self.irq_enabled
        &&& self.irq_counter == 0
        &&& !self.irq_pending
        &&& self.control == 0xC0
    }

    pub fn new(cart: Cartridge) -> (m: Self)
        requires
            cart.wf(),
        ensures
            m.initialized_from(&cart),
            m.wf(),
    {
        let m = Self {
            prg_rom: cart.prg_rom,
            chr: cart.chr_data,
            chr_is_ram: cart.chr_is_ram,
            prg_ram: new_prg_ram(cart.prg_ram_size),
            mirroring: cart.mirroring,
            prg_banks: [0, 1, 0xFE, 0xFF],
            chr_banks: [0; 8],
            irq_enabled: false,
            irq_counter: 0,
            irq_pending: false,
            control: 0xC0,
        };
        assert(m.prg_banks@ =~= seq![0u8, 1u8, 0xFEu8, 0xFFu8]);
        assert(m.chr_banks@ =~= Seq::new(8, |i: int| 0u8));
        m
    }

    pub fn prg_bank_count_8k(&self) -> (r: usize)
        ensures
            r == bank_count_spec(self.prg_rom@.len(), 0x2000),
            r >= 1,
    {
        bank_count(self.prg_rom.len(), 0x2000)
    }

    pub fn chr_bank_count_1k(&self) -> (r: usize)
        ensures
            r == bank_count_spec(self.chr@.len(), 0x0400),
            r >= 1,
    {
        bank_count(self.chr.len(), 0x0400)
    }

    /// The byte the CPU reads at `addr`: four switchable 8 KiB PRG windows.
    pub open spec fn cpu_read_value(&self, addr: u16) -> u8 {
        if 0x6000 <= addr <= 0x7FFF {
            ram_read_spec(self.prg_ram@, addr)
        } else if 0x8000 <= addr {
            banked_read_spec(
                self.prg_rom@,
                self.prg_banks@[((addr - 0x8000) / 0x2000) as int] as nat,
                0x2000,
                (addr & 0x1FFF) as nat,
            )
        } else {
            0
        }
    }

    /// $8000-$8FFF: registers 0/2/4/6 select the PRG banks, 8 the control
    /// byte and mirroring, A the IRQ counter, E the IRQ enable. $9000-$9FFF:
    /// even registers 0-E select the eight 1 KiB CHR banks.
    pub open spec fn cpu_write_post(&self, post: &Self, addr: u16, value: u8) -> bool {
        let reg = addr & 0x0F;
        if 0x6000 <= addr <= 0x7FFF {
            &&& post.prg_ram@ == ram_write_spec(self.prg_ram@, addr, value)
            &&& *post == Mapper24 { prg_ram: post.prg_ram, ..*self }
        } else if 0x8000 <= addr <= 0x8FFF && reg <= 6 && reg % 2 == 0 {
            &&& post.prg_banks@ == self.prg_banks@.update((reg / 2) as int, value & 0x0F)
            &&& *post == Mapper24 { prg_banks: post.prg_banks, ..*self }
        } else if 0x8000 <= addr <= 0x8FFF && reg == 8 {
            *post == Mapper24 {
                control: value,
                mirroring: if (value & 0x01) != 0 {
                    Mirroring::Vertical
                } else {
                    Mirroring::Horizontal
                },
                ..*self
            }
        } else if 0x8000 <= addr <= 0x8FFF && reg == 0xA {
            *post == Mapper24 { irq_counter: (self.irq_counter & 0xFF00) | (value as u16), ..*self }
        } else if 0x8000 <= addr <= 0x8FFF && reg == 0xE {
            *post == Mapper24 { irq_enabled: (value & 0x01) != 0, ..*self }
        } else if 0x9000 <= addr <= 0x9FFF && reg % 2 == 0 {
            &&& post.chr_banks@ == self.chr_banks@.update((reg / 2) as int, value)
            &&& *post == Mapper24 { chr_banks: post.chr_banks, ..*self }
        } else {
            *post == *self
        }
    }

    /// Index in CHR of a pattern address below $2000: eight 1 KiB banks.
    pub open spec fn chr_index(&self, addr: u16) -> nat {
        banked_index_spec(
            self.chr@.len(),
            self.chr_banks@[(addr >> 10) as int] as nat,
            0x0400,
            (addr & 0x03FF) as nat,
        )
    }

    pub open spec fn ppu_read_value(&self, addr: u16) -> u8 {
        if addr < 0x2000 {
            self.chr@[self.chr_index(addr) as int]
        } else {
            0
        }
    }

    pub open spec fn ppu_write_post(&self, post: &Self, addr: u16, value: u8) -> bool {
        if addr < 0x2000 && self.chr_is_ram {
            &&& post.chr@ == self.chr@.update(self.chr_index(addr) as int, value)
            &&& *post == Mapper24 { chr: post.chr, ..*self }
        } else {
            *post == *self
        }
    }

    /// A CPU cycle: while enabled the counter counts down; from zero it reloads
    /// with $FFFF and raises the IRQ.
    pub open spec fn tick_cpu_post(&self, post: &Self) -> bool {
        if self.irq_enabled {
            if self.irq_counter == 0 {
                *post == Mapper24 { irq_counter: 0xFFFF, irq_pending: true, ..*self }
            } else {
                *post == Mapper24 { irq_counter: (self.irq_counter - 1) as u16, ..*self }
            }
        } else {
            *post == *self
        }
    }

    /// PRG bank registers: writing `v` to register 2k (k = 0-3) at
    /// $8000-$8FFF makes the 8 KiB window at $8000 + k * $2000 show bank
    /// `v` (its low four bits); the other three windows keep their banks.
    pub proof fn law_prg_bank_registers(m0: Self, m1: Self, addr: u16, v: u8, k: u16, a: u16)
        requires
            0x8000 <= addr <= 0x8FFF,
            k < 4,
            (addr & 0x0F) == 2 * k,
            m0.cpu_write_post(&m1, addr, v),
            0x8000 <= a,
        ensures
            (a - 0x8000) / 0x2000 == k ==> m1.cpu_read_value(a) == banked_read_spec(
                m0.prg_rom@,
                (v & 0x0F) as nat,
                0x2000,
                (a & 0x1FFF) as nat,
            ),
            (a - 0x8000) / 0x2000 != k ==> m1.cpu_read_value(a) == m0.cpu_read_value(a),
    {
        assert(m0.prg_banks@.len() == 4);
    }

    /// A byte written to PRG RAM reads back at the same address.
    pub proof fn law_prg_ram_roundtrip(m0: Self, m1: Self, addr: u16, value: u8)
        requires
            m0.wf(),
            0x6000 <= addr <= 0x7FFF,
            m0.cpu_write_post(&m1, addr, value),
        ensures
            m1.cpu_read_value(addr) == value,
    {
        lemma_ram_roundtrip(m0.prg_ram@, addr, value);
    }
}

impl Mapper for Mapper24 {
    open spec fn chr_read_post(&self, post: &Self, addr: u16, r: u8) -> bool {
        r == self.ppu_read_value(addr) && *post == *self
    }

    open spec fn read_seen_post(&self, post: &Self, addr: u16) -> bool {
        *post == *self
    }

    open spec fn nametable_read_spec(&self, post: &Self, addr: u16, vram: Seq<u8>, r: Option<u8>) -> bool {
        r is None && *post == *self
    }

    open spec fn inv(&self) -> bool {
        self.wf()
    }

    open spec fn suppresses_a12_view(&self) -> bool {
        false
    }

    open spec fn relaxed_sprite0_view(&self) -> bool {
        false
    }

    open spec fn owns_nametables(&self) -> bool {
        false
    }

    open spec fn mirroring_view(&self) -> Mirroring {
        self.mirroring
    }

    fn cpu_read(&mut self, addr: u16) -> (r: u8)
        ensures
            r == old(self).cpu_read_value(addr),
            *final(self) == *old(self),
    {
        proof {
            lemma_and_u16(addr, 0x1FFF);
        }
        if 0x6000 <= addr && addr <= 0x7FFF {
            read_ram(&self.prg_ram, addr)
        } else if 0x8000 <= addr && addr <= 0x9FFF {
            read_banked(&self.prg_rom, self.prg_banks[0] as usize, 0x2000, (addr & 0x1FFF) as usize)
        } else if 0xA000 <= addr && addr <= 0xBFFF {
            read_banked(&self.prg_rom, self.prg_banks[1] as usize, 0x2000, (addr & 0x1FFF) as usize)
        } else if 0xC000 <= addr && addr <= 0xDFFF {
            read_banked(&self.prg_rom, self.prg_banks[2] as usize, 0x2000, (addr & 0x1FFF) as usize)
        } else if 0xE000 <= addr {
            read_banked(&self.prg_rom, self.prg_banks[3] as usize, 0x2000, (addr & 0x1FFF) as usize)
        } else {
            0
        }
    }

    fn cpu_write(&mut self, addr: u16, value: u8)
        ensures
            old(self).cpu_write_post(&*final(self), addr, value),
    {
        proof {
            lemma_and_u16(addr, 0x0F);
        }
        if 0x6000 <= addr && addr <= 0x7FFF {
            write_ram(&mut self.prg_ram, addr, value);
        } else if 0x8000 <= addr && addr <= 0x8FFF {
            let reg = addr & 0x0F;
            match reg {
                0x0 => { self.prg_banks[0] = value & 0x0F; }
                0x2 => { self.prg_banks[1] = value & 0x0F; }
                0x4 => { self.prg_banks[2] = value & 0x0F; }
                0x6 => { self.prg_banks[3] = value & 0x0F; }
                0x8 => {
                    self.control = value;
                    self.mirroring = if (value & 0x01) != 0 {
                        Mirroring::Vertical
                    } else {
                        Mirroring::Horizontal
                    };
                },
                0xA => {
                    self.irq_counter = (self.irq_counter & 0xFF00) | (value as u16);
                },
                0xE => self.irq_enabled = (value & 0x01) != 0,
                _ => {},
            }
        } else if 0x9000 <= addr && addr <= 0x9FFF {
            let reg = addr & 0x0F;
            match reg {
                0x0 => { self.chr_banks[0] = value; }
                0x2 => { self.chr_banks[1] = value; }
                0x4 => { self.chr_banks[2] = value; }
                0x6 => { self.chr_banks[3] = value; }
                0x8 => { self.chr_banks[4] = value; }
                0xA => { self.chr_banks[5] = value; }
                0xC => { self.chr_banks[6] = value; }
                0xE => { self.chr_banks[7] = value; }
                _ => {},
            }
        }
    }

    fn ppu_read(&mut self, addr: u16) -> (r: u8)
        ensures
            r == old(self).ppu_read_value(addr),
            *final(self) == *old(self),
    {
        if addr < 0x2000 {
            proof {
                lemma_slot_1k(addr);
            }
            let bank = self.chr_banks[(addr >> 10) as usize] as usize;
            read_banked(&self.chr, bank, 0x0400, (addr & 0x03FF) as usize)
        } else {
            0
        }
    }

    fn ppu_write(&mut self, addr: u16, value: u8)
        ensures
            old(self).ppu_write_post(&*final(self), addr, value),
    {
        if addr < 0x2000 && self.chr_is_ram {
            proof {
                lemma_slot_1k(addr);
            }
            let bank = self.chr_banks[(addr >> 10) as usize] as usize;
            write_banked(&mut self.chr, bank, 0x0400, (addr & 0x03FF) as usize, value);
        }
    }

    fn mirroring(&self) -> (r: Mirroring)
        ensures
            r == self.mirroring,
    {
        self.mirroring
    }

    fn tick_cpu_cycle(&mut self)
        ensures
            old(self).tick_cpu_post(&*final(self)),
    {
        if self.irq_enabled {
            if self.irq_counter == 0 {
                self.irq_counter = 0xFFFF;
                self.irq_pending = true;
            } else {
                self.irq_counter = self.irq_counter.wrapping_sub(1);
            }
        }
    }

    fn irq_pending(&self) -> (r: bool)
        ensures
            r == self.irq_pending,
    {
        self.irq_pending
    }

    fn clear_irq(&mut self)
        ensures
            *final(self) == (Mapper24 { irq_pending: false, ..*old(self) }),
    {
        self.irq_pending = false;
    }

    fn suppress_a12_on_sprite_eval_reads(&self) -> (r: bool) {
        false
    }

    fn allow_relaxed_sprite0_hit(&self) -> (r: bool) {
        false
    }

    fn ppu_nametable_read(&mut self, addr: u16, vram: &[u8; 4096]) -> (r: Option<u8>)
        ensures
            r is None,
            *final(self) == *old(self),
    {
        None
    }

    fn notify_ppu_read_addr(&mut self, addr: u16)
        ensures
            *final(self) == *old(self),
    {
    }
}

/// Konami VRC4b/d (mapper 25): four switchable 8 KiB PRG windows, eight 1 KiB
/// CHR banks and an 8-bit down-counting CPU-cycle IRQ.
pub struct Mapper25 {
    pub prg_rom: Vec<u8>,
    pub chr: Vec<u8>,
    pub chr_is_ram: bool,
    pub prg_ram: Vec<u8>,
    pub mirroring: Mirroring,
    pub prg_banks: [u8; 4],
    pub chr_banks: [u8; 8],
    pub irq_enabled: bool,
    pub irq_counter: u8,
    pub irq_pending: bool,
    pub control: u8,
}

impl Mapper25 {
    pub open spec fn wf(&self) -> bool {
        &&& memory_ok(self.prg_rom@)
        &&& memory_ok(self.chr@)
        &&& memory_ok(self.prg_ram@)
    }

    pub open spec fn initialized_from(&self, cart: &Cartridge) -> bool {
        &&& self.prg_rom@ == cart.prg_rom@
        &&& self.chr@ == cart.chr_data@
        &&& self.chr_is_ram == cart.chr_is_ram
        &&& self.prg_ram@ == fresh_prg_ram(cart.prg_ram_size)
        &&& self.mirroring == cart.mirroring
        &&& self.prg_banks@ == seq![0u8, 1u8, 0xFEu8, 0xFFu8]
        &&& self.chr_banks@ == Seq::new(8, |i: int| 0u8)
        &&& !self.irq_enabled
        &&& self.irq_counter == 0
        &&& !self.irq_pending
        &&& self.control == 0xC0
    }

    pub fn new(cart: Cartridge) -> (m: Self)
        requires
            cart.wf(),
        ensures
            m.initialized_from(&cart),
            m.wf(),
    {
        let m = Self {
            prg_rom: cart.prg_rom,
            chr: cart.chr_data,
            chr_is_ram: cart.chr_is_ram,
            prg_ram: new_prg_ram(cart.prg_ram_size),
            mirroring: cart.mirroring,
            prg_banks: [0, 1, 0xFE, 0xFF],
            chr_banks: [0; 8],
            irq_enabled: false,
            irq_counter: 0,
            irq_pending: false,
            control: 0xC0,
        };
        assert(m.prg_banks@ =~= seq![0u8, 1u8, 0xFEu8, 0xFFu8]);
        assert(m.chr_banks@ =~= Seq::new(8, |i: int| 0u8));
        m
    }

    pub fn prg_bank_count_8k(&self) -> (r: usize)
        ensures
            r == bank_count_spec(self.prg_rom@.len(), 0x2000),
            r >= 1,
    {
        bank_count(self.prg_rom.len(), 0x2000)
    }

    pub fn chr_bank_count_1k(&self) -> (r: usize)
        ensures
            r == bank_count_spec(self.chr@.len(), 0x0400),
            r >= 1,
    {
        bank_count(self.chr.len(), 0x0400)
    }

    /// The byte the CPU reads at `addr`: four switchable 8 KiB PRG windows.
    pub open spec fn cpu_read_value(&self, addr: u16) -> u8 {
        if 0x6000 <= addr <= 0x7FFF {
            ram_read_spec(self.prg_ram@, addr)
        } else if 0x8000 <= addr {
            banked_read_spec(
                self.prg_rom@,
                self.prg_banks@[((addr - 0x8000) / 0x2000) as int] as nat,
                0x2000,
                (addr & 0x1FFF) as nat,
            )
        } else {
            0
        }
    }

    /// $8000-$8FFF: registers 0/2/4/6 select the PRG banks, 8 the control
    /// byte and mirroring, A the IRQ counter, E the IRQ enable. $9000-$9FFF:
    /// even registers 0-E select the eight 1 KiB CHR banks.
    pub open spec fn cpu_write_post(&self, post: &Self, addr: u16, value: u8) -> bool {
        let reg = addr & 0x0F;
        if 0x6000 <= addr <= 0x7FFF {
            &&& post.prg_ram@ == ram_write_spec(self.prg_ram@, addr, value)
            &&& *post == Mapper25 { prg_ram: post.prg_ram, ..*self }
        } else if 0x8000 <= addr <= 0x8FFF && reg <= 6 && reg % 2 == 0 {
            &&& post.prg_banks@ == self.prg_banks@.update((reg / 2) as int, value & 0x0F)
            &&& *post == Mapper25 { prg_banks: post.prg_banks, ..*self }
        } else if 0x8000 <= addr <= 0x8FFF && reg == 8 {
            *post == Mapper25 {
                control: value,
                mirroring: if (value & 0x01) != 0 {
                    Mirroring::Vertical
                } else {
                    Mirroring::Horizontal
                },
                ..*self
            }
        } else if 0x8000 <= addr <= 0x8FFF && reg == 0xA {
            *post == Mapper25 { irq_counter: value, ..*self }
        } else if 0x8000 <= addr <= 0x8FFF && reg == 0xE {
            *post == Mapper25 { irq_enabled: (value & 0x01) != 0, ..*self }
        } else if 0x9000 <= addr <= 0x9FFF && reg % 2 == 0 {
            &&& post.chr_banks@ == self.chr_banks@.update((reg / 2) as int, value)
            &&& *post == Mapper25 { chr_banks: post.chr_banks, ..*self }
        } else {
            *post == *self
        }
    }

    /// Index in CHR of a pattern address below $2000: eight 1 KiB banks.
    pub open spec fn chr_index(&self, addr: u16) -> nat {
        banked_index_spec(
            self.chr@.len(),
            self.chr_banks@[(addr >> 10) as int] as nat,
            0x0400,
            (addr & 0x03FF) as nat,
        )
    }

    pub open spec fn ppu_read_value(&self, addr: u16) -> u8 {
        if addr < 0x2000 {
            self.chr@[self.chr_index(addr) as int]
        } else {
            0
        }
    }

    pub open spec fn ppu_write_post(&self, post: &Self, addr: u16, value: u8) -> bool {
        if addr < 0x2000 && self.chr_is_ram {
            &&& post.chr@ == self.chr@.update(self.chr_index(addr) as int, value)
            &&& *post == Mapper25 { chr: post.chr, ..*self }
        } else {
            *post == *self
        }
    }

    /// A CPU cycle: while enabled the counter counts down; from zero it reloads
    /// with $FF and raises the IRQ.
    pub open spec fn tick_cpu_post(&self, post: &Self) -> bool {
        if self.irq_enabled {
            if self.irq_counter == 0 {
                *post == Mapper25 { irq_counter: 0xFF, irq_pending: true, ..*self }
            } else {
                *post == Mapper25 { irq_counter: (self.irq_counter - 1) as u8, ..*self }
            }
        } else {
            *post == *self
        }
    }

    /// PRG bank registers: writing `v` to register 2k (k = 0-3) at
    /// $8000-$8FFF makes the 8 KiB window at $8000 + k * $2000 show bank
    /// `v` (its low four bits); the other three windows keep their banks.
    pub proof fn law_prg_bank_registers(m0: Self, m1: Self, addr: u16, v: u8, k: u16, a: u16)
        requires
            0x8000 <= addr <= 0x8FFF,
            k < 4,
            (addr & 0x0F) == 2 * k,
            m0.cpu_write_post(&m1, addr, v),
            0x8000 <= a,
        ensures
            (a - 0x8000) / 0x2000 == k ==> m1.cpu_read_value(a) == banked_read_spec(
                m0.prg_rom@,
                (v & 0x0F) as nat,
                0x2000,
                (a & 0x1FFF) as nat,
            ),
            (a - 0x8000) / 0x2000 != k ==> m1.cpu_read_value(a) == m0.cpu_read_value(a),
    {
        assert(m0.prg_banks@.len() == 4);
    }

    /// A byte written to PRG RAM reads back at the same address.
    pub proof fn law_prg_ram_roundtrip(m0: Self, m1: Self, addr: u16, value: u8)
        requires
            m0.wf(),
            0x6000 <= addr <= 0x7FFF,
            m0.cpu_write_post(&m1, addr, value),
        ensures
            m1.cpu_read_value(addr) == value,
    {
        lemma_ram_roundtrip(m0.prg_ram@, addr, value);
    }
}

impl Mapper for Mapper25 {
    open spec fn chr_read_post(&self, post: &Self, addr: u16, r: u8) -> bool {
        r == self.ppu_read_value(addr) && *post == *self
    }

    open spec fn read_seen_post(&self, post: &Self, addr: u16) -> bool {
        *post == *self
    }

    open spec fn nametable_read_spec(&self, post: &Self, addr: u16, vram: Seq<u8>, r: Option<u8>) -> bool {
        r is None && *post == *self
    }

    open spec fn inv(&self) -> bool {
        self.wf()
    }

    open spec fn suppresses_a12_view(&self) -> bool {
        false
    }

    open spec fn relaxed_sprite0_view(&self) -> bool {
        false
    }

    open spec fn owns_nametables(&self) -> bool {
        false
    }

    open spec fn mirroring_view(&self) -> Mirroring {
        self.mirroring
    }

    fn cpu_read(&mut self, addr: u16) -> (r: u8)
        ensures
            r == old(self).cpu_read_value(addr),
            *final(self) == *old(self),
    {
        proof {
            lemma_and_u16(addr, 0x1FFF);
        }
        if 0x6000 <= addr && addr <= 0x7FFF {
            read_ram(&self.prg_ram, addr)
        } else if 0x8000 <= addr && addr <= 0x9FFF {
            read_banked(&self.prg_rom, self.prg_banks[0] as usize, 0x2000, (addr & 0x1FFF) as usize)
        } else if 0xA000 <= addr && addr <= 0xBFFF {
            read_banked(&self.prg_rom, self.prg_banks[1] as usize, 0x2000, (addr & 0x1FFF) as usize)
        } else if 0xC000 <= addr && addr <= 0xDFFF {
            read_banked(&self.prg_rom, self.prg_banks[2] as usize, 0x2000, (addr & 0x1FFF) as usize)
        } else if 0xE000 <= addr {
            read_banked(&self.prg_rom, self.prg_banks[3] as usize, 0x2000, (addr & 0x1FFF) as usize)
        } else {
            0
        }
    }

    fn cpu_write(&mut self, addr: u16, value: u8)
        ensures
            old(self).cpu_write_post(&*final(self), addr, value),
    {
        proof {
            lemma_and_u16(addr, 0x0F);
        }
        if 0x6000 <= addr && addr <= 0x7FFF {
            write_ram(&mut self.prg_ram, addr, value);
        } else if 0x8000 <= addr && addr <= 0x8FFF {
            let reg = addr & 0x0F;
            match reg {
                0x0 => { self.prg_banks[0] = value & 0x0F; }
                0x2 => { self.prg_banks[1] = value & 0x0F; }
                0x4 => { self.prg_banks[2] = value & 0x0F; }
                0x6 => { self.prg_banks[3] = value & 0x0F; }
                0x8 => {
                    self.control = value;
                    self.mirroring = if (value & 0x01) != 0 {
                        Mirroring::Vertical
                    } else {
                        Mirroring::Horizontal
                    };
                },
                0xA => {
                    self.irq_counter = value;
                },
                0xE => self.irq_enabled = (value & 0x01) != 0,
                _ => {},
            }
        } else if 0x9000 <= addr && addr <= 0x9FFF {
            let reg = addr & 0x0F;
            match reg {
                0x0 => { self.chr_banks[0] = value; }
                0x2 => { self.chr_banks[1] = value; }
                0x4 => { self.chr_banks[2] = value; }
                0x6 => { self.chr_banks[3] = value; }
                0x8 => { self.chr_banks[4] = value; }
                0xA => { self.chr_banks[5] = value; }
                0xC => { self.chr_banks[6] = value; }
                0xE => { self.chr_banks[7] = value; }
                _ => {},
            }
        }
    }

    fn ppu_read(&mut self, addr: u16) -> (r: u8)
        ensures
            r == old(self).ppu_read_value(addr),
            *final(self) == *old(self),
    {
        if addr < 0x2000 {
            proof {
                lemma_slot_1k(addr);
            }
            let bank = self.chr_banks[(addr >> 10) as usize] as usize;
            read_banked(&self.chr, bank, 0x0400, (addr & 0x03FF) as usize)
        } else {
            0
        }
    }

    fn ppu_write(&mut self, addr: u16, value: u8)
        ensures
            old(self).ppu_write_post(&*final(self), addr, value),
    {
        if addr < 0x2000 && self.chr_is_ram {
            proof {
                lemma_slot_1k(addr);
            }
            let bank = self.chr_banks[(addr >> 10) as usize] as usize;
            write_banked(&mut self.chr, bank, 0x0400, (addr & 0x03FF) as usize, value);
        }
    }

    fn mirroring(&self) -> (r: Mirroring)
        ensures
            r == self.mirroring,
    {
        self.mirroring
    }

    fn tick_cpu_cycle(&mut self)
        ensures
            old(self).tick_cpu_post(&*final(self)),
    {
        if self.irq_enabled {
            if self.irq_counter == 0 {
                self.irq_counter = 0xFF;
                self.irq_pending = true;
            } else {
                self.irq_counter = self.irq_counter.wrapping_sub(1);
            }
        }
    }

    fn irq_pending(&self) -> (r: bool)
        ensures
            r == self.irq_pending,
    {
        self.irq_pending
    }

    fn clear_irq(&mut self)
        ensures
            *final(self) == (Mapper25 { irq_pending: false, ..*old(self) }),
    {
        self.irq_pending = false;
    }

    fn suppress_a12_on_sprite_eval_reads(&self) -> (r: bool) {
        false
    }

    fn allow_relaxed_sprite0_hit(&self) -> (r: bool) {
        false
    }

    fn ppu_nametable_read(&mut self, addr: u16, vram: &[u8; 4096]) -> (r: Option<u8>)
        ensures
            r is None,
            *final(self) == *old(self),
    {
        None
    }

    fn notify_ppu_read_addr(&mut self, addr: u16)
        ensures
            *final(self) == *old(self),
    {
    }
}

/// Konami VRC6b (mapper 26): four switchable 8 KiB PRG windows, eight 1 KiB
/// CHR banks and a 16-bit down-counting CPU-cycle IRQ.
pub struct Mapper26 {
    pub prg_rom: Vec<u8>,
    pub chr: Vec<u8>,
    pub chr_is_ram: bool,
    pub prg_ram: Vec<u8>,
    pub mirroring: Mirroring,
    pub prg_banks: [u8; 4],
    pub chr_banks: [u8; 8],
    pub irq_enabled: bool,
    pub irq_counter: u16,
    pub irq_pending: bool,
    pub control: u8,
}

impl Mapper26 {
    pub open spec fn wf(&self) -> bool {
        &&& memory_ok(self.prg_rom@)
        &&& memory_ok(self.chr@)
        &&& memory_ok(self.prg_ram@)
    }

    pub open spec fn initialized_from(&self, cart: &Cartridge) -> bool {
        &&& self.prg_rom@ == cart.prg_rom@
        &&& self.chr@ == cart.chr_data@
        &&& self.chr_is_ram == cart.chr_is_ram
        &&& self.prg_ram@ == fresh_prg_ram(cart.prg_ram_size)
        &&& self.mirroring == cart.mirroring
        &&& self.prg_banks@ == seq![0u8, 1u8, 0xFEu8, 0xFFu8]
        &&& self.chr_banks@ == Seq::new(8, |i: int| 0u8)
        &&& !self.irq_enabled
        &&& self.irq_counter == 0
        &&& !self.irq_pending
        &&& self.control == 0xC0
    }

    pub fn new(cart: Cartridge) -> (m: Self)
        requires
            cart.wf(),
        ensures
            m.initialized_from(&cart),
            m.wf(),
    {
        let m = Self {
            prg_rom: cart.prg_rom,
            chr: cart.chr_data,
            chr_is_ram: cart.chr_is_ram,
            prg_ram: new_prg_ram(cart.prg_ram_size),
            mirroring: cart.mirroring,
            prg_banks: [0, 1, 0xFE, 0xFF],
            chr_banks: [0; 8],
            irq_enabled: false,
            irq_counter: 0,
            irq_pending: false,
            control: 0xC0,
        };
        assert(m.prg_banks@ =~= seq![0u8, 1u8, 0xFEu8, 0xFFu8]);
        assert(m.chr_banks@ =~= Seq::new(8, |i: int| 0u8));
        m
    }

    pub fn prg_bank_count_8k(&self) -> (r: usize)
        ensures
            r == bank_count_spec(self.prg_rom@.len(), 0x2000),
            r >= 1,
    {
        bank_count(self.prg_rom.len(), 0x2000)
    }

    pub fn chr_bank_count_1k(&self) -> (r: usize)
        ensures
            r == bank_count_spec(self.chr@.len(), 0x0400),
            r >= 1,
    {
        bank_count(self.chr.len(), 0x0400)
    }

    /// The byte the CPU reads at `addr`: four switchable 8 KiB PRG windows.
    pub open spec fn cpu_read_value(&self, addr: u16) -> u8 {
        if 0x6000 <= addr <= 0x7FFF {
            ram_read_spec(self.prg_ram@, addr)
        } else if 0x8000 <= addr {
            banked_read_spec(
                self.prg_rom@,
                self.prg_banks@[((addr - 0x8000) / 0x2000) as int] as nat,
                0x2000,
                (addr & 0x1FFF) as nat,
            )
        } else {
            0
        }
    }

    /// $8000-$8FFF: registers 0/2/4/6 select the PRG banks, 8 the control
    /// byte and mirroring, A the IRQ counter, E the IRQ enable. $9000-$9FFF:
    /// even registers 0-E select the eight 1 KiB CHR banks.
    pub open spec fn cpu_write_post(&self, post: &Self, addr: u16, value: u8) -> bool {
        let reg = addr & 0x0F;
        if 0x6000 <= addr <= 0x7FFF {
            &&& post.prg_ram@ == ram_write_spec(self.prg_ram@, addr, value)
            &&& *post == Mapper26 { prg_ram: post.prg_ram, ..*self }
        } else if 0x8000 <= addr <= 0x8FFF && reg <= 6 && reg % 2 == 0 {
            &&& post.prg_banks@ == self.prg_banks@.update((reg / 2) as int, value & 0x0F)
            &&& *post == Mapper26 { prg_banks: post.prg_banks, ..*self }
        } else if 0x8000 <= addr <= 0x8FFF && reg == 8 {
            *post == Mapper26 {
                control: value,
                mirroring: if (value & 0x01) != 0 {
                    Mirroring::Vertical
                } else {
                    Mirroring::Horizontal
                },
                ..*self
            }
        } else if 0x8000 <= addr <= 0x8FFF && reg == 0xA {
            *post == Mapper26 { irq_counter: (self.irq_counter & 0xFF00) | (value as u16), ..*self }
        } else if 0x8000 <= addr <= 0x8FFF && reg == 0xE {
            *post == Mapper26 { irq_enabled: (value & 0x01) != 0, ..*self }
        } else if 0x9000 <= addr <= 0x9FFF && reg % 2 == 0 {
            &&& post.chr_banks@ == self.chr_banks@.update((reg / 2) as int, value)
            &&& *post == Mapper26 { chr_banks: post.chr_banks, ..*self }
        } else {
            *post == *self
        }
    }

    /// Index in CHR of a pattern address below $2000: eight 1 KiB banks.
    pub open spec fn chr_index(&self, addr: u16) -> nat {
        banked_index_spec(
            self.chr@.len(),
            self.chr_banks@[(addr >> 10) as int] as nat,
            0x0400,
            (addr & 0x03FF) as nat,
        )
    }

    pub open spec fn ppu_read_value(&self, addr: u16) -> u8 {
        if addr < 0x2000 {
            self.chr@[self.chr_index(addr) as int]
        } else {
            0
        }
    }

    pub open spec fn ppu_write_post(&self, post: &Self, addr: u16, value: u8) -> bool {
        if addr < 0x2000 && self.chr_is_ram {
            &&& post.chr@ == self.chr@.update(self.chr_index(addr) as int, value)
            &&& *post == Mapper26 { chr: post.chr, ..*self }
        } else {
            *post == *self
        }
    }

    /// A CPU cycle: while enabled the counter counts down; from zero it reloads
    /// with $FFFF and raises the IRQ.
    pub open spec fn tick_cpu_post(&self, post: &Self) -> bool {
        if self.irq_enabled {
            if self.irq_counter == 0 {
                *post == Mapper26 { irq_counter: 0xFFFF, irq_pending: true, ..*self }
            } else {
                *post == Mapper26 { irq_counter: (self.irq_counter - 1) as u16, ..*self }
            }
        } else {
            *post == *self
        }
    }

    /// PRG bank registers: writing `v` to register 2k (k = 0-3) at
    /// $8000-$8FFF makes the 8 KiB window at $8000 + k * $2000 show bank
    /// `v` (its low four bits); the other three windows keep their banks.
    pub proof fn law_prg_bank_registers(m0: Self, m1: Self, addr: u16, v: u8, k: u16, a: u16)
        requires
            0x8000 <= addr <= 0x8FFF,
            k < 4,
            (addr & 0x0F) == 2 * k,
            m0.cpu_write_post(&m1, addr, v),
            0x8000 <= a,
        ensures
            (a - 0x8000) / 0x2000 == k ==> m1.cpu_read_value(a) == banked_read_spec(
                m0.prg_rom@,
                (v & 0x0F) as nat,
                0x2000,
                (a & 0x1FFF) as nat,
            ),
            (a - 0x8000) / 0x2000 != k ==> m1.cpu_read_value(a) == m0.cpu_read_value(a),
    {
        assert(m0.prg_banks@.len() == 4);
    }

    /// A byte written to PRG RAM reads back at the same address.
    pub proof fn law_prg_ram_roundtrip(m0: Self, m1: Self, addr: u16, value: u8)
        requires
            m0.wf(),
            0x6000 <= addr <= 0x7FFF,
            m0.cpu_write_post(&m1, addr, value),
        ensures
            m1.cpu_read_value(addr) == value,
    {
        lemma_ram_roundtrip(m0.prg_ram@, addr, value);
    }
}

impl Mapper for Mapper26 {
    open spec fn chr_read_post(&self, post: &Self, addr: u16, r: u8) -> bool {
        r == self.ppu_read_value(addr) && *post == *self
    }

    open spec fn read_seen_post(&self, post: &Self, addr: u16) -> bool {
        *post == *self
    }

    open spec fn nametable_read_spec(&self, post: &Self, addr: u16, vram: Seq<u8>, r: Option<u8>) -> bool {
        r is None && *post == *self
    }

    open spec fn inv(&self) -> bool {
        self.wf()
    }

    open spec fn suppresses_a12_view(&self) -> bool {
        false
    }

    open spec fn relaxed_sprite0_view(&self) -> bool {
        false
    }

    open spec fn owns_nametables(&self) -> bool {
        false
    }

    open spec fn mirroring_view(&self) -> Mirroring {
        self.mirroring
    }

    fn cpu_read(&mut self, addr: u16) -> (r: u8)
        ensures
            r == old(self).cpu_read_value(addr),
            *final(self) == *old(self),
    {
        proof {
            lemma_and_u16(addr, 0x1FFF);
        }
        if 0x6000 <= addr && addr <= 0x7FFF {
            read_ram(&self.prg_ram, addr)
        } else if 0x8000 <= addr && addr <= 0x9FFF {
            read_banked(&self.prg_rom, self.prg_banks[0] as usize, 0x2000, (addr & 0x1FFF) as usize)
        } else if 0xA000 <= addr && addr <= 0xBFFF {
            read_banked(&self.prg_rom, self.prg_banks[1] as usize, 0x2000, (addr & 0x1FFF) as usize)
        } else if 0xC000 <= addr && addr <= 0xDFFF {
            read_banked(&self.prg_rom, self.prg_banks[2] as usize, 0x2000, (addr & 0x1FFF) as usize)
        } else if 0xE000 <= addr {
            read_banked(&self.prg_rom, self.prg_banks[3] as usize, 0x2000, (addr & 0x1FFF) as usize)
        } else {
            0
        }
    }

    fn cpu_write(&mut self, addr: u16, value: u8)
        ensures
            old(self).cpu_write_post(&*final(self), addr, value),
    {
        proof {
            lemma_and_u16(addr, 0x0F);
        }
        if 0x6000 <= addr && addr <= 0x7FFF {
            write_ram(&mut self.prg_ram, addr, value);
        } else if 0x8000 <= addr && addr <= 0x8FFF {
            let reg = addr & 0x0F;
            match reg {
                0x0 => { self.prg_banks[0] = value & 0x0F; }
                0x2 => { self.prg_banks[1] = value & 0x0F; }
                0x4 => { self.prg_banks[2] = value & 0x0F; }
                0x6 => { self.prg_banks[3] = value & 0x0F; }
                0x8 => {
                    self.control = value;
                    self.mirroring = if (value & 0x01) != 0 {
                        Mirroring::Vertical
                    } else {
                        Mirroring::Horizontal
                    };
                },
                0xA => {
                    self.irq_counter = (self.irq_counter & 0xFF00) | (value as u16);
                },
                0xE => self.irq_enabled = (value & 0x01) != 0,
                _ => {},
            }
        } else if 0x9000 <= addr && addr <= 0x9FFF {
            let reg = addr & 0x0F;
            match reg {
                0x0 => { self.chr_banks[0] = value; }
                0x2 => { self.chr_banks[1] = value; }
                0x4 => { self.chr_banks[2] = value; }
                0x6 => { self.chr_banks[3] = value; }
                0x8 => { self.chr_banks[4] = value; }
                0xA => { self.chr_banks[5] = value; }
                0xC => { self.chr_banks[6] = value; }
                0xE => { self.chr_banks[7] = value; }
                _ => {},
            }
        }
    }

    fn ppu_read(&mut self, addr: u16) -> (r: u8)
        ensures
            r == old(self).ppu_read_value(addr),
            *final(self) == *old(self),
    {
        if addr < 0x2000 {
            proof {
                lemma_slot_1k(addr);
            }
            let bank = self.chr_banks[(addr >> 10) as usize] as usize;
            read_banked(&self.chr, bank, 0x0400, (addr & 0x03FF) as usize)
        } else {
            0
        }
    }

    fn ppu_write(&mut self, addr: u16, value: u8)
        ensures
            old(self).ppu_write_post(&*final(self), addr, value),
    {
        if addr < 0x2000 && self.chr_is_ram {
            proof {
                lemma_slot_1k(addr);
            }
            let bank = self.chr_banks[(addr >> 10) as usize] as usize;
            write_banked(&mut self.chr, bank, 0x0400, (addr & 0x03FF) as usize, value);
        }
    }

    fn mirroring(&self) -> (r: Mirroring)
        ensures
            r == self.mirroring,
    {
        self.mirroring
    }

    fn tick_cpu_cycle(&mut self)
        ensures
            old(self).tick_cpu_post(&*final(self)),
    {
        if self.irq_enabled {
            if self.irq_counter == 0 {
                self.irq_counter = 0xFFFF;
                self.irq_pending = true;
            } else {
                self.irq_counter = self.irq_counter.wrapping_sub(1);
            }
        }
    }

    fn irq_pending(&self) -> (r: bool)
        ensures
            r == self.irq_pending,
    {
        self.irq_pending
    }

    fn clear_irq(&mut self)
        ensures
            *final(self) == (Mapper26 { irq_pending: false, ..*old(self) }),
    {
        self.irq_pending = false;
    }

    fn suppress_a12_on_sprite_eval_reads(&self) -> (r: bool) {
        false
    }

    fn allow_relaxed_sprite0_hit(&self) -> (r: bool) {
        false
    }

    fn ppu_nametable_read(&mut self, addr: u16, vram: &[u8; 4096]) -> (r: Option<u8>)
        ensures
            r is None,
            *final(self) == *old(self),
    {
        None
    }

    fn notify_ppu_read_addr(&mut self, addr: u16)
        ensures
            *final(self) == *old(self),
    {
    }
}

/// Konami VRC7 (mapper 85): four switchable 8 KiB PRG windows, eight 1 KiB
/// CHR banks and an 8-bit down-counting CPU-cycle IRQ.
pub struct Mapper85 {
    pub prg_rom: Vec<u8>,
    pub chr: Vec<u8>,
    pub chr_is_ram: bool,
    pub prg_ram: Vec<u8>,
    pub mirroring: Mirroring,
    pub prg_banks: [u8; 4],
    pub chr_banks: [u8; 8],
    pub irq_enabled: bool,
    pub irq_counter: u8,
    pub irq_pending: bool,
    pub control: u8,
}

impl Mapper85 {
    pub open spec fn wf(&self) -> bool {
        &&& memory_ok(self.prg_rom@)
        &&& memory_ok(self.chr@)
        &&& memory_ok(self.prg_ram@)
    }

    pub open spec fn initialized_from(&self, cart: &Cartridge) -> bool {
        &&& self.prg_rom@ == cart.prg_rom@
        &&& self.chr@ == cart.chr_data@
        &&& self.chr_is_ram == cart.chr_is_ram
        &&& self.prg_ram@ == fresh_prg_ram(cart.prg_ram_size)
        &&& self.mirroring == cart.mirroring
        &&& self.prg_banks@ == seq![0u8, 1u8, 0xFEu8, 0xFFu8]
        &&& self.chr_banks@ == Seq::new(8, |i: int| 0u8)
        &&& !self.irq_enabled
        &&& self.irq_counter == 0
        &&& !self.irq_pending
        &&& self.control == 0xC0
    }

    pub fn new(cart: Cartridge) -> (m: Self)
        requires
            cart.wf(),
        ensures
            m.initialized_from(&cart),
            m.wf(),
    {
        let m = Self {
            prg_rom: cart.prg_rom,
            chr: cart.chr_data,
            chr_is_ram: cart.chr_is_ram,
            prg_ram: new_prg_ram(cart.prg_ram_size),
            mirroring: cart.mirroring,
            prg_banks: [0, 1, 0xFE, 0xFF],
            chr_banks: [0; 8],
            irq_enabled: false,
            irq_counter: 0,
            irq_pending: false,
            control: 0xC0,
        };
        assert(m.prg_banks@ =~= seq![0u8, 1u8, 0xFEu8, 0xFFu8]);
        assert(m.chr_banks@ =~= Seq::new(8, |i: int| 0u8));
        m
    }

    pub fn prg_bank_count_8k(&self) -> (r: usize)
        ensures
            r == bank_count_spec(self.prg_rom@.len(), 0x2000),
            r >= 1,
    {
        bank_count(self.prg_rom.len(), 0x2000)
    }

    pub fn chr_bank_count_1k(&self) -> (r: usize)
        ensures
            r == bank_count_spec(self.chr@.len(), 0x0400),
            r >= 1,
    {
        bank_count(self.chr.len(), 0x0400)
    }

    /// The byte the CPU reads at `addr`: four switchable 8 KiB PRG windows.
    pub open spec fn cpu_read_value(&self, addr: u16) -> u8 {
        if 0x6000 <= addr <= 0x7FFF {
            ram_read_spec(self.prg_ram@, addr)
        } else if 0x8000 <= addr {
            banked_read_spec(
                self.prg_rom@,
                self.prg_banks@[((addr - 0x8000) / 0x2000) as int] as nat,
                0x2000,
                (addr & 0x1FFF) as nat,
            )
        } else {
            0
        }
    }

    /// $8000-$8FFF: registers 0/2/4/6 select the PRG banks, 8 the control
    /// byte and mirroring, A the IRQ counter, E the IRQ enable. $9000-$9FFF:
    /// even registers 0-E select the eight 1 KiB CHR banks.
    pub open spec fn cpu_write_post(&self, post: &Self, addr: u16, value: u8) -> bool {
        let reg = addr & 0x0F;
        if 0x6000 <= addr <= 0x7FFF {
            &&& post.prg_ram@ == ram_write_spec(self.prg_ram@, addr, value)
            &&& *post == Mapper85 { prg_ram: post.prg_ram, ..*self }
        } else if 0x8000 <= addr <= 0x8FFF && reg <= 6 && reg % 2 == 0 {
            &&& post.prg_banks@ == self.prg_banks@.update((reg / 2) as int, value & 0x0F)
            &&& *post == Mapper85 { prg_banks: post.prg_banks, ..*self }
        } else if 0x8000 <= addr <= 0x8FFF && reg == 8 {
            *post == Mapper85 {
                control: value,
                mirroring: if (value & 0x01) != 0 {
                    Mirroring::Vertical
                } else {
                    Mirroring::Horizontal
                },
                ..*self
            }
        } else if 0x8000 <= addr <= 0x8FFF && reg == 0xA {
            *post == Mapper85 { irq_counter: value, ..*self }
        } else if 0x8000 <= addr <= 0x8FFF && reg == 0xE {
            *post == Mapper85 { irq_enabled: (value & 0x01) != 0, ..*self }
        } else if 0x9000 <= addr <= 0x9FFF && reg % 2 == 0 {
            &&& post.chr_banks@ == self.chr_banks@.update((reg / 2) as int, value)
            &&& *post == Mapper85 { chr_banks: post.chr_banks, ..*self }
        } else {
            *post == *self
        }
    }

    /// Index in CHR of a pattern address below $2000: eight 1 KiB banks.
    pub open spec fn chr_index(&self, addr: u16) -> nat {
        banked_index_spec(
            self.chr@.len(),
            self.chr_banks@[(addr >> 10) as int] as nat,
            0x0400,
            (addr & 0x03FF) as nat,
        )
    }

    pub open spec fn ppu_read_value(&self, addr: u16) -> u8 {
        if addr < 0x2000 {
            self.chr@[self.chr_index(addr) as int]
        } else {
            0
        }
    }

    pub open spec fn ppu_write_post(&self, post: &Self, addr: u16, value: u8) -> bool {
        if addr < 0x2000 && self.chr_is_ram {
            &&& post.chr@ == self.chr@.update(self.chr_index(addr) as int, value)
            &&& *post == Mapper85 { chr: post.chr, ..*self }
        } else {
            *post == *self
        }
    }

    /// A CPU cycle: while enabled the counter counts down; from zero it reloads
    /// with $FF and raises the IRQ.
    pub open spec fn tick_cpu_post(&self, post: &Self) -> bool {
        if self.irq_enabled {
            if self.irq_counter == 0 {
                *post == Mapper85 { irq_counter: 0xFF, irq_pending: true, ..*self }
            } else {
                *post == Mapper85 { irq_counter: (self.irq_counter - 1) as u8, ..*self }
            }
        } else {
            *post == *self
        }
    }

    /// PRG bank registers: writing `v` to register 2k (k = 0-3) at
    /// $8000-$8FFF makes the 8 KiB window at $8000 + k * $2000 show bank
    /// `v` (its low four bits); the other three windows keep their banks.
    pub proof fn law_prg_bank_registers(m0: Self, m1: Self, addr: u16, v: u8, k: u16, a: u16)
        requires
            0x8000 <= addr <= 0x8FFF,
            k < 4,
            (addr & 0x0F) == 2 * k,
            m0.cpu_write_post(&m1, addr, v),
            0x8000 <= a,
        ensures
            (a - 0x8000) / 0x2000 == k ==> m1.cpu_read_value(a) == banked_read_spec(
                m0.prg_rom@,
                (v & 0x0F) as nat,
                0x2000,
                (a & 0x1FFF) as nat,
            ),
            (a - 0x8000) / 0x2000 != k ==> m1.cpu_read_value(a) == m0.cpu_read_value(a),
    {
        assert(m0.prg_banks@.len() == 4);
    }

    /// A byte written to PRG RAM reads back at the same address.
    pub proof fn law_prg_ram_roundtrip(m0: Self, m1: Self, addr: u16, value: u8)
        requires
            m0.wf(),
            0x6000 <= addr <= 0x7FFF,
            m0.cpu_write_post(&m1, addr, value),
        ensures
            m1.cpu_read_value(addr) == value,
    {
        lemma_ram_roundtrip(m0.prg_ram@, addr, value);
    }
}

impl Mapper for Mapper85 {
    open spec fn chr_read_post(&self, post: &Self, addr: u16, r: u8) -> bool {
        r == self.ppu_read_value(addr) && *post == *self
    }

    open spec fn read_seen_post(&self, post: &Self, addr: u16) -> bool {
        *post == *self
    }

    open spec fn nametable_read_spec(&self, post: &Self, addr: u16, vram: Seq<u8>, r: Option<u8>) -> bool {
        r is None && *post == *self
    }

    open spec fn inv(&self) -> bool {
        self.wf()
    }

    open spec fn suppresses_a12_view(&self) -> bool {
        false
    }

    open spec fn relaxed_sprite0_view(&self) -> bool {
        false
    }

    open spec fn owns_nametables(&self) -> bool {
        false
    }

    open spec fn mirroring_view(&self) -> Mirroring {
        self.mirroring
    }

    fn cpu_read(&mut self, addr: u16) -> (r: u8)
        ensures
            r == old(self).cpu_read_value(addr),
            *final(self) == *old(self),
    {
        proof {
            lemma_and_u16(addr, 0x1FFF);
        }
        if 0x6000 <= addr && addr <= 0x7FFF {
            read_ram(&self.prg_ram, addr)
        } else if 0x8000 <= addr && addr <= 0x9FFF {
            read_banked(&self.prg_rom, self.prg_banks[0] as usize, 0x2000, (addr & 0x1FFF) as usize)
        } else if 0xA000 <= addr && addr <= 0xBFFF {
            read_banked(&self.prg_rom, self.prg_banks[1] as usize, 0x2000, (addr & 0x1FFF) as usize)
        } else if 0xC000 <= addr && addr <= 0xDFFF {
            read_banked(&self.prg_rom, self.prg_banks[2] as usize, 0x2000, (addr & 0x1FFF) as usize)
        } else if 0xE000 <= addr {
            read_banked(&self.prg_rom, self.prg_banks[3] as usize, 0x2000, (addr & 0x1FFF) as usize)
        } else {
            0
        }
    }

    fn cpu_write(&mut self, addr: u16, value: u8)
        ensures
            old(self).cpu_write_post(&*final(self), addr, value),
    {
        proof {
            lemma_and_u16(addr, 0x0F);
        }
        if 0x6000 <= addr && addr <= 0x7FFF {
            write_ram(&mut self.prg_ram, addr, value);
        } else if 0x8000 <= addr && addr <= 0x8FFF {
            let reg = addr & 0x0F;
            match reg {
                0x0 => { self.prg_banks[0] = value & 0x0F; }
                0x2 => { self.prg_banks[1] = value & 0x0F; }
                0x4 => { self.prg_banks[2] = value & 0x0F; }
                0x6 => { self.prg_banks[3] = value & 0x0F; }
                0x8 => {
                    self.control = value;
                    self.mirroring = if (value & 0x01) != 0 {
                        Mirroring::Vertical
                    } else {
                        Mirroring::Horizontal
                    };
                },
                0xA => {
                    self.irq_counter = value;
                },
                0xE => self.irq_enabled = (value & 0x01) != 0,
                _ => {},
            }
        } else if 0x9000 <= addr && addr <= 0x9FFF {
            let reg = addr & 0x0F;
            match reg {
                0x0 => { self.chr_banks[0] = value; }
                0x2 => { self.chr_banks[1] = value; }
                0x4 => { self.chr_banks[2] = value; }
                0x6 => { self.chr_banks[3] = value; }
                0x8 => { self.chr_banks[4] = value; }
                0xA => { self.chr_banks[5] = value; }
                0xC => { self.chr_banks[6] = value; }
                0xE => { self.chr_banks[7] = value; }
                _ => {},
            }
        }
    }

    fn ppu_read(&mut self, addr: u16) -> (r: u8)
        ensures
            r == old(self).ppu_read_value(addr),
            *final(self) == *old(self),
    {
        if addr < 0x2000 {
            proof {
                lemma_slot_1k(addr);
            }
            let bank = self.chr_banks[(addr >> 10) as usize] as usize;
            read_banked(&self.chr, bank, 0x0400, (addr & 0x03FF) as usize)
        } else {
            0
        }
    }

    fn ppu_write(&mut self, addr: u16, value: u8)
        ensures
            old(self).ppu_write_post(&*final(self), addr, value),
    {
        if addr < 0x2000 && self.chr_is_ram {
            proof {
                lemma_slot_1k(addr);
            }
            let bank = self.chr_banks[(addr >> 10) as usize] as usize;
            write_banked(&mut self.chr, bank, 0x0400, (addr & 0x03FF) as usize, value);
        }
    }

    fn mirroring(&self) -> (r: Mirroring)
        ensures
            r == self.mirroring,
    {
        self.mirroring
    }

    fn tick_cpu_cycle(&mut self)
        ensures
            old(self).tick_cpu_post(&*final(self)),
    {
        if self.irq_enabled {
            if self.irq_counter == 0 {
                self.irq_counter = 0xFF;
                self.irq_pending = true;
            } else {
                self.irq_counter = self.irq_counter.wrapping_sub(1);
            }
        }
    }

    fn irq_pending(&self) -> (r: bool)
        ensures
            r == self.irq_pending,
    {
        self.irq_pending
    }

    fn clear_irq(&mut self)
        ensures
            *final(self) == (Mapper85 { irq_pending: false, ..*old(self) }),
    {
        self.irq_pending = false;
    }

    fn suppress_a12_on_sprite_eval_reads(&self) -> (r: bool) {
        false
    }

    fn allow_relaxed_sprite0_hit(&self) -> (r: bool) {
        false
    }

    fn ppu_nametable_read(&mut self, addr: u16, vram: &[u8; 4096]) -> (r: Option<u8>)
        ensures
            r is None,
            *final(self) == *old(self),
    {
        None
    }

    fn notify_ppu_read_addr(&mut self, addr: u16)
        ensures
            *final(self) == *old(self),
    {
    }
}

} // verus!
