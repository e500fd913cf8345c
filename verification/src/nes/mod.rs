use vstd::prelude::*;

pub mod cartridge;
pub mod cpu;
pub mod cpu_laws;
pub mod mapper;
pub mod apu;
pub mod apu_laws;
pub mod palette;
pub mod ppu;
pub mod ppu_laws;

use vstd::string::*;

use self::apu::{Apu, ChannelLevels};
use self::cartridge::Cartridge;
use self::cpu::{step_outcome, word_loaded, CpuRegs, FLAG_BREAK, FLAG_INTERRUPT, FLAG_UNUSED};
use self::mapper::{create_mapper, mapper_name, mapper_name_spec, AnyMapper, Mapper, MapperError};
use self::ppu::{register_read_post, register_write_post, tick_post, Ppu, PpuDebugCounters, PpuTiming};

verus! {

/// Controller buttons, one bit each in the order the pad shifts them out.
pub const BUTTON_A: u8 = 0x01;

pub const BUTTON_B: u8 = 0x02;

pub const BUTTON_SELECT: u8 = 0x04;

pub const BUTTON_START: u8 = 0x08;

pub const BUTTON_UP: u8 = 0x10;

pub const BUTTON_DOWN: u8 = 0x20;

pub const BUTTON_LEFT: u8 = 0x40;

pub const BUTTON_RIGHT: u8 = 0x80;

/// Counters of the whole console's bus and clock activity, for debugging.
#[derive(Debug, Clone, Copy)]
pub struct NesDebugCounters {
    pub frame_count: u64,
    pub cpu_steps: u64,
    pub cpu_reads: u64,
    pub cpu_writes: u64,
    pub cpu_reads_ram: u64,
    pub cpu_reads_ppu_regs: u64,
    pub cpu_reads_apu_io: u64,
    pub cpu_reads_cart: u64,
    pub cpu_writes_ram: u64,
    pub cpu_writes_ppu_regs: u64,
    pub cpu_writes_apu_io: u64,
    pub cpu_writes_cart: u64,
    pub ppu_cycles: u64,
    pub apu_ticks: u64,
    pub dma_transfers: u64,
    pub dmc_dma_transfers: u64,
    pub dmc_dma_stall_cycles: u64,
    pub irq_serviced_count: u64,
    pub last_cpu_read_addr: u16,
    pub last_cpu_write_addr: u16,
    pub last_cpu_write_value: u8,
}

impl Default for NesDebugCounters {
    fn default() -> (r: Self)
        ensures
            r == (NesDebugCounters {
                frame_count: 0,
                cpu_steps: 0,
                cpu_reads: 0,
                cpu_writes: 0,
                cpu_reads_ram: 0,
                cpu_reads_ppu_regs: 0,
                cpu_reads_apu_io: 0,
                cpu_reads_cart: 0,
                cpu_writes_ram: 0,
                cpu_writes_ppu_regs: 0,
                cpu_writes_apu_io: 0,
                cpu_writes_cart: 0,
                ppu_cycles: 0,
                apu_ticks: 0,
                dma_transfers: 0,
                dmc_dma_transfers: 0,
                dmc_dma_stall_cycles: 0,
                irq_serviced_count: 0,
                last_cpu_read_addr: 0,
                last_cpu_write_addr: 0,
                last_cpu_write_value: 0,
            }),
    {
        NesDebugCounters {
            frame_count: 0,
            cpu_steps: 0,
            cpu_reads: 0,
            cpu_writes: 0,
            cpu_reads_ram: 0,
            cpu_reads_ppu_regs: 0,
            cpu_reads_apu_io: 0,
            cpu_reads_cart: 0,
            cpu_writes_ram: 0,
            cpu_writes_ppu_regs: 0,
            cpu_writes_apu_io: 0,
            cpu_writes_cart: 0,
            ppu_cycles: 0,
            apu_ticks: 0,
            dma_transfers: 0,
            dmc_dma_transfers: 0,
            dmc_dma_stall_cycles: 0,
            irq_serviced_count: 0,
            last_cpu_read_addr: 0,
            last_cpu_write_addr: 0,
            last_cpu_write_value: 0,
        }
    }
}


/// The decimal digits of `n`.
pub open spec fn decimal_spec(n: nat) -> Seq<char>
    decreases n,
{
    if n < 10 {
        seq![digit_char(n)]
    } else {
        decimal_spec(n / 10).push(digit_char(n % 10))
    }
}

pub open spec fn digit_char(d: nat) -> char {
    ('0' as nat + d) as char
}

fn digit_str(d: u32) -> (r: &'static str)
    requires
        d < 10,
    ensures
        r@ == seq![digit_char(d as nat)],
{
    proof {
        reveal_strlit("0");
        reveal_strlit("1");
        reveal_strlit("2");
        reveal_strlit("3");
        reveal_strlit("4");
        reveal_strlit("5");
        reveal_strlit("6");
        reveal_strlit("7");
        reveal_strlit("8");
        reveal_strlit("9");
    }
    let r = match d {
        0 => "0",
        1 => "1",
        2 => "2",
        3 => "3",
        4 => "4",
        5 => "5",
        6 => "6",
        7 => "7",
        8 => "8",
        _ => "9",
    };
    assert(r@ =~= seq![digit_char(d as nat)]);
    r
}

/// Appends the decimal digits of `n`.
fn append_decimal(s: &mut String, n: u32)
    ensures
        final(s)@ == old(s)@ + decimal_spec(n as nat),
    decreases n,
{
    if n >= 10 {
        append_decimal(s, n / 10);
    }
    let d = digit_str(n % 10);
    s.append(d);
    proof {
        if n >= 10 {
            assert(decimal_spec(n as nat) == decimal_spec((n / 10) as nat).push(digit_char((n % 10) as nat)));
        }
    }
    assert(final(s)@ =~= old(s)@ + decimal_spec(n as nat)) by {
        if n < 10 {
            assert(decimal_spec(n as nat) =~= seq![digit_char(n as nat)]);
        }
    }
}

/// The APU's invariant, kept behind a name in the console's own proofs.
#[verifier::opaque]
pub open spec fn apu_ok(apu: &Apu) -> bool {
    apu.wf()
}

/// One APU cycle, seen from the console: the APU stays well formed.
fn run_apu_cycle(apu: &mut Apu)
    requires
        apu_ok(old(apu)),
    ensures
        apu_ok(final(apu)),
        apu_clocked(*old(apu), *final(apu)),
{
    proof {
        reveal(apu_ok);
        reveal(apu_clocked);
    }
    apu.tick();
}

/// A DMC DMA byte delivered to the APU, seen from the console.
fn deliver_dmc_byte(apu: &mut Apu, value: u8)
    requires
        apu_ok(old(apu)),
    ensures
        apu_ok(final(apu)),
        dmc_delivered(*old(apu), *final(apu), value),
{
    proof {
        reveal(apu_ok);
        reveal(dmc_delivered);
    }
    apu.complete_dmc_dma(value);
}

/// A pending DMC fetch request handed out, seen from the console.
fn apu_take_dmc_request(apu: &mut Apu) -> (r: Option<u16>)
    requires
        apu_ok(old(apu)),
    ensures
        apu_ok(final(apu)),
        r == old(apu).dmc_dma_request,
        *final(apu) == (Apu { dmc_dma_request: None, ..*old(apu) }),
{
    proof {
        reveal(apu_ok);
    }
    apu.take_dmc_dma_request()
}

/// The APU status read, seen from the console.
fn apu_read_status(apu: &mut Apu) -> (r: u8)
    requires
        apu_ok(old(apu)),
    ensures
        apu_ok(final(apu)),
        r == old(apu).status_spec(),
        final(apu).dmc == old(apu).dmc,
        !final(apu).frame_irq_flag,
{
    proof {
        reveal(apu_ok);
    }
    apu.read_status()
}

/// An APU register write, seen from the console.
fn apu_write_register(apu: &mut Apu, addr: u16, value: u8)
    requires
        apu_ok(old(apu)),
    ensures
        apu_ok(final(apu)),
        *final(apu) == old(apu).register_written(addr, value),
{
    proof {
        reveal(apu_ok);
    }
    apu.write_register(addr, value);
}

/// The text a loaded board is shown by: its name, the mapper number and, if
/// not zero, the submapper number, as "MMC3 (mapper 4)" or
/// "MMC3 (mapper 4, submapper 1)".
pub open spec fn board_label(name: Seq<char>, mapper_id: u16, submapper_id: u8) -> Seq<char> {
    if submapper_id != 0 {
        name + " (mapper "@ + decimal_spec(mapper_id as nat) + ", submapper "@ + decimal_spec(
            submapper_id as nat,
        ) + ")"@
    } else {
        name + " (mapper "@ + decimal_spec(mapper_id as nat) + ")"@
    }
}

pub fn format_board_label(name: &str, mapper_id: u16, submapper_id: u8) -> (r: String)
    ensures
        r@ == board_label(name@, mapper_id, submapper_id),
{
    let mut s = String::from_str(name);
    s.append(" (mapper ");
    append_decimal(&mut s, mapper_id as u32);
    if submapper_id != 0 {
        s.append(", submapper ");
        append_decimal(&mut s, submapper_id as u32);
    }
    s.append(")");
    assert(s@ =~= board_label(name@, mapper_id, submapper_id));
    s
}


/// The whole console: CPU registers and RAM, PPU, APU, the cartridge board,
/// controllers and light gun, and the CPU's interrupt and DMA state.
pub struct Nes {
    pub cpu: CpuRegs,
    pub ram: [u8; 2048],
    pub ppu: Ppu,
    pub apu: Apu,
    pub mapper: Option<AnyMapper>,
    pub mapper_name: String,
    pub mapper_id: Option<u16>,
    pub loaded_rom_name: Option<String>,
    pub controller_state: u8,
    pub controller_shift: u8,
    pub controller_strobe: bool,
    pub controller2_state: u8,
    pub controller2_shift: u8,
    pub cpu_open_bus: u8,
    pub zapper_x: i16,
    pub zapper_y: i16,
    pub zapper_trigger: bool,
    pub pending_nmi: bool,
    pub pending_irq: bool,
    pub dma_cycles: u32,
    pub total_cycles: u64,
    pub halted: bool,
    pub nmi_serviced_count: u64,
    pub unknown_opcode_count: u64,
    pub last_unknown_opcode: u8,
    pub last_unknown_pc: u16,
    pub cpu_step_in_progress: bool,
    pub cpu_step_ticked_cycles: u32,
    pub debug: NesDebugCounters,
}

/// The controller's shift register after one read with the strobe low:
/// the next button moves into bit 0 and a 1 fills in from the top.
pub open spec fn controller_shifted(shift: u8) -> u8 {
    (shift >> 1) | 0x80
}

/// The shift register after `k` such reads.
pub open spec fn controller_shift_after(s: u8, k: nat) -> u8
    decreases k,
{
    if k == 0 {
        s
    } else {
        controller_shifted(controller_shift_after(s, (k - 1) as nat))
    }
}

/// What the board shows of pattern memory at `addr` without side effects,
/// 0 without a board.
pub open spec fn chr_peek(n: Nes, addr: u16) -> u8 {
    match n.mapper {
        Some(m) => m.peek_chr_spec(addr),
        None => 0,
    }
}

/// Index in the 2 KiB of internal RAM of a CPU address below $2000 (RAM is
/// mirrored four times).
pub open spec fn ram_index(addr: u16) -> int {
    (addr % 2048) as int
}

/// The value a CPU read of `addr` yields where the console alone decides it:
/// internal RAM below $2000.
pub open spec fn ram_value(n: Nes, addr: u16) -> Option<u8> {
    if addr <= 0x1FFF {
        Some(n.ram[ram_index(addr)])
    } else {
        None
    }
}

/// Memory after a CPU write: internal RAM below $2000 takes the byte.
pub open spec fn ram_after_write(ram: Seq<u8>, addr: u16, value: u8) -> Seq<u8> {
    if addr <= 0x1FFF {
        ram.update(ram_index(addr), value)
    } else {
        ram
    }
}

impl Nes {
    /// The PPU, the APU and the board (if any) keep their invariants.
    pub open spec fn wf(&self) -> bool {
        &&& self.ppu.wf()
        &&& apu_ok(&self.apu)
        &&& (self.mapper matches Some(m) ==> m.inv())
    }

    /// What a bus cycle leaves alone: the CPU registers, RAM, the halt flag,
    /// the board's presence and the step bookkeeping.
    pub open spec fn bus_frame(&self, other: &Self) -> bool {
        &&& other.cpu == self.cpu
        &&& self.machine_frame(other)
    }

    /// What neither a bus cycle nor a register update touches: the halt
    /// flag, the board's presence, name and number, the step bookkeeping and
    /// the cycle and interrupt counts.
    pub open spec fn machine_frame(&self, other: &Self) -> bool {
        &&& other.halted == self.halted
        &&& (other.mapper is Some <==> self.mapper is Some)
        &&& other.cpu_step_in_progress == self.cpu_step_in_progress
        &&& other.loaded_rom_name == self.loaded_rom_name
        &&& other.mapper_name == self.mapper_name
        &&& other.mapper_id == self.mapper_id
        &&& other.total_cycles == self.total_cycles
        &&& other.nmi_serviced_count == self.nmi_serviced_count
        &&& other.unknown_opcode_count == self.unknown_opcode_count
    }

    pub fn new() -> (n: Self)
        ensures
            n.wf(),
            n.mapper is None,
            n.cpu == (CpuRegs { a: 0, x: 0, y: 0, p: FLAG_INTERRUPT | FLAG_UNUSED, sp: 0xFD, pc: 0 }),
            n.mapper_name@ == "No ROM loaded"@,
            !n.halted,
            n.total_cycles == 0,
    {
        proof {
            reveal(apu_ok);
        }
        Nes {
            cpu: CpuRegs { a: 0, x: 0, y: 0, p: FLAG_INTERRUPT | FLAG_UNUSED, sp: 0xFD, pc: 0 },
            ram: [0; 2048],
            ppu: Ppu::new(),
            apu: Apu::new(),
            mapper: None,
            mapper_name: String::from_str("No ROM loaded"),
            mapper_id: None,
            loaded_rom_name: None,
            controller_state: 0,
            controller_shift: 0,
            controller_strobe: false,
            controller2_state: 0,
            controller2_shift: 0,
            cpu_open_bus: 0,
            zapper_x: -1,
            zapper_y: -1,
            zapper_trigger: false,
            pending_nmi: false,
            pending_irq: false,
            dma_cycles: 0,
            total_cycles: 0,
            halted: false,
            nmi_serviced_count: 0,
            unknown_opcode_count: 0,
            last_unknown_opcode: 0,
            last_unknown_pc: 0,
            cpu_step_in_progress: false,
            cpu_step_ticked_cycles: 0,
            debug: NesDebugCounters::default(),
        }
    }

    pub fn mapper_name(&self) -> (r: &str)
        ensures
            r@ == self.mapper_name@,
    {
        self.mapper_name.as_str()
    }

    pub fn accuracy_profile(&self) -> (r: &'static str)
        ensures
            r@ == "V5 Accuracy-First"@,
    {
        "V5 Accuracy-First"
    }

    pub fn has_rom(&self) -> (r: bool)
        ensures
            r == self.mapper is Some,
    {
        self.mapper.is_some()
    }

    pub fn frame_buffer(&self) -> (r: &[u8])
        ensures
            r@ == self.ppu.frame_buffer@,
    {
        self.ppu.frame_buffer()
    }

    pub fn set_audio_sample_rate(&mut self, sample_rate: u32)
        requires
            old(self).wf(),
        ensures
            final(self).wf(),
            final(self).apu.sample_rate == if sample_rate < 8000 {
                8000
            } else {
                sample_rate
            },
    {
        proof {
            reveal(apu_ok);
        }
        self.apu.set_sample_rate(sample_rate);
    }

    pub fn audio_sample_rate(&self) -> (r: u32)
        ensures
            r == self.apu.sample_rate,
    {
        self.apu.sample_rate()
    }

    /// The channel levels at each output sample since the last call.
    pub fn take_audio_levels(&mut self) -> (r: Vec<ChannelLevels>)
        ensures
            r@ == old(self).apu.levels@,
            final(self).apu.levels@ == Seq::<ChannelLevels>::empty(),
            final(self).wf() == old(self).wf(),
            old(self).board_frame(&*final(self)),
            final(self).debug == old(self).debug,
            final(self).halted == old(self).halted,
            levels_drained(*old(self), *final(self)),
    {
        proof {
            reveal(apu_ok);
        }
        self.apu.take_levels()
    }

    pub fn debug_pc(&self) -> (r: u16)
        ensures
            r == self.cpu.pc,
    {
        self.cpu.pc
    }

    pub fn debug_halted(&self) -> (r: bool)
        ensures
            r == self.halted,
    {
        self.halted
    }

    pub fn debug_total_cycles(&self) -> (r: u64)
        ensures
            r == self.total_cycles,
    {
        self.total_cycles
    }

    pub fn debug_nmi_serviced_count(&self) -> (r: u64)
        ensures
            r == self.nmi_serviced_count,
    {
        self.nmi_serviced_count
    }

    pub fn debug_unknown_opcode_count(&self) -> (r: u64)
        ensures
            r == self.unknown_opcode_count,
    {
        self.unknown_opcode_count
    }

    pub fn debug_last_unknown_opcode(&self) -> (r: (u8, u16))
        ensures
            r == (self.last_unknown_opcode, self.last_unknown_pc),
    {
        (self.last_unknown_opcode, self.last_unknown_pc)
    }

    pub fn debug_ppu_regs(&self) -> (r: (u8, u8, u8))
        ensures
            r == (self.ppu.regs.ctrl, self.ppu.regs.mask, self.ppu.regs.status),
    {
        (self.ppu.debug_ctrl(), self.ppu.debug_mask(), self.ppu.debug_status())
    }

    pub fn debug_ppu_scanline_cycle(&self) -> (r: (i16, i16))
        ensures
            r == (self.ppu.timing.scanline, self.ppu.timing.cycle),
    {
        self.ppu.debug_scanline_cycle()
    }

    pub fn debug_ppu_mask_writes(&self) -> (r: (u64, u8))
        ensures
            r == (self.ppu.regs.debug_mask_write_count, self.ppu.regs.debug_last_mask_value),
    {
        self.ppu.debug_mask_write_stats()
    }

    /// Internal RAM at `addr`, mirrored every 2 KiB.
    pub fn debug_peek_internal_ram(&self, addr: u16) -> (r: u8)
        ensures
            r == self.ram[ram_index(addr)],
    {
        self.ram[(addr as usize) % 2048]
    }

    pub fn debug_peek_vram(&self, index: usize) -> (r: u8)
        ensures
            r == self.ppu.vram[(index % 4096) as int],
    {
        self.ppu.debug_peek_vram(index)
    }

    pub fn debug_peek_palette(&self, index: usize) -> (r: u8)
        ensures
            r == self.ppu.palette_ram[(index % 32) as int],
    {
        self.ppu.debug_peek_palette(index)
    }

    pub fn debug_peek_oam(&self, index: usize) -> (r: u8)
        ensures
            r == self.ppu.oam[(index % 256) as int],
    {
        self.ppu.debug_peek_oam(index)
    }

    /// CHR memory as the board maps it, or 0 with no board.
    pub fn debug_peek_chr(&self, addr: u16) -> (r: u8)
        requires
            self.wf(),
        ensures
            r == chr_peek(*self, addr),
    {
        match &self.mapper {
            Some(m) => m.debug_peek_chr(addr),
            None => 0,
        }
    }

    pub fn debug_cpu_regs(&self) -> (r: (u8, u8, u8, u8, u8, u16))
        ensures
            r == (self.cpu.a, self.cpu.x, self.cpu.y, self.cpu.p, self.cpu.sp, self.cpu.pc),
    {
        (self.cpu.a, self.cpu.x, self.cpu.y, self.cpu.p, self.cpu.sp, self.cpu.pc)
    }

    pub fn debug_interrupt_state(&self) -> (r: (bool, bool, u32))
        ensures
            r == (self.pending_nmi, self.pending_irq, self.dma_cycles),
    {
        (self.pending_nmi, self.pending_irq, self.dma_cycles)
    }

    pub fn debug_controller_state(&self) -> (r: (u8, u8, bool, i16, i16, bool))
        ensures
            r == (
                self.controller_state,
                self.controller2_state,
                self.controller_strobe,
                self.zapper_x,
                self.zapper_y,
                self.zapper_trigger,
            ),
    {
        (
            self.controller_state,
            self.controller2_state,
            self.controller_strobe,
            self.zapper_x,
            self.zapper_y,
            self.zapper_trigger,
        )
    }

    pub fn debug_counters(&self) -> (r: NesDebugCounters)
        ensures
            r == self.debug,
    {
        self.debug
    }

    pub fn debug_ppu_counters(&self) -> (r: PpuDebugCounters)
        ensures
            r == self.ppu.debug,
    {
        self.ppu.debug_counters()
    }

    /// Sets the buttons held on controller 1; while the strobe is high the
    /// shift registers follow the buttons.
    pub fn set_controller_state(&mut self, state: u8)
        ensures
            final(self).controller_state == state,
            final(self).controller_shift == if old(self).controller_strobe {
                state
            } else {
                old(self).controller_shift
            },
            final(self).controller2_shift == if old(self).controller_strobe {
                old(self).controller2_state
            } else {
                old(self).controller2_shift
            },
            final(self).wf() == old(self).wf(),
            old(self).board_frame(&*final(self)),
            final(self).debug == old(self).debug,
            final(self).halted == old(self).halted,
            *final(self) == controller_set(*old(self), state),
    {
        self.controller_state = state;
        if self.controller_strobe {
            self.controller_shift = self.controller_state;
            self.controller2_shift = self.controller2_state;
        }
    }

    pub fn set_zapper_state(&mut self, x: i16, y: i16, trigger: bool)
        ensures
            final(self).zapper_x == x,
            final(self).zapper_y == y,
            final(self).zapper_trigger == trigger,
            final(self).wf() == old(self).wf(),
    {
        self.zapper_x = x;
        self.zapper_y = y;
        self.zapper_trigger = trigger;
    }
}


/// The PPU after a dot that left it as `p`, once the console took its NMI.
pub open spec fn nmi_taken(p: Ppu) -> Ppu {
    Ppu { timing: PpuTiming { nmi_pending: false, ..p.timing }, ..p }
}

/// The board a PPU dot leaves: well formed, with the same nametable
/// arrangement.
pub open spec fn board_kept(m: AnyMapper, after: Option<AnyMapper>) -> bool {
    match after {
        Some(m2) => m2.inv() && m2.owns_nametables() == m.owns_nametables() && m2.mirroring_view()
            == m.mirroring_view(),
        None => false,
    }
}

/// One PPU dot, seen from the console, with `p` the PPU the dot produced:
/// the PPU advances one dot (the board stays well formed with the same
/// nametable arrangement), an NMI it raised becomes pending, and nothing
/// else changes.
pub open spec fn dot_via(a: Nes, b: Nes, p: Ppu) -> bool {
    &&& match a.mapper {
        Some(m) => tick_post(a.ppu, p, m.relaxed_sprite0_view()) && board_kept(m, b.mapper),
        None => p == a.ppu && b.mapper is None,
    }
    &&& b == Nes {
        ppu: nmi_taken(p),
        pending_nmi: a.pending_nmi || p.timing.nmi_pending,
        mapper: b.mapper,
        debug: b.debug,
        ..a
    }
}

/// One PPU dot, seen from the console.
#[verifier::opaque]
pub open spec fn dot_post(a: Nes, b: Nes) -> bool {
    exists|p: Ppu| #[trigger] dot_via(a, b, p)
}

/// Three PPU dots through `d1` and `d2`.
pub open spec fn dots_via(a: Nes, d1: Nes, d2: Nes, b: Nes) -> bool {
    dot_post(a, d1) && dot_post(d1, d2) && dot_post(d2, b)
}

/// The board's CPU-cycle clock: the board clocks, and its IRQ line, if
/// raised, becomes pending.
pub open spec fn board_ticked(a: Nes, b: Nes) -> bool {
    match a.mapper {
        Some(m) => match b.mapper {
            Some(m2) => m.tick_cpu_post(&m2) && b == Nes {
                pending_irq: a.pending_irq || m2.irq_spec(),
                debug: b.debug,
                mapper: b.mapper,
                ..a
            },
            None => false,
        },
        None => b == Nes { debug: b.debug, ..a },
    }
}

/// The APU after its CPU-cycle clock: the clocked APU, with the channel
/// levels of each output sample that fell due appended.
#[verifier::opaque]
pub open spec fn apu_clocked(a0: Apu, a1: Apu) -> bool {
    let a = a0.clocked();
    let (k, phase) = a.samples_due();
    &&& a1 == Apu { sample_phase: phase, levels: a1.levels, ..a }
    &&& a1.levels@ == a.levels@ + Seq::new(k, |i: int| a.levels_spec())
}

/// The DMC after it took a fetched byte: a further fetch is requested if
/// one is due at once.
#[verifier::opaque]
pub open spec fn dmc_delivered(a0: Apu, a1: Apu, v: u8) -> bool {
    &&& a1.dmc == a0.dmc.after_dma_byte(v)
    &&& a1.dmc_dma_request == if a0.dmc_dma_request is None && a1.dmc.enabled && a1.dmc.dma_pending
        && a1.dmc.dma_delay == 0 {
        Some(a1.dmc.current_addr)
    } else {
        a0.dmc_dma_request
    }
    &&& a1 == Apu { dmc: a1.dmc, dmc_dma_request: a1.dmc_dma_request, ..a0 }
}

/// A DMC fetch of `addr` gave `v`: PRG space from the board (which goes from
/// `a`'s board to `f`'s), RAM below $2000, 0 elsewhere.
pub open spec fn dmc_fetched(a: Nes, f: Nes, addr: u16, v: u8) -> bool {
    if addr >= 0x8000 {
        match a.mapper {
            Some(m) => f.mapper matches Some(m2) && m.cpu_read_post(&m2, addr, v),
            None => v == 0 && f.mapper is None,
        }
    } else {
        &&& f.mapper == a.mapper
        &&& v == if addr <= 0x1FFF {
            a.ram[ram_index(addr)]
        } else {
            0
        }
    }
}

/// The CPU cycles a DMC fetch stalls the CPU: 4 on an even cycle, else 3.
pub open spec fn dmc_stall(n: Nes) -> u32 {
    if n.total_cycles.wrapping_add(n.cpu_step_ticked_cycles as u64) % 2 == 0 {
        4
    } else {
        3
    }
}

/// `a + b`, held at `u32::MAX`.
pub open spec fn saturated(a: u32, b: u32) -> u32 {
    if a + b > u32::MAX {
        u32::MAX
    } else {
        (a + b) as u32
    }
}

/// The APU cycle after the APU clocked to `a1`: a DMC fetch it asks for is
/// made and delivered, stalling the CPU; the APU's IRQ, if raised, becomes
/// pending.
pub open spec fn apu_cycle_via(a: Nes, b: Nes, a1: Apu) -> bool {
    let a2 = Apu { dmc_dma_request: None, ..a1 };
    &&& apu_clocked(a.apu, a1)
    &&& b.pending_irq == (a.pending_irq || b.apu.frame_irq_flag || b.apu.dmc.irq_flag)
    &&& match a1.dmc_dma_request {
        None => b == Nes { apu: a2, pending_irq: b.pending_irq, debug: b.debug, ..a },
        Some(addr) => exists|v: u8, f: Nes|
            #[trigger] dmc_fetched(a, f, addr, v) && dmc_delivered(a2, b.apu, v) && b == Nes {
                apu: b.apu,
                pending_irq: b.pending_irq,
                dma_cycles: saturated(a.dma_cycles, dmc_stall(a)),
                mapper: f.mapper,
                cpu_open_bus: v,
                debug: b.debug,
                ..a
            },
    }
}

/// The APU's CPU cycle, seen from the console.
#[verifier::opaque]
pub open spec fn apu_cycle(a: Nes, b: Nes) -> bool {
    exists|a1: Apu| #[trigger] apu_cycle_via(a, b, a1)
}

/// One CPU cycle of everything but the CPU through `d` and `t`: three PPU
/// dots, the board's clock, the APU's cycle.
pub open spec fn cycle_via(a: Nes, d: Nes, t: Nes, b: Nes) -> bool {
    &&& exists|d1: Nes, d2: Nes| #[trigger] dots_via(a, d1, d2, d)
    &&& board_ticked(d, t)
    &&& apu_cycle(t, b)
}

/// One CPU cycle of everything but the CPU.
#[verifier::opaque]
pub open spec fn cycle_post(a: Nes, b: Nes) -> bool {
    exists|d: Nes, t: Nes| #[trigger] cycle_via(a, d, t, b)
}

/// What a bus access does before the access itself: inside a CPU step the
/// rest of the machine runs a cycle (counted toward the step); outside one,
/// nothing.
pub open spec fn bus_cycle(a: Nes, b: Nes) -> bool {
    if a.cpu_step_in_progress {
        cycle_post(
            Nes { cpu_step_ticked_cycles: saturated(a.cpu_step_ticked_cycles, 1), ..a },
            b,
        )
    } else {
        b == Nes { debug: b.debug, ..a }
    }
}

/// Whether the board holds its IRQ line low.
pub open spec fn board_irq(n: Nes) -> bool {
    match n.mapper {
        Some(m) => m.irq_spec(),
        None => false,
    }
}

/// What a CPU bus read of `addr` does to a machine that does not run a
/// cycle first, answering `r`: RAM below $2000; the PPU registers, mirrored
/// every eight bytes, to $3FFF; APU status at $4015 (acknowledging the frame
/// IRQ); the controllers at $4016 and $4017; 0 from the other I/O
/// addresses; the board from $4020. The value becomes the open bus.
pub open spec fn read_effect(a: Nes, b: Nes, addr: u16, r: u8) -> bool {
    &&& b.cpu_open_bus == r
    &&& if addr <= 0x1FFF {
        r == a.ram[ram_index(addr)] && b == Nes { cpu_open_bus: r, debug: b.debug, ..a }
    } else if addr <= 0x3FFF {
        match a.mapper {
            Some(m) => {
                &&& register_read_post(
                    a.ppu,
                    b.ppu,
                    (0x2000 + addr % 8) as u16,
                    r,
                    m.owns_nametables(),
                    m.mirroring_view(),
                )
                &&& board_kept(m, b.mapper)
                &&& b == Nes { ppu: b.ppu, mapper: b.mapper, cpu_open_bus: r, debug: b.debug, ..a }
            },
            None => r == 0 && b == Nes { cpu_open_bus: r, debug: b.debug, ..a },
        }
    } else if addr == 0x4015 {
        &&& r == a.apu.status_spec()
        &&& !b.apu.frame_irq_flag
        &&& b.apu.dmc == a.apu.dmc
        &&& b.pending_irq == (b.apu.frame_irq_flag || b.apu.dmc.irq_flag || board_irq(a))
        &&& b == Nes { apu: b.apu, pending_irq: b.pending_irq, cpu_open_bus: r, debug: b.debug, ..a }
    } else if addr == 0x4016 {
        &&& r == 0x40 | (if a.controller_strobe {
            a.controller_state & 0x01
        } else {
            a.controller_shift & 0x01
        })
        &&& b == Nes {
            controller_shift: if a.controller_strobe {
                a.controller_shift
            } else {
                controller_shifted(a.controller_shift)
            },
            cpu_open_bus: r,
            debug: b.debug,
            ..a
        }
    } else if addr == 0x4017 {
        b == Nes { controller2_shift: b.controller2_shift, cpu_open_bus: r, debug: b.debug, ..a }
    } else if addr <= 0x401F {
        r == 0 && b == Nes { cpu_open_bus: r, debug: b.debug, ..a }
    } else {
        match a.mapper {
            Some(m) => match b.mapper {
                Some(m2) => m.cpu_read_post(&m2, addr, r) && b == Nes {
                    mapper: b.mapper,
                    cpu_open_bus: r,
                    debug: b.debug,
                    ..a
                },
                None => false,
            },
            None => r == 0 && b == Nes { cpu_open_bus: r, debug: b.debug, ..a },
        }
    }
}

/// The parity cycle an OAM DMA adds: one more on an odd CPU cycle.
pub open spec fn oam_dma_stall(n: Nes) -> u32 {
    (513 + (n.total_cycles.wrapping_add(n.cpu_step_ticked_cycles as u64) % 2)) as u32
}

/// What a CPU bus write of `v` to `addr` does to a machine that does not
/// run a cycle first: RAM below $2000; the PPU registers to $3FFF; the APU
/// registers; OAM DMA at $4014 (stalling the CPU 513 or 514 cycles, and
/// filling OAM from a RAM page); the controller strobe at $4016; nothing at
/// $4018-$401F; the board from $4020.
pub open spec fn write_effect(a: Nes, b: Nes, addr: u16, v: u8) -> bool {
    if addr <= 0x1FFF {
        b == Nes { ram: b.ram, debug: b.debug, ..a } && b.ram@ == a.ram@.update(ram_index(addr), v)
    } else if addr <= 0x3FFF {
        match a.mapper {
            Some(m) => {
                &&& register_write_post(
                    a.ppu,
                    b.ppu,
                    (0x2000 + addr % 8) as u16,
                    v,
                    m.relaxed_sprite0_view(),
                    m.owns_nametables(),
                    m.mirroring_view(),
                )
                &&& board_kept(m, b.mapper)
                &&& b == Nes { ppu: b.ppu, mapper: b.mapper, debug: b.debug, ..a }
            },
            None => b == Nes { debug: b.debug, ..a },
        }
    } else if (0x4000 <= addr <= 0x4013) || addr == 0x4015 || addr == 0x4017 {
        &&& b.apu == a.apu.register_written(addr, v)
        &&& b.pending_irq == (b.apu.frame_irq_flag || b.apu.dmc.irq_flag || board_irq(a))
        &&& b == Nes { apu: b.apu, pending_irq: b.pending_irq, debug: b.debug, ..a }
    } else if addr == 0x4014 {
        &&& b.dma_cycles == a.dma_cycles.wrapping_add(oam_dma_stall(a))
        &&& v < 0x20 ==> forall|i: int|
            0 <= i < 256 ==> #[trigger] b.ppu.oam[(a.ppu.regs.oam_addr + i) % 256] == a.ram[ram_index(
                (v * 256 + i) as u16,
            )]
    } else if addr == 0x4016 {
        b == Nes {
            controller_strobe: (v & 0x01) != 0,
            controller_shift: if (v & 0x01) != 0 {
                a.controller_state
            } else {
                a.controller_shift
            },
            controller2_shift: if (v & 0x01) != 0 {
                a.controller2_state
            } else {
                a.controller2_shift
            },
            debug: b.debug,
            ..a
        }
    } else if addr <= 0x401F {
        b == Nes { debug: b.debug, ..a }
    } else {
        match a.mapper {
            Some(m) => match b.mapper {
                Some(m2) => m.cpu_write_post(&m2, addr, v) && b == Nes {
                    mapper: b.mapper,
                    debug: b.debug,
                    ..a
                },
                None => false,
            },
            None => b == Nes { debug: b.debug, ..a },
        }
    }
}

/// A CPU bus read of `addr` answering `r`: inside a CPU step the rest of
/// the machine runs a cycle first.
#[verifier::opaque]
pub open spec fn bus_read(a: Nes, b: Nes, addr: u16, r: u8) -> bool {
    exists|m: Nes| #[trigger] bus_cycle(a, m) && read_effect(m, b, addr, r)
}

/// A CPU bus write of `v` to `addr`: the value goes on the open bus, then,
/// inside a CPU step, the rest of the machine runs a cycle, then the write
/// takes effect.
#[verifier::opaque]
pub open spec fn bus_write(a: Nes, b: Nes, addr: u16, v: u8) -> bool {
    exists|m: Nes| #[trigger] bus_cycle(Nes { cpu_open_bus: v, ..a }, m) && write_effect(m, b, addr, v)
}

impl Nes {
    /// One PPU dot; an NMI edge the PPU raises becomes pending.
    #[verifier::spinoff_prover]
    #[verifier::rlimit(40)]
    fn tick_one_dot(&mut self)
        requires
            old(self).wf(),
        ensures
            final(self).wf(),
            dot_post(*old(self), *final(self)),
            old(self).bus_frame(&*final(self)),
            final(self).ram == old(self).ram,
            old(self).pending_nmi ==> final(self).pending_nmi,
            final(self).pending_irq == old(self).pending_irq,
    {
        self.debug.ppu_cycles = self.debug.ppu_cycles.wrapping_add(1);
        match &mut self.mapper {
            Some(m) => {
                self.ppu.tick(m);
            },
            None => {},
        }
        let ghost p = self.ppu;
        if self.ppu.take_nmi() {
            self.pending_nmi = true;
        }
        proof {
            reveal(dot_post);
            assert(dot_via(*old(self), *self, p));
        }
    }

    /// Three PPU dots; an NMI edge the PPU raises becomes pending.
    #[verifier::spinoff_prover]
    fn tick_ppu_dots(&mut self)
        requires
            old(self).wf(),
        ensures
            final(self).wf(),
            exists|d1: Nes, d2: Nes| #[trigger] dots_via(*old(self), d1, d2, *final(self)),
            old(self).bus_frame(&*final(self)),
            final(self).ram == old(self).ram,
            old(self).pending_nmi ==> final(self).pending_nmi,
            final(self).pending_irq == old(self).pending_irq,
    {
        self.tick_one_dot();
        let ghost d1 = *self;
        self.tick_one_dot();
        let ghost d2 = *self;
        self.tick_one_dot();
        proof {
            assert(dots_via(*old(self), d1, d2, *self));
        }
    }

    /// The board's CPU-cycle clock; its IRQ becomes pending.
    #[verifier::spinoff_prover]
    fn tick_board(&mut self)
        requires
            old(self).wf(),
        ensures
            final(self).wf(),
            old(self).bus_frame(&*final(self)),
            final(self).ram == old(self).ram,
            final(self).pending_nmi == old(self).pending_nmi,
            old(self).pending_irq ==> final(self).pending_irq,
            board_ticked(*old(self), *final(self)),
    {
        let mut mapper_irq_now = false;
        match &mut self.mapper {
            Some(m) => {
                m.tick_cpu_cycle();
                mapper_irq_now = m.irq_pending();
            },
            None => {},
        }
        if mapper_irq_now {
            self.pending_irq = true;
        }
    }

    /// The APU cycle, a DMC fetch it asks for (stalling the CPU 3 or 4
    /// cycles), and the APU IRQ.
    #[verifier::spinoff_prover]
    #[verifier::rlimit(40)]
    fn tick_apu(&mut self)
        requires
            old(self).wf(),
        ensures
            final(self).wf(),
            old(self).bus_frame(&*final(self)),
            final(self).ram == old(self).ram,
            final(self).pending_nmi == old(self).pending_nmi,
            old(self).pending_irq ==> final(self).pending_irq,
            apu_cycle(*old(self), *final(self)),
    {
        self.debug.apu_ticks = self.debug.apu_ticks.wrapping_add(1);
        run_apu_cycle(&mut self.apu);
        let ghost a1 = self.apu;
        match apu_take_dmc_request(&mut self.apu) {
            Some(addr) => {
                self.debug.dmc_dma_transfers = self.debug.dmc_dma_transfers.wrapping_add(1);
                let value = self.dmc_dma_read(addr);
                let ghost f = *self;
                proof {
                    assert(dmc_fetched(*old(self), f, addr, value));
                }
                deliver_dmc_byte(&mut self.apu, value);
                let phase = (self.total_cycles.wrapping_add(self.cpu_step_ticked_cycles as u64))
                    % 2;
                let stall_cycles: u32 = if phase == 0 {
                    4
                } else {
                    3
                };
                self.dma_cycles = self.dma_cycles.saturating_add(stall_cycles);
                self.debug.dmc_dma_stall_cycles = self.debug.dmc_dma_stall_cycles.wrapping_add(
                    stall_cycles as u64,
                );
            },
            None => {},
        }
        if self.apu.irq_pending() {
            self.pending_irq = true;
        }
        proof {
            reveal(apu_cycle);
            assert(apu_cycle_via(*old(self), *self, a1));
        }
    }

    /// One CPU cycle of everything but the CPU: three PPU dots, the board's
    /// clock, the APU.
    fn tick_ppu_for_cpu_cycle(&mut self)
        requires
            old(self).wf(),
        ensures
            final(self).wf(),
            old(self).bus_frame(&*final(self)),
            final(self).ram == old(self).ram,
            old(self).pending_nmi ==> final(self).pending_nmi,
            old(self).pending_irq ==> final(self).pending_irq,
            cycle_post(*old(self), *final(self)),
    {
        self.tick_ppu_dots();
        let ghost d = *self;
        self.tick_board();
        let ghost t = *self;
        self.tick_apu();
        proof {
            reveal(cycle_post);
            assert(cycle_via(*old(self), d, t, *self));
        }
    }

    /// A DMC sample fetch: PRG space from the board, RAM below $2000, else 0.
    fn dmc_dma_read(&mut self, addr: u16) -> (r: u8)
        requires
            old(self).wf(),
        ensures
            final(self).wf(),
            old(self).bus_frame(&*final(self)),
            final(self).ram == old(self).ram,
            addr <= 0x1FFF ==> r == old(self).ram[ram_index(addr)],
            final(self).pending_nmi == old(self).pending_nmi,
            final(self).pending_irq == old(self).pending_irq,
            final(self).apu == old(self).apu,
            dmc_fetched(*old(self), *final(self), addr, r),
            *final(self) == (Nes { mapper: final(self).mapper, cpu_open_bus: r, ..*old(self) }),
    {
        let value = if addr >= 0x8000 {
            match &mut self.mapper {
                Some(m) => m.cpu_read(addr),
                None => 0,
            }
        } else if addr <= 0x1FFF {
            self.ram[(addr as usize) % 2048]
        } else {
            0
        };
        self.cpu_open_bus = value;
        value
    }

    /// Runs the rest of the machine for one cycle when called inside a CPU step.
    fn maybe_tick_cpu_bus_cycle(&mut self)
        requires
            old(self).wf(),
        ensures
            final(self).wf(),
            old(self).bus_frame(&*final(self)),
            final(self).ram == old(self).ram,
            old(self).pending_nmi ==> final(self).pending_nmi,
            old(self).pending_irq ==> final(self).pending_irq,
            !old(self).cpu_step_in_progress ==> *final(self) == *old(self),
            bus_cycle(*old(self), *final(self)),
    {
        if self.cpu_step_in_progress {
            self.cpu_step_ticked_cycles = self.cpu_step_ticked_cycles.saturating_add(1);
            self.tick_ppu_for_cpu_cycle();
        }
    }

    fn read_controller_1(&mut self) -> (r: u8)
        ensures
            r == 0x40 | (if old(self).controller_strobe {
                old(self).controller_state & 0x01
            } else {
                old(self).controller_shift & 0x01
            }),
            final(self).controller_shift == if old(self).controller_strobe {
                old(self).controller_shift
            } else {
                controller_shifted(old(self).controller_shift)
            },
            *final(self) == (Nes { controller_shift: final(self).controller_shift, ..*old(self) }),
    {
        let bit = if self.controller_strobe {
            self.controller_state & 0x01
        } else {
            let out = self.controller_shift & 0x01;
            self.controller_shift = (self.controller_shift >> 1) | 0x80;
            out
        };
        0x40 | bit
    }

    /// Controller 2 and the light gun: bit 0 the controller's serial bit, bit
    /// 3 clear while the gun sees light, bit 4 set while its trigger is held.
    fn read_controller_2(&mut self) -> (r: u8)
        requires
            old(self).wf(),
        ensures
            r == 0x40 | (if old(self).controller_strobe {
                old(self).controller2_state & 0x01
            } else {
                old(self).controller2_shift & 0x01
            }) | (if old(self).ppu.frame_buffer@.len() > 0 && self::ppu::light_sensed_spec(
                old(self).ppu.frame_buffer@,
                old(self).zapper_x,
                old(self).zapper_y,
            ) {
                0u8
            } else {
                0x08u8
            }) | (if old(self).zapper_trigger {
                0x10u8
            } else {
                0u8
            }),
            *final(self) == (Nes { controller2_shift: final(self).controller2_shift, ..*old(self) }),
    {
        let controller_bit = if self.controller_strobe {
            self.controller2_state & 0x01
        } else {
            let out = self.controller2_shift & 0x01;
            self.controller2_shift = (self.controller2_shift >> 1) | 0x80;
            out
        };
        let light_detected = self.ppu.zapper_light_sensed(self.zapper_x, self.zapper_y);
        let light_bit: u8 = if light_detected {
            0
        } else {
            0x08
        };
        let trigger_bit: u8 = if self.zapper_trigger {
            0x10
        } else {
            0
        };
        0x40 | controller_bit | light_bit | trigger_bit
    }

    /// A $4016 write: bit 0 is the strobe; while it is high the shift
    /// registers load the buttons.
    fn write_controller_strobe(&mut self, value: u8)
        ensures
            final(self).controller_strobe == ((value & 0x01) != 0),
            final(self).controller_shift == if (value & 0x01) != 0 {
                old(self).controller_state
            } else {
                old(self).controller_shift
            },
            final(self).controller2_shift == if (value & 0x01) != 0 {
                old(self).controller2_state
            } else {
                old(self).controller2_shift
            },
            *final(self) == (Nes {
                controller_strobe: final(self).controller_strobe,
                controller_shift: final(self).controller_shift,
                controller2_shift: final(self).controller2_shift,
                ..*old(self)
            }),
    {
        self.controller_strobe = (value & 0x01) != 0;
        if self.controller_strobe {
            self.controller_shift = self.controller_state;
            self.controller2_shift = self.controller2_state;
        }
    }

    /// A CPU bus read: RAM (mirrored) below $2000, the PPU registers (mirrored
    /// every 8 bytes) to $3FFF, APU status, the controllers, then the
    /// cartridge. Inside a CPU step the rest of the machine runs a cycle
    /// first. The value read becomes the open bus.
    #[verifier::spinoff_prover]
    #[verifier::rlimit(60)]
    pub fn cpu_read(&mut self, addr: u16) -> (r: u8)
        requires
            old(self).wf(),
        ensures
            final(self).wf(),
            old(self).bus_frame(&*final(self)),
            final(self).ram == old(self).ram,
            ram_value(*old(self), addr) matches Some(v) ==> r == v,
            !old(self).cpu_step_in_progress ==> final(self).dma_cycles == old(self).dma_cycles
                && final(self).cpu_step_ticked_cycles == old(self).cpu_step_ticked_cycles,
            !old(self).cpu_step_in_progress && 0x4020 <= addr ==> final(self).ppu == old(self).ppu
                && final(self).apu == old(self).apu,
            bus_read(*old(self), *final(self), addr, r),
            final(self).cpu_open_bus == r,
            old(self).pending_nmi ==> final(self).pending_nmi,
            addr <= 0x1FFF && !old(self).cpu_step_in_progress ==> *final(self) == (Nes {
                debug: final(self).debug,
                cpu_open_bus: r,
                ..*old(self)
            }),
            !old(self).cpu_step_in_progress && addr != 0x4015 ==> final(self).pending_nmi == old(
                self,
            ).pending_nmi && final(self).pending_irq == old(self).pending_irq
                && final(self).dma_cycles == old(self).dma_cycles,
            0x2000 <= addr <= 0x3FFF && !old(self).cpu_step_in_progress ==> match old(self).mapper {
                Some(m) => register_read_post(
                    old(self).ppu,
                    final(self).ppu,
                    (0x2000 + addr % 8) as u16,
                    r,
                    m.owns_nametables(),
                    m.mirroring_view(),
                ),
                None => r == 0 && final(self).ppu == old(self).ppu,
            },
            0x4020 <= addr && !old(self).cpu_step_in_progress ==> match old(self).mapper {
                Some(m) => final(self).mapper matches Some(m2) && m.cpu_read_post(&m2, addr, r),
                None => r == 0 && final(self).mapper is None,
            },
            addr == 0x4015 && !old(self).cpu_step_in_progress ==> r == old(self).apu.status_spec()
                && !final(self).apu.frame_irq_flag,
            addr == 0x4016 && !old(self).cpu_step_in_progress ==> {
                &&& r == 0x40 | (if old(self).controller_strobe {
                    old(self).controller_state & 0x01
                } else {
                    old(self).controller_shift & 0x01
                })
                &&& final(self).controller_shift == if old(self).controller_strobe {
                    old(self).controller_shift
                } else {
                    controller_shifted(old(self).controller_shift)
                }
            },
    {
        self.maybe_tick_cpu_bus_cycle();
        let ghost m = *self;
        self.debug.cpu_reads = self.debug.cpu_reads.wrapping_add(1);
        self.debug.last_cpu_read_addr = addr;
        let value = if addr <= 0x1FFF {
            self.debug.cpu_reads_ram = self.debug.cpu_reads_ram.wrapping_add(1);
            self.ram[(addr as usize) % 2048]
        } else if addr <= 0x3FFF {
            self.debug.cpu_reads_ppu_regs = self.debug.cpu_reads_ppu_regs.wrapping_add(1);
            let reg = 0x2000 + (addr % 8);
            match &mut self.mapper {
                Some(m) => self.ppu.cpu_read_register(reg, m),
                None => 0,
            }
        } else if addr == 0x4015 {
            self.debug.cpu_reads_apu_io = self.debug.cpu_reads_apu_io.wrapping_add(1);
            let status = apu_read_status(&mut self.apu);
            let mapper_irq = match &self.mapper {
                Some(m) => m.irq_pending(),
                None => false,
            };
            self.pending_irq = self.apu.irq_pending() || mapper_irq;
            status
        } else if addr == 0x4016 {
            self.debug.cpu_reads_apu_io = self.debug.cpu_reads_apu_io.wrapping_add(1);
            self.read_controller_1()
        } else if addr == 0x4017 {
            self.debug.cpu_reads_apu_io = self.debug.cpu_reads_apu_io.wrapping_add(1);
            self.read_controller_2()
        } else if addr >= 0x4000 && addr <= 0x401F {
            self.debug.cpu_reads_apu_io = self.debug.cpu_reads_apu_io.wrapping_add(1);
            0
        } else {
            self.debug.cpu_reads_cart = self.debug.cpu_reads_cart.wrapping_add(1);
            match &mut self.mapper {
                Some(m) => m.cpu_read(addr),
                None => 0,
            }
        };
        self.cpu_open_bus = value;
        proof {
            reveal(bus_read);
            assert(read_effect(m, *self, addr, value));
        }
        value
    }
}


/// Where the high byte of a 16-bit pointer read with the 6502's page bug
/// comes from: the next address, but wrapped within the same page.
pub open spec fn page_bug_high_addr(addr: u16) -> u16 {
    (addr & 0xFF00) | ((((addr & 0x00FF) + 1) as u16) & 0x00FF)
}

/// Two cartridge reads, of `addr` and then `addr + 1`, answered `lo` and
/// `hi`: the board goes from `m0` through `m1` to `after`.
pub open spec fn board_reads(m0: AnyMapper, m1: AnyMapper, after: Option<AnyMapper>, addr: u16, lo: u8, hi: u8) -> bool {
    &&& m0.cpu_read_post(&m1, addr, lo)
    &&& after matches Some(m2) && m1.cpu_read_post(&m2, (addr + 1) as u16, hi)
}

/// A 16-bit little-endian read of `addr` and `addr + 1` from the cartridge:
/// the board's answer to each read, the second from the board the first left.
pub open spec fn board_word_read(before: Option<AnyMapper>, after: Option<AnyMapper>, addr: u16, w: u16) -> bool {
    match before {
        None => w == 0 && after is None,
        Some(m0) => exists|m1: AnyMapper, lo: u8, hi: u8|
            #[trigger] board_reads(m0, m1, after, addr, lo, hi) && w == lo + 256 * hi,
    }
}

/// The stack address of stack pointer `sp`: page 1.
pub open spec fn stack_addr(sp: u8) -> u16 {
    (0x0100 + sp) as u16
}

impl Nes {
    /// A CPU bus write: RAM (mirrored) below $2000, the PPU registers (mirrored
    /// every 8 bytes) to $3FFF, the APU and I/O registers ($4014 starts OAM
    /// DMA, $4016 strobes the controllers), then the cartridge. Inside a CPU
    /// step the rest of the machine runs a cycle first. The value becomes the
    /// open bus.
    #[verifier::spinoff_prover]
    #[verifier::rlimit(60)]
    pub fn cpu_write(&mut self, addr: u16, value: u8)
        requires
            old(self).wf(),
        ensures
            final(self).wf(),
            old(self).bus_frame(&*final(self)),
            bus_write(*old(self), *final(self), addr, value),
            final(self).ram@ == ram_after_write(old(self).ram@, addr, value),
            old(self).pending_nmi ==> final(self).pending_nmi,
            0x2000 <= addr <= 0x3FFF && !old(self).cpu_step_in_progress ==> match old(self).mapper {
                Some(m) => register_write_post(
                    old(self).ppu,
                    final(self).ppu,
                    (0x2000 + addr % 8) as u16,
                    value,
                    m.relaxed_sprite0_view(),
                    m.owns_nametables(),
                    m.mirroring_view(),
                ),
                None => final(self).ppu == old(self).ppu,
            },
            ((0x4000 <= addr <= 0x4013) || addr == 0x4015 || addr == 0x4017)
                && !old(self).cpu_step_in_progress ==> final(self).apu == old(
                self,
            ).apu.register_written(addr, value),
            addr == 0x4016 && !old(self).cpu_step_in_progress ==> {
                &&& final(self).controller_strobe == ((value & 0x01) != 0)
                &&& final(self).controller_shift == if (value & 0x01) != 0 {
                    old(self).controller_state
                } else {
                    old(self).controller_shift
                }
            },
    {
        self.cpu_open_bus = value;
        self.maybe_tick_cpu_bus_cycle();
        let ghost m = *self;
        self.debug.cpu_writes = self.debug.cpu_writes.wrapping_add(1);
        self.debug.last_cpu_write_addr = addr;
        self.debug.last_cpu_write_value = value;
        if addr <= 0x1FFF {
            self.debug.cpu_writes_ram = self.debug.cpu_writes_ram.wrapping_add(1);
            self.ram[(addr as usize) % 2048] = value;
        } else if addr <= 0x3FFF {
            self.debug.cpu_writes_ppu_regs = self.debug.cpu_writes_ppu_regs.wrapping_add(1);
            let reg = 0x2000 + (addr % 8);
            match &mut self.mapper {
                Some(m) => {
                    self.ppu.cpu_write_register(reg, value, m);
                },
                None => {},
            }
        } else if (addr >= 0x4000 && addr <= 0x4013) || addr == 0x4015 || addr == 0x4017 {
            self.debug.cpu_writes_apu_io = self.debug.cpu_writes_apu_io.wrapping_add(1);
            apu_write_register(&mut self.apu, addr, value);
            let mapper_irq = match &self.mapper {
                Some(m) => m.irq_pending(),
                None => false,
            };
            self.pending_irq = self.apu.irq_pending() || mapper_irq;
        } else if addr == 0x4014 {
            self.debug.cpu_writes_apu_io = self.debug.cpu_writes_apu_io.wrapping_add(1);
            self.do_oam_dma(value);
        } else if addr == 0x4016 {
            self.debug.cpu_writes_apu_io = self.debug.cpu_writes_apu_io.wrapping_add(1);
            self.write_controller_strobe(value);
        } else if addr >= 0x4018 && addr <= 0x401F {
            self.debug.cpu_writes_apu_io = self.debug.cpu_writes_apu_io.wrapping_add(1);
        } else {
            self.debug.cpu_writes_cart = self.debug.cpu_writes_cart.wrapping_add(1);
            match &mut self.mapper {
                Some(m) => {
                    m.cpu_write(addr, value);
                },
                None => {},
            }
        }
        proof {
            reveal(bus_write);
            assert(write_effect(m, *self, addr, value));
        }
    }

    /// OAM DMA from CPU page `page`: 256 bytes are read (without the rest of
    /// the machine running) into OAM from the OAM address on, and the CPU is
    /// stalled 513 cycles, or 514 on an odd CPU cycle.
    fn do_oam_dma(&mut self, page: u8)
        requires
            old(self).wf(),
        ensures
            final(self).wf(),
            old(self).bus_frame(&*final(self)),
            final(self).ram == old(self).ram,
            old(self).pending_nmi ==> final(self).pending_nmi,
            page < 0x20 ==> forall|i: int|
                0 <= i < 256 ==> #[trigger] final(self).ppu.oam[(old(self).ppu.regs.oam_addr + i)
                    % 256] == old(self).ram[ram_index((page * 256 + i) as u16)],
            final(self).dma_cycles == old(self).dma_cycles.wrapping_add(oam_dma_stall(*old(self))),
    {
        self.debug.dma_transfers = self.debug.dma_transfers.wrapping_add(1);
        let prev_step = self.cpu_step_in_progress;
        self.cpu_step_in_progress = false;
        let base: u16 = (page as u16) * 256;
        let mut bytes = [0u8; 256];
        let ghost n0 = *self;
        let mut idx: usize = 0;
        while idx < 256
            invariant
                0 <= idx <= 256,
                self.wf(),
                n0.bus_frame(&*self),
                self.ram == n0.ram,
                page < 0x20 ==> self.ppu == n0.ppu,
                !self.cpu_step_in_progress,
                self.dma_cycles == old(self).dma_cycles,
                self.cpu_step_ticked_cycles == old(self).cpu_step_ticked_cycles,
                n0 == (Nes { cpu_step_in_progress: false, debug: n0.debug, ..*old(self) }),
                old(self).pending_nmi ==> self.pending_nmi,
                base == page * 256,
                page < 0x20 ==> forall|j: int|
                    0 <= j < idx ==> #[trigger] bytes[j] == old(self).ram[ram_index(
                        (page * 256 + j) as u16,
                    )],
            decreases 256 - idx,
        {
            let b = self.cpu_read(base + (idx as u16));
            bytes[idx] = b;
            idx = idx + 1;
        }
        self.cpu_step_in_progress = prev_step;
        self.ppu.write_oam_dma(&bytes);
        // Bus cycles already spent in this step count toward the parity.
        let cpu_phase = self.total_cycles.wrapping_add(self.cpu_step_ticked_cycles as u64);
        let extra = (cpu_phase % 2) as u32;
        self.dma_cycles = self.dma_cycles.wrapping_add(513 + extra);
    }

    /// A little-endian 16-bit read.
    pub fn read_u16(&mut self, addr: u16) -> (r: u16)
        requires
            old(self).wf(),
        ensures
            final(self).wf(),
            old(self).bus_frame(&*final(self)),
            final(self).ram == old(self).ram,
            old(self).pending_nmi ==> final(self).pending_nmi,
            addr <= 0x1FFE ==> r == old(self).ram[ram_index(addr)] + 256 * old(self).ram[ram_index(
                (addr + 1) as u16,
            )],
            !old(self).cpu_step_in_progress && 0x4020 <= addr <= 0xFFFE ==> final(self).pending_nmi
                == old(self).pending_nmi && final(self).pending_irq == old(self).pending_irq
                && final(self).dma_cycles == old(self).dma_cycles,
            !old(self).cpu_step_in_progress && 0x4020 <= addr <= 0xFFFE ==> final(self).ppu == old(
                self,
            ).ppu && final(self).apu == old(self).apu,
            !old(self).cpu_step_in_progress && 0x4020 <= addr <= 0xFFFE ==> board_word_read(
                old(self).mapper,
                final(self).mapper,
                addr,
                r,
            ),
    {
        let ghost m0 = self.mapper;
        let lo = self.cpu_read(addr) as u16;
        let ghost m1 = self.mapper;
        let hi = self.cpu_read(addr.wrapping_add(1)) as u16;
        proof {
            lemma_word_bits(lo, hi);
            if !old(self).cpu_step_in_progress && 0x4020 <= addr <= 0xFFFE && m0 is Some {
                assert(board_reads(m0->0, m1->0, self.mapper, addr, lo as u8, hi as u8));
            }
        }
        (hi << 8) | lo
    }

    /// A 16-bit read whose high byte comes from the same page (the 6502's
    /// JMP ($xxFF) bug).
    pub fn read_u16_bug(&mut self, addr: u16) -> (r: u16)
        requires
            old(self).wf(),
        ensures
            final(self).wf(),
            old(self).bus_frame(&*final(self)),
            final(self).ram == old(self).ram,
            old(self).pending_nmi ==> final(self).pending_nmi,
            addr <= 0x1FFF ==> r == old(self).ram[ram_index(addr)] + 256 * old(self).ram[ram_index(
                page_bug_high_addr(addr),
            )],
    {
        let lo = self.cpu_read(addr) as u16;
        proof {
            lemma_page_bug_addr(addr);
        }
        let hi_addr = (addr & 0xFF00) | (((addr & 0x00FF) + 1) & 0x00FF);
        let hi = self.cpu_read(hi_addr) as u16;
        proof {
            lemma_word_bits(lo, hi);
        }
        (hi << 8) | lo
    }

    /// Pushes a byte: it is written at $0100 + S, then S decrements.
    pub fn push(&mut self, value: u8)
        requires
            old(self).wf(),
        ensures
            final(self).wf(),
            final(self).cpu == (CpuRegs { sp: old(self).cpu.sp.wrapping_sub(1), ..old(self).cpu }),
            final(self).ram@ == old(self).ram@.update(ram_index(stack_addr(old(self).cpu.sp)), value),
            old(self).machine_frame(&*final(self)),
            old(self).pending_nmi ==> final(self).pending_nmi,
    {
        let addr: u16 = 0x0100 + (self.cpu.sp as u16);
        self.cpu_write(addr, value);
        self.cpu.sp = self.cpu.sp.wrapping_sub(1);
    }

    /// Pops a byte: S increments, then the byte at $0100 + S is read.
    pub fn pop(&mut self) -> (r: u8)
        requires
            old(self).wf(),
        ensures
            final(self).wf(),
            final(self).cpu == (CpuRegs { sp: old(self).cpu.sp.wrapping_add(1), ..old(self).cpu }),
            r == old(self).ram[ram_index(stack_addr(old(self).cpu.sp.wrapping_add(1)))],
            final(self).ram == old(self).ram,
            old(self).machine_frame(&*final(self)),
            old(self).pending_nmi ==> final(self).pending_nmi,
    {
        self.cpu.sp = self.cpu.sp.wrapping_add(1);
        let addr: u16 = 0x0100 + (self.cpu.sp as u16);
        self.cpu_read(addr)
    }

    /// Pushes a word, high byte first.
    pub fn push_u16(&mut self, value: u16)
        requires
            old(self).wf(),
        ensures
            final(self).wf(),
            final(self).cpu == (CpuRegs { sp: old(self).cpu.sp.wrapping_sub(2), ..old(self).cpu }),
            final(self).ram@ == old(self).ram@.update(
                ram_index(stack_addr(old(self).cpu.sp)),
                (value / 256) as u8,
            ).update(ram_index(stack_addr(old(self).cpu.sp.wrapping_sub(1))), (value % 256) as u8),
            old(self).machine_frame(&*final(self)),
            old(self).pending_nmi ==> final(self).pending_nmi,
    {
        proof {
            lemma_word_split(value);
        }
        self.push((value >> 8) as u8);
        self.push((value & 0xFF) as u8);
    }

    /// Pops a word, low byte first.
    pub fn pop_u16(&mut self) -> (r: u16)
        requires
            old(self).wf(),
        ensures
            final(self).wf(),
            final(self).cpu == (CpuRegs { sp: old(self).cpu.sp.wrapping_add(2), ..old(self).cpu }),
            r == old(self).ram[ram_index(stack_addr(old(self).cpu.sp.wrapping_add(1)))] + 256
                * old(self).ram[ram_index(stack_addr(old(self).cpu.sp.wrapping_add(2)))],
            final(self).ram == old(self).ram,
            old(self).machine_frame(&*final(self)),
            old(self).pending_nmi ==> final(self).pending_nmi,
    {
        let lo = self.pop() as u16;
        let hi = self.pop() as u16;
        proof {
            lemma_word_bits(lo, hi);
        }
        (hi << 8) | lo
    }

    /// Reads the byte at PC and advances PC.
    pub fn fetch_byte(&mut self) -> (r: u8)
        requires
            old(self).wf(),
        ensures
            final(self).wf(),
            final(self).cpu == (CpuRegs { pc: old(self).cpu.pc.wrapping_add(1), ..old(self).cpu }),
            ram_value(*old(self), old(self).cpu.pc) matches Some(v) ==> r == v,
            bus_read(*old(self), Nes { cpu: old(self).cpu, ..*final(self) }, old(self).cpu.pc, r),
            final(self).ram == old(self).ram,
            old(self).machine_frame(&*final(self)),
            old(self).pending_nmi ==> final(self).pending_nmi,
    {
        let byte = self.cpu_read(self.cpu.pc);
        let ghost after_read = *self;
        self.cpu.pc = self.cpu.pc.wrapping_add(1);
        proof {
            assert(Nes { cpu: old(self).cpu, ..*self } == after_read);
        }
        byte
    }

    /// Reads the little-endian word at PC and advances PC by two.
    pub fn fetch_word(&mut self) -> (r: u16)
        requires
            old(self).wf(),
        ensures
            final(self).wf(),
            final(self).cpu == (CpuRegs { pc: old(self).cpu.pc.wrapping_add(2), ..old(self).cpu }),
            word_loaded(old(self).ram@, old(self).cpu.pc, r),
            final(self).ram == old(self).ram,
            old(self).machine_frame(&*final(self)),
            old(self).pending_nmi ==> final(self).pending_nmi,
    {
        let lo = self.fetch_byte() as u16;
        let hi = self.fetch_byte() as u16;
        proof {
            lemma_word_bits(lo, hi);
        }
        (hi << 8) | lo
    }

    /// Counts an opcode the CPU does not know and remembers it and its address.
    pub fn note_unknown_opcode(&mut self, opcode: u8, pc: u16)
        ensures
            *final(self) == (Nes {
                unknown_opcode_count: old(self).unknown_opcode_count.wrapping_add(1),
                last_unknown_opcode: opcode,
                last_unknown_pc: pc,
                ..*old(self)
            }),
    {
        self.unknown_opcode_count = self.unknown_opcode_count.wrapping_add(1);
        self.last_unknown_opcode = opcode;
        self.last_unknown_pc = pc;
    }
}

/// A word from its two bytes.
pub proof fn lemma_word_bits(lo: u16, hi: u16)
    by (bit_vector)
    requires
        lo < 256,
        hi < 256,
    ensures
        (hi << 8) | lo == lo + 256 * hi,
{
}

/// A word's two bytes.
pub proof fn lemma_word_split(v: u16)
    by (bit_vector)
    ensures
        v >> 8 == v / 256,
        v & 0xFF == v % 256,
{
}

pub proof fn lemma_page_bug_addr(addr: u16)
    by (bit_vector)
    ensures
        (addr & 0x00FF) + 1 <= 0x100,
        addr <= 0x1FFF ==> (addr & 0xFF00) | ((((addr & 0x00FF) + 1) as u16) & 0x00FF) <= 0x1FFF,
{
}


/// How many CPU steps a frame may take before `run_frame` gives up on it.
pub const FRAME_STEP_LIMIT: u64 = 10_000_001;

/// The frame counter went from `a` to `b` by `k` frames.
pub open spec fn frames_counted(a: u64, b: u64, k: nat) -> bool {
    b == a.wrapping_add(k as u64)
}

/// What `frames` calls of `run_frame` on a console with a board did: each
/// ran and counted a frame until the CPU halted, and none did after.
pub open spec fn ran_frames(before: Nes, after: Nes, frames: nat) -> bool {
    before.mapper is Some ==> exists|k: nat|
        k <= frames && #[trigger] frames_counted(before.debug.frame_count, after.debug.frame_count, k)
            && (k == frames || after.halted)
}

/// Consecutive machines of `st` are one CPU cycle of everything but the
/// CPU apart.
pub open spec fn cycle_link(st: Seq<Nes>, i: int) -> bool {
    cycle_post(st[i], st[i + 1])
}

/// `st` runs from `a` to `b` in `k` cycles.
pub open spec fn cycle_chain(st: Seq<Nes>, a: Nes, b: Nes, k: nat) -> bool {
    &&& st.len() == k + 1
    &&& st[0] == a
    &&& st[k as int] == b
    &&& forall|i: int| 0 <= i < k ==> #[trigger] cycle_link(st, i)
}

/// `k` CPU cycles of everything but the CPU, from `a` to `b`.
pub open spec fn ticks(a: Nes, b: Nes, k: nat) -> bool {
    exists|st: Seq<Nes>| #[trigger] cycle_chain(st, a, b, k)
}

/// One more cycle extends a run of cycles.
pub proof fn lemma_ticks_extend(a: Nes, m: Nes, b: Nes, k: nat)
    requires
        ticks(a, m, k),
        cycle_post(m, b),
    ensures
        ticks(a, b, k + 1),
{
    let st = choose|st: Seq<Nes>| #[trigger] cycle_chain(st, a, m, k);
    let st2 = st.push(b);
    assert forall|i: int| 0 <= i < k + 1 implies #[trigger] cycle_link(st2, i) by {
        if i < k {
            assert(cycle_link(st, i));
        }
    }
    assert(cycle_chain(st2, a, b, k + 1));
}

/// No cycles leave the machine as it is.
pub proof fn lemma_ticks_none(a: Nes)
    ensures
        ticks(a, a, 0),
{
    assert(cycle_chain(seq![a], a, a, 0));
}

/// The machine as a frame's step finds it, once the step is counted.
pub open spec fn step_counted(a: Nes) -> Nes {
    Nes { debug: NesDebugCounters { cpu_steps: a.debug.cpu_steps.wrapping_add(1), ..a.debug }, ..a }
}

/// The cycles of a CPU step that its bus accesses did not clock.
pub open spec fn remaining_cycles(r: u32, ticked: u32) -> nat {
    if r >= ticked {
        (r - ticked) as nat
    } else {
        0
    }
}

/// One step of a frame, from a machine whose frame is not complete: the CPU
/// step to `s` taking `r` cycles, then the cycles its bus accesses did not
/// clock, to `t`, and the step's cycle count cleared.
pub open spec fn frame_step_via(a: Nes, s: Nes, r: u32, t: Nes, b: Nes) -> bool {
    &&& !a.ppu.timing.frame_complete
    &&& step_outcome(step_counted(a), s, r)
    &&& ticks(s, t, remaining_cycles(r, s.cpu_step_ticked_cycles))
    &&& b == Nes { cpu_step_ticked_cycles: 0, ..t }
}

/// One step of a frame.
pub open spec fn frame_step(a: Nes, b: Nes) -> bool {
    exists|s: Nes, r: u32, t: Nes| #[trigger] frame_step_via(a, s, r, t, b)
}

/// Consecutive machines of `st` are one step of a frame apart.
pub open spec fn step_link(st: Seq<Nes>, i: int) -> bool {
    frame_step(st[i], st[i + 1])
}

/// `n` steps of a frame, from `a` to `b`, through the machines of `st`.
pub open spec fn step_chain(st: Seq<Nes>, a: Nes, b: Nes, n: nat) -> bool {
    &&& st.len() == n + 1
    &&& st[0] == a
    &&& st[n as int] == b
    &&& forall|i: int| 0 <= i < n ==> #[trigger] step_link(st, i)
}

/// `n` steps of a frame, from `a` to `b`.
pub open spec fn frame_path(a: Nes, b: Nes, n: nat) -> bool {
    exists|st: Seq<Nes>| #[trigger] step_chain(st, a, b, n)
}

/// One more step extends a frame's steps.
pub proof fn lemma_frame_path_extend(a: Nes, m: Nes, b: Nes, n: nat)
    requires
        frame_path(a, m, n),
        frame_step(m, b),
    ensures
        frame_path(a, b, n + 1),
{
    let st = choose|st: Seq<Nes>| #[trigger] step_chain(st, a, m, n);
    let st2 = st.push(b);
    assert forall|i: int| 0 <= i < n + 1 implies #[trigger] step_link(st2, i) by {
        if i < n {
            assert(step_link(st, i));
        }
    }
    assert(step_chain(st2, a, b, n + 1));
}

/// No steps leave the machine as it is.
pub proof fn lemma_frame_path_none(a: Nes)
    ensures
        frame_path(a, a, 0),
{
    assert(step_chain(seq![a], a, a, 0));
}

/// What `run_frame` does: without a board, or once halted, nothing;
/// otherwise CPU steps with their catch-up cycles from the frame's start
/// until the frame completes or the step limit is reached, and the frame
/// counted.
pub open spec fn frame_run(a: Nes, b: Nes) -> bool {
    &&& a.board_frame(&b)
    &&& a.mapper is None || a.halted ==> b == a
    &&& a.mapper is Some && !a.halted ==> b.debug.frame_count == a.debug.frame_count.wrapping_add(1)
    &&& a.mapper is Some && !a.halted ==> exists|n: nat, e: Nes|
        #[trigger] frame_path(frame_started(a), e, n) && 1 <= n <= FRAME_STEP_LIMIT && (
        e.ppu.timing.frame_complete || n == FRAME_STEP_LIMIT) && b == (Nes {
            debug: NesDebugCounters { frame_count: a.debug.frame_count.wrapping_add(1), ..e.debug },
            ..e
        })
}

/// The console with controller 1 set to `s`: while the strobe is high the
/// shift registers follow the buttons.
pub open spec fn controller_set(a: Nes, s: u8) -> Nes {
    Nes {
        controller_state: s,
        controller_shift: if a.controller_strobe {
            s
        } else {
            a.controller_shift
        },
        controller2_shift: if a.controller_strobe {
            a.controller2_state
        } else {
            a.controller2_shift
        },
        ..a
    }
}

/// The console after its recorded channel levels were handed out.
pub open spec fn levels_drained(a: Nes, b: Nes) -> bool {
    &&& b == Nes { apu: b.apu, ..a }
    &&& b.apu == Apu { levels: b.apu.levels, ..a.apu }
    &&& b.apu.levels@ == Seq::<ChannelLevels>::empty()
}

/// The machine as a frame starts: the frame-complete flag cleared.
pub open spec fn frame_started(a: Nes) -> Nes {
    Nes { ppu: Ppu { timing: PpuTiming { frame_complete: false, ..a.ppu.timing }, ..a.ppu }, ..a }
}

/// `n` CPU steps, between one and the limit, took `c` cycles: each step
/// takes one to eight.
pub open spec fn frame_steps(n: u64, c: u64) -> bool {
    1 <= n <= FRAME_STEP_LIMIT && n <= c <= 8 * n
}

/// The PPU after a reset of `p0`: registers, timing, the pipelines and the
/// debug counters back to their power-on values, the palette filled with
/// $0F, and OAM, nametable RAM and the last frame kept.
pub open spec fn ppu_reset_from(p0: Ppu, p1: Ppu) -> bool {
    &&& p1.regs == self::ppu::cleared_registers()
    &&& p1.timing == self::ppu::start_timing()
    &&& p1.bg == self::ppu::cleared_background()
    &&& self::ppu::sprite_line_cleared(p1.sprites)
    &&& p1.eval == self::ppu::cleared_sprite_eval()
    &&& !p1.allow_relaxed_sprite0_hit
    &&& p1.debug == self::ppu::zeroed_debug_counters()
    &&& p1.oam == p0.oam
    &&& p1.vram == p0.vram
    &&& p1.palette_ram@ == Seq::new(32, |i: int| 0x0Fu8)
    &&& p1.frame_buffer == p0.frame_buffer
}

/// Resetting the APU, seen from the console.
fn apu_reset(apu: &mut Apu)
    requires
        apu_ok(old(apu)),
    ensures
        apu_ok(final(apu)),
        final(apu).is_reset(),
        final(apu).sample_rate == old(apu).sample_rate,
{
    proof {
        reveal(apu_ok);
    }
    apu.reset();
}

impl Nes {
    /// Services an NMI: pushes PC and the status (B clear), sets I, and jumps
    /// through the vector at $FFFA.
    pub fn service_nmi(&mut self)
        requires
            old(self).wf(),
        ensures
            final(self).wf(),
            final(self).cpu.a == old(self).cpu.a && final(self).cpu.x == old(self).cpu.x
                && final(self).cpu.y == old(self).cpu.y,
            final(self).cpu.sp == old(self).cpu.sp.wrapping_sub(3),
            final(self).cpu.p == self::cpu::with_flag(old(self).cpu.p, FLAG_INTERRUPT, true),
            final(self).ram@ == old(self).ram@.update(
                ram_index(stack_addr(old(self).cpu.sp)),
                (old(self).cpu.pc / 256) as u8,
            ).update(
                ram_index(stack_addr(old(self).cpu.sp.wrapping_sub(1))),
                (old(self).cpu.pc % 256) as u8,
            ).update(
                ram_index(stack_addr(old(self).cpu.sp.wrapping_sub(2))),
                (old(self).cpu.p & !FLAG_BREAK) | FLAG_UNUSED,
            ),
            final(self).nmi_serviced_count == old(self).nmi_serviced_count.wrapping_add(1),
            (Nes { nmi_serviced_count: final(self).nmi_serviced_count, ..*old(self) }).machine_frame(
                &*final(self),
            ),
    {
        self.push_u16(self.cpu.pc);
        self.push((self.cpu.p & !FLAG_BREAK) | FLAG_UNUSED);
        self.cpu.set_flag(FLAG_INTERRUPT, true);
        self.cpu.pc = self.read_u16(0xFFFA);
        self.nmi_serviced_count = self.nmi_serviced_count.wrapping_add(1);
    }

    /// Services an IRQ: as an NMI, through the vector at $FFFE; the board's
    /// IRQ is acknowledged.
    pub fn service_irq(&mut self)
        requires
            old(self).wf(),
        ensures
            final(self).wf(),
            final(self).cpu.a == old(self).cpu.a && final(self).cpu.x == old(self).cpu.x
                && final(self).cpu.y == old(self).cpu.y,
            final(self).cpu.sp == old(self).cpu.sp.wrapping_sub(3),
            final(self).cpu.p == self::cpu::with_flag(old(self).cpu.p, FLAG_INTERRUPT, true),
            final(self).ram@ == old(self).ram@.update(
                ram_index(stack_addr(old(self).cpu.sp)),
                (old(self).cpu.pc / 256) as u8,
            ).update(
                ram_index(stack_addr(old(self).cpu.sp.wrapping_sub(1))),
                (old(self).cpu.pc % 256) as u8,
            ).update(
                ram_index(stack_addr(old(self).cpu.sp.wrapping_sub(2))),
                (old(self).cpu.p & !FLAG_BREAK) | FLAG_UNUSED,
            ),
            old(self).machine_frame(&*final(self)),
    {
        self.push_u16(self.cpu.pc);
        self.push((self.cpu.p & !FLAG_BREAK) | FLAG_UNUSED);
        self.cpu.set_flag(FLAG_INTERRUPT, true);
        self.cpu.pc = self.read_u16(0xFFFE);
        self.debug.irq_serviced_count = self.debug.irq_serviced_count.wrapping_add(1);
        match &mut self.mapper {
            Some(m) => {
                m.clear_irq();
            },
            None => {},
        }
    }

    #[verifier::spinoff_prover]
    fn reset_cpu_state(&mut self)
        ensures
            final(self).cpu == (CpuRegs {
                a: 0,
                x: 0,
                y: 0,
                p: FLAG_INTERRUPT | FLAG_UNUSED,
                sp: 0xFD,
                ..old(self).cpu
            }),
            !final(self).halted,
            !final(self).pending_nmi && !final(self).pending_irq,
            final(self).dma_cycles == 0,
            final(self).total_cycles == 0,
            final(self).nmi_serviced_count == 0,
            final(self).unknown_opcode_count == 0,
            !final(self).cpu_step_in_progress,
            final(self).ram == old(self).ram,
            final(self).ppu == old(self).ppu,
            final(self).apu == old(self).apu,
            final(self).mapper == old(self).mapper,
            final(self).mapper_name == old(self).mapper_name,
            final(self).mapper_id == old(self).mapper_id,
            final(self).loaded_rom_name == old(self).loaded_rom_name,
    {
        self.cpu.a = 0;
        self.cpu.x = 0;
        self.cpu.y = 0;
        self.cpu.p = FLAG_INTERRUPT | FLAG_UNUSED;
        self.cpu.sp = 0xFD;
        self.pending_nmi = false;
        self.pending_irq = false;
        self.dma_cycles = 0;
        self.halted = false;
        self.total_cycles = 0;
        self.nmi_serviced_count = 0;
        self.unknown_opcode_count = 0;
        self.last_unknown_opcode = 0;
        self.last_unknown_pc = 0;
        self.cpu_step_in_progress = false;
        self.cpu_step_ticked_cycles = 0;
        self.debug = NesDebugCounters::default();
        self.cpu_open_bus = 0;
    }

    /// Resets the console with a cartridge in: CPU registers to their reset
    /// values, interrupts, DMA and counters cleared, PPU and APU reset, and PC
    /// loaded from the reset vector at $FFFC. Without a cartridge nothing
    /// happens.
    #[verifier::spinoff_prover]
    pub fn reset(&mut self)
        requires
            old(self).wf(),
        ensures
            final(self).wf(),
            old(self).mapper is None ==> *final(self) == *old(self),
            old(self).mapper is Some ==> {
                &&& final(self).mapper is Some
                &&& final(self).cpu.a == 0 && final(self).cpu.x == 0 && final(self).cpu.y == 0
                &&& final(self).cpu.p == FLAG_INTERRUPT | FLAG_UNUSED
                &&& final(self).cpu.sp == 0xFD
                &&& !final(self).halted
                &&& !final(self).pending_nmi && !final(self).pending_irq
                &&& final(self).dma_cycles == 0
                &&& final(self).total_cycles == 0
                &&& final(self).nmi_serviced_count == 0
                &&& final(self).unknown_opcode_count == 0
                &&& !final(self).cpu_step_in_progress
                &&& final(self).ram == old(self).ram
                &&& final(self).loaded_rom_name == old(self).loaded_rom_name
                &&& final(self).mapper_name == old(self).mapper_name
                &&& final(self).mapper_id == old(self).mapper_id
                &&& board_word_read(old(self).mapper, final(self).mapper, 0xFFFC, final(self).cpu.pc)
                &&& ppu_reset_from(old(self).ppu, final(self).ppu)
                &&& final(self).apu.is_reset()
                &&& final(self).apu.sample_rate == old(self).apu.sample_rate
            },
    {
        if self.mapper.is_none() {
            return;
        }
        self.reset_cpu_state();
        self.ppu.reset();
        apu_reset(&mut self.apu);
        let vector = self.read_u16(0xFFFC);
        self.cpu.pc = vector;
    }

    /// Inserts a cartridge: builds its board, names it, and resets. A mapper
    /// number with no board is refused, with the console unchanged but for
    /// the remembered file name.
    pub fn load_cartridge(&mut self, cart: Cartridge, rom_name: Option<String>) -> (r: Result<
        (),
        MapperError,
    >)
        requires
            old(self).wf(),
            cart.wf(),
            self::mapper::any::needs_whole_prg_banks(cart.mapper_id) ==> cart.whole_prg_banks(),
        ensures
            final(self).wf(),
            final(self).loaded_rom_name == rom_name,
            r is Err <==> cart.mapper_id > self::mapper::DOCUMENTED_MAPPER_MAX_ID,
            r matches Err(e) ==> e == MapperError::Unsupported(cart.mapper_id),
            r is Err ==> *final(self) == (Nes { loaded_rom_name: rom_name, ..*old(self) }),
            r is Ok ==> {
                &&& final(self).mapper is Some
                &&& final(self).mapper_id == Some(cart.mapper_id)
                &&& final(self).mapper_name@ == board_label(
                    mapper_name_spec(cart.mapper_id)@,
                    cart.mapper_id,
                    cart.submapper_id,
                )
                &&& final(self).cpu.sp == 0xFD
                &&& !final(self).halted
                &&& final(self).total_cycles == 0
            },
    {
        self.loaded_rom_name = rom_name;
        let mapper_id = cart.mapper_id;
        let supported_name = mapper_name(mapper_id);
        let submapper_id = cart.submapper_id;
        match create_mapper(cart) {
            Ok(m) => {
                self.mapper = Some(m);
            },
            Err(e) => {
                return Err(e);
            },
        }
        self.mapper_id = Some(mapper_id);
        self.mapper_name = format_board_label(supported_name, mapper_id, submapper_id);
        self.reset();
        Ok(())
    }

    /// Runs CPU steps, each followed by the cycles its bus accesses did not
    /// already clock, until the PPU completes a frame or ten million and one
    /// steps have run; then counts the frame. Without a board, or once
    /// halted, it does nothing.
    #[verifier::spinoff_prover]
    #[verifier::rlimit(60)]
    pub fn run_frame(&mut self)
        requires
            old(self).wf(),
        ensures
            final(self).wf(),
            frame_run(*old(self), *final(self)),
    {
        if self.mapper.is_none() || self.halted {
            return;
        }
        self.ppu.clear_frame_complete();
        let ghost start = *self;
        proof {
            lemma_frame_path_none(start);
        }
        let frames = self.debug.frame_count;
        let mut guard: u64 = 0;
        while !self.ppu.frame_complete()
            invariant_except_break
                guard < FRAME_STEP_LIMIT,
            invariant
                self.wf(),
                old(self).board_frame(&*self),
                start == frame_started(*old(self)),
                frames == old(self).debug.frame_count,
                frame_path(start, *self, guard as nat),
                guard == 0 ==> !self.ppu.timing.frame_complete,
            ensures
                1 <= guard <= FRAME_STEP_LIMIT,
                frame_path(start, *self, guard as nat),
                self.ppu.timing.frame_complete || guard == FRAME_STEP_LIMIT,
            decreases FRAME_STEP_LIMIT - guard,
        {
            let ghost a = *self;
            self.debug.cpu_steps = self.debug.cpu_steps.wrapping_add(1);
            assert(*self == step_counted(a));
            let cpu_cycles = self.step_cpu();
            let ghost s = *self;
            proof {
                lemma_ticks_none(s);
            }
            let remaining_cycles = cpu_cycles.saturating_sub(self.cpu_step_ticked_cycles);
            let mut i: u32 = 0;
            while i < remaining_cycles
                invariant
                    self.wf(),
                    old(self).board_frame(&*self),
                    i <= remaining_cycles,
                    ticks(s, *self, i as nat),
                decreases remaining_cycles - i,
            {
                let ghost prev = *self;
                self.tick_ppu_for_cpu_cycle();
                proof {
                    lemma_ticks_extend(s, prev, *self, i as nat);
                }
                i = i + 1;
            }
            let ghost t = *self;
            self.cpu_step_ticked_cycles = 0;
            proof {
                assert(frame_step_via(a, s, cpu_cycles, t, *self));
                assert(frame_step(a, *self));
                lemma_frame_path_extend(start, a, *self, guard as nat);
            }
            guard = guard + 1;
            if guard >= FRAME_STEP_LIMIT {
                break;
            }
        }
        let ghost e = *self;
        self.debug.frame_count = frames.wrapping_add(1);
        proof {
            assert(frame_path(start, e, guard as nat));
        }
    }
}

} // verus!
