use std::collections::HashSet;
use vstd::prelude::*;

use super::args::ProbeConfig;
use crate::nes::{
    chr_peek, controller_set, frame_run, frames_counted, levels_drained, ran_frames, Nes,
};

verus! {

broadcast use vstd::std_specs::hash::group_hash_axioms;

/// How many of the pattern-memory addresses below `k` hold a nonzero byte.
pub open spec fn chr_nonzero_below(n: Nes, k: nat) -> nat
    decreases k,
{
    if k == 0 {
        0
    } else {
        chr_nonzero_below(n, (k - 1) as nat) + if chr_peek(n, (k - 1) as u16) != 0 {
            1nat
        } else {
            0nat
        }
    }
}

/// How many bytes of the 8 KiB of pattern memory are nonzero.
pub fn chr_nonzero_count(nes: &Nes) -> (r: u32)
    requires
        nes.wf(),
    ensures
        r == chr_nonzero_below(*nes, 0x2000),
{
    let mut count: u32 = 0;
    let mut addr: u32 = 0;
    while addr < 0x2000
        invariant
            nes.wf(),
            addr <= 0x2000,
            count == chr_nonzero_below(*nes, addr as nat),
            count <= addr,
        decreases 0x2000 - addr,
    {
        if nes.debug_peek_chr(addr as u16) != 0 {
            count = count + 1;
        }
        addr = addr + 1;
    }
    count
}

/// The colour of pixel `i` of an RGBA frame as one number, R in the top
/// byte.
pub open spec fn pixel_color(fb: Seq<u8>, i: int) -> u32 {
    (fb[4 * i] * 0x1000000 + fb[4 * i + 1] * 0x10000 + fb[4 * i + 2] * 0x100 + fb[4 * i + 3]) as u32
}

/// The colours of the first `n` pixels.
pub open spec fn colors_of(fb: Seq<u8>, n: int) -> Set<u32> {
    Set::new(|c: u32| exists|i: int| 0 <= i < n && #[trigger] pixel_color(fb, i) == c)
}

/// How many different colours the frame's whole pixels have.
pub fn unique_color_count(fb: &[u8]) -> (r: usize)
    ensures
        r == colors_of(fb@, (fb@.len() / 4) as int).len(),
{
    let mut seen: HashSet<u32> = HashSet::new();
    let n = fb.len() / 4;
    let mut i: usize = 0;
    proof {
        assert(seen@ =~= colors_of(fb@, 0));
        let len = fb.len();
        assert(4 * (len / 4) <= len) by (nonlinear_arith);
    }
    while i < n
        invariant
            n == fb.len() / 4,
            i <= n,
            4 * n <= fb.len(),
            seen@ == colors_of(fb@, i as int),
        decreases n - i,
    {
        let base = 4 * i;
        let c = (fb[base] as u32) * 0x1000000 + (fb[base + 1] as u32) * 0x10000 + (fb[base + 2]
            as u32) * 0x100 + (fb[base + 3] as u32);
        assert(c == pixel_color(fb@, i as int));
        seen.insert(c);
        proof {
            assert(seen@ =~= colors_of(fb@, i + 1)) by {
                assert forall|x: u32| seen@.contains(x) implies colors_of(fb@, i + 1).contains(x) by {
                    if x != c {
                        let j = choose|j: int| 0 <= j < i && #[trigger] pixel_color(fb@, j) == x;
                        assert(pixel_color(fb@, j) == x);
                    } else {
                        assert(pixel_color(fb@, i as int) == x);
                    }
                }
                assert forall|x: u32| colors_of(fb@, i + 1).contains(x) implies seen@.contains(x) by {
                    let j = choose|j: int| 0 <= j < i + 1 && #[trigger] pixel_color(fb@, j) == x;
                    if j < i {
                        assert(colors_of(fb@, i as int).contains(x));
                    }
                }
            }
        }
        i = i + 1;
    }
    seen.len()
}

/// The character a nametable tile stands for in a text dump: printable
/// ASCII as itself, tile 0 as a space, anything else as a dot.
pub open spec fn tile_char(tile: u8) -> char {
    if 0x20 <= tile <= 0x7E {
        tile as char
    } else if tile == 0 {
        ' '
    } else {
        '.'
    }
}

pub fn tile_to_char(tile: u8) -> (r: char)
    ensures
        r == tile_char(tile),
{
    if tile >= 0x20 && tile <= 0x7E {
        tile as char
    } else if tile == 0 {
        ' '
    } else {
        '.'
    }
}

/// Nametable 0 as 30 rows of 32 characters, one per tile.
pub fn nametable_text(nes: &Nes) -> (rows: Vec<Vec<char>>)
    ensures
        rows@.len() == 30,
        forall|row: int, col: int|
            0 <= row < 30 && 0 <= col < 32 ==> #[trigger] rows@[row]@[col] == tile_char(
                nes.ppu.vram[row * 32 + col],
            ),
        forall|row: int| 0 <= row < 30 ==> #[trigger] rows@[row]@.len() == 32,
{
    let mut rows: Vec<Vec<char>> = Vec::new();
    let mut row: usize = 0;
    while row < 30
        invariant
            row <= 30,
            rows@.len() == row,
            forall|r: int, c: int|
                0 <= r < row && 0 <= c < 32 ==> #[trigger] rows@[r]@[c] == tile_char(
                    nes.ppu.vram[r * 32 + c],
                ),
            forall|r: int| 0 <= r < row ==> #[trigger] rows@[r]@.len() == 32,
        decreases 30 - row,
    {
        let mut line: Vec<char> = Vec::new();
        let mut col: usize = 0;
        while col < 32
            invariant
                row < 30,
                col <= 32,
                line@.len() == col,
                forall|c: int| 0 <= c < col ==> #[trigger] line@[c] == tile_char(
                    nes.ppu.vram[row * 32 + c],
                ),
            decreases 32 - col,
        {
            let idx = row * 32 + col;
            line.push(tile_to_char(nes.debug_peek_vram(idx)));
            col = col + 1;
        }
        rows.push(line);
        row = row + 1;
    }
    rows
}

/// First and last address of AccuracyCoin's result table.
pub const RESULT_START: u16 = 0x0400;

pub const RESULT_END: u16 = 0x048D;

/// A result byte's class from its low two bits: 0 not run, 1 passed,
/// 2 failed, 3 in progress.
pub open spec fn result_class(v: u8) -> int {
    let c = v & 0x03;
    if c == 0 {
        0
    } else if c == 1 {
        1
    } else if c == 2 {
        2
    } else {
        3
    }
}

/// How many of the first `n` result bytes are in class `k`.
pub open spec fn class_count(ram: Seq<u8>, n: nat, k: int) -> nat
    decreases n,
{
    if n == 0 {
        0
    } else {
        class_count(ram, (n - 1) as nat, k) + if result_class(ram[0x400 + n - 1]) == k {
            1nat
        } else {
            0nat
        }
    }
}

/// The failed entries among the first `n` result bytes: address and byte.
pub open spec fn failing_entries(ram: Seq<u8>, n: nat) -> Seq<(u16, u8)>
    decreases n,
{
    if n == 0 {
        Seq::empty()
    } else {
        let prev = failing_entries(ram, (n - 1) as nat);
        let addr = (0x400 + n - 1) as u16;
        let v = ram[0x400 + n - 1];
        if result_class(v) == 2 {
            prev.push((addr, v))
        } else {
            prev
        }
    }
}

/// The tally of AccuracyCoin's result table.
#[derive(Debug, Clone, PartialEq, Eq)]
pub struct ResultSummary {
    pub total: u16,
    pub pass: usize,
    pub fail: usize,
    pub unrun: usize,
    pub in_progress: usize,
    pub other: usize,
    /// The failed entries, address and byte; the byte's upper six bits are
    /// the error code.
    pub failing: Vec<(u16, u8)>,
}

/// Counts the result table's entries by class and lists the failures.
pub fn summarize_result_ram(nes: &Nes) -> (r: ResultSummary)
    ensures
        r.total == 142,
        r.unrun == class_count(nes.ram@, 142, 0),
        r.pass == class_count(nes.ram@, 142, 1),
        r.fail == class_count(nes.ram@, 142, 2),
        r.in_progress == class_count(nes.ram@, 142, 3),
        r.other == 0,
        r.failing@ == failing_entries(nes.ram@, 142),
{
    let mut unrun: usize = 0;
    let mut pass: usize = 0;
    let mut fail: usize = 0;
    let mut in_progress: usize = 0;
    let mut failing: Vec<(u16, u8)> = Vec::new();
    let mut addr: u16 = RESULT_START;
    while addr <= RESULT_END
        invariant
            0x400 <= addr <= 0x48E,
            unrun == class_count(nes.ram@, (addr - 0x400) as nat, 0),
            pass == class_count(nes.ram@, (addr - 0x400) as nat, 1),
            fail == class_count(nes.ram@, (addr - 0x400) as nat, 2),
            in_progress == class_count(nes.ram@, (addr - 0x400) as nat, 3),
            failing@ == failing_entries(nes.ram@, (addr - 0x400) as nat),
            unrun + pass + fail + in_progress == addr - 0x400,
        decreases 0x48E - addr,
    {
        let value = nes.debug_peek_internal_ram(addr);
        let code = value & 0x03;
        if code == 0 {
            unrun = unrun + 1;
        } else if code == 1 {
            pass = pass + 1;
        } else if code == 2 {
            fail = fail + 1;
            failing.push((addr, value));
        } else {
            in_progress = in_progress + 1;
        }
        addr = addr + 1;
    }
    ResultSummary {
        total: RESULT_END - RESULT_START + 1,
        pass,
        fail,
        unrun,
        in_progress,
        other: 0,
        failing,
    }
}


/// The buttons the probe holds in frame `frame`: its input for the first
/// `hold` frames, nothing after.
pub open spec fn probe_input(frame: nat, hold: nat, input: u8) -> u8 {
    if frame < hold {
        input
    } else {
        0
    }
}

/// One probe frame from `a` to `b`: controller 1 set to `s`, a frame run,
/// the channel levels drained.
pub open spec fn probe_frame(a: Nes, b: Nes, s: u8) -> bool {
    exists|f: Nes| #[trigger] frame_run(controller_set(a, s), f) && levels_drained(f, b)
}

/// Consecutive machines of `st` are probe frame `i` apart, frame `i`
/// holding `probe_input(i, ..)`.
pub open spec fn probe_link(st: Seq<Nes>, i: int, hold: nat, input: u8) -> bool {
    probe_frame(st[i], st[i + 1], probe_input(i as nat, hold, input))
}

/// The machines `st` of a probe run of `n` frames from `a` to `b`.
pub open spec fn probe_chain(st: Seq<Nes>, a: Nes, b: Nes, n: nat, hold: nat, input: u8) -> bool {
    &&& st.len() == n + 1
    &&& st[0] == a
    &&& st[n as int] == b
    &&& forall|i: int| 0 <= i < n ==> #[trigger] probe_link(st, i, hold, input)
}

/// Runs the probe's frames on a loaded console: the configured input held
/// for the first frames, then nothing; the audio levels are drained each
/// frame.
pub fn probe_run(nes: &mut Nes, cfg: &ProbeConfig)
    requires
        old(nes).wf(),
    ensures
        final(nes).wf(),
        old(nes).board_frame(&*final(nes)),
        ran_frames(*old(nes), *final(nes), cfg.frames as nat),
        exists|st: Seq<Nes>|
            #[trigger] probe_chain(
                st,
                *old(nes),
                *final(nes),
                cfg.frames as nat,
                cfg.hold_input_frames as nat,
                cfg.input,
            ),
{
    let mut frame: u32 = 0;
    let ghost mut k: nat = 0;
    let ghost mut st: Seq<Nes> = seq![*nes];
    while frame < cfg.frames
        invariant
            probe_chain(st, *old(nes), *nes, frame as nat, cfg.hold_input_frames as nat, cfg.input),
            nes.wf(),
            old(nes).board_frame(&*nes),
            frame <= cfg.frames,
            k <= frame,
            frames_counted(old(nes).debug.frame_count, nes.debug.frame_count, k),
            old(nes).mapper is Some ==> (k == frame || nes.halted),
        decreases cfg.frames - frame,
    {
        let state = if frame < cfg.hold_input_frames {
            cfg.input
        } else {
            0
        };
        assert(state == probe_input(frame as nat, cfg.hold_input_frames as nat, cfg.input));
        let ghost a = *nes;
        nes.set_controller_state(state);
        let ghost was_halted = nes.halted;
        nes.run_frame();
        let ghost f = *nes;
        proof {
            if old(nes).mapper is Some && !was_halted {
                k = k + 1;
            }
        }
        let _ = nes.take_audio_levels();
        proof {
            assert(frame_run(controller_set(a, state), f) && levels_drained(f, *nes));
            assert(probe_frame(a, *nes, state));
            let st2 = st.push(*nes);
            assert forall|i: int| 0 <= i < frame + 1 implies #[trigger] probe_link(
                st2,
                i,
                cfg.hold_input_frames as nat,
                cfg.input,
            ) by {
                if i < frame {
                    assert(probe_link(st, i, cfg.hold_input_frames as nat, cfg.input));
                }
            }
            st = st2;
        }
        frame = frame + 1;
    }
    proof {
        if old(nes).mapper is Some {
            assert(frames_counted(old(nes).debug.frame_count, nes.debug.frame_count, k));
        }
    }
}

} // verus!
