use vstd::prelude::*;

use crate::nes::{
    frames_counted, ran_frames, Nes, BUTTON_A, BUTTON_B, BUTTON_DOWN, BUTTON_LEFT, BUTTON_RIGHT, BUTTON_SELECT, BUTTON_START,
    BUTTON_UP,
};

verus! {

/// One step of the xorshift32 generator.
pub open spec fn xorshift32(x: u32) -> u32 {
    let a = x ^ (x << 13);
    let b = a ^ (a >> 17);
    b ^ (b << 5)
}

/// The generator's state after `k` steps from `seed`.
pub open spec fn seed_after(seed: u32, k: nat) -> u32
    decreases k,
{
    if k == 0 {
        seed
    } else {
        xorshift32(seed_after(seed, (k - 1) as nat))
    }
}

/// The buttons of a generator state: its low eight bits pick up, down,
/// left, right, A, B, Start and Select; down gives way to up and right to
/// left.
pub open spec fn buttons_from(x: u32) -> u8 {
    let s = (if (x & 0x0001) != 0 {
        BUTTON_UP
    } else {
        0u8
    }) | (if (x & 0x0002) != 0 {
        BUTTON_DOWN
    } else {
        0u8
    }) | (if (x & 0x0004) != 0 {
        BUTTON_LEFT
    } else {
        0u8
    }) | (if (x & 0x0008) != 0 {
        BUTTON_RIGHT
    } else {
        0u8
    }) | (if (x & 0x0010) != 0 {
        BUTTON_A
    } else {
        0u8
    }) | (if (x & 0x0020) != 0 {
        BUTTON_B
    } else {
        0u8
    }) | (if (x & 0x0040) != 0 {
        BUTTON_START
    } else {
        0u8
    }) | (if (x & 0x0080) != 0 {
        BUTTON_SELECT
    } else {
        0u8
    });
    let s1 = if (s & BUTTON_UP) != 0 && (s & BUTTON_DOWN) != 0 {
        s & !BUTTON_DOWN
    } else {
        s
    };
    if (s1 & BUTTON_LEFT) != 0 && (s1 & BUTTON_RIGHT) != 0 {
        s1 & !BUTTON_RIGHT
    } else {
        s1
    }
}

/// Advances the seed one xorshift32 step and turns it into a controller
/// state for the stress run.
pub fn next_state(seed: &mut u32) -> (r: u8)
    ensures
        *final(seed) == xorshift32(*old(seed)),
        r == buttons_from(*final(seed)),
{
    let mut x = *seed;
    x = x ^ (x << 13);
    x = x ^ (x >> 17);
    x = x ^ (x << 5);
    *seed = x;
    let pressed: u8 = (if (x & 0x0001) != 0 {
        BUTTON_UP
    } else {
        0u8
    }) | (if (x & 0x0002) != 0 {
        BUTTON_DOWN
    } else {
        0u8
    }) | (if (x & 0x0004) != 0 {
        BUTTON_LEFT
    } else {
        0u8
    }) | (if (x & 0x0008) != 0 {
        BUTTON_RIGHT
    } else {
        0u8
    }) | (if (x & 0x0010) != 0 {
        BUTTON_A
    } else {
        0u8
    }) | (if (x & 0x0020) != 0 {
        BUTTON_B
    } else {
        0u8
    }) | (if (x & 0x0040) != 0 {
        BUTTON_START
    } else {
        0u8
    }) | (if (x & 0x0080) != 0 {
        BUTTON_SELECT
    } else {
        0u8
    });
    // A pad cannot press opposite directions at once.
    let mut state = pressed;
    if (state & BUTTON_UP) != 0 && (state & BUTTON_DOWN) != 0 {
        state = state & !BUTTON_DOWN;
    }
    if (state & BUTTON_LEFT) != 0 && (state & BUTTON_RIGHT) != 0 {
        state = state & !BUTTON_RIGHT;
    }
    state
}

/// The stress input never holds opposite directions together.
pub proof fn law_no_opposite_directions(x: u32)
    ensures
        !((buttons_from(x) & BUTTON_UP) != 0 && (buttons_from(x) & BUTTON_DOWN) != 0),
        !((buttons_from(x) & BUTTON_LEFT) != 0 && (buttons_from(x) & BUTTON_RIGHT) != 0),
{
    let b = buttons_from(x);
    assert(!((b & 0x10) != 0 && (b & 0x20) != 0) && !((b & 0x40) != 0 && (b & 0x80) != 0))
        by (bit_vector)
        requires
            b == buttons_from(x),
    ;
}

/// What a stress run reports: the cycle count, the unknown opcodes met,
/// whether the CPU halted, and the boot-marker and result bytes of RAM
/// ($00EC and $00F8).
#[derive(Debug, Clone, Copy, PartialEq, Eq)]
pub struct StressResult {
    pub cycles: u64,
    pub unknown: u64,
    pub halted: bool,
    pub marker: u8,
    pub result_f8: u8,
}

/// How many of the frames `0..frames` change the input (every fifteenth).
pub open spec fn input_changes(frames: nat) -> nat {
    (frames + 14) / 15
}

/// Runs `frames` frames on a loaded console, pressing a fresh pseudo-random
/// controller state from `seed` every fifteenth frame and nothing between,
/// and reports the console's counters.
pub fn stress_run(nes: &mut Nes, frames: u32, seed: &mut u32) -> (r: StressResult)
    requires
        old(nes).wf(),
    ensures
        final(nes).wf(),
        old(nes).board_frame(&*final(nes)),
        *final(seed) == seed_after(*old(seed), input_changes(frames as nat)),
        ran_frames(*old(nes), *final(nes), frames as nat),
        r == (StressResult {
            cycles: final(nes).total_cycles,
            unknown: final(nes).unknown_opcode_count,
            halted: final(nes).halted,
            marker: final(nes).ram[0xEC],
            result_f8: final(nes).ram[0xF8],
        }),
{
    let mut frame: u32 = 0;
    let ghost mut k: nat = 0;
    while frame < frames
        invariant
            nes.wf(),
            old(nes).board_frame(&*nes),
            frame <= frames,
            *seed == seed_after(*old(seed), input_changes(frame as nat)),
            k <= frame,
            frames_counted(old(nes).debug.frame_count, nes.debug.frame_count, k),
            old(nes).mapper is Some ==> (k == frame || nes.halted),
        decreases frames - frame,
    {
        let state = if frame % 15 == 0 {
            next_state(seed)
        } else {
            0
        };
        proof {
            assert(input_changes((frame + 1) as nat) == input_changes(frame as nat) + if frame % 15
                == 0 {
                1nat
            } else {
                0nat
            });
        }
        nes.set_controller_state(state);
        let ghost was_halted = nes.halted;
        nes.run_frame();
        proof {
            if old(nes).mapper is Some && !was_halted {
                k = k + 1;
            }
        }
        let _ = nes.take_audio_levels();
        frame = frame + 1;
    }
    proof {
        if old(nes).mapper is Some {
            assert(frames_counted(old(nes).debug.frame_count, nes.debug.frame_count, k));
        }
    }
    StressResult {
        cycles: nes.debug_total_cycles(),
        unknown: nes.debug_unknown_opcode_count(),
        halted: nes.debug_halted(),
        marker: nes.debug_peek_internal_ram(0x00EC),
        result_f8: nes.debug_peek_internal_ram(0x00F8),
    }
}

} // verus!
