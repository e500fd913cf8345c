use vstd::prelude::*;

use super::apu::{
    lemma_shift_le, lfsr_step, Apu, NoiseChannel, PulseChannel, TriangleChannel, DUTY_TABLE,
    FC_4STEP_Q4_H4_IRQ, TRI_TABLE,
    LENGTH_TABLE, MAX_TIMER_PERIOD,
};

verus! {

/// The bits of a status byte assembled from its seven flags.
proof fn lemma_status_bits(b0: bool, b1: bool, b2: bool, b3: bool, b4: bool, b6: bool, b7: bool)
    by (bit_vector)
    ensures
        ({
            let s = (if b0 {
                0x01u8
            } else {
                0
            }) | (if b1 {
                0x02u8
            } else {
                0
            }) | (if b2 {
                0x04u8
            } else {
                0
            }) | (if b3 {
                0x08u8
            } else {
                0
            }) | (if b4 {
                0x10u8
            } else {
                0
            }) | (if b6 {
                0x40u8
            } else {
                0
            }) | (if b7 {
                0x80u8
            } else {
                0
            });
            &&& ((s & 0x01) != 0) == b0
            &&& ((s & 0x02) != 0) == b1
            &&& ((s & 0x04) != 0) == b2
            &&& ((s & 0x08) != 0) == b3
            &&& ((s & 0x10) != 0) == b4
            &&& ((s & 0x40) != 0) == b6
            &&& ((s & 0x80) != 0) == b7
        }),
{
}

proof fn lemma_status_of(a: Apu)
    ensures
        ((a.status_spec() & 0x01) != 0) == (a.pulse1.length_counter > 0),
        ((a.status_spec() & 0x02) != 0) == (a.pulse2.length_counter > 0),
        ((a.status_spec() & 0x04) != 0) == (a.triangle.length_counter > 0),
        ((a.status_spec() & 0x08) != 0) == (a.noise.length_counter > 0),
        ((a.status_spec() & 0x10) != 0) == a.dmc.playback_active_spec(),
        ((a.status_spec() & 0x40) != 0) == a.frame_irq_flag,
        ((a.status_spec() & 0x80) != 0) == a.dmc.irq_flag,
{
    lemma_status_bits(
        a.pulse1.length_counter > 0,
        a.pulse2.length_counter > 0,
        a.triangle.length_counter > 0,
        a.noise.length_counter > 0,
        a.dmc.playback_active_spec(),
        a.frame_irq_flag,
        a.dmc.irq_flag,
    );
}

/// $4015 reads back which length counters run, DMC playback, the frame IRQ
/// and the DMC IRQ; the read acknowledges the frame IRQ, so a second read
/// finds bit 6 clear and the other bits as they were.
pub proof fn law_status_read(a: Apu)
    ensures
        ((a.status_spec() & 0x01) != 0) == (a.pulse1.length_counter > 0),
        ((a.status_spec() & 0x02) != 0) == (a.pulse2.length_counter > 0),
        ((a.status_spec() & 0x04) != 0) == (a.triangle.length_counter > 0),
        ((a.status_spec() & 0x08) != 0) == (a.noise.length_counter > 0),
        ((a.status_spec() & 0x10) != 0) == a.dmc.playback_active_spec(),
        ((a.status_spec() & 0x40) != 0) == a.frame_irq_flag,
        ((a.status_spec() & 0x80) != 0) == a.dmc.irq_flag,
        ((Apu { frame_irq_flag: false, ..a }).status_spec() & 0x40) == 0,
        (((Apu { frame_irq_flag: false, ..a }).status_spec() & 0x01) != 0) == ((a.status_spec() & 0x01) != 0),
        (((Apu { frame_irq_flag: false, ..a }).status_spec() & 0x02) != 0) == ((a.status_spec() & 0x02) != 0),
        (((Apu { frame_irq_flag: false, ..a }).status_spec() & 0x04) != 0) == ((a.status_spec() & 0x04) != 0),
        (((Apu { frame_irq_flag: false, ..a }).status_spec() & 0x08) != 0) == ((a.status_spec() & 0x08) != 0),
        (((Apu { frame_irq_flag: false, ..a }).status_spec() & 0x10) != 0) == ((a.status_spec() & 0x10) != 0),
        (((Apu { frame_irq_flag: false, ..a }).status_spec() & 0x80) != 0) == ((a.status_spec() & 0x80) != 0),
{
    lemma_status_of(a);
    let b = Apu { frame_irq_flag: false, ..a };
    lemma_status_of(b);
}

/// Writing $4015 with a channel's enable bit clear silences it: its length
/// counter is zero and its status bit reads clear. The DMC IRQ is
/// acknowledged by any such write.
pub proof fn law_status_write_disables(a: Apu, value: u8)
    ensures
        ({
            let w = a.register_written(0x4015, value);
            &&& (value & 0x01) == 0 ==> w.pulse1.length_counter == 0 && (w.status_spec() & 0x01) == 0
            &&& (value & 0x02) == 0 ==> w.pulse2.length_counter == 0 && (w.status_spec() & 0x02) == 0
            &&& (value & 0x04) == 0 ==> w.triangle.length_counter == 0 && (w.status_spec() & 0x04)
                == 0
            &&& (value & 0x08) == 0 ==> w.noise.length_counter == 0 && (w.status_spec() & 0x08) == 0
            &&& !w.dmc.irq_flag
            &&& (w.status_spec() & 0x80) == 0
        }),
{
    lemma_status_of(a.register_written(0x4015, value));
}

/// After $4015 is written with `value`, a write to a channel's length
/// register ($4003, $4007, $400B, $400F) sets that channel's status bit
/// exactly when `value` enabled the channel.
pub proof fn law_length_write_follows_enable(a: Apu, value: u8, x: u8)
    ensures
        ({
            let w = a.register_written(0x4015, value);
            &&& ((w.register_written(0x4003, x).status_spec() & 0x01) != 0) == ((value & 0x01) != 0)
            &&& ((w.register_written(0x4007, x).status_spec() & 0x02) != 0) == ((value & 0x02) != 0)
            &&& ((w.register_written(0x400B, x).status_spec() & 0x04) != 0) == ((value & 0x04) != 0)
            &&& ((w.register_written(0x400F, x).status_spec() & 0x08) != 0) == ((value & 0x08) != 0)
        }),
{
    let w = a.register_written(0x4015, value);
    let j: u8 = x >> 3;
    assert(j < 32) by (bit_vector)
        requires
            j == x >> 3,
    ;
    assert(LENGTH_TABLE[j as int] > 0);
    lemma_status_of(w.register_written(0x4003, x));
    lemma_status_of(w.register_written(0x4007, x));
    lemma_status_of(w.register_written(0x400B, x));
    lemma_status_of(w.register_written(0x400F, x));
}

/// The sweep unit's target period. With shift 0 it is the period itself.
/// With a shift `s` the change is the period shifted right by `s`, at most
/// half the period: a negating unit subtracts it (and one more on pulse 1),
/// so the target is never above the period and the pitch rises; otherwise
/// it adds it, so the target is never below the period and the pitch falls.
pub proof fn law_sweep_target(c: PulseChannel)
    requires
        c.wf(),
    ensures
        c.sweep_shift == 0 ==> c.sweep_target_spec() == c.timer_period,
        c.sweep_shift > 0 ==> (c.timer_period >> c.sweep_shift) <= c.timer_period / 2,
        c.sweep_shift > 0 && !c.sweep_negate ==> c.sweep_target_spec() as int == c.timer_period + (
        c.timer_period >> c.sweep_shift) && c.sweep_target_spec() >= c.timer_period,
        c.sweep_shift > 0 && c.sweep_negate && c.timer_period >= 1 ==> c.sweep_target_spec() as int
            == c.timer_period - (c.timer_period >> c.sweep_shift) - (if c.channel1 {
            1int
        } else {
            0int
        }) && c.sweep_target_spec() <= c.timer_period,
{
    lemma_shift_le(c.timer_period, c.sweep_shift);
}

/// The pulse envelope on a quarter-frame clock. A restart sets the volume
/// to 15 and the divider to the period. Otherwise the divider counts down;
/// when it is already 0 it reloads and the volume steps down by one, and
/// from 0 it goes back to 15 when the length-halt (loop) flag is set and
/// stays 0 when it is not. Nothing else in the channel changes.
pub proof fn law_pulse_envelope(c: PulseChannel)
    ensures
        ({
            let n = c.envelope_step();
            &&& n == (PulseChannel {
                envelope_start: n.envelope_start,
                envelope_divider: n.envelope_divider,
                envelope_decay: n.envelope_decay,
                ..c
            })
            &&& c.envelope_start ==> !n.envelope_start && n.envelope_decay == 15
                && n.envelope_divider == c.envelope_period
            &&& !c.envelope_start && c.envelope_divider > 0 ==> n.envelope_divider
                == c.envelope_divider - 1 && n.envelope_decay == c.envelope_decay
            &&& !c.envelope_start && c.envelope_divider == 0 ==> n.envelope_divider
                == c.envelope_period && n.envelope_decay == (if c.envelope_decay > 0 {
                c.envelope_decay - 1
            } else if c.length_halt {
                15
            } else {
                0
            })
        }),
{
}

/// The noise envelope follows the same rule as the pulse one.
pub proof fn law_noise_envelope(c: NoiseChannel)
    ensures
        ({
            let n = c.envelope_step();
            &&& c.envelope_start ==> !n.envelope_start && n.envelope_decay == 15
                && n.envelope_divider == c.envelope_period
            &&& !c.envelope_start && c.envelope_divider > 0 ==> n.envelope_divider
                == c.envelope_divider - 1 && n.envelope_decay == c.envelope_decay
            &&& !c.envelope_start && c.envelope_divider == 0 ==> n.envelope_divider
                == c.envelope_period && n.envelope_decay == (if c.envelope_decay > 0 {
                c.envelope_decay - 1
            } else if c.length_halt {
                15
            } else {
                0
            })
        }),
{
}

/// A pulse channel's half-frame clock: the length counter drops by one
/// unless it is halted or already 0; when the sweep divider expires with the
/// sweep enabled and a nonzero shift, the period moves to the sweep target if
/// that stays within 11 bits, and otherwise the period stays.
pub proof fn law_pulse_half_frame(c: PulseChannel)
    ensures
        ({
            let n = c.half_frame_step();
            &&& n.length_counter == if !c.length_halt && c.length_counter > 0 {
                c.length_counter - 1
            } else {
                c.length_counter as int
            }
            &&& c.sweep_enabled && c.sweep_divider == 0 && c.sweep_shift != 0
                && c.sweep_target_spec() <= MAX_TIMER_PERIOD ==> n.timer_period
                == c.sweep_target_spec()
            &&& !(c.sweep_enabled && c.sweep_divider == 0) ==> n.timer_period == c.timer_period
            &&& c.sweep_target_spec() > MAX_TIMER_PERIOD ==> n.timer_period == c.timer_period
        }),
{
}

/// What a pulse channel outputs: silence when it is disabled, its length
/// counter has run out, the duty step is low, the period is below 8 or the
/// sweep target leaves 11 bits; otherwise the fixed volume with constant
/// volume set, else the envelope's level.
pub proof fn law_pulse_output(c: PulseChannel)
    ensures
        !c.enabled || c.length_counter == 0 || DUTY_TABLE[c.duty as int][c.duty_step as int] == 0
            || c.timer_period < 8 || c.sweep_target_spec() > MAX_TIMER_PERIOD ==> c.output_spec()
            == 0,
        c.enabled && c.length_counter > 0 && DUTY_TABLE[c.duty as int][c.duty_step as int] != 0
            && c.timer_period >= 8 && c.sweep_target_spec() <= MAX_TIMER_PERIOD ==> c.output_spec()
            == if c.constant_volume {
            c.volume
        } else {
            c.envelope_decay
        },
{
}

/// The triangle channel. Its sequencer steps (modulo 32) when the timer
/// reaches zero, and only while both the length and the linear counter run
/// and the period is at least 2; the timer reloads there and otherwise
/// counts down. The linear counter reloads while its reload flag is set and
/// otherwise counts down to 0; the flag clears unless the control flag is
/// set. The length counter counts down unless the control flag halts it or
/// it is 0. The output is the sequence's current level, or 0 when the
/// channel is disabled, a counter is out or the period is below 2.
pub proof fn law_triangle(c: TriangleChannel)
    ensures
        ({
            let t = c.timer_step();
            &&& c.timer_counter == 0 ==> t.timer_counter == c.timer_period && t.seq_step == if
                c.length_counter > 0 && c.linear_counter > 0 && c.timer_period >= 2 {
                (c.seq_step + 1) % 32
            } else {
                c.seq_step as int
            }
            &&& c.timer_counter > 0 ==> t.timer_counter == c.timer_counter - 1 && t.seq_step
                == c.seq_step
        }),
        ({
            let l = c.linear_step();
            &&& l.linear_counter == if c.linear_reload_flag {
                c.linear_reload_value as int
            } else if c.linear_counter > 0 {
                c.linear_counter - 1
            } else {
                0
            }
            &&& l.linear_reload_flag == (c.linear_reload_flag && c.control_flag)
        }),
        c.length_step().length_counter == if !c.control_flag && c.length_counter > 0 {
            c.length_counter - 1
        } else {
            c.length_counter as int
        },
        !c.enabled || c.length_counter == 0 || c.linear_counter == 0 || c.timer_period < 2
            ==> c.output_spec() == 0,
        c.enabled && c.length_counter > 0 && c.linear_counter > 0 && c.timer_period >= 2
            ==> c.output_spec() == TRI_TABLE[c.seq_step as int],
{
}

/// The noise channel is silent while bit 0 of its shift register is set, or
/// when it is disabled or its length counter is out; otherwise it outputs
/// the fixed volume or the envelope level. A timer clock at zero reloads the
/// timer and shifts the register once; otherwise the timer counts down.
pub proof fn law_noise(c: NoiseChannel)
    ensures
        !c.enabled || c.length_counter == 0 || (c.shift_register & 0x0001) != 0 ==> c.output_spec()
            == 0,
        c.enabled && c.length_counter > 0 && (c.shift_register & 0x0001) == 0 ==> c.output_spec()
            == if c.constant_volume {
            c.volume
        } else {
            c.envelope_decay
        },
        c.timer_counter == 0 ==> c.timer_step().timer_counter == c.timer_period
            && c.timer_step().shift_register == lfsr_step(c.shift_register, c.mode),
        c.timer_counter > 0 ==> c.timer_step().timer_counter == c.timer_counter - 1
            && c.timer_step().shift_register == c.shift_register,
{
}

/// In four-step mode with the IRQ not inhibited, the sequencer raises the
/// frame IRQ on its step to 29829.
pub proof fn law_four_step_frame_irq(a: Apu)
    requires
        !a.frame_mode_5_step,
        !a.frame_irq_inhibit,
        a.frame_counter + 1 == FC_4STEP_Q4_H4_IRQ,
    ensures
        a.sequencer_clocked().frame_irq_flag,
{
}

/// Five-step mode never raises the frame IRQ.
pub proof fn law_five_step_no_irq(a: Apu)
    requires
        a.frame_mode_5_step,
    ensures
        a.sequencer_clocked().frame_irq_flag == a.frame_irq_flag,
{
}

/// Setting the IRQ-inhibit bit of $4017 clears the frame IRQ at once, and
/// again when the write takes effect.
pub proof fn law_inhibit_clears_frame_irq(a: Apu, value: u8)
    requires
        (value & 0x40) != 0,
    ensures
        !a.register_written(0x4017, value).frame_irq_flag,
        !a.frame_write_applied(value).frame_irq_flag,
{
}

/// The noise channel's shift register, started nonzero and within 15 bits,
/// never becomes zero, so the channel never locks up.
pub proof fn law_noise_never_locks(s: u16, mode: bool)
    requires
        s != 0,
        s < 0x8000,
    ensures
        lfsr_step(s, mode) != 0,
        lfsr_step(s, mode) < 0x8000,
{
    super::apu::lemma_lfsr_nonzero(s, mode);
}

} // verus!
