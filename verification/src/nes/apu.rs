use vstd::prelude::*;

verus! {

/// Length-counter loads, indexed by bits 3-7 of the length register.
pub const LENGTH_TABLE: [u8; 32] = [
    10, 254, 20, 2, 40, 4, 80, 6, 160, 8, 60, 10, 14, 12, 26, 14, 12, 16, 24, 18, 48, 20, 96, 22,
    192, 24, 72, 26, 16, 28, 32, 30,
];

/// The four pulse duty sequences.
pub const DUTY_TABLE: [[u8; 8]; 4] = [
    [0, 1, 0, 0, 0, 0, 0, 0],
    [0, 1, 1, 0, 0, 0, 0, 0],
    [0, 1, 1, 1, 1, 0, 0, 0],
    [1, 0, 0, 1, 1, 1, 1, 1],
];

/// The triangle's 32-step output sequence.
pub const TRI_TABLE: [u8; 32] = [
    15, 14, 13, 12, 11, 10, 9, 8, 7, 6, 5, 4, 3, 2, 1, 0, 0, 1, 2, 3, 4, 5, 6, 7, 8, 9, 10, 11, 12,
    13, 14, 15,
];

/// Noise timer periods in CPU cycles.
pub const NOISE_PERIOD_TABLE: [u16; 16] = [
    4, 8, 16, 32, 64, 96, 128, 160, 202, 254, 380, 508, 762, 1016, 2034, 4068,
];

/// DMC timer periods in CPU cycles.
pub const DMC_RATE_TABLE: [u16; 16] = [
    428, 380, 340, 320, 286, 254, 226, 214, 190, 160, 142, 128, 106, 84, 72, 54,
];

/// The highest 11-bit timer period.
pub const MAX_TIMER_PERIOD: u16 = 0x07FF;

pub const DEFAULT_SAMPLE_RATE: u32 = 48000;

/// The lowest output sample rate the APU accepts.
pub const MIN_SAMPLE_RATE: u32 = 8000;

/// The CPU clock is 19687500/11 Hz; sample timing counts in elevenths of a
/// hertz so that it is exact.
pub const CPU_CLOCK_ELEVENTHS: u64 = 19687500;

pub const FC_4STEP_Q1: u32 = 7457;

pub const FC_4STEP_Q2_H2: u32 = 14913;

pub const FC_4STEP_Q3: u32 = 22371;

pub const FC_4STEP_Q4_H4_IRQ: u32 = 29829;

pub const FC_4STEP_RESET: u32 = 29830;

pub const FC_5STEP_Q1: u32 = 7457;

pub const FC_5STEP_Q2_H2: u32 = 14913;

pub const FC_5STEP_Q3: u32 = 22371;

pub const FC_5STEP_Q4_H4: u32 = 37281;

pub const FC_5STEP_RESET: u32 = 37282;

/// The four-step volume envelope shared by the pulse and noise channels.
pub open spec fn envelope_clocked(
    start: bool,
    divider: u8,
    decay: u8,
    period: u8,
    looping: bool,
) -> (bool, u8, u8) {
    if start {
        (false, period, 15)
    } else if divider == 0 {
        let d = if decay == 0 {
            if looping {
                15u8
            } else {
                0u8
            }
        } else {
            (decay - 1) as u8
        };
        (start, period, d)
    } else {
        (start, (divider - 1) as u8, decay)
    }
}

/// One of the two pulse (square wave) channels.
#[derive(Debug, Clone, Copy, PartialEq, Eq, Structural)]
pub struct PulseChannel {
    pub enabled: bool,
    pub channel1: bool,
    pub duty: u8,
    pub duty_step: u8,
    pub timer_period: u16,
    pub timer_counter: u16,
    pub length_counter: u8,
    pub length_halt: bool,
    pub constant_volume: bool,
    pub volume: u8,
    pub envelope_period: u8,
    pub envelope_start: bool,
    pub envelope_divider: u8,
    pub envelope_decay: u8,
    pub sweep_enabled: bool,
    pub sweep_period: u8,
    pub sweep_negate: bool,
    pub sweep_shift: u8,
    pub sweep_reload: bool,
    pub sweep_divider: u8,
}

impl PulseChannel {
    /// The fields stay in their hardware widths: the duty and its step, an
    /// 11-bit timer, 4-bit volume and envelope, a 3-bit sweep shift and a sweep
    /// period of 1-8.
    pub open spec fn wf(&self) -> bool {
        &&& self.duty < 4
        &&& self.duty_step < 8
        &&& self.timer_period <= MAX_TIMER_PERIOD
        &&& self.volume < 16
        &&& self.envelope_period < 16
        &&& self.envelope_decay < 16
        &&& self.envelope_divider < 16
        &&& self.sweep_shift < 8
        &&& 1 <= self.sweep_period <= 8
        &&& self.sweep_divider <= 8
    }

    /// The period the sweep unit aims at: the period plus or minus the period
    /// shifted right; in negate mode channel 1 subtracts one more (ones'
    /// complement), channel 2 does not.
    pub open spec fn sweep_target_spec(&self) -> u16 {
        if self.sweep_shift == 0 {
            self.timer_period
        } else {
            let change = self.timer_period >> self.sweep_shift;
            if self.sweep_negate {
                let extra: u16 = if self.channel1 {
                    1
                } else {
                    0
                };
                self.timer_period.wrapping_sub((change + extra) as u16)
            } else {
                self.timer_period.wrapping_add(change)
            }
        }
    }

    /// The channel's output level, 0-15.
    pub open spec fn output_spec(&self) -> u8 {
        if !self.enabled || self.length_counter == 0 {
            0
        } else if DUTY_TABLE[self.duty as int][self.duty_step as int] == 0 {
            0
        } else if self.timer_period < 8 {
            0
        } else if self.sweep_target_spec() > MAX_TIMER_PERIOD {
            0
        } else if self.constant_volume {
            self.volume
        } else {
            self.envelope_decay
        }
    }

    pub open spec fn new_spec(channel1: bool) -> Self {
        PulseChannel {
        enabled: false,
        channel1,
        duty: 0,
        duty_step: 0,
        timer_period: 0,
        timer_counter: 0,
        length_counter: 0,
        length_halt: false,
        constant_volume: false,
        volume: 0,
        envelope_period: 0,
        envelope_start: false,
        envelope_divider: 0,
        envelope_decay: 0,
        sweep_enabled: false,
        sweep_period: 1,
        sweep_negate: false,
        sweep_shift: 0,
        sweep_reload: false,
        sweep_divider: 0,
    }
    }

    /// Enables or disables the channel; disabling clears the length counter.
    pub fn set_enabled(&mut self, enabled: bool)
        requires
            old(self).wf(),
        ensures
            final(self).wf(),
            *final(self) == (PulseChannel {
                enabled,
                length_counter: if enabled {
                    old(self).length_counter
                } else {
                    0
                },
                ..*old(self)
            }),
    {
        self.enabled = enabled;
        if !enabled {
            self.length_counter = 0;
        }
    }

    pub fn new(channel1: bool) -> (c: Self)
        ensures
            c.wf(),
            c == Self::new_spec(channel1),
    {
        PulseChannel {
            enabled: false,
            channel1,
            duty: 0,
            duty_step: 0,
            timer_period: 0,
            timer_counter: 0,
            length_counter: 0,
            length_halt: false,
            constant_volume: false,
            volume: 0,
            envelope_period: 0,
            envelope_start: false,
            envelope_divider: 0,
            envelope_decay: 0,
            sweep_enabled: false,
            sweep_period: 1,
            sweep_negate: false,
            sweep_shift: 0,
            sweep_reload: false,
            sweep_divider: 0,
        }
    }

    pub open spec fn control_written(self, value: u8) -> Self {
        PulseChannel {
            duty: (value >> 6) & 0x03,
            length_halt: (value & 0x20) != 0,
            constant_volume: (value & 0x10) != 0,
            volume: value & 0x0F,
            envelope_period: value & 0x0F,
            envelope_start: true,
            ..self
        }
    }

    /// $4000/$4004: duty, length halt, constant volume, volume/envelope period;
    /// the envelope restarts.
    pub fn write_control(&mut self, value: u8)
        requires
            old(self).wf(),
        ensures
            final(self).wf(),
            *final(self) == old(self).control_written(value),
    {
        proof {
            lemma_u8_fields(value);
        }
        self.duty = (value >> 6) & 0x03;
        self.length_halt = (value & 0x20) != 0;
        self.constant_volume = (value & 0x10) != 0;
        self.volume = value & 0x0F;
        self.envelope_period = value & 0x0F;
        self.envelope_start = true;
    }

    pub open spec fn sweep_written(self, value: u8) -> Self {
        PulseChannel {
            sweep_enabled: (value & 0x80) != 0,
            sweep_period: (((value >> 4) & 0x07) + 1) as u8,
            sweep_negate: (value & 0x08) != 0,
            sweep_shift: value & 0x07,
            sweep_reload: true,
            ..self
        }
    }

    /// $4001/$4005: sweep enable, period (1-8), negate and shift; the sweep
    /// divider reloads at the next half frame.
    pub fn write_sweep(&mut self, value: u8)
        requires
            old(self).wf(),
        ensures
            final(self).wf(),
            *final(self) == old(self).sweep_written(value),
    {
        proof {
            lemma_u8_fields(value);
        }
        self.sweep_enabled = (value & 0x80) != 0;
        self.sweep_period = ((value >> 4) & 0x07) + 1;
        self.sweep_negate = (value & 0x08) != 0;
        self.sweep_shift = value & 0x07;
        self.sweep_reload = true;
    }

    pub open spec fn timer_low_written(self, value: u8) -> Self {
        PulseChannel {
            timer_period: (self.timer_period & 0xFF00) | (value as u16),
            ..self
        }
    }

    /// $4002/$4006: the low eight bits of the timer period.
    pub fn write_timer_low(&mut self, value: u8)
        requires
            old(self).wf(),
        ensures
            final(self).wf(),
            *final(self) == old(self).timer_low_written(value),
    {
        proof {
            lemma_timer_low(old(self).timer_period, value);
        }
        self.timer_period = (self.timer_period & 0xFF00) | value as u16;
    }

    pub open spec fn timer_high_written(self, value: u8) -> Self {
        PulseChannel {
            timer_period: (self.timer_period & 0x00FF) | (((value & 0x07) as u16) << 8),
            length_counter: if self.enabled {
                LENGTH_TABLE[(value >> 3) as int]
            } else {
                self.length_counter
            },
            duty_step: 0,
            envelope_start: true,
            ..self
        }
    }

    /// $4003/$4007: the high three bits of the timer period and, on an enabled
    /// channel, a length-counter load; the sequencer and envelope restart.
    pub fn write_timer_high(&mut self, value: u8)
        requires
            old(self).wf(),
        ensures
            final(self).wf(),
            *final(self) == old(self).timer_high_written(value),
    {
        proof {
            lemma_timer_high(old(self).timer_period, value);
        }
        self.timer_period = (self.timer_period & 0x00FF) | (((value & 0x07) as u16) << 8);
        if self.enabled {
            self.length_counter = LENGTH_TABLE[(value >> 3) as usize];
        }
        self.duty_step = 0;
        self.envelope_start = true;
    }

    /// One timer clock: at zero the timer reloads and the duty sequencer steps.
    /// The channel after a timer clock: at zero the timer reloads and the duty
    /// sequencer steps.
    pub open spec fn timer_step(self) -> Self {
        if self.timer_counter == 0 {
            PulseChannel {
                timer_counter: self.timer_period,
                duty_step: ((self.duty_step + 1) % 8) as u8,
                ..self
            }
        } else {
            PulseChannel { timer_counter: (self.timer_counter - 1) as u16, ..self }
        }
    }

    pub fn clock_timer(&mut self)
        requires
            old(self).wf(),
        ensures
            final(self).wf(),
            *final(self) == old(self).timer_step(),
    {
        if self.timer_counter == 0 {
            self.timer_counter = self.timer_period;
            self.duty_step = (self.duty_step + 1) % 8;
        } else {
            self.timer_counter = self.timer_counter - 1;
        }
    }

    /// One quarter-frame clock of the envelope.
    /// The channel after a quarter-frame envelope clock.
    pub open spec fn envelope_step(self) -> Self {
        let (s, d, e) = envelope_clocked(
            self.envelope_start,
            self.envelope_divider,
            self.envelope_decay,
            self.envelope_period,
            self.length_halt,
        );
        PulseChannel { envelope_start: s, envelope_divider: d, envelope_decay: e, ..self }
    }

    pub fn clock_envelope(&mut self)
        requires
            old(self).wf(),
        ensures
            final(self).wf(),
            *final(self) == old(self).envelope_step(),
    {
        if self.envelope_start {
            self.envelope_start = false;
            self.envelope_decay = 15;
            self.envelope_divider = self.envelope_period;
            return;
        }
        if self.envelope_divider == 0 {
            self.envelope_divider = self.envelope_period;
            if self.envelope_decay == 0 {
                if self.length_halt {
                    self.envelope_decay = 15;
                }
            } else {
                self.envelope_decay = self.envelope_decay - 1;
            }
        } else {
            self.envelope_divider = self.envelope_divider - 1;
        }
    }

    /// One half-frame clock: the length counter counts down unless halted, and
    /// the sweep divider runs, adjusting the period when it expires.
    /// The channel after a half-frame clock: the length counter counts down
    /// unless halted; the sweep divider runs and, when it expires with the
    /// sweep enabled, moves the period to an in-range target.
    pub open spec fn half_frame_step(self) -> Self {
        let length = if !self.length_halt && self.length_counter > 0 {
            (self.length_counter - 1) as u8
        } else {
            self.length_counter
        };
        let adjust = self.sweep_enabled && self.sweep_divider == 0;
        let period = if adjust && self.sweep_shift != 0 && self.sweep_target_spec()
            <= MAX_TIMER_PERIOD {
            self.sweep_target_spec()
        } else {
            self.timer_period
        };
        let divider = if self.sweep_reload || self.sweep_divider == 0 {
            self.sweep_period
        } else {
            (self.sweep_divider - 1) as u8
        };
        PulseChannel {
            length_counter: length,
            timer_period: period,
            sweep_divider: divider,
            sweep_reload: false,
            ..self
        }
    }

    pub fn clock_length_and_sweep(&mut self)
        requires
            old(self).wf(),
        ensures
            final(self).wf(),
            *final(self) == old(self).half_frame_step(),
    {
        if !self.length_halt && self.length_counter > 0 {
            self.length_counter = self.length_counter - 1;
        }
        if self.sweep_reload {
            if self.sweep_enabled && self.sweep_divider == 0 {
                self.apply_sweep();
            }
            self.sweep_divider = self.sweep_period;
            self.sweep_reload = false;
            return;
        }
        if self.sweep_divider == 0 {
            if self.sweep_enabled {
                self.apply_sweep();
            }
            self.sweep_divider = self.sweep_period;
        } else {
            self.sweep_divider = self.sweep_divider - 1;
        }
    }

    /// Moves the period to the sweep target, unless the shift is zero or the
    /// target leaves the 11-bit range.
    pub fn apply_sweep(&mut self)
        requires
            old(self).wf(),
        ensures
            final(self).wf(),
            *final(self) == (PulseChannel {
                timer_period: if old(self).sweep_shift != 0 && old(self).sweep_target_spec()
                    <= MAX_TIMER_PERIOD {
                    old(self).sweep_target_spec()
                } else {
                    old(self).timer_period
                },
                ..*old(self)
            }),
    {
        if self.sweep_shift == 0 {
            return;
        }
        let target = self.sweep_target_period();
        if target <= MAX_TIMER_PERIOD {
            self.timer_period = target;
        }
    }

    pub fn output(&self) -> (r: u8)
        requires
            self.wf(),
        ensures
            r == self.output_spec(),
            r < 16,
    {
        if !self.enabled || self.length_counter == 0 {
            return 0;
        }
        if DUTY_TABLE[self.duty as usize][self.duty_step as usize] == 0 {
            return 0;
        }
        if self.timer_period < 8 {
            return 0;
        }
        let target = self.sweep_target_period();
        if target > MAX_TIMER_PERIOD {
            return 0;
        }
        if self.constant_volume {
            self.volume
        } else {
            self.envelope_decay
        }
    }

    pub fn sweep_target_period(&self) -> (r: u16)
        requires
            self.wf(),
        ensures
            r == self.sweep_target_spec(),
    {
        if self.sweep_shift == 0 {
            return self.timer_period;
        }
        let change: u16 = self.timer_period >> self.sweep_shift;
        proof {
            lemma_shift_le(self.timer_period, self.sweep_shift);
        }
        if self.sweep_negate {
            let extra: u16 = if self.channel1 {
                1
            } else {
                0
            };
            self.timer_period.wrapping_sub(change + extra)
        } else {
            self.timer_period.wrapping_add(change)
        }
    }
}


/// The triangle channel.
#[derive(Debug, Clone, Copy, PartialEq, Eq, Structural)]
pub struct TriangleChannel {
    pub enabled: bool,
    pub control_flag: bool,
    pub linear_reload_value: u8,
    pub linear_counter: u8,
    pub linear_reload_flag: bool,
    pub timer_period: u16,
    pub timer_counter: u16,
    pub length_counter: u8,
    pub seq_step: u8,
}

impl TriangleChannel {
    /// An 11-bit timer, a 7-bit linear counter and a step in the 32-step sequence.
    pub open spec fn wf(&self) -> bool {
        &&& self.timer_period <= MAX_TIMER_PERIOD
        &&& self.linear_reload_value <= 127
        &&& self.linear_counter <= 127
        &&& self.seq_step < 32
    }

    /// The output level: the current sequence step, or silence while the
    /// length or linear counter is out or the period is ultrasonic (below 2).
    pub open spec fn output_spec(&self) -> u8 {
        if !self.enabled || self.length_counter == 0 || self.linear_counter == 0
            || self.timer_period < 2 {
            0
        } else {
            TRI_TABLE[self.seq_step as int]
        }
    }

    pub open spec fn new_spec() -> Self {
        TriangleChannel {
        enabled: false,
        control_flag: false,
        linear_reload_value: 0,
        linear_counter: 0,
        linear_reload_flag: false,
        timer_period: 0,
        timer_counter: 0,
        length_counter: 0,
        seq_step: 0,
    }
    }

    /// Enables or disables the channel; disabling clears the length counter.
    pub fn set_enabled(&mut self, enabled: bool)
        requires
            old(self).wf(),
        ensures
            final(self).wf(),
            *final(self) == (TriangleChannel {
                enabled,
                length_counter: if enabled {
                    old(self).length_counter
                } else {
                    0
                },
                ..*old(self)
            }),
    {
        self.enabled = enabled;
        if !enabled {
            self.length_counter = 0;
        }
    }

    pub fn new() -> (c: Self)
        ensures
            c.wf(),
            c == Self::new_spec(),
    {
        TriangleChannel {
            enabled: false,
            control_flag: false,
            linear_reload_value: 0,
            linear_counter: 0,
            linear_reload_flag: false,
            timer_period: 0,
            timer_counter: 0,
            length_counter: 0,
            seq_step: 0,
        }
    }

    pub open spec fn linear_written(self, value: u8) -> Self {
        TriangleChannel {
            control_flag: (value & 0x80) != 0,
            linear_reload_value: value & 0x7F,
            ..self
        }
    }

    /// $4008: the control (length halt) flag and the linear-counter reload value.
    pub fn write_linear(&mut self, value: u8)
        requires
            old(self).wf(),
        ensures
            final(self).wf(),
            *final(self) == old(self).linear_written(value),
    {
        proof {
            lemma_u8_fields(value);
        }
        self.control_flag = (value & 0x80) != 0;
        self.linear_reload_value = value & 0x7F;
    }

    pub open spec fn timer_low_written(self, value: u8) -> Self {
        TriangleChannel {
            timer_period: (self.timer_period & 0xFF00) | (value as u16),
            ..self
        }
    }

    /// $400A: the low eight bits of the timer period.
    pub fn write_timer_low(&mut self, value: u8)
        requires
            old(self).wf(),
        ensures
            final(self).wf(),
            *final(self) == old(self).timer_low_written(value),
    {
        proof {
            lemma_timer_low(old(self).timer_period, value);
        }
        self.timer_period = (self.timer_period & 0xFF00) | value as u16;
    }

    pub open spec fn timer_high_written(self, value: u8) -> Self {
        TriangleChannel {
            timer_period: (self.timer_period & 0x00FF) | (((value & 0x07) as u16) << 8),
            length_counter: if self.enabled {
                LENGTH_TABLE[(value >> 3) as int]
            } else {
                self.length_counter
            },
            linear_reload_flag: true,
            ..self
        }
    }

    /// $400B: the high three bits of the timer period, a length load on an
    /// enabled channel, and a linear-counter reload.
    pub fn write_timer_high(&mut self, value: u8)
        requires
            old(self).wf(),
        ensures
            final(self).wf(),
            *final(self) == old(self).timer_high_written(value),
    {
        proof {
            lemma_timer_high(old(self).timer_period, value);
        }
        self.timer_period = (self.timer_period & 0x00FF) | (((value & 0x07) as u16) << 8);
        if self.enabled {
            self.length_counter = LENGTH_TABLE[(value >> 3) as usize];
        }
        self.linear_reload_flag = true;
    }

    /// One quarter-frame clock of the linear counter.
    /// The channel after a quarter-frame linear-counter clock.
    pub open spec fn linear_step(self) -> Self {
        TriangleChannel {
            linear_counter: if self.linear_reload_flag {
                self.linear_reload_value
            } else if self.linear_counter > 0 {
                (self.linear_counter - 1) as u8
            } else {
                0
            },
            linear_reload_flag: self.linear_reload_flag && self.control_flag,
            ..self
        }
    }

    pub fn clock_linear_counter(&mut self)
        requires
            old(self).wf(),
        ensures
            final(self).wf(),
            *final(self) == old(self).linear_step(),
    {
        if self.linear_reload_flag {
            self.linear_counter = self.linear_reload_value;
        } else if self.linear_counter > 0 {
            self.linear_counter = self.linear_counter - 1;
        }
        if !self.control_flag {
            self.linear_reload_flag = false;
        }
    }

    /// One half-frame clock of the length counter.
    /// The channel after a half-frame length-counter clock.
    pub open spec fn length_step(self) -> Self {
        TriangleChannel {
            length_counter: if !self.control_flag && self.length_counter > 0 {
                (self.length_counter - 1) as u8
            } else {
                self.length_counter
            },
            ..self
        }
    }

    pub fn clock_length_counter(&mut self)
        requires
            old(self).wf(),
        ensures
            final(self).wf(),
            *final(self) == old(self).length_step(),
    {
        if !self.control_flag && self.length_counter > 0 {
            self.length_counter = self.length_counter - 1;
        }
    }

    /// One timer clock: at zero the timer reloads and, with both counters
    /// running and an audible period, the sequencer steps.
    /// The channel after a timer clock.
    pub open spec fn timer_step(self) -> Self {
        if self.timer_counter == 0 {
            TriangleChannel {
                timer_counter: self.timer_period,
                seq_step: if self.length_counter > 0 && self.linear_counter > 0
                    && self.timer_period > 1 {
                    ((self.seq_step + 1) % 32) as u8
                } else {
                    self.seq_step
                },
                ..self
            }
        } else {
            TriangleChannel { timer_counter: (self.timer_counter - 1) as u16, ..self }
        }
    }

    pub fn clock_timer(&mut self)
        requires
            old(self).wf(),
        ensures
            final(self).wf(),
            *final(self) == old(self).timer_step(),
    {
        if self.timer_counter == 0 {
            self.timer_counter = self.timer_period;
            if self.length_counter > 0 && self.linear_counter > 0 && self.timer_period > 1 {
                self.seq_step = (self.seq_step + 1) % 32;
            }
        } else {
            self.timer_counter = self.timer_counter - 1;
        }
    }

    pub fn output(&self) -> (r: u8)
        requires
            self.wf(),
        ensures
            r == self.output_spec(),
            r < 16,
    {
        if !self.enabled || self.length_counter == 0 || self.linear_counter == 0
            || self.timer_period < 2 {
            0
        } else {
            TRI_TABLE[self.seq_step as usize]
        }
    }
}

/// The noise channel.
#[derive(Debug, Clone, Copy, PartialEq, Eq, Structural)]
pub struct NoiseChannel {
    pub enabled: bool,
    pub length_halt: bool,
    pub constant_volume: bool,
    pub volume: u8,
    pub envelope_period: u8,
    pub envelope_start: bool,
    pub envelope_divider: u8,
    pub envelope_decay: u8,
    pub mode: bool,
    pub timer_period: u16,
    pub timer_counter: u16,
    pub shift_register: u16,
    pub length_counter: u8,
}

/// The 15-bit noise shift register after one step: feedback from bit 0 XOR
/// bit 1 (or bit 6 in short mode) enters at bit 14.
pub open spec fn lfsr_step(s: u16, mode: bool) -> u16 {
    let tap: u16 = if mode {
        6
    } else {
        1
    };
    let feedback = (s ^ (s >> tap)) & 0x0001;
    (s >> 1) | (feedback << 14)
}

/// The shift register, once seeded with a non-zero 15-bit value, never gets
/// stuck at zero and stays within 15 bits.
pub proof fn lemma_lfsr_nonzero(s: u16, mode: bool)
    requires
        s != 0,
        s < 0x8000,
    ensures
        lfsr_step(s, mode) != 0,
        lfsr_step(s, mode) < 0x8000,
{
    let tap: u16 = if mode {
        6
    } else {
        1
    };
    assert(((s >> 1) | (((s ^ (s >> tap)) & 0x0001) << 14)) != 0 && ((s >> 1) | (((s ^ (s
        >> tap)) & 0x0001) << 14)) < 0x8000) by (bit_vector)
        requires
            s != 0,
            s < 0x8000,
            tap == 1 || tap == 6,
    ;
}

impl NoiseChannel {
    /// 4-bit volume and envelope, and a non-zero 15-bit shift register.
    pub open spec fn wf(&self) -> bool {
        &&& self.volume < 16
        &&& self.envelope_period < 16
        &&& self.envelope_decay < 16
        &&& self.envelope_divider < 16
        &&& self.shift_register != 0
        &&& self.shift_register < 0x8000
    }

    /// The output level: silent while bit 0 of the shift register is set or the
    /// length counter is out, else the volume or envelope.
    pub open spec fn output_spec(&self) -> u8 {
        if !self.enabled || self.length_counter == 0 || (self.shift_register & 0x0001) != 0 {
            0
        } else if self.constant_volume {
            self.volume
        } else {
            self.envelope_decay
        }
    }

    pub open spec fn new_spec() -> Self {
        NoiseChannel {
        enabled: false,
        length_halt: false,
        constant_volume: false,
        volume: 0,
        envelope_period: 0,
        envelope_start: false,
        envelope_divider: 0,
        envelope_decay: 0,
        mode: false,
        timer_period: NOISE_PERIOD_TABLE[0],
        timer_counter: 0,
        shift_register: 1,
        length_counter: 0,
    }
    }

    /// Enables or disables the channel; disabling clears the length counter.
    pub fn set_enabled(&mut self, enabled: bool)
        requires
            old(self).wf(),
        ensures
            final(self).wf(),
            *final(self) == (NoiseChannel {
                enabled,
                length_counter: if enabled {
                    old(self).length_counter
                } else {
                    0
                },
                ..*old(self)
            }),
    {
        self.enabled = enabled;
        if !enabled {
            self.length_counter = 0;
        }
    }

    pub fn new() -> (c: Self)
        ensures
            c.wf(),
            c == Self::new_spec(),
    {
        NoiseChannel {
            enabled: false,
            length_halt: false,
            constant_volume: false,
            volume: 0,
            envelope_period: 0,
            envelope_start: false,
            envelope_divider: 0,
            envelope_decay: 0,
            mode: false,
            timer_period: NOISE_PERIOD_TABLE[0],
            timer_counter: 0,
            shift_register: 1,
            length_counter: 0,
        }
    }

    pub open spec fn control_written(self, value: u8) -> Self {
        NoiseChannel {
            length_halt: (value & 0x20) != 0,
            constant_volume: (value & 0x10) != 0,
            volume: value & 0x0F,
            envelope_period: value & 0x0F,
            envelope_start: true,
            ..self
        }
    }

    /// $400C: length halt, constant volume, volume/envelope period; the
    /// envelope restarts.
    pub fn write_control(&mut self, value: u8)
        requires
            old(self).wf(),
        ensures
            final(self).wf(),
            *final(self) == old(self).control_written(value),
    {
        proof {
            lemma_u8_fields(value);
        }
        self.length_halt = (value & 0x20) != 0;
        self.constant_volume = (value & 0x10) != 0;
        self.volume = value & 0x0F;
        self.envelope_period = value & 0x0F;
        self.envelope_start = true;
    }

    pub open spec fn period_written(self, value: u8) -> Self {
        NoiseChannel {
            mode: (value & 0x80) != 0,
            timer_period: NOISE_PERIOD_TABLE[(value & 0x0F) as int],
            ..self
        }
    }

    /// $400E: short mode and the period from the period table.
    pub fn write_period(&mut self, value: u8)
        requires
            old(self).wf(),
        ensures
            final(self).wf(),
            *final(self) == old(self).period_written(value),
    {
        proof {
            lemma_u8_fields(value);
        }
        self.mode = (value & 0x80) != 0;
        self.timer_period = NOISE_PERIOD_TABLE[(value & 0x0F) as usize];
    }

    pub open spec fn length_written(self, value: u8) -> Self {
        NoiseChannel {
            length_counter: if self.enabled {
                LENGTH_TABLE[(value >> 3) as int]
            } else {
                self.length_counter
            },
            envelope_start: true,
            ..self
        }
    }

    /// $400F: a length load on an enabled channel; the envelope restarts.
    pub fn write_length(&mut self, value: u8)
        requires
            old(self).wf(),
        ensures
            final(self).wf(),
            *final(self) == old(self).length_written(value),
    {
        proof {
            lemma_u8_fields(value);
        }
        if self.enabled {
            self.length_counter = LENGTH_TABLE[(value >> 3) as usize];
        }
        self.envelope_start = true;
    }

    /// One timer clock: at zero the timer reloads and the shift register steps.
    /// The channel after a timer clock.
    pub open spec fn timer_step(self) -> Self {
        if self.timer_counter == 0 {
            NoiseChannel {
                timer_counter: self.timer_period,
                shift_register: lfsr_step(self.shift_register, self.mode),
                ..self
            }
        } else {
            NoiseChannel { timer_counter: (self.timer_counter - 1) as u16, ..self }
        }
    }

    pub fn clock_timer(&mut self)
        requires
            old(self).wf(),
        ensures
            final(self).wf(),
            *final(self) == old(self).timer_step(),
    {
        if self.timer_counter == 0 {
            self.timer_counter = self.timer_period;
            let tap: u16 = if self.mode {
                6
            } else {
                1
            };
            let feedback: u16 = (self.shift_register ^ (self.shift_register >> tap)) & 0x0001;
            proof {
                lemma_lfsr_nonzero(old(self).shift_register, old(self).mode);
            }
            self.shift_register = (self.shift_register >> 1) | (feedback << 14);
        } else {
            self.timer_counter = self.timer_counter - 1;
        }
    }

    /// One quarter-frame clock of the envelope.
    /// The channel after a quarter-frame envelope clock.
    pub open spec fn envelope_step(self) -> Self {
        let (s, d, e) = envelope_clocked(
            self.envelope_start,
            self.envelope_divider,
            self.envelope_decay,
            self.envelope_period,
            self.length_halt,
        );
        NoiseChannel { envelope_start: s, envelope_divider: d, envelope_decay: e, ..self }
    }

    pub fn clock_envelope(&mut self)
        requires
            old(self).wf(),
        ensures
            final(self).wf(),
            *final(self) == old(self).envelope_step(),
    {
        if self.envelope_start {
            self.envelope_start = false;
            self.envelope_decay = 15;
            self.envelope_divider = self.envelope_period;
            return;
        }
        if self.envelope_divider == 0 {
            self.envelope_divider = self.envelope_period;
            if self.envelope_decay == 0 {
                if self.length_halt {
                    self.envelope_decay = 15;
                }
            } else {
                self.envelope_decay = self.envelope_decay - 1;
            }
        } else {
            self.envelope_divider = self.envelope_divider - 1;
        }
    }

    /// One half-frame clock of the length counter.
    /// The channel after a half-frame length-counter clock.
    pub open spec fn length_step(self) -> Self {
        NoiseChannel {
            length_counter: if !self.length_halt && self.length_counter > 0 {
                (self.length_counter - 1) as u8
            } else {
                self.length_counter
            },
            ..self
        }
    }

    pub fn clock_length_counter(&mut self)
        requires
            old(self).wf(),
        ensures
            final(self).wf(),
            *final(self) == old(self).length_step(),
    {
        if !self.length_halt && self.length_counter > 0 {
            self.length_counter = self.length_counter - 1;
        }
    }

    pub fn output(&self) -> (r: u8)
        requires
            self.wf(),
        ensures
            r == self.output_spec(),
            r < 16,
    {
        if !self.enabled || self.length_counter == 0 || (self.shift_register & 0x0001) != 0 {
            return 0;
        }
        if self.constant_volume {
            self.volume
        } else {
            self.envelope_decay
        }
    }
}


/// The delta modulation channel: 1-bit delta samples fetched from CPU memory
/// by DMA.
#[derive(Debug, Clone, Copy, PartialEq, Eq, Structural)]
pub struct DmcChannel {
    pub enabled: bool,
    pub irq_enabled: bool,
    pub irq_flag: bool,
    pub loop_flag: bool,
    pub rate_index: u8,
    pub timer_period: u16,
    pub timer_counter: u16,
    pub output_level: u8,
    pub sample_addr: u8,
    pub sample_length: u8,
    pub current_addr: u16,
    pub bytes_remaining: u16,
    pub sample_buffer: Option<u8>,
    pub shift_register: u8,
    pub bits_remaining: u8,
    pub silence: bool,
    pub dma_pending: bool,
    pub dma_delay: u8,
}

impl DmcChannel {
    /// A 7-bit output level, a rate from the table with the timer within its
    /// period, and 1-8 bits left in the output shifter.
    pub open spec fn wf(&self) -> bool {
        &&& self.output_level <= 127
        &&& self.rate_index < 16
        &&& self.timer_period == DMC_RATE_TABLE[self.rate_index as int]
        &&& self.timer_counter <= self.timer_period
        &&& 1 <= self.bits_remaining <= 8
    }

    /// Whether a sample is still playing: bytes left to fetch or a byte buffered.
    pub open spec fn playback_active_spec(&self) -> bool {
        self.bytes_remaining > 0 || self.sample_buffer is Some
    }

    /// A DMA fetch scheduled `delay` cycles ahead, if the channel is enabled,
    /// its buffer is empty and bytes are left.
    pub open spec fn scheduled(self, delay: u8) -> Self {
        if self.enabled && self.sample_buffer is None && self.bytes_remaining > 0 {
            DmcChannel { dma_pending: true, dma_delay: delay, ..self }
        } else {
            self
        }
    }

    /// The sample restarted from its start address ($C000 + 64 x address
    /// register) with 16 x length + 1 bytes; an empty buffer asks for a fetch
    /// two cycles later.
    pub open spec fn restarted(self) -> Self {
        let d = DmcChannel {
            current_addr: 0xC000 | ((self.sample_addr as u16) << 6),
            bytes_remaining: ((self.sample_length as u16) << 4) | 0x0001,
            ..self
        };
        if d.sample_buffer is None && d.bytes_remaining > 0 {
            d.scheduled(2)
        } else {
            d
        }
    }

    /// The channel after a DMA byte arrives: it fills the buffer, the address
    /// advances (wrapping from $FFFF to $8000) and, when the last byte is in,
    /// the sample loops or raises its IRQ.
    pub open spec fn after_dma_byte(self, byte: u8) -> Self {
        let d = DmcChannel { dma_pending: false, dma_delay: 0, sample_buffer: Some(byte), ..self };
        if d.bytes_remaining > 0 {
            let d2 = DmcChannel {
                current_addr: if d.current_addr == 0xFFFF {
                    0x8000
                } else {
                    (d.current_addr + 1) as u16
                },
                bytes_remaining: (d.bytes_remaining - 1) as u16,
                ..d
            };
            if d2.bytes_remaining == 0 {
                if d2.loop_flag {
                    d2.restarted()
                } else if d2.irq_enabled {
                    DmcChannel { irq_flag: true, ..d2 }
                } else {
                    d2
                }
            } else {
                d2
            }
        } else {
            d
        }
    }

    /// The output unit's step: the level moves by 2 toward the shifted-out bit
    /// (staying within 0-127) unless silent; after eight bits the buffered
    /// byte, if any, is loaded and the next fetch scheduled.
    pub open spec fn output_clocked(self) -> Self {
        let level = if !self.silence {
            if (self.shift_register & 0x01) != 0 {
                if self.output_level <= 125 {
                    (self.output_level + 2) as u8
                } else {
                    self.output_level
                }
            } else if self.output_level >= 2 {
                (self.output_level - 2) as u8
            } else {
                self.output_level
            }
        } else {
            self.output_level
        };
        let bits = if self.bits_remaining > 0 {
            (self.bits_remaining - 1) as u8
        } else {
            0u8
        };
        let d = DmcChannel {
            output_level: level,
            shift_register: self.shift_register >> 1,
            bits_remaining: bits,
            ..self
        };
        if bits == 0 {
            match d.sample_buffer {
                Some(sample) => {
                    let d2 = DmcChannel {
                        bits_remaining: 8,
                        sample_buffer: None,
                        shift_register: sample,
                        silence: false,
                        ..d
                    };
                    if d2.bytes_remaining > 0 {
                        d2.scheduled(1)
                    } else {
                        d2
                    }
                },
                None => DmcChannel { bits_remaining: 8, silence: true, ..d },
            }
        } else {
            d
        }
    }

    pub open spec fn new_spec() -> Self {
        DmcChannel {
        enabled: false,
        irq_enabled: false,
        irq_flag: false,
        loop_flag: false,
        rate_index: 0,
        timer_period: DMC_RATE_TABLE[0],
        timer_counter: DMC_RATE_TABLE[0],
        output_level: 0,
        sample_addr: 0,
        sample_length: 0,
        current_addr: 0xC000,
        bytes_remaining: 0,
        sample_buffer: None,
        shift_register: 0,
        bits_remaining: 8,
        silence: true,
        dma_pending: false,
        dma_delay: 0,
    }
    }

    pub fn new() -> (c: Self)
        ensures
            c.wf(),
            c == Self::new_spec(),
    {
        DmcChannel {
            enabled: false,
            irq_enabled: false,
            irq_flag: false,
            loop_flag: false,
            rate_index: 0,
            timer_period: DMC_RATE_TABLE[0],
            timer_counter: DMC_RATE_TABLE[0],
            output_level: 0,
            sample_addr: 0,
            sample_length: 0,
            current_addr: 0xC000,
            bytes_remaining: 0,
            sample_buffer: None,
            shift_register: 0,
            bits_remaining: 8,
            silence: true,
            dma_pending: false,
            dma_delay: 0,
        }
    }

    pub open spec fn control_written(self, value: u8) -> Self {
        let rate = value & 0x0F;
        let period = DMC_RATE_TABLE[rate as int];
        DmcChannel {
            irq_enabled: (value & 0x80) != 0,
            irq_flag: self.irq_flag && (value & 0x80) != 0,
            loop_flag: (value & 0x40) != 0,
            rate_index: rate,
            timer_period: period,
            timer_counter: if self.timer_counter == 0 || self.timer_counter > period {
                period
            } else {
                self.timer_counter
            },
            ..self
        }
    }

    /// $4010: IRQ enable (clearing it clears the flag), loop and rate; the
    /// timer is pulled into the new period.
    pub fn write_control(&mut self, value: u8)
        requires
            old(self).wf(),
        ensures
            final(self).wf(),
            *final(self) == old(self).control_written(value),
    {
        proof {
            lemma_u8_fields(value);
        }
        self.irq_enabled = (value & 0x80) != 0;
        if !self.irq_enabled {
            self.irq_flag = false;
        }
        self.loop_flag = (value & 0x40) != 0;
        self.rate_index = value & 0x0F;
        self.timer_period = DMC_RATE_TABLE[self.rate_index as usize];
        if self.timer_counter == 0 || self.timer_counter > self.timer_period {
            self.timer_counter = self.timer_period;
        }
    }

    pub open spec fn output_level_written(self, value: u8) -> Self {
        DmcChannel { output_level: value & 0x7F, ..self }
    }

    /// $4011: the output level, seven bits.
    pub fn write_output_level(&mut self, value: u8)
        requires
            old(self).wf(),
        ensures
            final(self).wf(),
            *final(self) == old(self).output_level_written(value),
    {
        proof {
            lemma_u8_fields(value);
        }
        self.output_level = value & 0x7F;
    }

    pub open spec fn sample_addr_written(self, value: u8) -> Self {
        DmcChannel { sample_addr: value, ..self }
    }

    /// $4012: the sample address register.
    pub fn write_sample_addr(&mut self, value: u8)
        requires
            old(self).wf(),
        ensures
            final(self).wf(),
            *final(self) == old(self).sample_addr_written(value),
    {
        self.sample_addr = value;
    }

    pub open spec fn sample_length_written(self, value: u8) -> Self {
        DmcChannel { sample_length: value, ..self }
    }

    /// $4013: the sample length register.
    pub fn write_sample_length(&mut self, value: u8)
        requires
            old(self).wf(),
        ensures
            final(self).wf(),
            *final(self) == old(self).sample_length_written(value),
    {
        self.sample_length = value;
    }

    pub fn restart_sample(&mut self)
        requires
            old(self).wf(),
        ensures
            final(self).wf(),
            *final(self) == old(self).restarted(),
    {
        self.current_addr = 0xC000 | ((self.sample_addr as u16) << 6);
        self.bytes_remaining = ((self.sample_length as u16) << 4) | 0x0001;
        if self.sample_buffer.is_none() && self.bytes_remaining > 0 {
            // The fetch after playback starts comes about two cycles later.
            self.schedule_dma(2);
        }
    }

    pub fn playback_active(&self) -> (r: bool)
        ensures
            r == self.playback_active_spec(),
    {
        self.bytes_remaining > 0 || self.sample_buffer.is_some()
    }

    /// Whether a DMA fetch is due now.
    pub fn needs_dma(&self) -> (r: bool)
        ensures
            r == (self.enabled && self.dma_pending && self.dma_delay == 0),
    {
        self.enabled && self.dma_pending && self.dma_delay == 0
    }

    pub fn current_dma_addr(&self) -> (r: u16)
        ensures
            r == self.current_addr,
    {
        self.current_addr
    }

    /// Stops playback: no bytes left, no fetch pending.
    pub fn stop(&mut self)
        requires
            old(self).wf(),
        ensures
            final(self).wf(),
            *final(self) == (DmcChannel {
                bytes_remaining: 0,
                dma_pending: false,
                dma_delay: 0,
                ..*old(self)
            }),
    {
        self.bytes_remaining = 0;
        self.dma_pending = false;
        self.dma_delay = 0;
    }

    pub fn consume_dma_byte(&mut self, byte: u8)
        requires
            old(self).wf(),
        ensures
            final(self).wf(),
            *final(self) == old(self).after_dma_byte(byte),
    {
        self.dma_pending = false;
        self.dma_delay = 0;
        self.sample_buffer = Some(byte);
        if self.bytes_remaining > 0 {
            self.current_addr = if self.current_addr == 0xFFFF {
                0x8000
            } else {
                self.current_addr + 1
            };
            self.bytes_remaining = self.bytes_remaining - 1;
            if self.bytes_remaining == 0 {
                if self.loop_flag {
                    self.restart_sample();
                } else if self.irq_enabled {
                    self.irq_flag = true;
                }
            }
        }
    }

    pub fn clock_output_unit(&mut self)
        requires
            old(self).wf(),
        ensures
            final(self).wf(),
            *final(self) == old(self).output_clocked(),
    {
        if !self.silence {
            if (self.shift_register & 0x01) != 0 {
                if self.output_level <= 125 {
                    self.output_level = self.output_level + 2;
                }
            } else if self.output_level >= 2 {
                self.output_level = self.output_level - 2;
            }
        }
        self.shift_register = self.shift_register >> 1;
        if self.bits_remaining > 0 {
            self.bits_remaining = self.bits_remaining - 1;
        }
        if self.bits_remaining == 0 {
            self.bits_remaining = 8;
            match self.sample_buffer {
                Some(sample) => {
                    self.sample_buffer = None;
                    self.shift_register = sample;
                    self.silence = false;
                    if self.bytes_remaining > 0 {
                        // The next fetch follows one cycle after the buffer empties.
                        self.schedule_dma(1);
                    }
                },
                None => {
                    self.silence = true;
                },
            }
        }
    }

    /// One CPU cycle: a scheduled fetch counts down its delay, and the timer
    /// clocks the output unit each time it runs out.
    /// The channel after one CPU cycle.
    pub open spec fn timer_step(self) -> Self {
        let d = if self.dma_pending && self.dma_delay > 0 {
            DmcChannel { dma_delay: (self.dma_delay - 1) as u8, ..self }
        } else {
            self
        };
        let start = if d.timer_counter == 0 {
            d.timer_period
        } else {
            d.timer_counter
        };
        let d2 = DmcChannel { timer_counter: (start - 1) as u16, ..d };
        if d2.timer_counter == 0 {
            d2.output_clocked()
        } else {
            d2
        }
    }

    pub fn clock_timer(&mut self)
        requires
            old(self).wf(),
        ensures
            final(self).wf(),
            *final(self) == old(self).timer_step(),
    {
        if self.dma_pending && self.dma_delay > 0 {
            self.dma_delay = self.dma_delay - 1;
        }
        if self.timer_counter == 0 {
            self.timer_counter = self.timer_period;
        }
        self.timer_counter = self.timer_counter - 1;
        if self.timer_counter == 0 {
            self.clock_output_unit();
        }
    }

    pub fn schedule_dma(&mut self, delay: u8)
        requires
            old(self).wf(),
        ensures
            final(self).wf(),
            *final(self) == old(self).scheduled(delay),
    {
        if self.enabled && self.sample_buffer.is_none() && self.bytes_remaining > 0 {
            self.dma_pending = true;
            self.dma_delay = delay;
        }
    }

    pub fn output(&self) -> (r: u8)
        requires
            self.wf(),
        ensures
            r == self.output_level,
            r <= 127,
    {
        self.output_level
    }
}


/// The five channel output levels at one output sample, before mixing.
#[derive(Debug, Clone, Copy, PartialEq, Eq, Structural)]
pub struct ChannelLevels {
    pub pulse1: u8,
    pub pulse2: u8,
    pub triangle: u8,
    pub noise: u8,
    pub dmc: u8,
}

/// The audio processing unit: five channels, the frame sequencer, the register
/// interface, DMC DMA requests, and the channel levels at each output sample.
pub struct Apu {
    pub pulse1: PulseChannel,
    pub pulse2: PulseChannel,
    pub triangle: TriangleChannel,
    pub noise: NoiseChannel,
    pub dmc: DmcChannel,
    pub frame_counter: u32,
    pub frame_mode_5_step: bool,
    pub frame_irq_inhibit: bool,
    pub frame_irq_flag: bool,
    pub frame_counter_write_pending: bool,
    pub frame_counter_write_value: u8,
    pub frame_counter_write_delay: u8,
    pub cpu_cycle: u64,
    pub sample_rate: u32,
    pub sample_phase: u64,
    pub levels: Vec<ChannelLevels>,
    pub dmc_dma_request: Option<u16>,
}

/// The frame sequencer's period: 29830 cycles in four-step mode, 37282 in
/// five-step mode.
pub open spec fn frame_period(five_step: bool) -> u32 {
    if five_step {
        FC_5STEP_RESET
    } else {
        FC_4STEP_RESET
    }
}

impl Apu {
    /// Every channel is well formed, the sequencer is inside its period, a
    /// pending $4017 write is at most four cycles away, the sample clock is
    /// below one CPU clock and the sample rate is at least the minimum.
    pub open spec fn wf(&self) -> bool {
        &&& self.pulse1.wf()
        &&& self.pulse2.wf()
        &&& self.triangle.wf()
        &&& self.noise.wf()
        &&& self.dmc.wf()
        &&& self.frame_counter < frame_period(self.frame_mode_5_step)
        &&& self.frame_counter_write_delay <= 4
        &&& self.sample_phase < CPU_CLOCK_ELEVENTHS
        &&& self.sample_rate >= MIN_SAMPLE_RATE
    }

    /// The $4015 status byte: bits 0-3 for the length counters still running,
    /// bit 4 for DMC playback, bit 6 for the frame IRQ, bit 7 for the DMC IRQ.
    pub open spec fn status_spec(&self) -> u8 {
        (if self.pulse1.length_counter > 0 {
            0x01u8
        } else {
            0
        }) | (if self.pulse2.length_counter > 0 {
            0x02u8
        } else {
            0
        }) | (if self.triangle.length_counter > 0 {
            0x04u8
        } else {
            0
        }) | (if self.noise.length_counter > 0 {
            0x08u8
        } else {
            0
        }) | (if self.dmc.playback_active_spec() {
            0x10u8
        } else {
            0
        }) | (if self.frame_irq_flag {
            0x40u8
        } else {
            0
        }) | (if self.dmc.irq_flag {
            0x80u8
        } else {
            0
        })
    }

    pub open spec fn levels_spec(&self) -> ChannelLevels {
        ChannelLevels {
            pulse1: self.pulse1.output_spec(),
            pulse2: self.pulse2.output_spec(),
            triangle: self.triangle.output_spec(),
            noise: self.noise.output_spec(),
            dmc: self.dmc.output_level,
        }
    }

    /// The state at power-on and after a reset, but for the sample rate.
    pub open spec fn is_reset(&self) -> bool {
        &&& self.pulse1 == PulseChannel::new_spec(true)
        &&& self.pulse2 == PulseChannel::new_spec(false)
        &&& self.triangle == TriangleChannel::new_spec()
        &&& self.noise == NoiseChannel::new_spec()
        &&& self.dmc == DmcChannel::new_spec()
        &&& self.frame_counter == 0
        &&& !self.frame_mode_5_step
        &&& !self.frame_irq_inhibit
        &&& !self.frame_irq_flag
        &&& !self.frame_counter_write_pending
        &&& self.frame_counter_write_value == 0
        &&& self.frame_counter_write_delay == 0
        &&& self.cpu_cycle == 0
        &&& self.sample_phase == 0
        &&& self.levels@ == Seq::<ChannelLevels>::empty()
        &&& self.dmc_dma_request is None
    }

    pub fn new() -> (a: Self)
        ensures
            a.wf(),
            a.is_reset(),
            a.sample_rate == DEFAULT_SAMPLE_RATE,
    {
        Apu {
            pulse1: PulseChannel::new(true),
            pulse2: PulseChannel::new(false),
            triangle: TriangleChannel::new(),
            noise: NoiseChannel::new(),
            dmc: DmcChannel::new(),
            frame_counter: 0,
            frame_mode_5_step: false,
            frame_irq_inhibit: false,
            frame_irq_flag: false,
            frame_counter_write_pending: false,
            frame_counter_write_value: 0,
            frame_counter_write_delay: 0,
            cpu_cycle: 0,
            sample_rate: DEFAULT_SAMPLE_RATE,
            sample_phase: 0,
            levels: Vec::new(),
            dmc_dma_request: None,
        }
    }

    /// Back to the power-on state; the sample rate stays.
    pub fn reset(&mut self)
        ensures
            final(self).wf() <== old(self).sample_rate >= MIN_SAMPLE_RATE,
            final(self).is_reset(),
            final(self).sample_rate == old(self).sample_rate,
    {
        self.pulse1 = PulseChannel::new(true);
        self.pulse2 = PulseChannel::new(false);
        self.triangle = TriangleChannel::new();
        self.noise = NoiseChannel::new();
        self.dmc = DmcChannel::new();
        self.frame_counter = 0;
        self.frame_mode_5_step = false;
        self.frame_irq_inhibit = false;
        self.frame_irq_flag = false;
        self.frame_counter_write_pending = false;
        self.frame_counter_write_value = 0;
        self.frame_counter_write_delay = 0;
        self.cpu_cycle = 0;
        self.sample_phase = 0;
        self.levels = Vec::new();
        self.dmc_dma_request = None;
    }

    /// Sets the output sample rate, raised to at least 8000 Hz.
    pub fn set_sample_rate(&mut self, sample_rate: u32)
        requires
            old(self).wf(),
        ensures
            final(self).wf(),
            final(self).sample_rate == if sample_rate < MIN_SAMPLE_RATE {
                MIN_SAMPLE_RATE
            } else {
                sample_rate
            },
            *final(self) == (Apu { sample_rate: final(self).sample_rate, ..*old(self) }),
    {
        self.sample_rate = if sample_rate < MIN_SAMPLE_RATE {
            MIN_SAMPLE_RATE
        } else {
            sample_rate
        };
    }

    pub fn sample_rate(&self) -> (r: u32)
        ensures
            r == self.sample_rate,
    {
        self.sample_rate
    }

    /// Reads $4015: the status byte; the read acknowledges the frame IRQ.
    pub fn read_status(&mut self) -> (r: u8)
        requires
            old(self).wf(),
        ensures
            final(self).wf(),
            r == old(self).status_spec(),
            *final(self) == (Apu { frame_irq_flag: false, ..*old(self) }),
    {
        let b0: u8 = if self.pulse1.length_counter > 0 {
            0x01
        } else {
            0
        };
        let b1: u8 = if self.pulse2.length_counter > 0 {
            0x02
        } else {
            0
        };
        let b2: u8 = if self.triangle.length_counter > 0 {
            0x04
        } else {
            0
        };
        let b3: u8 = if self.noise.length_counter > 0 {
            0x08
        } else {
            0
        };
        let b4: u8 = if self.dmc.playback_active() {
            0x10
        } else {
            0
        };
        let b6: u8 = if self.frame_irq_flag {
            0x40
        } else {
            0
        };
        let b7: u8 = if self.dmc.irq_flag {
            0x80
        } else {
            0
        };
        self.frame_irq_flag = false;
        b0 | b1 | b2 | b3 | b4 | b6 | b7
    }

    /// Whether the APU asserts IRQ: the frame IRQ or the DMC IRQ.
    pub fn irq_pending(&self) -> (r: bool)
        ensures
            r == (self.frame_irq_flag || self.dmc.irq_flag),
    {
        self.frame_irq_flag || self.dmc.irq_flag
    }

    /// Hands out a pending DMC DMA request once.
    pub fn take_dmc_dma_request(&mut self) -> (r: Option<u16>)
        ensures
            r == old(self).dmc_dma_request,
            *final(self) == (Apu { dmc_dma_request: None, ..*old(self) }),
    {
        self.dmc_dma_request.take()
    }

    /// Hands out the channel levels recorded at the output samples so far.
    pub fn take_levels(&mut self) -> (r: Vec<ChannelLevels>)
        ensures
            r@ == old(self).levels@,
            final(self).levels@ == Seq::<ChannelLevels>::empty(),
            *final(self) == (Apu { levels: final(self).levels, ..*old(self) }),
    {
        let mut out: Vec<ChannelLevels> = Vec::new();
        core::mem::swap(&mut self.levels, &mut out);
        out
    }

    /// Delivers the byte a DMC DMA fetched; a further fetch, if due at once, is
    /// requested.
    pub fn complete_dmc_dma(&mut self, value: u8)
        requires
            old(self).wf(),
        ensures
            final(self).wf(),
            final(self).dmc == old(self).dmc.after_dma_byte(value),
            final(self).dmc_dma_request == if old(self).dmc_dma_request is None
                && final(self).dmc.enabled && final(self).dmc.dma_pending
                && final(self).dmc.dma_delay == 0 {
                Some(final(self).dmc.current_addr)
            } else {
                old(self).dmc_dma_request
            },
            *final(self) == (Apu {
                dmc: final(self).dmc,
                dmc_dma_request: final(self).dmc_dma_request,
                ..*old(self)
            }),
    {
        self.dmc.consume_dma_byte(value);
        if self.dmc.needs_dma() && self.dmc_dma_request.is_none() {
            self.dmc_dma_request = Some(self.dmc.current_dma_addr());
        }
    }
}


impl Apu {
    /// The APU after a quarter-frame clock: envelopes and the linear counter.
    pub open spec fn quarter_clocked(self) -> Self {
        Apu {
            pulse1: self.pulse1.envelope_step(),
            pulse2: self.pulse2.envelope_step(),
            triangle: self.triangle.linear_step(),
            noise: self.noise.envelope_step(),
            ..self
        }
    }

    /// The APU after a half-frame clock: length counters and sweeps.
    pub open spec fn half_clocked(self) -> Self {
        Apu {
            pulse1: self.pulse1.half_frame_step(),
            pulse2: self.pulse2.half_frame_step(),
            triangle: self.triangle.length_step(),
            noise: self.noise.length_step(),
            ..self
        }
    }

    /// A $4017 value taking effect: the mode and IRQ inhibit are set (the
    /// inhibit clears the frame IRQ), the sequencer restarts, and five-step
    /// mode clocks a quarter and a half frame at once.
    pub open spec fn frame_write_applied(self, value: u8) -> Self {
        let five = (value & 0x80) != 0;
        let inhibit = (value & 0x40) != 0;
        let a = Apu {
            frame_mode_5_step: five,
            frame_irq_inhibit: inhibit,
            frame_irq_flag: self.frame_irq_flag && !inhibit,
            frame_counter: 0,
            ..self
        };
        if five {
            a.quarter_clocked().half_clocked()
        } else {
            a
        }
    }

    /// One step of the frame sequencer. Four-step mode clocks quarter frames
    /// at 7457, 14913, 22371 and 29829, half frames at 14913 and 29829, raises
    /// the frame IRQ (unless inhibited) at 29829 and 29830, and starts over at
    /// 29830; five-step mode clocks at 7457, 14913, 22371 and 37281, never
    /// raises the IRQ, and starts over at 37282.
    pub open spec fn sequencer_clocked(self) -> Self {
        let c = (self.frame_counter + 1) as u32;
        let a = Apu { frame_counter: c, ..self };
        if self.frame_mode_5_step {
            if c == FC_5STEP_Q1 || c == FC_5STEP_Q3 {
                a.quarter_clocked()
            } else if c == FC_5STEP_Q2_H2 || c == FC_5STEP_Q4_H4 {
                a.quarter_clocked().half_clocked()
            } else if c == FC_5STEP_RESET {
                Apu { frame_counter: 0, ..a }
            } else {
                a
            }
        } else {
            if c == FC_4STEP_Q1 || c == FC_4STEP_Q3 {
                a.quarter_clocked()
            } else if c == FC_4STEP_Q2_H2 {
                a.quarter_clocked().half_clocked()
            } else if c == FC_4STEP_Q4_H4_IRQ {
                let b = a.quarter_clocked().half_clocked();
                Apu { frame_irq_flag: b.frame_irq_flag || !b.frame_irq_inhibit, ..b }
            } else if c == FC_4STEP_RESET {
                Apu { frame_irq_flag: a.frame_irq_flag || !a.frame_irq_inhibit, frame_counter: 0, ..a }
            } else {
                a
            }
        }
    }

    /// A pending $4017 write counted down by a cycle, taking effect when its
    /// delay runs out.
    pub open spec fn pending_write_stage(self) -> Self {
        if self.frame_counter_write_pending {
            let d = if self.frame_counter_write_delay > 0 {
                (self.frame_counter_write_delay - 1) as u8
            } else {
                0u8
            };
            let a = Apu { frame_counter_write_delay: d, ..self };
            if d == 0 {
                Apu {
                    frame_counter_write_pending: false,
                    ..a.frame_write_applied(self.frame_counter_write_value)
                }
            } else {
                a
            }
        } else {
            self
        }
    }

    /// The channel timers of one CPU cycle: pulse and noise on even cycles,
    /// triangle and DMC every cycle; a DMC fetch that falls due is requested.
    pub open spec fn channels_timed(self) -> Self {
        let a = if self.cpu_cycle % 2 == 0 {
            Apu {
                pulse1: self.pulse1.timer_step(),
                pulse2: self.pulse2.timer_step(),
                noise: self.noise.timer_step(),
                ..self
            }
        } else {
            self
        };
        let b = Apu { triangle: a.triangle.timer_step(), dmc: a.dmc.timer_step(), ..a };
        if b.dmc.enabled && b.dmc.dma_pending && b.dmc.dma_delay == 0 && b.dmc_dma_request is None {
            Apu { dmc_dma_request: Some(b.dmc.current_addr), ..b }
        } else {
            b
        }
    }

    /// One CPU cycle of the APU before output sampling.
    pub open spec fn clocked(self) -> Self {
        Apu { cpu_cycle: self.cpu_cycle.wrapping_add(1), ..self }.pending_write_stage().channels_timed().sequencer_clocked()
    }

    /// How many output samples fall due in a cycle, and the sample clock left.
    pub open spec fn samples_due(self) -> (nat, u64) {
        let total = self.sample_phase + self.sample_rate * 11;
        ((total / (CPU_CLOCK_ELEVENTHS as int)) as nat, (total % (CPU_CLOCK_ELEVENTHS as int)) as u64)
    }

    fn clock_quarter_frame(&mut self)
        requires
            old(self).wf(),
        ensures
            final(self).wf(),
            *final(self) == old(self).quarter_clocked(),
    {
        self.pulse1.clock_envelope();
        self.pulse2.clock_envelope();
        self.triangle.clock_linear_counter();
        self.noise.clock_envelope();
    }

    fn clock_half_frame(&mut self)
        requires
            old(self).wf(),
        ensures
            final(self).wf(),
            *final(self) == old(self).half_clocked(),
    {
        self.pulse1.clock_length_and_sweep();
        self.pulse2.clock_length_and_sweep();
        self.triangle.clock_length_counter();
        self.noise.clock_length_counter();
    }

    fn apply_frame_counter_write(&mut self, value: u8)
        requires
            old(self).wf(),
        ensures
            final(self).wf(),
            *final(self) == old(self).frame_write_applied(value),
    {
        self.frame_mode_5_step = (value & 0x80) != 0;
        self.frame_irq_inhibit = (value & 0x40) != 0;
        if self.frame_irq_inhibit {
            self.frame_irq_flag = false;
        }
        self.frame_counter = 0;
        if self.frame_mode_5_step {
            self.clock_quarter_frame();
            self.clock_half_frame();
        }
    }

    fn clock_frame_counter(&mut self)
        requires
            old(self).wf(),
        ensures
            final(self).wf(),
            *final(self) == old(self).sequencer_clocked(),
    {
        self.frame_counter = self.frame_counter + 1;
        if self.frame_mode_5_step {
            if self.frame_counter == FC_5STEP_Q1 || self.frame_counter == FC_5STEP_Q3 {
                self.clock_quarter_frame();
            } else if self.frame_counter == FC_5STEP_Q2_H2 || self.frame_counter == FC_5STEP_Q4_H4 {
                self.clock_quarter_frame();
                self.clock_half_frame();
            } else if self.frame_counter == FC_5STEP_RESET {
                self.frame_counter = 0;
            }
        } else {
            if self.frame_counter == FC_4STEP_Q1 || self.frame_counter == FC_4STEP_Q3 {
                self.clock_quarter_frame();
            } else if self.frame_counter == FC_4STEP_Q2_H2 {
                self.clock_quarter_frame();
                self.clock_half_frame();
            } else if self.frame_counter == FC_4STEP_Q4_H4_IRQ {
                self.clock_quarter_frame();
                self.clock_half_frame();
                if !self.frame_irq_inhibit {
                    self.frame_irq_flag = true;
                }
            } else if self.frame_counter == FC_4STEP_RESET {
                if !self.frame_irq_inhibit {
                    self.frame_irq_flag = true;
                }
                self.frame_counter = 0;
            }
        }
    }

    fn write_frame_counter(&mut self, value: u8)
        requires
            old(self).wf(),
        ensures
            final(self).wf(),
            *final(self) == (Apu {
                frame_irq_flag: old(self).frame_irq_flag && (value & 0x40) == 0,
                frame_counter_write_pending: true,
                frame_counter_write_value: value,
                frame_counter_write_delay: if old(self).cpu_cycle % 2 == 0 {
                    3
                } else {
                    4
                },
                ..*old(self)
            }),
    {
        if (value & 0x40) != 0 {
            self.frame_irq_flag = false;
        }
        self.frame_counter_write_pending = true;
        self.frame_counter_write_value = value;
        self.frame_counter_write_delay = if self.cpu_cycle % 2 == 0 {
            3
        } else {
            4
        };
    }

    #[verifier::spinoff_prover]
    fn clock_pending_write(&mut self)
        requires
            old(self).wf(),
        ensures
            final(self).wf(),
            *final(self) == old(self).pending_write_stage(),
    {
        if self.frame_counter_write_pending {
            if self.frame_counter_write_delay > 0 {
                self.frame_counter_write_delay = self.frame_counter_write_delay - 1;
            }
            if self.frame_counter_write_delay == 0 {
                self.apply_frame_counter_write(self.frame_counter_write_value);
                self.frame_counter_write_pending = false;
            }
        }
    }

    #[verifier::spinoff_prover]
    fn clock_channel_timers(&mut self)
        requires
            old(self).wf(),
        ensures
            final(self).wf(),
            *final(self) == old(self).channels_timed(),
    {
        if self.cpu_cycle % 2 == 0 {
            self.pulse1.clock_timer();
            self.pulse2.clock_timer();
            self.noise.clock_timer();
        }
        self.triangle.clock_timer();
        // The DMC timer runs every CPU cycle, unlike the pulse and noise timers.
        self.dmc.clock_timer();
        if self.dmc.needs_dma() && self.dmc_dma_request.is_none() {
            self.dmc_dma_request = Some(self.dmc.current_dma_addr());
        }
    }

    /// Records the channel levels once for each output sample that falls due
    /// this cycle.
    #[verifier::spinoff_prover]
    fn record_samples(&mut self)
        requires
            old(self).wf(),
        ensures
            final(self).wf(),
            ({
                let (k, phase) = old(self).samples_due();
                &&& *final(self) == Apu { sample_phase: phase, levels: final(self).levels, ..*old(self) }
                &&& final(self).levels@ == old(self).levels@ + Seq::new(k, |i: int| old(self).levels_spec())
            }),
    {
        let ghost a = *self;
        let ghost base = self.levels@;
        let levels = ChannelLevels {
            pulse1: self.pulse1.output(),
            pulse2: self.pulse2.output(),
            triangle: self.triangle.output(),
            noise: self.noise.output(),
            dmc: self.dmc.output(),
        };
        let ghost total: int = self.sample_phase + self.sample_rate * 11;
        self.sample_phase = self.sample_phase + (self.sample_rate as u64) * 11;
        let mut pushed: u64 = 0;
        while self.sample_phase >= CPU_CLOCK_ELEVENTHS
            invariant
                self.sample_phase + pushed * CPU_CLOCK_ELEVENTHS == total,
                0 <= total < CPU_CLOCK_ELEVENTHS + 0x1_0000_0000 * 11,
                self.levels@ == base + Seq::new(pushed as nat, |i: int| a.levels_spec()),
                levels == a.levels_spec(),
                *self == (Apu { sample_phase: self.sample_phase, levels: self.levels, ..a }),
            decreases self.sample_phase,
        {
            self.sample_phase = self.sample_phase - CPU_CLOCK_ELEVENTHS;
            self.levels.push(levels);
            pushed = pushed + 1;
            assert(self.levels@ =~= base + Seq::new(pushed as nat, |i: int| a.levels_spec()));
        }
        proof {
            vstd::arithmetic::div_mod::lemma_fundamental_div_mod_converse(
                total,
                CPU_CLOCK_ELEVENTHS as int,
                pushed as int,
                self.sample_phase as int,
            );
        }
    }

    /// One CPU cycle of the APU: the delayed $4017 write, the channel timers,
    /// the frame sequencer, and the channel levels recorded for each output
    /// sample that falls due.
    pub fn tick(&mut self)
        requires
            old(self).wf(),
        ensures
            final(self).wf(),
            ({
                let a = old(self).clocked();
                let (k, phase) = a.samples_due();
                &&& *final(self) == Apu { sample_phase: phase, levels: final(self).levels, ..a }
                &&& final(self).levels@ == a.levels@ + Seq::new(k, |i: int| a.levels_spec())
            }),
    {
        self.cpu_cycle = self.cpu_cycle.wrapping_add(1);
        self.clock_pending_write();
        self.clock_channel_timers();
        self.clock_frame_counter();
        self.record_samples();
    }
}


impl Apu {
    /// A $4015 write: each channel is enabled or disabled (disabling clears
    /// its length counter), the DMC IRQ is acknowledged, a disabled DMC stops
    /// and an enabled, idle DMC restarts its sample (requesting the first
    /// fetch if it is due at once).
    pub open spec fn status_written(self, value: u8) -> Self {
        self.channels_enabled(value).dmc_enable_written(value)
    }

    /// The enable bits of $4015 for the pulse, triangle and noise channels;
    /// a disabled channel's length counter clears.
    pub open spec fn channels_enabled(self, value: u8) -> Self {
        let e0 = (value & 0x01) != 0;
        let e1 = (value & 0x02) != 0;
        let e2 = (value & 0x04) != 0;
        let e3 = (value & 0x08) != 0;
        Apu {
            pulse1: PulseChannel {
                enabled: e0,
                length_counter: if e0 {
                    self.pulse1.length_counter
                } else {
                    0
                },
                ..self.pulse1
            },
            pulse2: PulseChannel {
                enabled: e1,
                length_counter: if e1 {
                    self.pulse2.length_counter
                } else {
                    0
                },
                ..self.pulse2
            },
            triangle: TriangleChannel {
                enabled: e2,
                length_counter: if e2 {
                    self.triangle.length_counter
                } else {
                    0
                },
                ..self.triangle
            },
            noise: NoiseChannel {
                enabled: e3,
                length_counter: if e3 {
                    self.noise.length_counter
                } else {
                    0
                },
                ..self.noise
            },
            ..self
        }
    }

    /// The DMC part of a $4015 write.
    pub open spec fn dmc_enable_written(self, value: u8) -> Self {
        let d0 = DmcChannel { irq_flag: false, enabled: (value & 0x10) != 0, ..self.dmc };
        let d1 = if !d0.enabled {
            DmcChannel { bytes_remaining: 0, dma_pending: false, dma_delay: 0, ..d0 }
        } else if !d0.playback_active_spec() {
            d0.restarted()
        } else {
            d0
        };
        let request = if d0.enabled && !d0.playback_active_spec() && d1.enabled && d1.dma_pending
            && d1.dma_delay == 0 && self.dmc_dma_request is None {
            Some(d1.current_addr)
        } else {
            self.dmc_dma_request
        };
        Apu { dmc: d1, dmc_dma_request: request, ..self }
    }

    /// A CPU write of `value` to APU register `addr` ($4000-$4013, $4015,
    /// $4017); other addresses change nothing.
    pub open spec fn register_written(self, addr: u16, value: u8) -> Self {
        if addr == 0x4000 {
            Apu { pulse1: self.pulse1.control_written(value), ..self }
        } else if addr == 0x4001 {
            Apu { pulse1: self.pulse1.sweep_written(value), ..self }
        } else if addr == 0x4002 {
            Apu { pulse1: self.pulse1.timer_low_written(value), ..self }
        } else if addr == 0x4003 {
            Apu { pulse1: self.pulse1.timer_high_written(value), ..self }
        } else if addr == 0x4004 {
            Apu { pulse2: self.pulse2.control_written(value), ..self }
        } else if addr == 0x4005 {
            Apu { pulse2: self.pulse2.sweep_written(value), ..self }
        } else if addr == 0x4006 {
            Apu { pulse2: self.pulse2.timer_low_written(value), ..self }
        } else if addr == 0x4007 {
            Apu { pulse2: self.pulse2.timer_high_written(value), ..self }
        } else if addr == 0x4008 {
            Apu { triangle: self.triangle.linear_written(value), ..self }
        } else if addr == 0x400A {
            Apu { triangle: self.triangle.timer_low_written(value), ..self }
        } else if addr == 0x400B {
            Apu { triangle: self.triangle.timer_high_written(value), ..self }
        } else if addr == 0x400C {
            Apu { noise: self.noise.control_written(value), ..self }
        } else if addr == 0x400E {
            Apu { noise: self.noise.period_written(value), ..self }
        } else if addr == 0x400F {
            Apu { noise: self.noise.length_written(value), ..self }
        } else if addr == 0x4010 {
            Apu { dmc: self.dmc.control_written(value), ..self }
        } else if addr == 0x4011 {
            Apu { dmc: self.dmc.output_level_written(value), ..self }
        } else if addr == 0x4012 {
            Apu { dmc: self.dmc.sample_addr_written(value), ..self }
        } else if addr == 0x4013 {
            Apu { dmc: self.dmc.sample_length_written(value), ..self }
        } else if addr == 0x4015 {
            self.status_written(value)
        } else if addr == 0x4017 {
            Apu {
                frame_irq_flag: self.frame_irq_flag && (value & 0x40) == 0,
                frame_counter_write_pending: true,
                frame_counter_write_value: value,
                frame_counter_write_delay: if self.cpu_cycle % 2 == 0 {
                    3
                } else {
                    4
                },
                ..self
            }
        } else {
            self
        }
    }

    fn enable_channels(&mut self, value: u8)
        requires
            old(self).wf(),
        ensures
            final(self).wf(),
            *final(self) == old(self).channels_enabled(value),
    {
        self.pulse1.set_enabled((value & 0x01) != 0);
        self.pulse2.set_enabled((value & 0x02) != 0);
        self.triangle.set_enabled((value & 0x04) != 0);
        self.noise.set_enabled((value & 0x08) != 0);
    }

    fn enable_dmc(&mut self, value: u8)
        requires
            old(self).wf(),
        ensures
            final(self).wf(),
            *final(self) == old(self).dmc_enable_written(value),
    {
        // Any write to $4015 acknowledges the DMC IRQ.
        self.dmc.irq_flag = false;
        self.dmc.enabled = (value & 0x10) != 0;
        if !self.dmc.enabled {
            self.dmc.stop();
        } else if !self.dmc.playback_active() {
            self.dmc.restart_sample();
            if self.dmc.needs_dma() && self.dmc_dma_request.is_none() {
                self.dmc_dma_request = Some(self.dmc.current_dma_addr());
            }
        }
    }

    fn write_status(&mut self, value: u8)
        requires
            old(self).wf(),
        ensures
            final(self).wf(),
            *final(self) == old(self).status_written(value),
    {
        self.enable_channels(value);
        self.enable_dmc(value);
    }

    /// A CPU write to an APU register.
    #[verifier::spinoff_prover]
    pub fn write_register(&mut self, addr: u16, value: u8)
        requires
            old(self).wf(),
        ensures
            final(self).wf(),
            *final(self) == old(self).register_written(addr, value),
    {
        if addr == 0x4000 {
            self.pulse1.write_control(value);
        } else if addr == 0x4001 {
            self.pulse1.write_sweep(value);
        } else if addr == 0x4002 {
            self.pulse1.write_timer_low(value);
        } else if addr == 0x4003 {
            self.pulse1.write_timer_high(value);
        } else if addr == 0x4004 {
            self.pulse2.write_control(value);
        } else if addr == 0x4005 {
            self.pulse2.write_sweep(value);
        } else if addr == 0x4006 {
            self.pulse2.write_timer_low(value);
        } else if addr == 0x4007 {
            self.pulse2.write_timer_high(value);
        } else if addr == 0x4008 {
            self.triangle.write_linear(value);
        } else if addr == 0x400A {
            self.triangle.write_timer_low(value);
        } else if addr == 0x400B {
            self.triangle.write_timer_high(value);
        } else if addr == 0x400C {
            self.noise.write_control(value);
        } else if addr == 0x400E {
            self.noise.write_period(value);
        } else if addr == 0x400F {
            self.noise.write_length(value);
        } else if addr == 0x4010 {
            self.dmc.write_control(value);
        } else if addr == 0x4011 {
            self.dmc.write_output_level(value);
        } else if addr == 0x4012 {
            self.dmc.write_sample_addr(value);
        } else if addr == 0x4013 {
            self.dmc.write_sample_length(value);
        } else if addr == 0x4015 {
            self.write_status(value);
        } else if addr == 0x4017 {
            self.write_frame_counter(value);
        }
    }
}

/// Field extractions of a register byte stay in their widths.
pub proof fn lemma_u8_fields(v: u8)
    by (bit_vector)
    ensures
        (v >> 6) & 0x03 < 4,
        v & 0x0F < 16,
        (v >> 4) & 0x07 < 8,
        v & 0x07 < 8,
        v & 0x7F <= 127,
        v >> 3 < 32,
{
}

pub proof fn lemma_timer_low(p: u16, v: u8)
    by (bit_vector)
    requires
        p <= 0x07FF,
    ensures
        (p & 0xFF00) | (v as u16) <= 0x07FF,
{
}

pub proof fn lemma_timer_high(p: u16, v: u8)
    by (bit_vector)
    ensures
        (p & 0x00FF) | (((v & 0x07) as u16) << 8) <= 0x07FF,
        v >> 3 < 32,
{
}

pub proof fn lemma_shift_le(p: u16, s: u8)
    by (bit_vector)
    requires
        p <= 0x07FF,
        s < 8,
    ensures
        p >> s <= p,
        s >= 1 ==> p >> s <= p / 2,
{
}

} // verus!
