//! The audio processor: two pulse channels, triangle, noise, DMC, the frame
//! sequencer, and resampling to 44.1 kHz. Each sample is handed out as the
//! two mixer inputs (the pulse sum and the triangle/noise/DMC sum); the
//! non-linear mixing curve is applied by whoever plays the sound.
use vstd::prelude::*;
use vstd::wrapping::u16_specs;

verus! {

/// CPU clock of an NTSC console, in Hz.
pub const CPU_CLOCK_HZ: u32 = 1789773;

/// Output sample rate, in Hz.
pub const SAMPLE_RATE_HZ: u32 = 44100;

/// The 4-step sequence restarts after this many CPU cycles.
pub const FRAME_4STEP_RESET: u32 = 29830;

/// The 5-step sequence restarts after this many CPU cycles.
pub const FRAME_5STEP_RESET: u32 = 37282;

/// Length counter load values, by the 5-bit index written to $4003/$4007/$400B/$400F.
pub open spec fn length_value(i: u8) -> u8 {
    match i {
        0 => 10,
        1 => 254,
        2 => 20,
        3 => 2,
        4 => 40,
        5 => 4,
        6 => 80,
        7 => 6,
        8 => 160,
        9 => 8,
        10 => 60,
        11 => 10,
        12 => 14,
        13 => 12,
        14 => 26,
        15 => 14,
        16 => 12,
        17 => 16,
        18 => 24,
        19 => 18,
        20 => 48,
        21 => 20,
        22 => 96,
        23 => 22,
        24 => 192,
        25 => 24,
        26 => 72,
        27 => 26,
        28 => 16,
        29 => 28,
        30 => 32,
        _ => 30,
    }
}

/// Noise timer periods in CPU cycles, by the 4-bit index written to $400E.
pub open spec fn noise_period_value(i: u8) -> u16 {
    match i {
        0 => 4,
        1 => 8,
        2 => 16,
        3 => 32,
        4 => 64,
        5 => 96,
        6 => 128,
        7 => 160,
        8 => 202,
        9 => 254,
        10 => 380,
        11 => 508,
        12 => 762,
        13 => 1016,
        14 => 2034,
        _ => 4068,
    }
}

/// DMC rates in CPU cycles per output bit, by the 4-bit index written to $4010.
pub open spec fn dmc_rate_value(i: u8) -> u16 {
    match i {
        0 => 428,
        1 => 380,
        2 => 340,
        3 => 320,
        4 => 286,
        5 => 254,
        6 => 226,
        7 => 214,
        8 => 190,
        9 => 160,
        10 => 142,
        11 => 128,
        12 => 106,
        13 => 84,
        14 => 72,
        _ => 54,
    }
}

fn length_table(i: u8) -> (r: u8)
    requires
        i < 32,
    ensures
        r == length_value(i),
        r > 0,
{
    match i {
        0 => 10,
        1 => 254,
        2 => 20,
        3 => 2,
        4 => 40,
        5 => 4,
        6 => 80,
        7 => 6,
        8 => 160,
        9 => 8,
        10 => 60,
        11 => 10,
        12 => 14,
        13 => 12,
        14 => 26,
        15 => 14,
        16 => 12,
        17 => 16,
        18 => 24,
        19 => 18,
        20 => 48,
        21 => 20,
        22 => 96,
        23 => 22,
        24 => 192,
        25 => 24,
        26 => 72,
        27 => 26,
        28 => 16,
        29 => 28,
        30 => 32,
        _ => 30,
    }
}

fn noise_period_table(i: u8) -> (r: u16)
    requires
        i < 16,
    ensures
        r == noise_period_value(i),
{
    match i {
        0 => 4,
        1 => 8,
        2 => 16,
        3 => 32,
        4 => 64,
        5 => 96,
        6 => 128,
        7 => 160,
        8 => 202,
        9 => 254,
        10 => 380,
        11 => 508,
        12 => 762,
        13 => 1016,
        14 => 2034,
        _ => 4068,
    }
}

fn dmc_rate_table(i: u8) -> (r: u16)
    requires
        i < 16,
    ensures
        r == dmc_rate_value(i),
        r > 0,
{
    match i {
        0 => 428,
        1 => 380,
        2 => 340,
        3 => 320,
        4 => 286,
        5 => 254,
        6 => 226,
        7 => 214,
        8 => 190,
        9 => 160,
        10 => 142,
        11 => 128,
        12 => 106,
        13 => 84,
        14 => 72,
        _ => 54,
    }
}

/// Whether step `step` of duty pattern `duty` is high. Patterns: 12.5%, 25%,
/// 50%, and 25% negated.
pub open spec fn duty_high(duty: u8, step: u8) -> bool {
    if duty == 0 {
        step == 7
    } else if duty == 1 {
        step >= 6
    } else if duty == 2 {
        step >= 4
    } else {
        step < 6
    }
}

/// The 32-step triangle: 15 down to 0, then 0 up to 15.
pub open spec fn triangle_value(step: u8) -> u8 {
    if step < 16 {
        (15 - step) as u8
    } else {
        (step - 16) as u8
    }
}

/// Envelope generator: start flag, divider and decay level.
#[derive(Clone, Copy, Debug, PartialEq, Eq, Structural)]
pub struct Envelope {
    pub start: bool,
    pub divider: u8,
    pub decay: u8,
}

impl Envelope {
    /// One quarter-frame clock; `period` is the channel's volume field and
    /// `looping` its length-halt flag.
    pub open spec fn clocked(self, period: u8, looping: bool) -> Envelope {
        if self.start {
            Envelope { start: false, divider: period, decay: 15 }
        } else if self.divider > 0 {
            Envelope { divider: (self.divider - 1) as u8, ..self }
        } else if self.decay > 0 {
            Envelope { divider: period, decay: (self.decay - 1) as u8, ..self }
        } else if looping {
            Envelope { divider: period, decay: 15, ..self }
        } else {
            Envelope { divider: period, ..self }
        }
    }

    fn clock(&mut self, period: u8, looping: bool)
        ensures
            *final(self) == old(self).clocked(period, looping),
    {
        if self.start {
            self.decay = 15;
            self.divider = period;
            self.start = false;
        } else if self.divider > 0 {
            self.divider = self.divider - 1;
        } else {
            self.divider = period;
            if self.decay > 0 {
                self.decay = self.decay - 1;
            } else if looping {
                self.decay = 15;
            }
        }
    }
}

/// The length counter after a half-frame clock.
pub open spec fn length_clocked(len: u8, halt: bool) -> u8 {
    if !halt && len > 0 {
        (len - 1) as u8
    } else {
        len
    }
}

// ---------------------------------------------------------------------------
// Pulse
// ---------------------------------------------------------------------------

/// Pulse channel ($4000-$4003, $4004-$4007).
#[derive(Clone, Copy, Debug, PartialEq, Eq, Structural)]
pub struct Pulse {
    pub enabled: bool,
    pub duty: u8,
    pub length_halt: bool,
    pub constant_volume: bool,
    pub volume: u8,
    pub sweep_enable: bool,
    pub sweep_period: u8,
    pub sweep_negate: bool,
    pub sweep_shift: u8,
    pub timer_period: u16,
    pub timer: u16,
    pub sequencer_step: u8,
    pub length_counter: u8,
    pub envelope: Envelope,
    pub sweep_divider: u8,
    pub sweep_reload: bool,
}

impl Pulse {
    pub open spec fn wf(&self) -> bool {
        self.duty < 4 && self.sequencer_step < 8 && self.volume < 16 && self.envelope.decay < 16
            && self.sweep_shift < 8
    }

    pub open spec fn after_4000(self, data: u8) -> Pulse {
        Pulse {
            duty: (data >> 6) & 3,
            length_halt: data & 0x20 != 0,
            constant_volume: data & 0x10 != 0,
            volume: data & 0x0F,
            envelope: Envelope { start: true, ..self.envelope },
            ..self
        }
    }

    pub open spec fn after_4001(self, data: u8) -> Pulse {
        Pulse {
            sweep_enable: data & 0x80 != 0,
            sweep_period: (data >> 4) & 7,
            sweep_negate: data & 0x08 != 0,
            sweep_shift: data & 7,
            sweep_reload: true,
            ..self
        }
    }

    pub open spec fn after_4002(self, data: u8) -> Pulse {
        Pulse { timer_period: (self.timer_period & 0x0700) | data as u16, ..self }
    }

    pub open spec fn after_4003(self, data: u8) -> Pulse {
        Pulse {
            timer_period: (self.timer_period & 0x00FF) | (((data & 7) as u16) << 8),
            length_counter: if self.enabled {
                length_value(data >> 3)
            } else {
                self.length_counter
            },
            envelope: Envelope { start: true, ..self.envelope },
            sequencer_step: 0,
            ..self
        }
    }

    /// The sweep target: the period moved by itself shifted right.
    pub open spec fn sweep_target(self) -> u16 {
        let delta = self.timer_period >> self.sweep_shift;
        if self.sweep_negate {
            if delta > self.timer_period {
                0
            } else {
                (self.timer_period - delta) as u16
            }
        } else if self.timer_period as int + delta as int > 0xFFFF {
            0xFFFF
        } else {
            (self.timer_period + delta) as u16
        }
    }

    pub open spec fn after_sweep_clock(self) -> Pulse {
        let reload = self.sweep_divider == 0 || self.sweep_reload;
        Pulse {
            sweep_divider: if reload {
                self.sweep_period
            } else {
                (self.sweep_divider - 1) as u8
            },
            sweep_reload: false,
            timer_period: if self.sweep_divider == 0 && self.sweep_enable && self.sweep_shift > 0
                && self.sweep_target() <= 0x7FF {
                self.sweep_target()
            } else {
                self.timer_period
            },
            ..self
        }
    }

    pub open spec fn after_timer_clock(self) -> Pulse {
        if self.timer > 0 {
            Pulse { timer: (self.timer - 1) as u16, ..self }
        } else {
            Pulse {
                timer: self.timer_period,
                sequencer_step: ((self.sequencer_step + 7) % 8) as u8,
                ..self
            }
        }
    }

    /// The 4-bit level that the channel sends to the mixer.
    pub open spec fn level(self) -> u8 {
        if !self.enabled || self.length_counter == 0 || self.sweep_target() > 0x7FF
            || self.timer_period < 8 || !duty_high(self.duty, self.sequencer_step) {
            0
        } else if self.constant_volume {
            self.volume
        } else {
            self.envelope.decay
        }
    }

    /// The channel after a write of `data` to its register `reg` (0-3).
    pub open spec fn after_reg(self, reg: u16, data: u8) -> Pulse {
        if reg == 0 {
            self.after_4000(data)
        } else if reg == 1 {
            self.after_4001(data)
        } else if reg == 2 {
            self.after_4002(data)
        } else {
            self.after_4003(data)
        }
    }

    fn write_reg(&mut self, reg: u16, data: u8)
        ensures
            *final(self) == old(self).after_reg(reg, data),
    {
        if reg == 0 {
            self.write_4000(data);
        } else if reg == 1 {
            self.write_4001(data);
        } else if reg == 2 {
            self.write_4002(data);
        } else {
            self.write_4003(data);
        }
    }

    fn write_4000(&mut self, data: u8)
        ensures
            *final(self) == old(self).after_4000(data),
    {
        self.duty = (data >> 6) & 3;
        self.length_halt = data & 0x20 != 0;
        self.constant_volume = data & 0x10 != 0;
        self.volume = data & 0x0F;
        self.envelope.start = true;
    }

    fn write_4001(&mut self, data: u8)
        ensures
            *final(self) == old(self).after_4001(data),
    {
        self.sweep_enable = data & 0x80 != 0;
        self.sweep_period = (data >> 4) & 7;
        self.sweep_negate = data & 0x08 != 0;
        self.sweep_shift = data & 7;
        self.sweep_reload = true;
    }

    fn write_4002(&mut self, data: u8)
        ensures
            *final(self) == old(self).after_4002(data),
    {
        self.timer_period = (self.timer_period & 0x0700) | data as u16;
    }

    fn write_4003(&mut self, data: u8)
        ensures
            *final(self) == old(self).after_4003(data),
    {
        self.timer_period = (self.timer_period & 0x00FF) | (((data & 7) as u16) << 8);
        if self.enabled {
            proof {
                assert(data >> 3 < 32) by (bit_vector);
            }
            self.length_counter = length_table(data >> 3);
        }
        self.envelope.start = true;
        self.sequencer_step = 0;
    }

    fn clock_length(&mut self)
        ensures
            *final(self) == (Pulse {
                length_counter: length_clocked(old(self).length_counter, old(self).length_halt),
                ..*old(self)
            }),
    {
        if !self.length_halt && self.length_counter > 0 {
            self.length_counter = self.length_counter - 1;
        }
    }

    fn clock_envelope(&mut self)
        ensures
            *final(self) == (Pulse {
                envelope: old(self).envelope.clocked(old(self).volume, old(self).length_halt),
                ..*old(self)
            }),
    {
        let v = self.volume;
        let l = self.length_halt;
        self.envelope.clock(v, l);
    }

    /// The sweep unit's target period.
    fn target_period(&self) -> (r: u16)
        requires
            self.sweep_shift < 8,
        ensures
            r == self.sweep_target(),
    {
        let delta = self.timer_period >> self.sweep_shift;
        if self.sweep_negate {
            self.timer_period.saturating_sub(delta)
        } else {
            self.timer_period.saturating_add(delta)
        }
    }

    /// Half-frame clock of the sweep unit: the period moves to the target
    /// when the divider expires, unless the target is out of range.
    fn clock_sweep(&mut self)
        requires
            old(self).sweep_shift < 8,
        ensures
            *final(self) == old(self).after_sweep_clock(),
    {
        let divider_was_zero = self.sweep_divider == 0;
        let target = self.target_period();
        if self.sweep_divider == 0 || self.sweep_reload {
            self.sweep_divider = self.sweep_period;
            self.sweep_reload = false;
        } else {
            self.sweep_divider = self.sweep_divider - 1;
        }
        if divider_was_zero && self.sweep_enable && self.sweep_shift > 0 && target <= 0x7FF {
            self.timer_period = target;
        }
    }

    /// The level sent to the mixer; silent while disabled, with an empty
    /// length counter, a period below 8, a sweep target above $7FF, or a low
    /// duty step.
    fn output(&self) -> (r: u8)
        requires
            self.sweep_shift < 8,
        ensures
            r == self.level(),
            self.timer_period < 8 ==> r == 0,
            self.sweep_target() > 0x7FF ==> r == 0,
    {
        if !self.enabled || self.length_counter == 0 || self.target_period() > 0x7FF
            || self.timer_period < 8 {
            return 0;
        }
        let d = self.duty;
        let s = self.sequencer_step;
        let high = if d == 0 {
            s == 7
        } else if d == 1 {
            s >= 6
        } else if d == 2 {
            s >= 4
        } else {
            s < 6
        };
        if !high {
            0
        } else if self.constant_volume {
            self.volume
        } else {
            self.envelope.decay
        }
    }

    /// One APU cycle (two CPU cycles) of the timer.
    fn tick_apu_cycle(&mut self)
        requires
            old(self).sequencer_step < 8,
        ensures
            *final(self) == old(self).after_timer_clock(),
    {
        if self.timer > 0 {
            self.timer = self.timer - 1;
        } else {
            self.timer = self.timer_period;
            self.sequencer_step = (self.sequencer_step + 7) % 8;
        }
    }
}

// ---------------------------------------------------------------------------
// Triangle
// ---------------------------------------------------------------------------

/// Triangle channel ($4008-$400B).
#[derive(Clone, Copy, Debug, PartialEq, Eq, Structural)]
pub struct Triangle {
    pub enabled: bool,
    pub length_halt: bool,
    pub linear_load: u8,
    pub timer_period: u16,
    pub timer: u16,
    pub length_counter: u8,
    pub linear_counter: u8,
    pub linear_reload: bool,
    pub sequencer_step: u8,
}

impl Triangle {
    pub open spec fn wf(&self) -> bool {
        self.sequencer_step < 32
    }

    pub open spec fn after_4008(self, data: u8) -> Triangle {
        Triangle { length_halt: data & 0x80 != 0, linear_load: data & 0x7F, ..self }
    }

    pub open spec fn after_400a(self, data: u8) -> Triangle {
        Triangle { timer_period: (self.timer_period & 0xFF00) | data as u16, ..self }
    }

    pub open spec fn after_400b(self, data: u8) -> Triangle {
        Triangle {
            timer_period: (self.timer_period & 0x00FF) | (((data & 7) as u16) << 8),
            length_counter: if self.enabled {
                length_value(data >> 3)
            } else {
                self.length_counter
            },
            linear_reload: true,
            ..self
        }
    }

    pub open spec fn after_linear_clock(self) -> Triangle {
        Triangle {
            linear_counter: if self.linear_reload {
                self.linear_load
            } else if self.linear_counter > 0 {
                (self.linear_counter - 1) as u8
            } else {
                0
            },
            linear_reload: if !self.length_halt { false } else { self.linear_reload },
            ..self
        }
    }

    pub open spec fn after_timer_clock(self) -> Triangle {
        if self.timer > 0 {
            Triangle { timer: (self.timer - 1) as u16, ..self }
        } else {
            Triangle {
                timer: self.timer_period,
                sequencer_step: if self.length_counter > 0 && self.linear_counter > 0 {
                    ((self.sequencer_step + 1) % 32) as u8
                } else {
                    self.sequencer_step
                },
                ..self
            }
        }
    }

    pub open spec fn level(self) -> u8 {
        if !self.enabled || self.length_counter == 0 || self.linear_counter == 0
            || self.timer_period < 2 {
            0
        } else {
            triangle_value(self.sequencer_step)
        }
    }

    fn write_4008(&mut self, data: u8)
        ensures
            *final(self) == old(self).after_4008(data),
    {
        self.length_halt = data & 0x80 != 0;
        self.linear_load = data & 0x7F;
    }

    fn write_400a(&mut self, data: u8)
        ensures
            *final(self) == old(self).after_400a(data),
    {
        self.timer_period = (self.timer_period & 0xFF00) | data as u16;
    }

    fn write_400b(&mut self, data: u8)
        ensures
            *final(self) == old(self).after_400b(data),
    {
        self.timer_period = (self.timer_period & 0x00FF) | (((data & 7) as u16) << 8);
        if self.enabled {
            proof {
                assert(data >> 3 < 32) by (bit_vector);
            }
            self.length_counter = length_table(data >> 3);
        }
        self.linear_reload = true;
    }

    fn clock_length(&mut self)
        ensures
            *final(self) == (Triangle {
                length_counter: length_clocked(old(self).length_counter, old(self).length_halt),
                ..*old(self)
            }),
    {
        if !self.length_halt && self.length_counter > 0 {
            self.length_counter = self.length_counter - 1;
        }
    }

    fn clock_linear(&mut self)
        ensures
            *final(self) == old(self).after_linear_clock(),
    {
        if self.linear_reload {
            self.linear_counter = self.linear_load;
        } else if self.linear_counter > 0 {
            self.linear_counter = self.linear_counter - 1;
        }
        if !self.length_halt {
            self.linear_reload = false;
        }
    }

    /// The level sent to the mixer; silent while disabled, with an empty
    /// length or linear counter, or a period of 0 or 1.
    fn output(&self) -> (r: u8)
        ensures
            r == self.level(),
            self.timer_period < 2 ==> r == 0,
    {
        if !self.enabled || self.length_counter == 0 || self.linear_counter == 0
            || self.timer_period < 2 {
            return 0;
        }
        let s = self.sequencer_step;
        if s < 16 {
            15 - s
        } else {
            s - 16
        }
    }

    fn tick_cpu_cycle(&mut self)
        requires
            old(self).sequencer_step < 32,
        ensures
            *final(self) == old(self).after_timer_clock(),
    {
        if self.timer > 0 {
            self.timer = self.timer - 1;
            return;
        }
        self.timer = self.timer_period;
        if self.length_counter > 0 && self.linear_counter > 0 {
            self.sequencer_step = (self.sequencer_step + 1) % 32;
        }
    }
}

// ---------------------------------------------------------------------------
// Noise
// ---------------------------------------------------------------------------

/// Noise channel ($400C-$400F).
#[derive(Clone, Copy, Debug, PartialEq, Eq, Structural)]
pub struct Noise {
    pub enabled: bool,
    pub length_halt: bool,
    pub constant_volume: bool,
    pub volume: u8,
    /// Short mode: feedback from bit 6 instead of bit 1.
    pub mode: bool,
    pub period_index: u8,
    pub length_counter: u8,
    pub envelope: Envelope,
    pub timer: u16,
    /// 15-bit linear feedback shift register.
    pub shift: u16,
}

/// The shift register after one step: bit 0 XOR bit 1 (bit 6 in short mode)
/// enters at bit 14.
pub open spec fn lfsr_next(shift: u16, mode: bool) -> u16 {
    let b0 = shift % 2;
    let other = if mode { (shift / 64) % 2 } else { (shift / 2) % 2 };
    let feedback: u16 = if b0 == other { 0 } else { 1 };
    (shift / 2 + feedback * 0x4000) as u16
}

impl Noise {
    pub open spec fn wf(&self) -> bool {
        self.period_index < 16 && self.volume < 16 && self.envelope.decay < 16
    }

    pub open spec fn after_400c(self, data: u8) -> Noise {
        Noise {
            length_halt: data & 0x20 != 0,
            constant_volume: data & 0x10 != 0,
            volume: data & 0x0F,
            envelope: Envelope { start: true, ..self.envelope },
            ..self
        }
    }

    pub open spec fn after_400e(self, data: u8) -> Noise {
        Noise { mode: data & 0x80 != 0, period_index: data & 0x0F, ..self }
    }

    pub open spec fn after_400f(self, data: u8) -> Noise {
        Noise {
            length_counter: if self.enabled {
                length_value(data >> 3)
            } else {
                self.length_counter
            },
            envelope: Envelope { start: true, ..self.envelope },
            ..self
        }
    }

    pub open spec fn after_timer_clock(self) -> Noise {
        if self.timer > 0 {
            Noise { timer: (self.timer - 1) as u16, ..self }
        } else {
            Noise {
                timer: noise_period_value(self.period_index),
                shift: lfsr_next(self.shift, self.mode),
                ..self
            }
        }
    }

    pub open spec fn level(self) -> u8 {
        if !self.enabled || self.length_counter == 0 || self.shift % 2 == 1 {
            0
        } else if self.constant_volume {
            self.volume
        } else {
            self.envelope.decay
        }
    }

    fn write_400c(&mut self, data: u8)
        ensures
            *final(self) == old(self).after_400c(data),
    {
        self.length_halt = data & 0x20 != 0;
        self.constant_volume = data & 0x10 != 0;
        self.volume = data & 0x0F;
        self.envelope.start = true;
    }

    fn write_400e(&mut self, data: u8)
        ensures
            *final(self) == old(self).after_400e(data),
    {
        self.mode = data & 0x80 != 0;
        self.period_index = data & 0x0F;
    }

    fn write_400f(&mut self, data: u8)
        ensures
            *final(self) == old(self).after_400f(data),
    {
        if self.enabled {
            proof {
                assert(data >> 3 < 32) by (bit_vector);
            }
            self.length_counter = length_table(data >> 3);
        }
        self.envelope.start = true;
    }

    fn clock_length(&mut self)
        ensures
            *final(self) == (Noise {
                length_counter: length_clocked(old(self).length_counter, old(self).length_halt),
                ..*old(self)
            }),
    {
        if !self.length_halt && self.length_counter > 0 {
            self.length_counter = self.length_counter - 1;
        }
    }

    fn clock_envelope(&mut self)
        ensures
            *final(self) == (Noise {
                envelope: old(self).envelope.clocked(old(self).volume, old(self).length_halt),
                ..*old(self)
            }),
    {
        let v = self.volume;
        let l = self.length_halt;
        self.envelope.clock(v, l);
    }

    fn output(&self) -> (r: u8)
        ensures
            r == self.level(),
    {
        if !self.enabled || self.length_counter == 0 || self.shift % 2 == 1 {
            return 0;
        }
        if self.constant_volume {
            self.volume
        } else {
            self.envelope.decay
        }
    }

    fn tick_cpu_cycle(&mut self)
        requires
            old(self).period_index < 16,
        ensures
            *final(self) == old(self).after_timer_clock(),
    {
        if self.timer > 0 {
            self.timer = self.timer - 1;
            return;
        }
        self.timer = noise_period_table(self.period_index);
        let b0 = self.shift % 2;
        let other = if self.mode {
            (self.shift / 64) % 2
        } else {
            (self.shift / 2) % 2
        };
        let feedback: u16 = if b0 == other {
            0
        } else {
            1
        };
        self.shift = self.shift / 2 + feedback * 0x4000;
    }
}

// ---------------------------------------------------------------------------
// DMC
// ---------------------------------------------------------------------------

/// Delta modulation channel ($4010-$4013).
#[derive(Clone, Copy, Debug, PartialEq, Eq, Structural)]
pub struct Dmc {
    pub irq_enable: bool,
    /// DMC interrupt flag ($4015 bit 7).
    pub irq_flag: bool,
    pub loop_flag: bool,
    pub rate_index: u8,
    pub rate_timer: u16,
    pub output_level: u8,
    pub start_address: u16,
    pub sample_length: u16,
    pub current_address: u16,
    pub bytes_remaining: u16,
    /// The one-byte sample buffer.
    pub sample_buffer: Option<u8>,
    pub shift_register: u8,
    pub bits_remaining: u8,
    pub silence: bool,
    pub enabled: bool,
    /// A byte is wanted from `fetch_address`.
    pub fetch_pending: bool,
    pub fetch_address: u16,
}

impl Dmc {
    pub open spec fn wf(&self) -> bool {
        self.rate_index < 16 && self.output_level < 128 && self.bits_remaining <= 8
    }

    pub open spec fn after_4010(self, data: u8) -> Dmc {
        Dmc {
            irq_enable: data & 0x80 != 0,
            irq_flag: if data & 0x80 == 0 { false } else { self.irq_flag },
            loop_flag: data & 0x40 != 0,
            rate_index: data & 0x0F,
            ..self
        }
    }

    pub open spec fn after_enable(self, enabled: bool) -> Dmc {
        if !enabled {
            Dmc { enabled: false, fetch_pending: false, ..self }
        } else if self.bytes_remaining == 0 {
            let pending = self.sample_buffer is None && self.sample_length > 0;
            Dmc {
                enabled: true,
                current_address: self.start_address,
                bytes_remaining: self.sample_length,
                fetch_pending: pending,
                fetch_address: if pending { self.start_address } else { self.fetch_address },
                ..self
            }
        } else {
            Dmc { enabled: true, ..self }
        }
    }

    /// The channel after the fetched byte arrives: the address advances,
    /// wrapping from $FFFF to $8000, and at the end of the sample it loops or
    /// raises the DMC interrupt.
    pub open spec fn after_feed(self, byte: u8) -> Dmc {
        let next = u16_specs::wrapping_add(self.current_address, 1);
        let addr = if next == 0 { 0x8000u16 } else { next };
        let left: u16 = if self.bytes_remaining > 0 {
            (self.bytes_remaining - 1) as u16
        } else {
            0
        };
        let s = Dmc { fetch_pending: false, sample_buffer: Some(byte), ..self };
        if left == 0 && self.loop_flag {
            Dmc { current_address: self.start_address, bytes_remaining: self.sample_length, ..s }
        } else {
            Dmc {
                current_address: addr,
                bytes_remaining: left,
                irq_flag: if left == 0 && self.irq_enable { true } else { self.irq_flag },
                ..s
            }
        }
    }

    /// The output unit's step when the rate timer expires.
    pub open spec fn after_output_clock(self) -> Dmc {
        let level = if self.silence {
            self.output_level
        } else if self.shift_register % 2 == 1 {
            if self.output_level <= 125 { (self.output_level + 2) as u8 } else { 127 }
        } else if self.output_level >= 2 {
            (self.output_level - 2) as u8
        } else {
            0
        };
        let bits: u8 = if self.bits_remaining > 0 { (self.bits_remaining - 1) as u8 } else { 0 };
        let s = Dmc {
            rate_timer: (dmc_rate_value(self.rate_index) - 1) as u16,
            output_level: level,
            shift_register: self.shift_register / 2,
            bits_remaining: bits,
            ..self
        };
        if bits != 0 {
            s
        } else {
            let t = match self.sample_buffer {
                Some(b) => Dmc { bits_remaining: 8, shift_register: b, silence: false, sample_buffer: None, ..s },
                None => Dmc { bits_remaining: 8, silence: true, ..s },
            };
            if t.bytes_remaining > 0 {
                Dmc { fetch_pending: true, fetch_address: t.current_address, ..t }
            } else {
                t
            }
        }
    }

    pub open spec fn after_cycle(self) -> Dmc {
        if !self.enabled {
            self
        } else if self.rate_timer > 0 {
            Dmc { rate_timer: (self.rate_timer - 1) as u16, ..self }
        } else {
            self.after_output_clock()
        }
    }

    pub open spec fn level(self) -> u8 {
        if self.silence {
            0
        } else {
            self.output_level
        }
    }

    pub open spec fn active(self) -> bool {
        self.bytes_remaining > 0 || self.sample_buffer is Some
    }

    fn write_4010(&mut self, data: u8)
        ensures
            *final(self) == old(self).after_4010(data),
    {
        self.irq_enable = data & 0x80 != 0;
        if !self.irq_enable {
            self.irq_flag = false;
        }
        self.loop_flag = data & 0x40 != 0;
        self.rate_index = data & 0x0F;
    }

    /// $4011: direct load of the output level.
    fn write_4011(&mut self, data: u8)
        ensures
            *final(self) == (Dmc { output_level: data & 0x7F, ..*old(self) }),
    {
        self.output_level = data & 0x7F;
    }

    /// $4012: sample address $C000 + 64 * data.
    fn write_4012(&mut self, data: u8)
        ensures
            *final(self) == (Dmc { start_address: (0xC000 + data as int * 64) as u16, ..*old(self) }),
    {
        self.start_address = 0xC000 + (data as u16) * 64;
    }

    /// $4013: sample length 16 * data + 1 bytes.
    fn write_4013(&mut self, data: u8)
        ensures
            *final(self) == (Dmc { sample_length: (data as int * 16 + 1) as u16, ..*old(self) }),
    {
        self.sample_length = (data as u16) * 16 + 1;
    }

    fn set_enabled(&mut self, enabled: bool)
        ensures
            *final(self) == old(self).after_enable(enabled),
    {
        if !enabled {
            self.enabled = false;
            self.fetch_pending = false;
            return;
        }
        self.enabled = true;
        if self.bytes_remaining == 0 {
            self.current_address = self.start_address;
            self.bytes_remaining = self.sample_length;
            self.fetch_pending = self.sample_buffer.is_none() && self.bytes_remaining > 0;
            if self.fetch_pending {
                self.fetch_address = self.current_address;
            }
        }
    }

    fn feed_byte(&mut self, byte: u8)
        ensures
            *final(self) == old(self).after_feed(byte),
    {
        self.fetch_pending = false;
        self.sample_buffer = Some(byte);
        let next = self.current_address.wrapping_add(1);
        let addr = if next == 0 {
            0x8000
        } else {
            next
        };
        if self.bytes_remaining > 0 {
            self.bytes_remaining = self.bytes_remaining - 1;
        }
        if self.bytes_remaining == 0 && self.loop_flag {
            self.current_address = self.start_address;
            self.bytes_remaining = self.sample_length;
        } else {
            self.current_address = addr;
            if self.bytes_remaining == 0 && self.irq_enable {
                self.irq_flag = true;
            }
        }
    }

    fn tick(&mut self)
        requires
            old(self).wf(),
        ensures
            *final(self) == old(self).after_cycle(),
            final(self).wf(),
    {
        if !self.enabled {
            return;
        }
        if self.rate_timer > 0 {
            self.rate_timer = self.rate_timer - 1;
            return;
        }
        let period = dmc_rate_table(self.rate_index);
        self.rate_timer = period - 1;
        if !self.silence {
            if self.shift_register % 2 == 1 {
                if self.output_level <= 125 {
                    self.output_level = self.output_level + 2;
                } else {
                    self.output_level = 127;
                }
            } else if self.output_level >= 2 {
                self.output_level = self.output_level - 2;
            } else {
                self.output_level = 0;
            }
        }
        self.shift_register = self.shift_register / 2;
        if self.bits_remaining > 0 {
            self.bits_remaining = self.bits_remaining - 1;
        }
        if self.bits_remaining == 0 {
            self.bits_remaining = 8;
            match self.sample_buffer {
                Some(b) => {
                    self.shift_register = b;
                    self.silence = false;
                    self.sample_buffer = None;
                },
                None => {
                    self.silence = true;
                },
            }
            if self.bytes_remaining > 0 {
                self.fetch_pending = true;
                self.fetch_address = self.current_address;
            }
        }
    }

    fn output(&self) -> (r: u8)
        ensures
            r == self.level(),
    {
        if self.silence {
            0
        } else {
            self.output_level
        }
    }

    fn has_bytes_remaining(&self) -> (r: bool)
        ensures
            r == self.active(),
    {
        self.bytes_remaining > 0 || self.sample_buffer.is_some()
    }
}

// ---------------------------------------------------------------------------
// Frame sequencer, registers and mixer inputs
// ---------------------------------------------------------------------------

/// One output sample, as the two inputs of the non-linear mixer: the sum of
/// the pulse levels (0-30) and 3 * triangle + 2 * noise + DMC (0-202).
#[derive(Clone, Copy, Debug, PartialEq, Eq, Structural)]
pub struct Sample {
    pub pulse: u8,
    pub tnd: u16,
}

/// All of the APU's state but the samples produced.
#[derive(Clone, Copy, Debug, PartialEq, Eq, Structural)]
pub struct ApuState {
    pub pulse1: Pulse,
    pub pulse2: Pulse,
    pub triangle: Triangle,
    pub noise: Noise,
    pub dmc: Dmc,
    /// Frame interrupt flag ($4015 bit 6).
    pub frame_irq: bool,
    pub frame_irq_inhibit: bool,
    pub frame_4step: bool,
    /// CPU cycles since the sequence started.
    pub frame_cycle: u32,
    /// Resampling phase, in units of 1/44100 of a CPU cycle.
    pub sample_phase: u32,
}

impl ApuState {
    pub open spec fn frame_period(self) -> u32 {
        if self.frame_4step {
            FRAME_4STEP_RESET
        } else {
            FRAME_5STEP_RESET
        }
    }

    pub open spec fn channels_wf(self) -> bool {
        &&& self.pulse1.wf()
        &&& self.pulse2.wf()
        &&& self.triangle.wf()
        &&& self.noise.wf()
        &&& self.dmc.wf()
    }

    pub open spec fn wf(self) -> bool {
        &&& self.channels_wf()
        &&& self.frame_cycle < self.frame_period()
        &&& self.sample_phase < CPU_CLOCK_HZ
    }

    /// Quarter frame: envelopes and the triangle's linear counter.
    pub open spec fn after_quarter(self) -> ApuState {
        ApuState {
            pulse1: Pulse {
                envelope: self.pulse1.envelope.clocked(self.pulse1.volume, self.pulse1.length_halt),
                ..self.pulse1
            },
            pulse2: Pulse {
                envelope: self.pulse2.envelope.clocked(self.pulse2.volume, self.pulse2.length_halt),
                ..self.pulse2
            },
            noise: Noise {
                envelope: self.noise.envelope.clocked(self.noise.volume, self.noise.length_halt),
                ..self.noise
            },
            triangle: self.triangle.after_linear_clock(),
            ..self
        }
    }

    /// Half frame: length counters and sweeps.
    pub open spec fn after_half(self) -> ApuState {
        ApuState {
            pulse1: Pulse {
                length_counter: length_clocked(self.pulse1.length_counter, self.pulse1.length_halt),
                ..self.pulse1
            }.after_sweep_clock(),
            pulse2: Pulse {
                length_counter: length_clocked(self.pulse2.length_counter, self.pulse2.length_halt),
                ..self.pulse2
            }.after_sweep_clock(),
            triangle: Triangle {
                length_counter: length_clocked(
                    self.triangle.length_counter,
                    self.triangle.length_halt,
                ),
                ..self.triangle
            },
            noise: Noise {
                length_counter: length_clocked(self.noise.length_counter, self.noise.length_halt),
                ..self.noise
            },
            ..self
        }
    }

    /// The frame sequencer's step for one CPU cycle. In 4-step mode quarter
    /// frames fall at 7457, 14913, 22371 and 29829, half frames at 14913 and
    /// 29829, and the frame interrupt at 29829 unless inhibited; in 5-step mode
    /// quarter frames fall at 7457, 14913, 22371 and 37281, half frames at
    /// 14913 and 37281, with no interrupt.
    pub open spec fn sequenced(self) -> ApuState {
        let fc = (self.frame_cycle + 1) as u32;
        let s = ApuState { frame_cycle: fc, ..self };
        let t = if fc == 7457 || fc == 22371 {
            s.after_quarter()
        } else if fc == 14913 {
            s.after_quarter().after_half()
        } else if self.frame_4step && fc == 29829 {
            let h = s.after_quarter().after_half();
            ApuState { frame_irq: h.frame_irq || !self.frame_irq_inhibit, ..h }
        } else if !self.frame_4step && fc == 37281 {
            s.after_quarter().after_half()
        } else {
            s
        };
        if fc >= self.frame_period() {
            ApuState { frame_cycle: 0, ..t }
        } else {
            t
        }
    }

    pub open spec fn timers_clocked(self, half: bool) -> ApuState {
        ApuState {
            pulse1: if half { self.pulse1.after_timer_clock() } else { self.pulse1 },
            pulse2: if half { self.pulse2.after_timer_clock() } else { self.pulse2 },
            triangle: self.triangle.after_timer_clock(),
            noise: self.noise.after_timer_clock(),
            dmc: self.dmc.after_cycle(),
            ..self
        }
    }

    pub open spec fn sample_due(self) -> bool {
        self.sample_phase + SAMPLE_RATE_HZ >= CPU_CLOCK_HZ
    }

    /// The state one CPU cycle later.
    pub open spec fn after_cycle(self) -> ApuState {
        let t = self.sequenced().timers_clocked((self.frame_cycle + 1) % 2 == 0);
        ApuState {
            sample_phase: if self.sample_due() {
                (self.sample_phase + SAMPLE_RATE_HZ - CPU_CLOCK_HZ) as u32
            } else {
                (self.sample_phase + SAMPLE_RATE_HZ) as u32
            },
            ..t
        }
    }

    pub open spec fn mixer_input(self) -> Sample {
        Sample {
            pulse: (self.pulse1.level() + self.pulse2.level()) as u8,
            tnd: (3 * self.triangle.level() + 2 * self.noise.level() + self.dmc.level()) as u16,
        }
    }

    /// The samples that one CPU cycle produces: none, or one.
    pub open spec fn cycle_samples(self) -> Seq<Sample> {
        if self.sample_due() {
            seq![self.after_cycle().mixer_input()]
        } else {
            seq![]
        }
    }

    pub open spec fn after_cycles(self, n: nat) -> ApuState
        decreases n,
    {
        if n == 0 {
            self
        } else {
            self.after_cycles((n - 1) as nat).after_cycle()
        }
    }

    pub open spec fn samples_over(self, n: nat) -> Seq<Sample>
        decreases n,
    {
        if n == 0 {
            seq![]
        } else {
            self.samples_over((n - 1) as nat) + self.after_cycles((n - 1) as nat).cycle_samples()
        }
    }

    /// The value a read of $4015 returns.
    pub open spec fn status_byte(self) -> u8 {
        (if self.pulse1.length_counter > 0 { 0x01u8 } else { 0u8 })
            | (if self.pulse2.length_counter > 0 { 0x02u8 } else { 0u8 })
            | (if self.triangle.length_counter > 0 { 0x04u8 } else { 0u8 })
            | (if self.noise.length_counter > 0 { 0x08u8 } else { 0u8 })
            | (if self.dmc.active() { 0x10u8 } else { 0u8 })
            | (if self.frame_irq { 0x40u8 } else { 0u8 })
            | (if self.dmc.irq_flag { 0x80u8 } else { 0u8 })
    }

    /// A write of $4015: bit n enables channel n (pulse 1, pulse 2, triangle,
    /// noise, DMC); a disabled channel's length counter drops to 0.
    pub open spec fn after_enable_write(self, data: u8) -> ApuState {
        let e1 = data & 1 != 0;
        let e2 = data & 2 != 0;
        let e3 = data & 4 != 0;
        let e4 = data & 8 != 0;
        ApuState {
            pulse1: Pulse {
                enabled: e1,
                length_counter: if e1 { self.pulse1.length_counter } else { 0 },
                ..self.pulse1
            },
            pulse2: Pulse {
                enabled: e2,
                length_counter: if e2 { self.pulse2.length_counter } else { 0 },
                ..self.pulse2
            },
            triangle: Triangle {
                enabled: e3,
                length_counter: if e3 { self.triangle.length_counter } else { 0 },
                ..self.triangle
            },
            noise: Noise {
                enabled: e4,
                length_counter: if e4 { self.noise.length_counter } else { 0 },
                ..self.noise
            },
            dmc: self.dmc.after_enable(data & 0x10 != 0),
            ..self
        }
    }

    /// A write of $4017: bit 7 selects 5-step mode, bit 6 inhibits (and
    /// clears) the frame interrupt; the sequence restarts, and 5-step mode
    /// clocks a quarter and a half frame at once.
    pub open spec fn after_frame_write(self, data: u8) -> ApuState {
        let four = data & 0x80 == 0;
        let inhibit = data & 0x40 != 0;
        let s = ApuState {
            frame_4step: four,
            frame_irq_inhibit: inhibit,
            frame_cycle: 0,
            frame_irq: if inhibit { false } else { self.frame_irq },
            ..self
        };
        if four {
            s
        } else {
            s.after_quarter().after_half()
        }
    }

    /// The triangle, noise and DMC after a write of `data` to `addr`
    /// ($4008-$4013).
    pub open spec fn after_tnd_write(self, addr: u16, data: u8) -> ApuState {
        if addr == 0x4008 {
            ApuState { triangle: self.triangle.after_4008(data), ..self }
        } else if addr == 0x400A {
            ApuState { triangle: self.triangle.after_400a(data), ..self }
        } else if addr == 0x400B {
            ApuState { triangle: self.triangle.after_400b(data), ..self }
        } else if addr == 0x400C {
            ApuState { noise: self.noise.after_400c(data), ..self }
        } else if addr == 0x400E {
            ApuState { noise: self.noise.after_400e(data), ..self }
        } else if addr == 0x400F {
            ApuState { noise: self.noise.after_400f(data), ..self }
        } else if addr == 0x4010 {
            ApuState { dmc: self.dmc.after_4010(data), ..self }
        } else if addr == 0x4011 {
            ApuState { dmc: Dmc { output_level: data & 0x7F, ..self.dmc }, ..self }
        } else if addr == 0x4012 {
            ApuState {
                dmc: Dmc { start_address: (0xC000 + data as int * 64) as u16, ..self.dmc },
                ..self
            }
        } else if addr == 0x4013 {
            ApuState {
                dmc: Dmc { sample_length: (data as int * 16 + 1) as u16, ..self.dmc },
                ..self
            }
        } else {
            self
        }
    }

    /// The state after a CPU write of `data` to APU register `addr`.
    pub open spec fn after_write(self, addr: u16, data: u8) -> ApuState {
        if 0x4000 <= addr && addr < 0x4004 {
            ApuState { pulse1: self.pulse1.after_reg((addr - 0x4000) as u16, data), ..self }
        } else if 0x4004 <= addr && addr < 0x4008 {
            ApuState { pulse2: self.pulse2.after_reg((addr - 0x4004) as u16, data), ..self }
        } else if addr == 0x4015 {
            self.after_enable_write(data)
        } else if addr == 0x4017 {
            self.after_frame_write(data)
        } else {
            self.after_tnd_write(addr, data)
        }
    }

    fn clock_quarter_frame(&mut self)
        ensures
            *final(self) == old(self).after_quarter(),
    {
        self.pulse1.clock_envelope();
        self.pulse2.clock_envelope();
        self.noise.clock_envelope();
        self.triangle.clock_linear();
    }

    fn clock_half_frame(&mut self)
        requires
            old(self).pulse1.sweep_shift < 8,
            old(self).pulse2.sweep_shift < 8,
        ensures
            *final(self) == old(self).after_half(),
    {
        self.pulse1.clock_length();
        self.pulse2.clock_length();
        self.triangle.clock_length();
        self.noise.clock_length();
        self.pulse1.clock_sweep();
        self.pulse2.clock_sweep();
    }

    fn write_tnd(&mut self, addr: u16, data: u8)
        ensures
            *final(self) == old(self).after_tnd_write(addr, data),
    {
        if addr == 0x4008 {
            self.triangle.write_4008(data);
        } else if addr == 0x400A {
            self.triangle.write_400a(data);
        } else if addr == 0x400B {
            self.triangle.write_400b(data);
        } else if addr == 0x400C {
            self.noise.write_400c(data);
        } else if addr == 0x400E {
            self.noise.write_400e(data);
        } else if addr == 0x400F {
            self.noise.write_400f(data);
        } else if addr == 0x4010 {
            self.dmc.write_4010(data);
        } else if addr == 0x4011 {
            self.dmc.write_4011(data);
        } else if addr == 0x4012 {
            self.dmc.write_4012(data);
        } else if addr == 0x4013 {
            self.dmc.write_4013(data);
        }
    }

    fn write_enable(&mut self, data: u8)
        ensures
            *final(self) == old(self).after_enable_write(data),
    {
        let e1 = data & 1 != 0;
        let e2 = data & 2 != 0;
        let e3 = data & 4 != 0;
        let e4 = data & 8 != 0;
        let first = self.pulse1;
        let second = self.pulse2;
        let t = self.triangle;
        let n = self.noise;
        self.pulse1 = Pulse {
            enabled: e1,
            length_counter: if e1 { first.length_counter } else { 0 },
            ..first
        };
        self.pulse2 = Pulse {
            enabled: e2,
            length_counter: if e2 { second.length_counter } else { 0 },
            ..second
        };
        self.triangle = Triangle {
            enabled: e3,
            length_counter: if e3 { t.length_counter } else { 0 },
            ..t
        };
        self.noise = Noise { enabled: e4, length_counter: if e4 { n.length_counter } else { 0 }, ..n };
        self.dmc.set_enabled(data & 0x10 != 0);
    }

    fn write_frame_counter(&mut self, data: u8)
        requires
            old(self).wf(),
        ensures
            *final(self) == old(self).after_frame_write(data),
    {
        self.frame_4step = data & 0x80 == 0;
        self.frame_irq_inhibit = data & 0x40 != 0;
        self.frame_cycle = 0;
        if self.frame_irq_inhibit {
            self.frame_irq = false;
        }
        if !self.frame_4step {
            self.clock_quarter_frame();
            self.clock_half_frame();
        }
    }

    fn write(&mut self, addr: u16, data: u8)
        requires
            old(self).wf(),
        ensures
            *final(self) == old(self).after_write(addr, data),
    {
        if 0x4000 <= addr && addr < 0x4004 {
            self.pulse1.write_reg(addr - 0x4000, data);
        } else if 0x4004 <= addr && addr < 0x4008 {
            self.pulse2.write_reg(addr - 0x4004, data);
        } else if addr == 0x4015 {
            self.write_enable(data);
        } else if addr == 0x4017 {
            self.write_frame_counter(data);
        } else {
            self.write_tnd(addr, data);
        }
    }

    fn read_status(&mut self) -> (r: u8)
        ensures
            r == old(self).status_byte(),
            *final(self) == (ApuState { frame_irq: false, ..*old(self) }),
    {
        let r = (if self.pulse1.length_counter > 0 {
            0x01u8
        } else {
            0u8
        }) | (if self.pulse2.length_counter > 0 {
            0x02u8
        } else {
            0u8
        }) | (if self.triangle.length_counter > 0 {
            0x04u8
        } else {
            0u8
        }) | (if self.noise.length_counter > 0 {
            0x08u8
        } else {
            0u8
        }) | (if self.dmc.has_bytes_remaining() {
            0x10u8
        } else {
            0u8
        }) | (if self.frame_irq {
            0x40u8
        } else {
            0u8
        }) | (if self.dmc.irq_flag {
            0x80u8
        } else {
            0u8
        });
        self.frame_irq = false;
        r
    }

    fn mix(&self) -> (r: Sample)
        requires
            self.wf(),
        ensures
            r == self.mixer_input(),
    {
        let level1 = self.pulse1.output();
        let level2 = self.pulse2.output();
        let t = self.triangle.output();
        let n = self.noise.output();
        let d = self.dmc.output();
        proof {
            assert(t <= 15);
        }
        Sample { pulse: level1 + level2, tnd: 3 * t as u16 + 2 * n as u16 + d as u16 }
    }

    fn step_sequencer(&mut self)
        requires
            old(self).wf(),
        ensures
            *final(self) == old(self).sequenced(),
    {
        self.frame_cycle = self.frame_cycle + 1;
        let fc = self.frame_cycle;
        if fc == 7457 || fc == 22371 {
            self.clock_quarter_frame();
        } else if fc == 14913 {
            self.clock_quarter_frame();
            self.clock_half_frame();
        } else if self.frame_4step && fc == 29829 {
            self.clock_quarter_frame();
            self.clock_half_frame();
            if !self.frame_irq_inhibit {
                self.frame_irq = true;
            }
        } else if !self.frame_4step && fc == 37281 {
            self.clock_quarter_frame();
            self.clock_half_frame();
        }
        let period = if self.frame_4step {
            FRAME_4STEP_RESET
        } else {
            FRAME_5STEP_RESET
        };
        if fc >= period {
            self.frame_cycle = 0;
        }
    }

    fn clock_timers(&mut self, half: bool)
        requires
            old(self).pulse1.sequencer_step < 8,
            old(self).pulse2.sequencer_step < 8,
            old(self).triangle.sequencer_step < 32,
            old(self).noise.period_index < 16,
            old(self).dmc.wf(),
        ensures
            *final(self) == old(self).timers_clocked(half),
    {
        if half {
            self.pulse1.tick_apu_cycle();
            self.pulse2.tick_apu_cycle();
        }
        self.triangle.tick_cpu_cycle();
        self.noise.tick_cpu_cycle();
        self.dmc.tick();
    }

    /// Advances one CPU cycle; returns the sample that falls due on it.
    fn clock_cycle(&mut self) -> (r: Option<Sample>)
        requires
            old(self).wf(),
        ensures
            *final(self) == old(self).after_cycle(),
            final(self).wf(),
            (match r {
                Some(x) => seq![x],
                None => seq![],
            }) == old(self).cycle_samples(),
    {
        let half = (self.frame_cycle + 1) % 2 == 0;
        proof {
            lemma_sequenced_wf(*self);
        }
        self.step_sequencer();
        self.clock_timers(half);
        if self.sample_phase + SAMPLE_RATE_HZ >= CPU_CLOCK_HZ {
            self.sample_phase = self.sample_phase + SAMPLE_RATE_HZ - CPU_CLOCK_HZ;
            Some(self.mix())
        } else {
            self.sample_phase = self.sample_phase + SAMPLE_RATE_HZ;
            None
        }
    }
}

proof fn lemma_quarter_wf(s: ApuState)
    requires
        s.channels_wf(),
    ensures
        s.after_quarter().channels_wf(),
        s.after_quarter().frame_cycle == s.frame_cycle,
        s.after_quarter().frame_4step == s.frame_4step,
        s.after_quarter().sample_phase == s.sample_phase,
{
}

proof fn lemma_half_wf(s: ApuState)
    requires
        s.channels_wf(),
    ensures
        s.after_half().channels_wf(),
        s.after_half().frame_cycle == s.frame_cycle,
        s.after_half().frame_4step == s.frame_4step,
        s.after_half().sample_phase == s.sample_phase,
{
}

proof fn lemma_timers_wf(s: ApuState, half: bool)
    requires
        s.channels_wf(),
    ensures
        s.timers_clocked(half).channels_wf(),
        s.timers_clocked(half).frame_cycle == s.frame_cycle,
        s.timers_clocked(half).frame_4step == s.frame_4step,
        s.timers_clocked(half).sample_phase == s.sample_phase,
{
}

/// The frame sequencer keeps the state well formed.
pub proof fn lemma_sequenced_wf(s: ApuState)
    requires
        s.wf(),
    ensures
        s.sequenced().wf(),
        s.sequenced().timers_clocked((s.frame_cycle + 1) % 2 == 0).wf(),
{
    let fc = (s.frame_cycle + 1) as u32;
    let t = ApuState { frame_cycle: fc, ..s };
    lemma_quarter_wf(t);
    lemma_half_wf(t.after_quarter());
    let q = s.sequenced();
    assert(q.channels_wf());
    assert(q.frame_cycle < q.frame_period());
    lemma_timers_wf(q, (s.frame_cycle + 1) % 2 == 0);
}

/// The APU: its state and the samples produced and not yet drained.
pub struct APU {
    pub state: ApuState,
    pub sample_buffer: Vec<Sample>,
}

impl APU {
    /// Power-on state: all channels silent, 4-step mode, noise register 1.
    pub fn new() -> (a: APU)
        ensures
            a.state.wf(),
            a.sample_buffer@ == Seq::<Sample>::empty(),
            a.state.frame_4step,
            a.state.frame_cycle == 0,
            !a.state.frame_irq,
            a.state.noise.shift == 1,
            a.state.pulse1.length_counter == 0 && a.state.pulse2.length_counter == 0,
            a.state.triangle.length_counter == 0 && a.state.noise.length_counter == 0,
            !a.state.pulse1.enabled && !a.state.pulse2.enabled,
            !a.state.triangle.enabled && !a.state.noise.enabled && !a.state.dmc.enabled,
    {
        let env = Envelope { start: false, divider: 0, decay: 0 };
        let pulse = Pulse {
            enabled: false,
            duty: 0,
            length_halt: false,
            constant_volume: false,
            volume: 0,
            sweep_enable: false,
            sweep_period: 0,
            sweep_negate: false,
            sweep_shift: 0,
            timer_period: 0,
            timer: 0,
            sequencer_step: 0,
            length_counter: 0,
            envelope: env,
            sweep_divider: 0,
            sweep_reload: false,
        };
        APU {
            state: ApuState {
                pulse1: pulse,
                pulse2: pulse,
                triangle: Triangle {
                    enabled: false,
                    length_halt: false,
                    linear_load: 0,
                    timer_period: 0,
                    timer: 0,
                    length_counter: 0,
                    linear_counter: 0,
                    linear_reload: false,
                    sequencer_step: 0,
                },
                noise: Noise {
                    enabled: false,
                    length_halt: false,
                    constant_volume: false,
                    volume: 0,
                    mode: false,
                    period_index: 0,
                    length_counter: 0,
                    envelope: env,
                    timer: 0,
                    shift: 1,
                },
                dmc: Dmc {
                    irq_enable: false,
                    irq_flag: false,
                    loop_flag: false,
                    rate_index: 0,
                    rate_timer: 0,
                    output_level: 0,
                    start_address: 0,
                    sample_length: 0,
                    current_address: 0,
                    bytes_remaining: 0,
                    sample_buffer: None,
                    shift_register: 0,
                    bits_remaining: 0,
                    silence: true,
                    enabled: false,
                    fetch_pending: false,
                    fetch_address: 0,
                },
                frame_irq: false,
                frame_irq_inhibit: false,
                frame_4step: true,
                frame_cycle: 0,
                sample_phase: 0,
            },
            sample_buffer: Vec::new(),
        }
    }

    /// Write of an APU register: $4000-$4013 channels, $4015 enables, $4017
    /// frame counter.
    pub fn write(&mut self, addr: u16, data: u8)
        requires
            old(self).state.wf(),
        ensures
            final(self).state == old(self).state.after_write(addr, data),
            final(self).sample_buffer@ == old(self).sample_buffer@,
    {
        self.state.write(addr, data);
    }

    /// Read of $4015: length counters > 0 (bits 0-3), DMC active (bit 4),
    /// frame interrupt (bit 6), DMC interrupt (bit 7). Clears the frame
    /// interrupt.
    pub fn read_status(&mut self) -> (r: u8)
        ensures
            r == old(self).state.status_byte(),
            final(self).state == (ApuState { frame_irq: false, ..old(self).state }),
            final(self).sample_buffer@ == old(self).sample_buffer@,
    {
        self.state.read_status()
    }

    /// The address the DMC wants a byte from, if it wants one.
    pub fn dmc_wants_fetch(&self) -> (r: Option<u16>)
        ensures
            r == (if self.state.dmc.fetch_pending {
                Some(self.state.dmc.fetch_address)
            } else {
                None
            }),
    {
        if self.state.dmc.fetch_pending {
            Some(self.state.dmc.fetch_address)
        } else {
            None
        }
    }

    /// Hands the DMC the byte it asked for.
    pub fn dmc_feed_byte(&mut self, byte: u8)
        ensures
            final(self).state == (ApuState { dmc: old(self).state.dmc.after_feed(byte), ..old(self).state }),
            final(self).sample_buffer@ == old(self).sample_buffer@,
    {
        self.state.dmc.feed_byte(byte);
    }

    /// Whether the APU holds the CPU's IRQ line (frame or DMC interrupt).
    pub fn irq_line(&self) -> (r: bool)
        ensures
            r == (self.state.frame_irq || self.state.dmc.irq_flag),
    {
        self.state.frame_irq || self.state.dmc.irq_flag
    }

    /// Advances `cycles` CPU cycles, appending the samples that fall due.
    pub fn tick(&mut self, cycles: usize)
        requires
            old(self).state.wf(),
        ensures
            final(self).state == old(self).state.after_cycles(cycles as nat),
            final(self).state.wf(),
            final(self).sample_buffer@ == old(self).sample_buffer@ + old(self).state.samples_over(
                cycles as nat,
            ),
    {
        let ghost s0 = self.state;
        let ghost b0 = self.sample_buffer@;
        let mut i: usize = 0;
        while i < cycles
            invariant
                i <= cycles,
                self.state == s0.after_cycles(i as nat),
                self.state.wf(),
                self.sample_buffer@ == b0 + s0.samples_over(i as nat),
            decreases cycles - i,
        {
            let ghost before = self.sample_buffer@;
            let out = self.state.clock_cycle();
            match out {
                Some(x) => {
                    self.sample_buffer.push(x);
                },
                None => {},
            }
            proof {
                assert(self.sample_buffer@ =~= b0 + s0.samples_over((i + 1) as nat));
            }
            i = i + 1;
        }
    }

    /// Hands out the samples produced so far, oldest first, and forgets them.
    pub fn drain_samples(&mut self) -> (r: Vec<Sample>)
        ensures
            r@ == old(self).sample_buffer@,
            final(self).sample_buffer@ == Seq::<Sample>::empty(),
            final(self).state == old(self).state,
    {
        let mut out: Vec<Sample> = Vec::new();
        std::mem::swap(&mut out, &mut self.sample_buffer);
        out
    }
}

/// The frame counter advances by exactly the number of CPU cycles clocked,
/// modulo the length of the current sequence.
pub proof fn lemma_frame_counter_advance(s: ApuState, n: nat)
    requires
        s.wf(),
    ensures
        s.after_cycles(n).frame_cycle == (s.frame_cycle + n) % (s.frame_period() as int),
        s.after_cycles(n).frame_4step == s.frame_4step,
        s.after_cycles(n).wf(),
    decreases n,
{
    if n > 0 {
        lemma_frame_counter_advance(s, (n - 1) as nat);
        let p = s.after_cycles((n - 1) as nat);
        lemma_sequenced_wf(p);
        let t = ApuState { frame_cycle: (p.frame_cycle + 1) as u32, ..p };
        lemma_quarter_wf(t);
        lemma_half_wf(t.after_quarter());
        let per = s.frame_period() as int;
        let fc = p.frame_cycle + 1;
        if fc < per {
            vstd::arithmetic::div_mod::lemma_small_mod(fc as nat, per as nat);
        } else {
            vstd::arithmetic::div_mod::lemma_mod_self_0(per);
        }
        assert(p.sequenced().frame_cycle == fc % per);
        lemma_timers_wf(p.sequenced(), (p.frame_cycle + 1) % 2 == 0);
        assert(p.after_cycle().frame_cycle == fc % per);
        let x = s.frame_cycle + (n - 1);
        assert(p.frame_cycle == x % per);
        assert((x + 1) % per == (x % per + 1) % per) by {
            vstd::arithmetic::div_mod::lemma_add_mod_noop(x, 1, per);
            vstd::arithmetic::div_mod::lemma_small_mod(1, per as nat);
        }
        assert(s.after_cycles(n) == p.after_cycle());
    } else {
        vstd::arithmetic::div_mod::lemma_small_mod(s.frame_cycle as nat, s.frame_period() as nat);
    }
}

/// Loading a length counter of an enabled channel shows at once in $4015:
/// bit 0 after $4003, bit 1 after $4007, bit 2 after $400B, bit 3 after $400F.
pub proof fn lemma_length_load_status(s: ApuState, data: u8)
    ensures
        s.pulse1.enabled ==> s.after_write(0x4003, data).status_byte() & 0x01 == 0x01,
        s.pulse2.enabled ==> s.after_write(0x4007, data).status_byte() & 0x02 == 0x02,
        s.triangle.enabled ==> s.after_write(0x400B, data).status_byte() & 0x04 == 0x04,
        s.noise.enabled ==> s.after_write(0x400F, data).status_byte() & 0x08 == 0x08,
{
    let i = data >> 3;
    assert(data >> 3 < 32) by (bit_vector);
    assert(length_value(i) > 0);
    assert forall|a: u8, b: u8, c: u8, d: u8, e: u8, f: u8, g: u8|
        #![trigger a | b | c | d | e | f | g]
        (a == 1 ==> (a | b | c | d | e | f | g) & 1 == 1) && (b == 2 ==> (a | b | c | d | e | f
            | g) & 2 == 2) && (c == 4 ==> (a | b | c | d | e | f | g) & 4 == 4) && (d == 8 ==> (a
            | b | c | d | e | f | g) & 8 == 8) by {
        assert((a == 1 ==> (a | b | c | d | e | f | g) & 1 == 1) && (b == 2 ==> (a | b | c | d | e
            | f | g) & 2 == 2) && (c == 4 ==> (a | b | c | d | e | f | g) & 4 == 4) && (d == 8 ==> (
        a | b | c | d | e | f | g) & 8 == 8)) by (bit_vector);
    }
}

/// Register writes keep the APU state well formed.
pub proof fn lemma_write_wf(s: ApuState, addr: u16, data: u8)
    requires
        s.wf(),
    ensures
        s.after_write(addr, data).wf(),
{
    assert((data >> 6) & 3 < 4 && data & 0x0F < 16 && data & 7 < 8 && data & 0x7F < 128)
        by (bit_vector);
    if addr == 0x4017 {
        let four = data & 0x80 == 0;
        let inhibit = data & 0x40 != 0;
        let z = ApuState {
            frame_4step: four,
            frame_irq_inhibit: inhibit,
            frame_cycle: 0,
            frame_irq: if inhibit { false } else { s.frame_irq },
            ..s
        };
        lemma_quarter_wf(z);
        lemma_half_wf(z.after_quarter());
    }
}

} // verus!
