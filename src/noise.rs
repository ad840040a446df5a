use vstd::prelude::*;
use crate::envelope::{
    advance_clock, envelope_after, length_after, run_envelope, run_length, ticks, ENVELOPE_PERIOD,
    LENGTH_PERIOD,
};
use crate::pulse::bit;

verus! {

/// Noise channel 4: an LFSR clocked at a programmable rate (FF20 to FF23).
#[derive(PartialEq, Eq, Structural, Clone, Copy, Debug)]
pub struct SC4 {
    pub dac_enabled: bool,
    pub length_timer: u8,
    pub length_enabled: bool,
    pub volume: u8,
    pub envelope_positive: bool,
    pub envelope_pace: u8,
    pub clock_shift: u8,
    pub lfsr_width_7bit: bool,
    pub clock_divider: u8,
    pub lfsr: u16,
    pub trigger: bool,
    pub length_clock: u32,
    pub envelope_clock: u32,
    pub envelope_count: u8,
}

impl SC4 {
    pub open spec fn wf(self) -> bool {
        &&& self.length_timer <= 64
        &&& self.volume <= 15
        &&& self.envelope_pace <= 7
        &&& self.clock_shift <= 15
        &&& self.clock_divider <= 7
        &&& self.length_clock < LENGTH_PERIOD
        &&& self.envelope_clock < ENVELOPE_PERIOD
        &&& self.envelope_count < 8
        &&& (self.envelope_pace > 0 ==> self.envelope_count < self.envelope_pace)
    }

    pub open spec fn initial() -> SC4 {
        SC4 {
            dac_enabled: false,
            length_timer: 0,
            length_enabled: false,
            volume: 0,
            envelope_positive: false,
            envelope_pace: 0,
            clock_shift: 0,
            lfsr_width_7bit: false,
            clock_divider: 0,
            lfsr: 0,
            trigger: false,
            length_clock: 0,
            envelope_clock: 0,
            envelope_count: 0,
        }
    }
}

/// What a read of FF20 to FF23 returns.
pub open spec fn sc4_read(c: SC4, a: u16) -> u8 {
    if a == 0xFF21 {
        (c.volume * 16 + bit(c.envelope_positive, 8) + c.envelope_pace) as u8
    } else if a == 0xFF22 {
        (c.clock_shift * 16 + bit(c.lfsr_width_7bit, 8) + c.clock_divider) as u8
    } else if a == 0xFF23 {
        (bit(c.length_enabled, 64) + 0xBF) as u8
    } else {
        0xFF
    }
}

/// The channel after a write of `v` to one of FF20 to FF23.
pub open spec fn sc4_write(c: SC4, a: u16, v: u8) -> SC4 {
    if a == 0xFF20 {
        SC4 { length_timer: (v % 64) as u8, ..c }
    } else if a == 0xFF21 {
        SC4 {
            volume: (v / 16) as u8,
            envelope_positive: (v / 8) % 2 == 1,
            envelope_pace: (v % 8) as u8,
            dac_enabled: v >= 8,
            envelope_count: 0,
            ..c
        }
    } else if a == 0xFF22 {
        SC4 {
            clock_shift: (v / 16) as u8,
            lfsr_width_7bit: (v / 8) % 2 == 1,
            clock_divider: (v % 8) as u8,
            ..c
        }
    } else if a == 0xFF23 {
        SC4 { trigger: v >= 128, length_enabled: (v / 64) % 2 == 1, ..c }
    } else {
        c
    }
}

/// The channel after `n` T-cycles: length and envelope ticks.
pub open spec fn sc4_cycle(c: SC4, n: u32) -> SC4 {
    let lt = ticks(c.length_clock as int, n as int, LENGTH_PERIOD as int);
    let len = length_after(c.length_timer as int, c.length_enabled, lt, 64);
    let et = ticks(c.envelope_clock as int, n as int, ENVELOPE_PERIOD as int);
    let env = envelope_after(
        c.volume as int,
        c.envelope_positive,
        c.envelope_pace as int,
        c.envelope_count as int,
        et,
    );
    SC4 {
        length_timer: len.0 as u8,
        length_enabled: len.1,
        dac_enabled: c.dac_enabled && !len.2,
        volume: env.0 as u8,
        envelope_count: env.1 as u8,
        length_clock: ((c.length_clock + n) % (LENGTH_PERIOD as int)) as u32,
        envelope_clock: ((c.envelope_clock + n) % (ENVELOPE_PERIOD as int)) as u32,
        ..c
    }
}

/// Divisor of 524288 Hz that gives the LFSR's clock: (2 * divider, or 1 for 0) << shift.
pub open spec fn noise_divisor(c: SC4) -> u32 {
    (if c.clock_divider == 0 { 1u32 } else { (2 * c.clock_divider) as u32 }) << (c.clock_shift as u32)
}

impl SC4 {
    pub fn new() -> (r: SC4)
        ensures
            r == SC4::initial(),
            r.wf(),
    {
        SC4 {
            dac_enabled: false,
            length_timer: 0,
            length_enabled: false,
            volume: 0,
            envelope_positive: false,
            envelope_pace: 0,
            clock_shift: 0,
            lfsr_width_7bit: false,
            clock_divider: 0,
            lfsr: 0,
            trigger: false,
            length_clock: 0,
            envelope_clock: 0,
            envelope_count: 0,
        }
    }

    pub fn clear(&mut self)
        ensures
            *final(self) == SC4::initial(),
            final(self).wf(),
    {
        *self = SC4::new();
    }

    pub fn read(&self, a: u16) -> (r: u8)
        requires
            self.wf(),
            0xFF20 <= a <= 0xFF23,
        ensures
            r == sc4_read(*self, a),
    {
        if a == 0xFF21 {
            let up: u8 = if self.envelope_positive {
                8
            } else {
                0
            };
            self.volume * 16 + up + self.envelope_pace
        } else if a == 0xFF22 {
            let w: u8 = if self.lfsr_width_7bit {
                8
            } else {
                0
            };
            self.clock_shift * 16 + w + self.clock_divider
        } else if a == 0xFF23 {
            let len: u8 = if self.length_enabled {
                64
            } else {
                0
            };
            len + 0xBF
        } else {
            0xFF
        }
    }

    pub fn write(&mut self, a: u16, v: u8)
        requires
            old(self).wf(),
            0xFF20 <= a <= 0xFF23,
        ensures
            *final(self) == sc4_write(*old(self), a, v),
            final(self).wf(),
    {
        if a == 0xFF20 {
            self.length_timer = v % 64;
        } else if a == 0xFF21 {
            self.volume = v / 16;
            self.envelope_positive = (v / 8) % 2 == 1;
            self.envelope_pace = v % 8;
            self.dac_enabled = v >= 8;
            self.envelope_count = 0;
        } else if a == 0xFF22 {
            self.clock_shift = v / 16;
            self.lfsr_width_7bit = (v / 8) % 2 == 1;
            self.clock_divider = v % 8;
        } else if a == 0xFF23 {
            self.trigger = v >= 128;
            self.length_enabled = (v / 64) % 2 == 1;
        }
    }

    /// Advances the length and envelope timers by `cycles` T-cycles.
    pub fn cycle(&mut self, cycles: u32)
        requires
            old(self).wf(),
        ensures
            *final(self) == sc4_cycle(*old(self), cycles),
            final(self).wf(),
    {
        let (lc, lt) = advance_clock(self.length_clock, cycles, LENGTH_PERIOD);
        let (timer, len_on, out) = run_length(self.length_timer as u16, self.length_enabled, lt, 64);
        let (ec, et) = advance_clock(self.envelope_clock, cycles, ENVELOPE_PERIOD);
        let (vol, count) = run_envelope(
            self.volume,
            self.envelope_positive,
            self.envelope_pace,
            self.envelope_count,
            et,
        );
        self.length_timer = timer as u8;
        self.length_enabled = len_on;
        self.dac_enabled = self.dac_enabled && !out;
        self.volume = vol;
        self.envelope_count = count;
        self.length_clock = lc;
        self.envelope_clock = ec;
    }

    /// The divisor of 524288 Hz at which the LFSR is clocked.
    pub fn divisor(&self) -> (r: u32)
        requires
            self.wf(),
        ensures
            r == noise_divisor(*self),
    {
        let d: u32 = if self.clock_divider == 0 {
            1
        } else {
            2 * self.clock_divider as u32
        };
        d << (self.clock_shift as u32)
    }
}

} // verus!
