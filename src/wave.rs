use vstd::prelude::*;
use crate::envelope::{advance_clock, length_after, run_length, ticks, LENGTH_PERIOD};
use crate::pulse::bit;

verus! {

/// Wave channel 3: plays a table of 32 nibbles (FF1A to FF1E, table at FF30 to FF3F).
#[derive(Clone, Copy, Debug)]
pub struct SC3 {
    pub dac_enabled: bool,
    pub length_timer: u16,
    pub length_enabled: bool,
    /// 0 mute, 1 full, 2 half, 3 quarter.
    pub output_level: u8,
    pub period: u16,
    pub trigger: bool,
    pub length_clock: u32,
    pub wave: [u8; 16],
}

impl SC3 {
    pub open spec fn wf(self) -> bool {
        &&& self.length_timer <= 256
        &&& self.output_level <= 3
        &&& self.period <= 2047
        &&& self.length_clock < LENGTH_PERIOD
    }

    /// Power-on state of the registers; the table is left as it is.
    pub open spec fn cleared(wave: [u8; 16]) -> SC3 {
        SC3 {
            dac_enabled: false,
            length_timer: 0,
            length_enabled: false,
            output_level: 0,
            period: 0,
            trigger: false,
            length_clock: 0,
            wave,
        }
    }
}

/// What a read of FF1A to FF1E or of the table returns.
pub open spec fn sc3_read(c: SC3, a: u16) -> u8 {
    if a == 0xFF1A {
        (bit(c.dac_enabled, 128) + 0x7F) as u8
    } else if a == 0xFF1C {
        (c.output_level * 32 + 0x9F) as u8
    } else if a == 0xFF1E {
        (bit(c.length_enabled, 64) + 0xBF) as u8
    } else if 0xFF30 <= a <= 0xFF3F {
        c.wave@[a - 0xFF30]
    } else {
        0xFF
    }
}

/// The channel after a write of `v` to one of FF1A to FF1E.
pub open spec fn sc3_write(c: SC3, a: u16, v: u8) -> SC3 {
    if a == 0xFF1A {
        SC3 { dac_enabled: v >= 128, ..c }
    } else if a == 0xFF1B {
        SC3 { length_timer: v as u16, ..c }
    } else if a == 0xFF1C {
        SC3 { output_level: ((v / 32) % 4) as u8, ..c }
    } else if a == 0xFF1D {
        SC3 { period: ((c.period / 256) * 256 + v) as u16, ..c }
    } else if a == 0xFF1E {
        SC3 {
            trigger: v >= 128,
            length_enabled: (v / 64) % 2 == 1,
            period: (c.period % 256 + (v % 8) * 256) as u16,
            ..c
        }
    } else {
        c
    }
}

/// The channel after `n` T-cycles: its length counter runs up to 256.
pub open spec fn sc3_cycle(c: SC3, n: u32) -> SC3 {
    let lt = ticks(c.length_clock as int, n as int, LENGTH_PERIOD as int);
    let len = length_after(c.length_timer as int, c.length_enabled, lt, 256);
    SC3 {
        length_timer: len.0 as u16,
        length_enabled: len.1,
        dac_enabled: c.dac_enabled && !len.2,
        length_clock: ((c.length_clock + n) % (LENGTH_PERIOD as int)) as u32,
        ..c
    }
}

impl SC3 {
    pub fn new() -> (r: SC3)
        ensures
            r == SC3::cleared(r.wave),
            r.wave@ == Seq::new(16, |i: int| 0u8),
            r.wf(),
    {
        let r = SC3 {
            dac_enabled: false,
            length_timer: 0,
            length_enabled: false,
            output_level: 0,
            period: 0,
            trigger: false,
            length_clock: 0,
            wave: [0u8; 16],
        };
        assert(r.wave@ =~= Seq::new(16, |i: int| 0u8));
        r
    }

    /// Returns the registers to their power-on values; the table stays.
    pub fn clear(&mut self)
        ensures
            *final(self) == SC3::cleared(old(self).wave),
            final(self).wf(),
    {
        self.dac_enabled = false;
        self.length_timer = 0;
        self.length_enabled = false;
        self.output_level = 0;
        self.period = 0;
        self.trigger = false;
        self.length_clock = 0;
    }

    pub fn read(&self, a: u16) -> (r: u8)
        requires
            self.wf(),
            0xFF1A <= a <= 0xFF1E || 0xFF30 <= a <= 0xFF3F,
        ensures
            r == sc3_read(*self, a),
    {
        if a == 0xFF1A {
            let on: u8 = if self.dac_enabled {
                128
            } else {
                0
            };
            on + 0x7F
        } else if a == 0xFF1C {
            self.output_level * 32 + 0x9F
        } else if a == 0xFF1E {
            let len: u8 = if self.length_enabled {
                64
            } else {
                0
            };
            len + 0xBF
        } else if 0xFF30 <= a && a <= 0xFF3F {
            self.wave[(a - 0xFF30) as usize]
        } else {
            0xFF
        }
    }

    pub fn write(&mut self, a: u16, v: u8)
        requires
            old(self).wf(),
            0xFF1A <= a <= 0xFF1E,
        ensures
            *final(self) == sc3_write(*old(self), a, v),
            final(self).wf(),
    {
        if a == 0xFF1A {
            self.dac_enabled = v >= 128;
        } else if a == 0xFF1B {
            self.length_timer = v as u16;
        } else if a == 0xFF1C {
            self.output_level = (v / 32) % 4;
        } else if a == 0xFF1D {
            self.period = (self.period / 256) * 256 + v as u16;
        } else if a == 0xFF1E {
            self.trigger = v >= 128;
            self.length_enabled = (v / 64) % 2 == 1;
            self.period = self.period % 256 + (v % 8) as u16 * 256;
        }
    }

    /// Stores `v` in the table byte at `a`.
    pub fn write_wave(&mut self, a: u16, v: u8)
        requires
            old(self).wf(),
            0xFF30 <= a <= 0xFF3F,
        ensures
            final(self).wave@ == old(self).wave@.update(a - 0xFF30, v),
            *final(self) == (SC3 { wave: final(self).wave, ..*old(self) }),
            final(self).wf(),
    {
        self.wave[(a - 0xFF30) as usize] = v;
    }

    /// Advances the length timer by `cycles` T-cycles.
    pub fn cycle(&mut self, cycles: u32)
        requires
            old(self).wf(),
        ensures
            *final(self) == sc3_cycle(*old(self), cycles),
            final(self).wf(),
    {
        let (lc, lt) = advance_clock(self.length_clock, cycles, LENGTH_PERIOD);
        let (timer, len_on, out) = run_length(self.length_timer, self.length_enabled, lt, 256);
        self.length_timer = timer;
        self.length_enabled = len_on;
        self.dac_enabled = self.dac_enabled && !out;
        self.length_clock = lc;
    }
}

} // verus!
