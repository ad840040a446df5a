use vstd::prelude::*;
use crate::envelope::{
    advance_clock, envelope_after, length_after, run_envelope, run_length, ticks, ENVELOPE_PERIOD,
    LENGTH_PERIOD, SWEEP_PERIOD,
};

verus! {

/// Pulse channel 1: square wave with duty, length, envelope and frequency sweep (FF10 to FF14).
#[derive(PartialEq, Eq, Structural, Clone, Copy, Debug)]
pub struct SC1 {
    pub dac_enabled: bool,
    pub sweep_pace: u8,
    pub sweep_negative: bool,
    pub sweep_step: u8,
    /// 0 to 3: 12.5%, 25%, 50%, 75%.
    pub duty: u8,
    pub length_timer: u8,
    pub length_enabled: bool,
    pub volume: u8,
    pub envelope_positive: bool,
    pub envelope_pace: u8,
    pub period: u16,
    pub trigger: bool,
    pub length_clock: u32,
    pub envelope_clock: u32,
    pub envelope_count: u8,
    pub sweep_clock: u32,
    pub sweep_count: u8,
}

impl SC1 {
    pub open spec fn wf(self) -> bool {
        &&& self.sweep_pace <= 7
        &&& self.sweep_step <= 7
        &&& self.duty <= 3
        &&& self.length_timer <= 64
        &&& self.volume <= 15
        &&& self.envelope_pace <= 7
        &&& self.period <= 2047
        &&& self.length_clock < LENGTH_PERIOD
        &&& self.envelope_clock < ENVELOPE_PERIOD
        &&& self.sweep_clock < SWEEP_PERIOD
        &&& self.envelope_count < 8
        &&& (self.envelope_pace > 0 ==> self.envelope_count < self.envelope_pace)
        &&& self.sweep_count < 8
        &&& (self.sweep_pace > 0 ==> self.sweep_count < self.sweep_pace)
    }

    pub open spec fn initial() -> SC1 {
        SC1 {
            dac_enabled: false,
            sweep_pace: 0,
            sweep_negative: false,
            sweep_step: 0,
            duty: 1,
            length_timer: 0,
            length_enabled: false,
            volume: 0,
            envelope_positive: false,
            envelope_pace: 0,
            period: 0,
            trigger: false,
            length_clock: 0,
            envelope_clock: 0,
            envelope_count: 0,
            sweep_clock: 0,
            sweep_count: 0,
        }
    }
}

pub open spec fn bit(b: bool, v: int) -> int {
    if b {
        v
    } else {
        0
    }
}

/// What a read of FF10 to FF14 returns; bits that cannot be read come back set.
pub open spec fn sc1_read(c: SC1, a: u16) -> u8 {
    if a == 0xFF10 {
        (128 + c.sweep_pace * 16 + bit(c.sweep_negative, 8) + c.sweep_step) as u8
    } else if a == 0xFF11 {
        (c.duty * 64 + 0x3F) as u8
    } else if a == 0xFF12 {
        (c.volume * 16 + bit(c.envelope_positive, 8) + c.envelope_pace) as u8
    } else if a == 0xFF14 {
        (bit(c.length_enabled, 64) + 0xBF) as u8
    } else {
        0xFF
    }
}

/// The channel after a write of `v` to FF10 to FF14.
pub open spec fn sc1_write(c: SC1, a: u16, v: u8) -> SC1 {
    if a == 0xFF10 {
        SC1 {
            sweep_pace: ((v / 16) % 8) as u8,
            sweep_negative: (v / 8) % 2 == 1,
            sweep_step: (v % 8) as u8,
            sweep_count: 0,
            ..c
        }
    } else if a == 0xFF11 {
        SC1 { duty: (v / 64) as u8, length_timer: (v % 64) as u8, ..c }
    } else if a == 0xFF12 {
        SC1 {
            volume: (v / 16) as u8,
            envelope_positive: (v / 8) % 2 == 1,
            envelope_pace: (v % 8) as u8,
            dac_enabled: v >= 8,
            envelope_count: 0,
            ..c
        }
    } else if a == 0xFF13 {
        SC1 { period: ((c.period / 256) * 256 + v) as u16, ..c }
    } else if a == 0xFF14 {
        SC1 {
            trigger: v >= 128,
            length_enabled: (v / 64) % 2 == 1,
            period: (c.period % 256 + (v % 8) * 256) as u16,
            ..c
        }
    } else {
        c
    }
}

/// One sweep tick of 128 Hz: every `sweep_pace` ticks the period moves by `period >> sweep_step`;
/// a rise past 2047 turns the DAC off instead.
pub open spec fn sweep_tick(c: SC1) -> SC1 {
    if c.sweep_pace == 0 {
        c
    } else if c.sweep_count + 1 < c.sweep_pace {
        SC1 { sweep_count: (c.sweep_count + 1) as u8, ..c }
    } else {
        let delta = c.period >> (c.sweep_step as u16);
        if c.sweep_negative {
            SC1 { sweep_count: 0, period: (c.period - delta) as u16, ..c }
        } else if c.period + delta > 2047 {
            SC1 { sweep_count: 0, dac_enabled: false, ..c }
        } else {
            SC1 { sweep_count: 0, period: (c.period + delta) as u16, ..c }
        }
    }
}

pub open spec fn sweep_run(c: SC1, n: nat) -> SC1
    decreases n,
{
    if n == 0 {
        c
    } else {
        sweep_tick(sweep_run(c, (n - 1) as nat))
    }
}

/// The channel after `n` T-cycles: length, envelope, then sweep ticks.
pub open spec fn sc1_cycle(c: SC1, n: u32) -> SC1 {
    let lt = ticks(c.length_clock as int, n as int, LENGTH_PERIOD as int);
    let len = length_after(c.length_timer as int, c.length_enabled, lt, 64);
    let et = ticks(c.envelope_clock as int, n as int, ENVELOPE_PERIOD as int);
    let env = envelope_after(
        c.volume as int,
        c.envelope_positive,
        c.envelope_pace as int,
        c.envelope_count as int,
        et,
    );
    let c1 = SC1 {
        length_timer: len.0 as u8,
        length_enabled: len.1,
        dac_enabled: c.dac_enabled && !len.2,
        volume: env.0 as u8,
        envelope_count: env.1 as u8,
        length_clock: ((c.length_clock + n) % (LENGTH_PERIOD as int)) as u32,
        envelope_clock: ((c.envelope_clock + n) % (ENVELOPE_PERIOD as int)) as u32,
        sweep_clock: ((c.sweep_clock + n) % (SWEEP_PERIOD as int)) as u32,
        ..c
    };
    sweep_run(c1, ticks(c.sweep_clock as int, n as int, SWEEP_PERIOD as int) as nat)
}

proof fn lemma_sweep_wf(c: SC1)
    requires
        c.wf(),
    ensures
        sweep_tick(c).wf(),
{
    let p = c.period;
    let s = c.sweep_step as u16;
    assert(p >> s <= p) by (bit_vector);
}

impl SC1 {
    pub fn new() -> (r: SC1)
        ensures
            r == SC1::initial(),
            r.wf(),
    {
        SC1 {
            dac_enabled: false,
            sweep_pace: 0,
            sweep_negative: false,
            sweep_step: 0,
            duty: 1,
            length_timer: 0,
            length_enabled: false,
            volume: 0,
            envelope_positive: false,
            envelope_pace: 0,
            period: 0,
            trigger: false,
            length_clock: 0,
            envelope_clock: 0,
            envelope_count: 0,
            sweep_clock: 0,
            sweep_count: 0,
        }
    }

    /// Returns every field to its power-on value.
    pub fn clear(&mut self)
        ensures
            *final(self) == SC1::initial(),
            final(self).wf(),
    {
        *self = SC1::new();
    }

    pub fn read(&self, a: u16) -> (r: u8)
        requires
            self.wf(),
            0xFF10 <= a <= 0xFF14,
        ensures
            r == sc1_read(*self, a),
    {
        if a == 0xFF10 {
            let neg: u8 = if self.sweep_negative {
                8
            } else {
                0
            };
            128 + self.sweep_pace * 16 + neg + self.sweep_step
        } else if a == 0xFF11 {
            self.duty * 64 + 0x3F
        } else if a == 0xFF12 {
            let up: u8 = if self.envelope_positive {
                8
            } else {
                0
            };
            self.volume * 16 + up + self.envelope_pace
        } else if a == 0xFF14 {
            let len: u8 = if self.length_enabled {
                64
            } else {
                0
            };
            len + 0xBF
        } else {
            0xFF
        }
    }

    pub fn write(&mut self, a: u16, v: u8)
        requires
            old(self).wf(),
            0xFF10 <= a <= 0xFF14,
        ensures
            *final(self) == sc1_write(*old(self), a, v),
            final(self).wf(),
    {
        if a == 0xFF10 {
            self.sweep_pace = (v / 16) % 8;
            self.sweep_negative = (v / 8) % 2 == 1;
            self.sweep_step = v % 8;
            self.sweep_count = 0;
        } else if a == 0xFF11 {
            self.duty = v / 64;
            self.length_timer = v % 64;
        } else if a == 0xFF12 {
            self.volume = v / 16;
            self.envelope_positive = (v / 8) % 2 == 1;
            self.envelope_pace = v % 8;
            self.dac_enabled = v >= 8;
            self.envelope_count = 0;
        } else if a == 0xFF13 {
            self.period = (self.period / 256) * 256 + v as u16;
        } else if a == 0xFF14 {
            self.trigger = v >= 128;
            self.length_enabled = (v / 64) % 2 == 1;
            self.period = self.period % 256 + (v % 8) as u16 * 256;
        }
    }

    fn sweep_once(&mut self)
        requires
            old(self).wf(),
        ensures
            *final(self) == sweep_tick(*old(self)),
            final(self).wf(),
    {
        proof {
            lemma_sweep_wf(*self);
        }
        if self.sweep_pace == 0 {
            return;
        }
        if self.sweep_count + 1 < self.sweep_pace {
            self.sweep_count = self.sweep_count + 1;
            return;
        }
        self.sweep_count = 0;
        let p = self.period;
        let sh = self.sweep_step as u16;
        let delta = p >> sh;
        assert(p >> sh <= p) by (bit_vector);
        if self.sweep_negative {
            self.period = self.period - delta;
        } else if self.period + delta > 2047 {
            self.dac_enabled = false;
        } else {
            self.period = self.period + delta;
        }
    }

    /// Advances the channel's length, envelope and sweep timers by `cycles` T-cycles.
    pub fn cycle(&mut self, cycles: u32)
        requires
            old(self).wf(),
        ensures
            *final(self) == sc1_cycle(*old(self), cycles),
            final(self).wf(),
            final(self).trigger == old(self).trigger,
    {
        let (lc, lt) = advance_clock(self.length_clock, cycles, LENGTH_PERIOD);
        let (timer, len_on, out) = run_length(self.length_timer as u16, self.length_enabled, lt, 64);
        let (ec, et) = advance_clock(self.envelope_clock, cycles, ENVELOPE_PERIOD);
        let (vol, count) = run_envelope(
            self.volume,
            self.envelope_positive,
            self.envelope_pace,
            self.envelope_count,
            et,
        );
        let (sc, st) = advance_clock(self.sweep_clock, cycles, SWEEP_PERIOD);
        self.length_timer = timer as u8;
        self.length_enabled = len_on;
        self.dac_enabled = self.dac_enabled && !out;
        self.volume = vol;
        self.envelope_count = count;
        self.length_clock = lc;
        self.envelope_clock = ec;
        self.sweep_clock = sc;
        let ghost c1 = *self;
        let mut i: u64 = 0;
        while i < st
            invariant
                i <= st,
                *self == sweep_run(c1, i as nat),
                self.wf(),
                self.trigger == c1.trigger,
            decreases st - i,
        {
            self.sweep_once();
            i = i + 1;
        }
    }
}

/// Pulse channel 2: channel 1 without its sweep, answering at FF16 to FF19; FF15 is inert.
#[derive(PartialEq, Eq, Structural, Clone, Copy, Debug)]
pub struct SC2 {
    pub ch: SC1,
}

impl SC2 {
    pub open spec fn wf(self) -> bool {
        self.ch.wf() && self.ch.sweep_pace == 0
    }

    pub fn new() -> (r: SC2)
        ensures
            r.ch == SC1::initial(),
            r.wf(),
    {
        SC2 { ch: SC1::new() }
    }

    pub fn clear(&mut self)
        ensures
            final(self).ch == SC1::initial(),
            final(self).wf(),
    {
        self.ch.clear();
    }

    pub fn read(&self, a: u16) -> (r: u8)
        requires
            self.wf(),
            0xFF15 <= a <= 0xFF19,
        ensures
            r == if a == 0xFF15 {
                0xFFu8
            } else {
                sc1_read(self.ch, (a - 5) as u16)
            },
    {
        if a == 0xFF15 {
            0xFF
        } else {
            self.ch.read(a - 5)
        }
    }

    pub fn write(&mut self, a: u16, v: u8)
        requires
            old(self).wf(),
            0xFF15 <= a <= 0xFF19,
        ensures
            final(self).ch == if a == 0xFF15 {
                old(self).ch
            } else {
                sc1_write(old(self).ch, (a - 5) as u16, v)
            },
            final(self).wf(),
    {
        if a != 0xFF15 {
            self.ch.write(a - 5, v);
        }
    }

    /// Advances the channel's length and envelope timers by `cycles` T-cycles.
    pub fn cycle(&mut self, cycles: u32)
        requires
            old(self).wf(),
        ensures
            final(self).ch == sc1_cycle(old(self).ch, cycles),
            final(self).wf(),
            final(self).ch.trigger == old(self).ch.trigger,
    {
        proof {
            lemma_no_sweep(self.ch, cycles);
        }
        self.ch.cycle(cycles);
    }
}

/// Without a sweep pace the sweep never moves.
proof fn lemma_no_sweep(c: SC1, n: u32)
    requires
        c.wf(),
        c.sweep_pace == 0,
    ensures
        sc1_cycle(c, n).sweep_pace == 0,
{
    let lt = ticks(c.length_clock as int, n as int, LENGTH_PERIOD as int);
    let len = length_after(c.length_timer as int, c.length_enabled, lt, 64);
    let et = ticks(c.envelope_clock as int, n as int, ENVELOPE_PERIOD as int);
    let env = envelope_after(
        c.volume as int,
        c.envelope_positive,
        c.envelope_pace as int,
        c.envelope_count as int,
        et,
    );
    let c1 = SC1 {
        length_timer: len.0 as u8,
        length_enabled: len.1,
        dac_enabled: c.dac_enabled && !len.2,
        volume: env.0 as u8,
        envelope_count: env.1 as u8,
        length_clock: ((c.length_clock + n) % (LENGTH_PERIOD as int)) as u32,
        envelope_clock: ((c.envelope_clock + n) % (ENVELOPE_PERIOD as int)) as u32,
        sweep_clock: ((c.sweep_clock + n) % (SWEEP_PERIOD as int)) as u32,
        ..c
    };
    lemma_sweep_idle(c1, ticks(c.sweep_clock as int, n as int, SWEEP_PERIOD as int) as nat);
}

proof fn lemma_sweep_idle(c: SC1, n: nat)
    requires
        c.sweep_pace == 0,
    ensures
        sweep_run(c, n) == c,
    decreases n,
{
    if n > 0 {
        lemma_sweep_idle(c, (n - 1) as nat);
    }
}

} // verus!
