use vstd::prelude::*;
use crate::envelope::CLOCK_HZ;
use crate::noise::{noise_divisor, sc4_cycle, sc4_read, sc4_write, SC4};
use crate::pulse::{bit, sc1_cycle, sc1_read, sc1_write, SC1, SC2};
use crate::wave::{sc3_cycle, sc3_read, sc3_write, SC3};

verus! {

// NR51 panning bits
pub const CH4_LEFT: u8 = 0x80;
pub const CH3_LEFT: u8 = 0x40;
pub const CH2_LEFT: u8 = 0x20;
pub const CH1_LEFT: u8 = 0x10;
pub const CH4_RIGHT: u8 = 0x08;
pub const CH3_RIGHT: u8 = 0x04;
pub const CH2_RIGHT: u8 = 0x02;
pub const CH1_RIGHT: u8 = 0x01;

/// A non-negative fraction `num / den`, as handed to the synthesizer.
#[derive(PartialEq, Eq, Structural, Clone, Copy, Debug)]
pub struct Ratio {
    pub num: u32,
    pub den: u32,
}

/// The synthesizer slots of one channel: frequency in Hz, volume in 0..1, and its two gates.
#[derive(PartialEq, Eq, Structural, Clone, Copy, Debug)]
pub struct Voice {
    pub freq: Ratio,
    pub vol: Ratio,
    pub left: bool,
    pub right: bool,
}

/// Every synthesizer slot that the APU drives.
#[derive(PartialEq, Eq, Structural, Clone, Copy, Debug)]
pub struct SynthParams {
    pub s1: Voice,
    pub s1_duty: Ratio,
    pub s2: Voice,
    pub s2_duty: Ratio,
    pub s3: Voice,
    pub s4: Voice,
    pub global_l: Ratio,
    pub global_r: Ratio,
}

/// The audio processing unit: master control (FF24 to FF26) and the four channels.
#[derive(Clone, Copy, Debug)]
pub struct APU {
    pub audio_enabled: bool,
    pub is_ch_4_on: bool,
    pub is_ch_3_on: bool,
    pub is_ch_2_on: bool,
    pub is_ch_1_on: bool,
    pub left_volume: u8,
    pub right_volume: u8,
    pub panning: u8,
    pub sc1: SC1,
    pub sc2: SC2,
    pub sc3: SC3,
    pub sc4: SC4,
}

impl APU {
    /// Channels well formed, no trigger pending, a channel on only with its DAC on,
    /// and nothing on while the master switch is off.
    pub open spec fn wf(self) -> bool {
        &&& self.sc1.wf()
        &&& self.sc2.wf()
        &&& self.sc3.wf()
        &&& self.sc4.wf()
        &&& self.left_volume <= 7
        &&& self.right_volume <= 7
        &&& !self.sc1.trigger && !self.sc2.ch.trigger && !self.sc3.trigger && !self.sc4.trigger
        &&& (self.is_ch_1_on ==> self.sc1.dac_enabled)
        &&& (self.is_ch_2_on ==> self.sc2.ch.dac_enabled)
        &&& (self.is_ch_3_on ==> self.sc3.dac_enabled)
        &&& (self.is_ch_4_on ==> self.sc4.dac_enabled)
        &&& (!self.audio_enabled ==> !self.is_ch_1_on && !self.is_ch_2_on && !self.is_ch_3_on
            && !self.is_ch_4_on)
    }
}

/// Whether `a` is one of the channel and mixer registers NR10 to NR51 that master disable locks.
pub open spec fn locked_reg(a: u16) -> bool {
    0xFF10 <= a <= 0xFF25
}

pub open spec fn nr52(s: APU) -> u8 {
    (bit(s.audio_enabled, 128) + 0x70 + bit(s.is_ch_4_on, 8) + bit(s.is_ch_3_on, 4) + bit(
        s.is_ch_2_on,
        2,
    ) + bit(s.is_ch_1_on, 1)) as u8
}

/// What a bus read at `a` returns; unmapped addresses read as 0xFF.
pub open spec fn apu_read(s: APU, a: u16) -> u8 {
    if a == 0xFF26 {
        nr52(s)
    } else if a == 0xFF25 {
        s.panning
    } else if a == 0xFF24 {
        (0x88 + s.left_volume * 16 + s.right_volume) as u8
    } else if 0xFF10 <= a <= 0xFF14 {
        sc1_read(s.sc1, a)
    } else if 0xFF15 <= a <= 0xFF19 {
        if a == 0xFF15 {
            0xFF
        } else {
            sc1_read(s.sc2.ch, (a - 5) as u16)
        }
    } else if 0xFF1A <= a <= 0xFF1E || 0xFF30 <= a <= 0xFF3F {
        sc3_read(s.sc3, a)
    } else if 0xFF20 <= a <= 0xFF23 {
        sc4_read(s.sc4, a)
    } else {
        0xFF
    }
}

/// Master disable: every register and channel back to its power-on value; the wave table stays.
pub open spec fn powered_off(s: APU) -> APU {
    APU {
        audio_enabled: false,
        is_ch_4_on: false,
        is_ch_3_on: false,
        is_ch_2_on: false,
        is_ch_1_on: false,
        left_volume: 0,
        right_volume: 0,
        panning: 0,
        sc1: SC1::initial(),
        sc2: SC2 { ch: SC1::initial() },
        sc3: SC3::cleared(s.sc3.wave),
        sc4: SC4::initial(),
    }
}

/// The register part of a write to `a` (the wave table aside).
pub open spec fn apu_store(s: APU, a: u16, v: u8) -> APU {
    if a == 0xFF26 {
        if v >= 128 {
            APU { audio_enabled: true, ..s }
        } else {
            powered_off(s)
        }
    } else if !s.audio_enabled {
        s
    } else if a == 0xFF25 {
        APU { panning: v, ..s }
    } else if a == 0xFF24 {
        APU { left_volume: ((v / 16) % 8) as u8, right_volume: (v % 8) as u8, ..s }
    } else if 0xFF10 <= a <= 0xFF14 {
        APU { sc1: sc1_write(s.sc1, a, v), ..s }
    } else if 0xFF16 <= a <= 0xFF19 {
        APU { sc2: SC2 { ch: sc1_write(s.sc2.ch, (a - 5) as u16, v) }, ..s }
    } else if 0xFF1A <= a <= 0xFF1E {
        APU { sc3: sc3_write(s.sc3, a, v), ..s }
    } else if 0xFF20 <= a <= 0xFF23 {
        APU { sc4: sc4_write(s.sc4, a, v), ..s }
    } else {
        s
    }
}

/// After a write: each pending trigger is taken (the noise LFSR restarts at 0) and turns its
/// channel on if the DAC is; a channel whose DAC is off is off.
pub open spec fn settle(s: APU) -> APU {
    APU {
        is_ch_1_on: (s.is_ch_1_on || s.sc1.trigger) && s.sc1.dac_enabled,
        is_ch_2_on: (s.is_ch_2_on || s.sc2.ch.trigger) && s.sc2.ch.dac_enabled,
        is_ch_3_on: (s.is_ch_3_on || s.sc3.trigger) && s.sc3.dac_enabled,
        is_ch_4_on: (s.is_ch_4_on || s.sc4.trigger) && s.sc4.dac_enabled,
        sc1: SC1 { trigger: false, ..s.sc1 },
        sc2: SC2 { ch: SC1 { trigger: false, ..s.sc2.ch } },
        sc3: SC3 { trigger: false, ..s.sc3 },
        sc4: SC4 {
            trigger: false,
            lfsr: if s.sc4.trigger {
                0
            } else {
                s.sc4.lfsr
            },
            ..s.sc4
        },
        ..s
    }
}

/// The APU after a write of `v` to a register at `a` other than the wave table.
pub open spec fn apu_write(s: APU, a: u16, v: u8) -> APU {
    settle(apu_store(s, a, v))
}

/// The APU after `n` T-cycles; a channel whose DAC went off is off.
pub open spec fn apu_cycle(s: APU, n: u32) -> APU {
    let c1 = sc1_cycle(s.sc1, n);
    let c2 = sc1_cycle(s.sc2.ch, n);
    let c3 = sc3_cycle(s.sc3, n);
    let c4 = sc4_cycle(s.sc4, n);
    APU {
        sc1: c1,
        sc2: SC2 { ch: c2 },
        sc3: c3,
        sc4: c4,
        is_ch_1_on: s.is_ch_1_on && c1.dac_enabled,
        is_ch_2_on: s.is_ch_2_on && c2.dac_enabled,
        is_ch_3_on: s.is_ch_3_on && c3.dac_enabled,
        is_ch_4_on: s.is_ch_4_on && c4.dac_enabled,
        ..s
    }
}

pub open spec fn pan(p: u8, mask: u8) -> bool {
    p & mask != 0
}

/// Duty 0 to 3 as a fraction: 1/8, 2/8, 4/8, 6/8.
pub open spec fn duty_ratio(d: u8) -> Ratio {
    Ratio {
        num: if d == 0 {
            1
        } else if d == 1 {
            2
        } else if d == 2 {
            4
        } else {
            6
        },
        den: 8,
    }
}

/// Pulse frequency 131072 / (2048 - period) Hz; volume / 15 with the DAC on, else 0.
pub open spec fn pulse_voice(c: SC1, left: bool, right: bool) -> Voice {
    Voice {
        freq: Ratio { num: 131072, den: (2048 - c.period) as u32 },
        vol: Ratio { num: if c.dac_enabled { c.volume as u32 } else { 0 }, den: 15 },
        left,
        right,
    }
}

/// Wave frequency 65536 / (2048 - period) Hz; output level mute, 1, 1/2, 1/4 with the DAC on.
pub open spec fn wave_voice(c: SC3, left: bool, right: bool) -> Voice {
    Voice {
        freq: Ratio { num: 65536, den: (2048 - c.period) as u32 },
        vol: Ratio {
            num: if !c.dac_enabled || c.output_level == 0 {
                0
            } else if c.output_level == 1 {
                4
            } else if c.output_level == 2 {
                2
            } else {
                1
            },
            den: 4,
        },
        left,
        right,
    }
}

/// Noise frequency 524288 / divisor Hz; volume / 15 with the DAC on, else 0.
pub open spec fn noise_voice(c: SC4, left: bool, right: bool) -> Voice {
    Voice {
        freq: Ratio { num: 524288, den: noise_divisor(c) },
        vol: Ratio { num: if c.dac_enabled { c.volume as u32 } else { 0 }, den: 15 },
        left,
        right,
    }
}

pub open spec fn synth_spec(s: APU) -> SynthParams {
    SynthParams {
        s1: pulse_voice(s.sc1, pan(s.panning, CH1_LEFT), pan(s.panning, CH1_RIGHT)),
        s1_duty: duty_ratio(s.sc1.duty),
        s2: pulse_voice(s.sc2.ch, pan(s.panning, CH2_LEFT), pan(s.panning, CH2_RIGHT)),
        s2_duty: duty_ratio(s.sc2.ch.duty),
        s3: wave_voice(s.sc3, pan(s.panning, CH3_LEFT), pan(s.panning, CH3_RIGHT)),
        s4: noise_voice(s.sc4, pan(s.panning, CH4_LEFT), pan(s.panning, CH4_RIGHT)),
        global_l: Ratio { num: if s.audio_enabled { s.left_volume as u32 } else { 0 }, den: 15 },
        global_r: Ratio { num: if s.audio_enabled { s.right_volume as u32 } else { 0 }, den: 15 },
    }
}

pub open spec fn apu_initial(wave: [u8; 16]) -> APU {
    APU {
        audio_enabled: true,
        is_ch_4_on: false,
        is_ch_3_on: false,
        is_ch_2_on: false,
        is_ch_1_on: false,
        left_volume: 0,
        right_volume: 0,
        panning: 0,
        sc1: SC1::initial(),
        sc2: SC2 { ch: SC1::initial() },
        sc3: SC3::cleared(wave),
        sc4: SC4::initial(),
    }
}

fn duty_of(d: u8) -> (r: Ratio)
    ensures
        r == duty_ratio(d),
{
    let num: u32 = if d == 0 {
        1
    } else if d == 1 {
        2
    } else if d == 2 {
        4
    } else {
        6
    };
    Ratio { num, den: 8 }
}

impl APU {
    pub fn new() -> (r: APU)
        ensures
            r == apu_initial(r.sc3.wave),
            r.sc3.wave@ == Seq::new(16, |i: int| 0u8),
            r.wf(),
    {
        APU {
            audio_enabled: true,
            is_ch_4_on: false,
            is_ch_3_on: false,
            is_ch_2_on: false,
            is_ch_1_on: false,
            left_volume: 0,
            right_volume: 0,
            panning: 0,
            sc1: SC1::new(),
            sc2: SC2::new(),
            sc3: SC3::new(),
            sc4: SC4::new(),
        }
    }

    /// T-cycles in one period of a tone of `hz` Hz.
    pub fn hz_to_cycles(hz: u32) -> (r: u32)
        requires
            hz > 0,
        ensures
            r == CLOCK_HZ / hz,
    {
        CLOCK_HZ / hz
    }

    /// Advances every channel's timers by `cycles` T-cycles.
    pub fn cycle(&mut self, cycles: u32)
        requires
            old(self).wf(),
        ensures
            *final(self) == apu_cycle(*old(self), cycles),
            final(self).wf(),
    {
        self.sc1.cycle(cycles);
        self.sc2.cycle(cycles);
        self.sc3.cycle(cycles);
        self.sc4.cycle(cycles);
        self.is_ch_1_on = self.is_ch_1_on && self.sc1.dac_enabled;
        self.is_ch_2_on = self.is_ch_2_on && self.sc2.ch.dac_enabled;
        self.is_ch_3_on = self.is_ch_3_on && self.sc3.dac_enabled;
        self.is_ch_4_on = self.is_ch_4_on && self.sc4.dac_enabled;
    }

    /// The value of every synthesizer slot for the current state.
    pub fn synth_params(&self) -> (r: SynthParams)
        requires
            self.wf(),
        ensures
            r == synth_spec(*self),
    {
        let p = self.panning;
        let v1: u32 = if self.sc1.dac_enabled {
            self.sc1.volume as u32
        } else {
            0
        };
        let v2: u32 = if self.sc2.ch.dac_enabled {
            self.sc2.ch.volume as u32
        } else {
            0
        };
        let v3: u32 = if !self.sc3.dac_enabled || self.sc3.output_level == 0 {
            0
        } else if self.sc3.output_level == 1 {
            4
        } else if self.sc3.output_level == 2 {
            2
        } else {
            1
        };
        let v4: u32 = if self.sc4.dac_enabled {
            self.sc4.volume as u32
        } else {
            0
        };
        let gl: u32 = if self.audio_enabled {
            self.left_volume as u32
        } else {
            0
        };
        let gr: u32 = if self.audio_enabled {
            self.right_volume as u32
        } else {
            0
        };
        SynthParams {
            s1: Voice {
                freq: Ratio { num: 131072, den: (2048 - self.sc1.period) as u32 },
                vol: Ratio { num: v1, den: 15 },
                left: p & CH1_LEFT != 0,
                right: p & CH1_RIGHT != 0,
            },
            s1_duty: duty_of(self.sc1.duty),
            s2: Voice {
                freq: Ratio { num: 131072, den: (2048 - self.sc2.ch.period) as u32 },
                vol: Ratio { num: v2, den: 15 },
                left: p & CH2_LEFT != 0,
                right: p & CH2_RIGHT != 0,
            },
            s2_duty: duty_of(self.sc2.ch.duty),
            s3: Voice {
                freq: Ratio { num: 65536, den: (2048 - self.sc3.period) as u32 },
                vol: Ratio { num: v3, den: 4 },
                left: p & CH3_LEFT != 0,
                right: p & CH3_RIGHT != 0,
            },
            s4: Voice {
                freq: Ratio { num: 524288, den: self.sc4.divisor() },
                vol: Ratio { num: v4, den: 15 },
                left: p & CH4_LEFT != 0,
                right: p & CH4_RIGHT != 0,
            },
            global_l: Ratio { num: gl, den: 15 },
            global_r: Ratio { num: gr, den: 15 },
        }
    }

    /// A bus read; unmapped addresses read as 0xFF.
    pub fn read(&self, a: u16) -> (r: u8)
        requires
            self.wf(),
        ensures
            r == apu_read(*self, a),
    {
        if a == 0xFF26 {
            let e: u8 = if self.audio_enabled {
                128
            } else {
                0
            };
            let c4: u8 = if self.is_ch_4_on {
                8
            } else {
                0
            };
            let c3: u8 = if self.is_ch_3_on {
                4
            } else {
                0
            };
            let c2: u8 = if self.is_ch_2_on {
                2
            } else {
                0
            };
            let c1: u8 = if self.is_ch_1_on {
                1
            } else {
                0
            };
            e + 0x70 + c4 + c3 + c2 + c1
        } else if a == 0xFF25 {
            self.panning
        } else if a == 0xFF24 {
            0x88 + self.left_volume * 16 + self.right_volume
        } else if 0xFF10 <= a && a <= 0xFF14 {
            self.sc1.read(a)
        } else if 0xFF15 <= a && a <= 0xFF19 {
            self.sc2.read(a)
        } else if (0xFF1A <= a && a <= 0xFF1E) || (0xFF30 <= a && a <= 0xFF3F) {
            self.sc3.read(a)
        } else if 0xFF20 <= a && a <= 0xFF23 {
            self.sc4.read(a)
        } else {
            0xFF
        }
    }

    fn power_off(&mut self)
        requires
            old(self).wf(),
        ensures
            *final(self) == powered_off(*old(self)),
            final(self).wf(),
    {
        self.audio_enabled = false;
        self.is_ch_1_on = false;
        self.is_ch_2_on = false;
        self.is_ch_3_on = false;
        self.is_ch_4_on = false;
        self.left_volume = 0;
        self.right_volume = 0;
        self.panning = 0;
        self.sc1.clear();
        self.sc2.clear();
        self.sc3.clear();
        self.sc4.clear();
    }

    /// The channel and mixer parts well formed (what holds between a store and its settling).
    pub open spec fn parts_wf(self) -> bool {
        &&& self.sc1.wf()
        &&& self.sc2.wf()
        &&& self.sc3.wf()
        &&& self.sc4.wf()
        &&& self.left_volume <= 7
        &&& self.right_volume <= 7
        &&& (!self.audio_enabled ==> !self.is_ch_1_on && !self.is_ch_2_on && !self.is_ch_3_on
            && !self.is_ch_4_on && !self.sc1.trigger && !self.sc2.ch.trigger && !self.sc3.trigger
            && !self.sc4.trigger)
    }

    fn store(&mut self, a: u16, v: u8)
        requires
            old(self).wf(),
            !(0xFF30 <= a <= 0xFF3F),
        ensures
            *final(self) == apu_store(*old(self), a, v),
            final(self).parts_wf(),
    {
        if a == 0xFF26 {
            if v >= 128 {
                self.audio_enabled = true;
            } else {
                self.power_off();
            }
        } else if !self.audio_enabled {
        } else if a == 0xFF25 {
            self.panning = v;
        } else if a == 0xFF24 {
            self.left_volume = (v / 16) % 8;
            self.right_volume = v % 8;
        } else if 0xFF10 <= a && a <= 0xFF14 {
            self.sc1.write(a, v);
        } else if 0xFF16 <= a && a <= 0xFF19 {
            self.sc2.write(a, v);
        } else if 0xFF1A <= a && a <= 0xFF1E {
            self.sc3.write(a, v);
        } else if 0xFF20 <= a && a <= 0xFF23 {
            self.sc4.write(a, v);
        }
    }

    fn settle(&mut self)
        requires
            old(self).parts_wf(),
        ensures
            *final(self) == settle(*old(self)),
            final(self).wf(),
    {
        let s = *self;
        let lfsr = if s.sc4.trigger {
            0
        } else {
            s.sc4.lfsr
        };
        *self = APU {
            is_ch_1_on: (s.is_ch_1_on || s.sc1.trigger) && s.sc1.dac_enabled,
            is_ch_2_on: (s.is_ch_2_on || s.sc2.ch.trigger) && s.sc2.ch.dac_enabled,
            is_ch_3_on: (s.is_ch_3_on || s.sc3.trigger) && s.sc3.dac_enabled,
            is_ch_4_on: (s.is_ch_4_on || s.sc4.trigger) && s.sc4.dac_enabled,
            sc1: SC1 { trigger: false, ..s.sc1 },
            sc2: SC2 { ch: SC1 { trigger: false, ..s.sc2.ch } },
            sc3: SC3 { trigger: false, ..s.sc3 },
            sc4: SC4 { trigger: false, lfsr, ..s.sc4 },
            ..s
        };
    }

    /// A bus write. While the master switch is off, NR10 to NR51 ignore writes; NR52 and the
    /// wave table always take them.
    pub fn write(&mut self, a: u16, v: u8)
        requires
            old(self).wf(),
        ensures
            !(0xFF30 <= a <= 0xFF3F) ==> *final(self) == apu_write(*old(self), a, v),
            0xFF30 <= a <= 0xFF3F ==> final(self).sc3.wave@ == old(self).sc3.wave@.update(
                a - 0xFF30,
                v,
            ),
            0xFF30 <= a <= 0xFF3F ==> *final(self) == (APU {
                sc3: SC3 { wave: final(self).sc3.wave, ..old(self).sc3 },
                ..*old(self)
            }),
            final(self).wf(),
    {
        if 0xFF30 <= a && a <= 0xFF3F {
            self.sc3.write_wave(a, v);
        } else {
            self.store(a, v);
            self.settle();
        }
    }
}

} // verus!

verus! {

/// With the master switch off NR52 reads 0x70, and writes to NR10 to NR51 and to the
/// unmapped addresses up to FF3F change nothing; NR52 itself and the wave table still take writes.
pub proof fn lemma_master_off(s: APU, a: u16, v: u8)
    requires
        s.wf(),
        !s.audio_enabled,
    ensures
        apu_read(s, 0xFF26) == 0x70,
        0xFF10 <= a <= 0xFF2F && a != 0xFF26 ==> apu_write(s, a, v) == s,
{
}

/// NR12 or NR22 with its upper five bits clear turns the pulse channel's DAC off.
pub proof fn lemma_dac_off(c: SC1, v: u8)
    requires
        v & 0xF8 == 0,
    ensures
        !sc1_write(c, 0xFF12, v).dac_enabled,
{
    assert(v & 0xF8 == 0 ==> v < 8) by (bit_vector);
}

/// NR50 reads back as written, its two VIN bits reading set.
pub proof fn lemma_nr50_round_trip(s: APU, v: u8)
    requires
        s.wf(),
        s.audio_enabled,
    ensures
        apu_read(apu_write(s, 0xFF24, v), 0xFF24) == v | 0x88,
        apu_write(s, 0xFF24, v).left_volume == (v >> 4) & 7,
        apu_write(s, 0xFF24, v).right_volume == v & 7,
{
    assert(0x88 + ((v / 16) % 8) * 16 + v % 8 == v | 0x88) by (bit_vector);
    assert(((v / 16) % 8) == (v >> 4) & 7) by (bit_vector);
    assert(v % 8 == v & 7) by (bit_vector);
}

/// NR51 reads back as written while the APU is on.
pub proof fn lemma_nr51_round_trip(s: APU, v: u8)
    requires
        s.wf(),
        s.audio_enabled,
    ensures
        apu_read(apu_write(s, 0xFF25, v), 0xFF25) == v,
{
}

/// After a write to NR14 (a trigger or not) it reads back only its length-enable bit, the
/// other bits set.
pub proof fn lemma_nr14_reads_length_enable(s: APU, v: u8)
    requires
        s.wf(),
        s.audio_enabled,
    ensures
        apu_read(apu_write(s, 0xFF14, v), 0xFF14) == (v & 0x40) | 0xBF,
        !apu_write(s, 0xFF14, v).sc1.trigger,
{
    assert((if (v / 64) % 2 == 1 { 64u8 } else { 0u8 }) + 0xBF == (v & 0x40) | 0xBF) by (bit_vector);
}

/// Period 2047 gives the top pulse frequency, 131072 Hz, with no overflow.
pub proof fn lemma_top_pulse_frequency(c: SC1, l: bool, r: bool)
    requires
        c.period == 2047,
    ensures
        pulse_voice(c, l, r).freq == (Ratio { num: 131072, den: 1 }),
{
}

/// A trigger of the noise channel restarts its LFSR at 0.
pub proof fn lemma_noise_trigger_resets_lfsr(s: APU, v: u8)
    requires
        s.wf(),
        s.audio_enabled,
        v >= 128,
    ensures
        apu_write(s, 0xFF23, v).sc4.lfsr == 0,
{
}

} // verus!
