use vstd::prelude::*;
use crate::bits::{lemma_i32_masks, lemma_i32_low6, lemma_i32_pair, lemma_i32_register_halves, lemma_u8_latch_bits, lemma_i32_pow2, lemma_i32_shifts, lemma_u32_bits, lemma_u8_bits};
use crate::sound::sound_chip::SoundChipType;

verus! {

/// The largest output value.
pub const MAX_OUTPUT: i32 = 0x7fff;

/// The volume table: a quarter of the output range, falling 2 dB per step,
/// with the last step silent (each value is the truncation of
/// 8191 / 10^(i/10), as the chip's attenuator gives).
pub open spec fn spec_sn76489_vol_table() -> Seq<i32> {
    seq![8191i32, 6506, 5168, 4105, 3260, 2590, 2057, 1634, 1298, 1031, 819, 650, 516, 410, 326, 0]
}

/// The state of an SN76489.
pub struct SN76489View {
    pub clock: u32,
    pub feedback_mask: u32,
    pub whitenoise_tap1: u32,
    pub whitenoise_tap2: u32,
    pub negate: bool,
    pub stereo: bool,
    pub clock_divider: i32,
    pub ncr_style_psg: bool,
    pub sega_style_psg: bool,
    pub start_register: i32,
    pub vol_table: Seq<i32>,
    pub register: Seq<i32>,
    pub last_register: i32,
    pub volume: Seq<i32>,
    pub rng: u32,
    pub current_clock: i32,
    pub stereo_mask: i32,
    pub period: Seq<i32>,
    pub count: Seq<i32>,
    pub output: Seq<i32>,
}

/// TI SN76489 / Sega PSG: three square-wave tones and a noise channel.
#[allow(non_snake_case)]
pub struct SN76489 {
    clock: u32,
    feedback_mask: u32,
    whitenoise_tap1: u32,
    whitenoise_tap2: u32,
    negate: bool,
    stereo: bool,
    clock_divider: i32,
    ncr_style_psg: bool,
    sega_style_psg: bool,
    start_register: i32,
    vol_table: Vec<i32>,
    register: Vec<i32>,
    last_register: i32,
    volume: Vec<i32>,
    RNG: u32,
    current_clock: i32,
    stereo_mask: i32,
    period: Vec<i32>,
    count: Vec<i32>,
    output: Vec<i32>,
}

impl View for SN76489 {
    type V = SN76489View;

    closed spec fn view(&self) -> SN76489View {
        SN76489View {
            clock: self.clock,
            feedback_mask: self.feedback_mask,
            whitenoise_tap1: self.whitenoise_tap1,
            whitenoise_tap2: self.whitenoise_tap2,
            negate: self.negate,
            stereo: self.stereo,
            clock_divider: self.clock_divider,
            ncr_style_psg: self.ncr_style_psg,
            sega_style_psg: self.sega_style_psg,
            start_register: self.start_register,
            vol_table: self.vol_table@,
            register: self.register@,
            last_register: self.last_register,
            volume: self.volume@,
            rng: self.RNG,
            current_clock: self.current_clock,
            stereo_mask: self.stereo_mask,
            period: self.period@,
            count: self.count@,
            output: self.output@,
        }
    }
}

/// The ranges that the chip's state stays in.
pub open spec fn sn76489_wf(s: SN76489View) -> bool {
    &&& s.vol_table.len() == 16
    &&& s.register.len() == 8
    &&& s.volume.len() == 4
    &&& s.period.len() == 4
    &&& s.count.len() == 4
    &&& s.output.len() == 4
    &&& 1 <= s.clock_divider <= 8
    &&& 0 <= s.current_clock < s.clock_divider
    &&& 0 <= s.last_register < 8
    &&& 0 <= s.start_register < 8
    &&& forall|i: int| 0 <= i < 16 ==> 0 <= #[trigger] s.vol_table[i] <= 8191
    &&& forall|i: int| 0 <= i < 8 ==> 0 <= #[trigger] s.register[i] <= 0x3ff
    &&& forall|i: int| 0 <= i < 4 ==> 0 <= #[trigger] s.volume[i] <= 8191
    &&& forall|i: int| 0 <= i < 3 ==> 0 <= #[trigger] s.period[i] <= 0x400
    &&& 0 <= s.period[3] <= 0x800
    &&& forall|i: int| 0 <= i < 4 ==> 0 <= #[trigger] s.count[i] <= 0x800
    &&& forall|i: int| 0 <= i < 4 ==> 0 <= #[trigger] s.output[i] <= 1
}

/// The period of the noise channel for noise register `n`: twice tone 2's
/// where its low bits are 3, else 32, 64 or 128.
pub open spec fn spec_noise_period(n: i32, period2: i32) -> i32 {
    if n & 3 == 3 { (period2 * 2) as i32 } else if n & 3 == 0 { 32 } else if n & 3 == 1 { 64 } else { 128 }
}

/// The chip after writing `data`. A byte with bit 7 set latches a register
/// (bits 4-6) and sets its low four bits; one with bit 7 clear writes the
/// high bits of a tone period (or the low bits of the other registers) of
/// the latched register. Tone periods take effect at once (0 counts as
/// 0x400 on the chips marked `sega_style_psg`, the TI-made ones, and stays
/// 0 on the others, the Sega-made ones); a volume write
/// looks up the volume table; a noise write sets the noise period and
/// resets the noise generator.
pub open spec fn spec_sn76489_write(s: SN76489View, data: u8) -> SN76489View {
    let latch = data & 0x80 != 0;
    let r: int = if latch { ((data & 0x70) / 16) as int } else { s.last_register as int };
    let reset_ncr = latch && s.ncr_style_psg && r == 6 && (data & 0x04) != ((s.register[6] as u8) & 0x04);
    let reg0 = if latch { s.register.update(r, ((s.register[r] & 0x3f0) | (data as i32 & 0x0f)) as i32) } else { s.register };
    let s1 = SN76489View {
        last_register: if latch { r as i32 } else { s.last_register },
        rng: if reset_ncr { s.feedback_mask } else { s.rng },
        register: reg0,
        ..s
    };
    let c = r / 2;
    if r == 0 || r == 2 || r == 4 {
        let reg = if !latch { reg0.update(r, ((reg0[r] & 0x0f) | (((data as i32 & 0x3f) * 16) as i32)) as i32) } else { reg0 };
        let period = s.period.update(c, if reg[r] != 0 || !s.sega_style_psg { reg[r] } else { 0x400 });
        let period2 = if r == 4 && reg[6] & 3 == 3 { period.update(3, (period[2] * 2) as i32) } else { period };
        SN76489View { register: reg, period: period2, ..s1 }
    } else if r == 1 || r == 3 || r == 5 || r == 7 {
        let reg = if !latch { reg0.update(r, ((reg0[r] & 0x3f0) | (data & 0x0f) as i32) as i32) } else { reg0 };
        SN76489View { register: reg, volume: s.volume.update(c, s.vol_table[(data & 0x0f) as int]), ..s1 }
    } else {
        let reg = if !latch { reg0.update(6, ((reg0[6] & 0x3f0) | (data as i32 & 0x0f)) as i32) } else { reg0 };
        SN76489View {
            register: reg,
            period: s.period.update(3, spec_noise_period(reg[6], s.period[2])),
            rng: if !s.ncr_style_psg { s.feedback_mask } else { s1.rng },
            ..s1
        }
    }
}

/// A tone channel's counter and output after one divided clock: the
/// counter counts down and, reaching 0, reloads its period and flips the
/// output.
pub open spec fn spec_tone_step(count: i32, output: i32, period: i32) -> (i32, i32) {
    if count - 1 <= 0 { (period, output ^ 1) } else { ((count - 1) as i32, output) }
}

/// The noise generator after a shift: it shifts right, and the feedback
/// bit comes in where tap 1 differs from (tap 2 differing from its held
/// value, in white noise mode).
pub open spec fn spec_noise_shift(s: SN76489View) -> u32 {
    let tap2 = if s.ncr_style_psg { s.whitenoise_tap2 } else { 0 };
    let fb = ((s.rng & s.whitenoise_tap1) != 0) != (((s.rng & s.whitenoise_tap2) != tap2) && s.register[6] & 4 != 0);
    if fb { (s.rng >> 1) | s.feedback_mask } else { s.rng >> 1 }
}

/// The chip after one input clock: the divider counts down; at its end the
/// three tones and the noise channel step.
pub open spec fn spec_sn76489_clock(s: SN76489View) -> SN76489View {
    if s.current_clock > 0 {
        SN76489View { current_clock: (s.current_clock - 1) as i32, ..s }
    } else {
        let t0 = spec_tone_step(s.count[0], s.output[0], s.period[0]);
        let t1 = spec_tone_step(s.count[1], s.output[1], s.period[1]);
        let t2 = spec_tone_step(s.count[2], s.output[2], s.period[2]);
        let noise_fires = s.count[3] - 1 <= 0;
        let rng = if noise_fires { spec_noise_shift(s) } else { s.rng };
        SN76489View {
            current_clock: (s.clock_divider - 1) as i32,
            count: seq![t0.0, t1.0, t2.0, if noise_fires { s.period[3] } else { (s.count[3] - 1) as i32 }],
            output: seq![t0.1, t1.1, t2.1, if noise_fires { (rng & 1) as i32 } else { s.output[3] }],
            rng: rng,
            ..s
        }
    }
}

/// The volume of channel `i` where its output is high and its stereo bit
/// `bit` is set.
pub open spec fn spec_channel_level(s: SN76489View, i: int, use_mask: bool, bit: i32) -> int {
    if (!use_mask || s.stereo_mask & bit != 0) && s.output[i] != 0 { s.volume[i] as int } else { 0 }
}

/// Rust's integer division by 2 (rounding toward zero).
pub open spec fn spec_half(x: int) -> int {
    if x >= 0 { x / 2 } else { -((-x) / 2) }
}

/// The (left, right) sample of a chip state: the sum of the volumes of the
/// channels whose output is high (per the stereo mask in stereo), negated
/// where the chip negates; a mono chip gives half the sum on each side.
pub open spec fn spec_sn76489_output(s: SN76489View) -> (int, int) {
    if s.stereo {
        let l = spec_channel_level(s, 0, true, 0x10) + spec_channel_level(s, 1, true, 0x20)
            + spec_channel_level(s, 2, true, 0x40) + spec_channel_level(s, 3, true, 0x80);
        let r = spec_channel_level(s, 0, true, 0x1) + spec_channel_level(s, 1, true, 0x2)
            + spec_channel_level(s, 2, true, 0x4) + spec_channel_level(s, 3, true, 0x8);
        if s.negate { (-l, -r) } else { (l, r) }
    } else {
        let m = spec_channel_level(s, 0, false, 0) + spec_channel_level(s, 1, false, 0)
            + spec_channel_level(s, 2, false, 0) + spec_channel_level(s, 3, false, 0);
        if s.negate { (spec_half(-m), spec_half(-m)) } else { (spec_half(m), spec_half(m)) }
    }
}

fn zeros(n: usize) -> (r: Vec<i32>)
    ensures
        r@ == Seq::new(n as nat, |i: int| 0i32),
{
    let mut v: Vec<i32> = Vec::new();
    let mut i: usize = 0;
    while i < n
        invariant
            i <= n,
            v@ == Seq::new(i as nat, |k: int| 0i32),
        decreases n - i,
    {
        v.push(0);
        i = i + 1;
        assert(v@ =~= Seq::new(i as nat, |k: int| 0i32));
    }
    v
}

impl SN76489 {
    pub closed spec fn wf(&self) -> bool {
        sn76489_wf(self@)
    }

    /// A chip of a variant: its noise feedback and taps, output negation,
    /// stereo, clock divider, and NCR or Sega register behaviour (with
    /// `sega_style_psg` a zero tone period counts as 0x400 and register 3
    /// is latched at start).
    #[allow(clippy::too_many_arguments)]
    pub fn new(
        feedback_mask: u32,
        whitenoise_tap1: u32,
        whitenoise_tap2: u32,
        negate: bool,
        stereo: bool,
        clock_divider: i32,
        ncr_style_psg: bool,
        sega_style_psg: bool,
    ) -> (r: Self)
        requires
            1 <= clock_divider <= 8,
        ensures
            r.wf(),
            r@ == (SN76489View {
                clock: 0,
                feedback_mask,
                whitenoise_tap1,
                whitenoise_tap2,
                negate,
                stereo,
                clock_divider,
                ncr_style_psg,
                sega_style_psg,
                start_register: if sega_style_psg { 3 } else { 0 },
                vol_table: Seq::new(16, |i: int| 0i32),
                register: Seq::new(8, |i: int| 0i32),
                last_register: 0,
                volume: Seq::new(4, |i: int| 0i32),
                rng: 0,
                current_clock: 0,
                stereo_mask: 0,
                period: Seq::new(4, |i: int| 0i32),
                count: Seq::new(4, |i: int| 0i32),
                output: Seq::new(4, |i: int| 0i32),
            }),
    {
        SN76489 {
            clock: 0,
            feedback_mask,
            whitenoise_tap1,
            whitenoise_tap2,
            negate,
            stereo,
            clock_divider,
            ncr_style_psg,
            sega_style_psg,
            start_register: if sega_style_psg { 3 } else { 0 },
            vol_table: zeros(16),
            register: zeros(8),
            last_register: 0,
            volume: zeros(4),
            RNG: 0,
            current_clock: 0,
            stereo_mask: 0,
            period: zeros(4),
            count: zeros(4),
            output: zeros(4),
        }
    }

    /// The chip of a kind: the Sega PSG (16-bit noise register, taps on
    /// bits 0 and 3, register 3 latched at start, a zero period staying 0)
    /// or the SN76489 (15-bit, taps on bits 0 and 1, register 0 latched at
    /// start, a zero period counting as 0x400).
    pub fn from_chip_type(sound_device_name: SoundChipType) -> (r: Self)
        requires
            sound_device_name == SoundChipType::SEGAPSG || sound_device_name == SoundChipType::SN76489,
        ensures
            r.wf(),
            sound_device_name == SoundChipType::SEGAPSG ==> r@.feedback_mask == 0x8000 && r@.whitenoise_tap1 == 0x01
                && r@.whitenoise_tap2 == 0x08 && r@.negate && !r@.stereo && r@.clock_divider == 8
                && !r@.ncr_style_psg && !r@.sega_style_psg && r@.start_register == 3,
            sound_device_name == SoundChipType::SN76489 ==> r@.feedback_mask == 0x4000 && r@.whitenoise_tap1 == 0x01
                && r@.whitenoise_tap2 == 0x02 && r@.negate && !r@.stereo && r@.clock_divider == 8
                && !r@.ncr_style_psg && r@.sega_style_psg && r@.start_register == 0,
    {
        match sound_device_name {
            SoundChipType::SEGAPSG => {
                let mut chip = SN76489::new(0x8000, 0x01, 0x08, true, false, 8, false, false);
                chip.start_register = 3;
                chip
            },
            _ => {
                let mut chip = SN76489::new(0x4000, 0x01, 0x02, true, false, 8, false, true);
                chip.start_register = 0;
                chip
            },
        }
    }

    /// Start the chip at `clock`: registers and channels cleared, the
    /// chip's start register latched, the noise generator seeded, all
    /// channels on both sides, and the volume table built. Returns the
    /// output rate, half the clock.
    pub fn device_start(&mut self, clock: u32) -> (r: u32)
        requires
            old(self).wf(),
        ensures
            final(self).wf(),
            final(self)@ == (SN76489View {
                clock: clock,
                volume: Seq::new(4, |i: int| 0i32),
                last_register: old(self)@.start_register,
                register: Seq::new(8, |i: int| 0i32),
                period: Seq::new(4, |i: int| 0i32),
                count: Seq::new(4, |i: int| 0i32),
                output: seq![0i32, 0i32, 0i32, (old(self)@.feedback_mask & 1) as i32],
                rng: old(self)@.feedback_mask,
                stereo_mask: 0xff,
                current_clock: (old(self)@.clock_divider - 1) as i32,
                vol_table: spec_sn76489_vol_table(),
                ..old(self)@
            }),
            r == clock / 2,
    {
        self.clock = clock;
        self.volume = zeros(4);
        self.last_register = self.start_register;
        self.register = zeros(8);
        self.output = zeros(4);
        self.period = zeros(4);
        self.count = zeros(4);
        self.RNG = self.feedback_mask;
        self.output.set(3, (self.RNG & 1) as i32);
        self.stereo_mask = 0xff;
        self.current_clock = self.clock_divider - 1;
        self.vol_table = vec![8191i32, 6506, 5168, 4105, 3260, 2590, 2057, 1634, 1298, 1031, 819, 650, 516, 410, 326, 0];
        proof {
            assert(self.output@ =~= seq![0i32, 0i32, 0i32, (old(self)@.feedback_mask & 1) as i32]);
            assert(self.vol_table@ =~= spec_sn76489_vol_table());
            lemma_u32_bits(self.RNG);
        }
        self.clock / 2
    }

    /// Whether the noise channel plays white noise (register 6 bit 2).
    fn in_noise_mode(&self) -> (r: bool)
        requires
            self.wf(),
        ensures
            r == (self@.register[6] & 4 != 0),
    {
        self.register[6] & 4 != 0
    }

    /// Write a byte to the chip.
    pub fn write(&mut self, data: u8)
        requires
            old(self).wf(),
        ensures
            final(self).wf(),
            final(self)@ == spec_sn76489_write(old(self)@, data),
    {
        let ghost s0 = self@;
        proof {
            lemma_u8_bits(data);
        }
        let r: i32;
        if data & 0x80 != 0 {
            r = (data as i32 & 0x70) >> 4;
            proof {
                lemma_u8_bits(data);
            }
            self.last_register = r;
            if (self.ncr_style_psg && r == 6) && (data & 0x04 != #[verifier::truncate] (self.register[6] as u8) & 0x04) {
                self.RNG = self.feedback_mask;
            }
            let v: i32 = (self.register[r as usize] & 0x3f0) | (data as i32 & 0x0f);
            proof {
                let x = self.register@[r as int];
                lemma_i32_pair(x, data as i32);
            }
            self.register.set(r as usize, v);
        } else {
            r = self.last_register;
        }
        let ghost s1 = self@;
        let c: usize = (r >> 1) as usize;
        proof {
            lemma_i32_shifts(r);
        }
        if r == 0 || r == 2 || r == 4 {
            if data & 0x80 == 0 {
                let v: i32 = (self.register[r as usize] & 0x0f) | ((data as i32 & 0x3f) << 4);
                proof {
                    let x = self.register@[r as int];
                    lemma_u8_bits(data);
                    lemma_i32_pair(x, data as i32);
                }
                self.register.set(r as usize, v);
            }
            if self.register[r as usize] != 0 || !self.sega_style_psg {
                let v = self.register[r as usize];
                self.period.set(c, v);
            } else {
                self.period.set(c, 0x400);
            }
            if r == 4 {
                if self.register[6] & 0x03 == 0x03 {
                    let v = self.period[2] << 1;
                    proof {
                        let x = self.period@[2];
                        lemma_i32_shifts(x);
                    }
                    self.period.set(3, v);
                }
            }
        } else if r == 1 || r == 3 || r == 5 || r == 7 {
            let v = self.vol_table[(data & 0x0f) as usize];
            self.volume.set(c, v);
            if data & 0x80 == 0 {
                let w: i32 = (self.register[r as usize] & 0x3f0) | (data & 0x0f) as i32;
                proof {
                    let x = self.register@[r as int];
                    lemma_u8_bits(data);
                    lemma_i32_pair(x, data as i32);
                }
                self.register.set(r as usize, w);
            }
        } else {
            if data & 0x80 == 0 {
                let w: i32 = (self.register[6] & 0x3f0) | (data as i32 & 0x0f);
                proof {
                    let x = self.register@[6];
                    lemma_i32_pair(x, data as i32);
                }
                self.register.set(6, w);
            }
            let n: i32 = self.register[6];
            let p2: i32 = self.period[2];
            proof {
                lemma_i32_shifts(n);
            }
            let sh: u8 = (5 + (n & 3)) as u8;
            let np: i32 = if n & 3 == 3 { p2 << 1 } else { 1i32 << sh };
            proof {
                lemma_i32_shifts(p2);
                lemma_i32_pow2(sh);
            }
            self.period.set(3, np);
            if !self.ncr_style_psg {
                self.RNG = self.feedback_mask;
            }
        }
        proof {
            assert(self@.register =~= spec_sn76489_write(s0, data).register);
            assert(self@.period =~= spec_sn76489_write(s0, data).period);
            assert(self@.volume =~= spec_sn76489_write(s0, data).volume);
        }
    }
}

impl SN76489 {
    /// Step tone channel `i` by one divided clock.
    fn tone_step(&mut self, i: usize)
        requires
            old(self).wf(),
            i < 3,
        ensures
            final(self).wf(),
            ({
                let t = spec_tone_step(old(self)@.count[i as int], old(self)@.output[i as int], old(self)@.period[i as int]);
                final(self)@ == (SN76489View {
                    count: old(self)@.count.update(i as int, t.0),
                    output: old(self)@.output.update(i as int, t.1),
                    ..old(self)@
                })
            }),
    {
        let c = self.count[i] - 1;
        if c <= 0 {
            let o = self.output[i];
            proof {
                lemma_i32_shifts(o);
            }
            self.output.set(i, o ^ 1);
            let p = self.period[i];
            self.count.set(i, p);
        } else {
            self.count.set(i, c);
        }
        proof {
            let t = spec_tone_step(old(self)@.count[i as int], old(self)@.output[i as int], old(self)@.period[i as int]);
            assert(self@.count =~= old(self)@.count.update(i as int, t.0));
            assert(self@.output =~= old(self)@.output.update(i as int, t.1));
        }
    }

    /// The volume of channel `i` where its output is high and, where
    /// `use_mask`, its stereo bit `bit` is set.
    fn level(&self, i: usize, use_mask: bool, bit: i32) -> (r: i32)
        requires
            self.wf(),
            i < 4,
        ensures
            r as int == spec_channel_level(self@, i as int, use_mask, bit),
            0 <= r <= 8191,
    {
        if (!use_mask || self.stereo_mask & bit != 0) && self.output[i] != 0 { self.volume[i] } else { 0 }
    }

    /// The (left, right) sample of the chip's current state.
    fn mix(&self) -> (r: (i32, i32))
        requires
            self.wf(),
        ensures
            (r.0 as int, r.1 as int) == spec_sn76489_output(self@),
    {
        let mut out: i32;
        let mut out2: i32 = 0;
        if self.stereo {
            out = self.level(0, true, 0x10) + self.level(1, true, 0x20) + self.level(2, true, 0x40) + self.level(3, true, 0x80);
            out2 = self.level(0, true, 0x1) + self.level(1, true, 0x2) + self.level(2, true, 0x4) + self.level(3, true, 0x8);
        } else {
            out = self.level(0, false, 0) + self.level(1, false, 0) + self.level(2, false, 0) + self.level(3, false, 0);
        }
        if self.negate {
            out = -out;
            out2 = -out2;
        }
        if self.stereo {
            (out, out2)
        } else {
            let h: i32 = out / 2;
            assert(h as int == spec_half(out as int));
            (h, h)
        }
    }

    /// Produce one output sample: clock the chip once, then mix the
    /// channels. Returns the (left, right) sample.
    pub fn sound_stream_update(&mut self) -> (r: (i32, i32))
        requires
            old(self).wf(),
        ensures
            final(self).wf(),
            final(self)@ == spec_sn76489_clock(old(self)@),
            (r.0 as int, r.1 as int) == spec_sn76489_output(final(self)@),
    {
        let ghost s0 = self@;
        if self.current_clock > 0 {
            self.current_clock = self.current_clock - 1;
        } else {
            self.current_clock = self.clock_divider - 1;
            self.tone_step(0);
            self.tone_step(1);
            self.tone_step(2);
            let c3 = self.count[3] - 1;
            if c3 <= 0 {
                let tap2: u32 = if self.ncr_style_psg { self.whitenoise_tap2 } else { 0 };
                let rng: u32 = self.RNG;
                self.RNG = self.RNG >> 1;
                if ((rng & self.whitenoise_tap1) != 0) != (((rng & self.whitenoise_tap2) != tap2) && self.in_noise_mode()) {
                    self.RNG = self.RNG | self.feedback_mask;
                }
                proof {
                    lemma_u32_bits(self.RNG);
                }
                self.output.set(3, (self.RNG & 1) as i32);
                let p3 = self.period[3];
                self.count.set(3, p3);
            } else {
                self.count.set(3, c3);
            }
            proof {
                assert(self@.count =~= spec_sn76489_clock(s0).count);
                assert(self@.output =~= spec_sn76489_clock(s0).output);
            }
        }
        self.mix()
    }

    /// Start the chip; returns its output rate.
    pub fn init(&mut self, clock: u32) -> (r: u32)
        requires
            old(self).wf(),
        ensures
            final(self).wf(),
            r == clock / 2,
            final(self)@.vol_table == spec_sn76489_vol_table(),
            final(self)@.clock == clock,
    {
        self.device_start(clock)
    }
}

/// The volume table falls with each step and ends in silence.
pub proof fn lemma_sn76489_vol_table_decreasing()
    ensures
        forall|i: int, j: int| 0 <= i < j < 16 ==> spec_sn76489_vol_table()[j] < spec_sn76489_vol_table()[i],
        spec_sn76489_vol_table()[15] == 0,
        spec_sn76489_vol_table()[0] == MAX_OUTPUT / 4,
{
}

/// Each side of the output stays within the four channels' share of the
/// 16-bit range.
pub proof fn lemma_sn76489_output_bounded(s: SN76489View)
    requires
        sn76489_wf(s),
    ensures
        -4 * 8191 <= spec_sn76489_output(s).0 <= 4 * 8191,
        -4 * 8191 <= spec_sn76489_output(s).1 <= 4 * 8191,
{
}

/// Clocking keeps the chip's state in range.
pub proof fn lemma_sn76489_clock_wf(s: SN76489View)
    requires
        sn76489_wf(s),
    ensures
        sn76489_wf(spec_sn76489_clock(s)),
{
    if s.current_clock <= 0 {
        let c = spec_sn76489_clock(s);
        assert(c.count =~= seq![c.count[0], c.count[1], c.count[2], c.count[3]]);
        assert forall|i: int| 0 <= i < 4 implies 0 <= #[trigger] c.output[i] <= 1 by {
            crate::bits::lemma_i32_shifts(s.output[i]);
            crate::bits::lemma_u32_bits(spec_noise_shift(s));
        }
    }
}

/// A byte with bit 7 set latches the register of its bits 4-6 and puts its
/// low four bits into that register's low four bits; a byte with bit 7
/// clear writes the latched register: bits 4-9 of a tone register (0, 2,
/// 4) from its low six bits, or the low four bits of any other. A tone
/// register's new value is its channel's period at once (0 read as 0x400 on
/// the chips marked `sega_style_psg`); a volume register (1, 3, 5, 7) sets
/// its channel's volume to the table entry of the byte's low four bits. No
/// other register changes.
pub proof fn lemma_sn76489_write_registers(s: SN76489View, data: u8)
    requires
        sn76489_wf(s),
    ensures
        ({
            let t = spec_sn76489_write(s, data);
            let latch = data >= 0x80;
            let r: int = if latch { ((data / 16) % 8) as int } else { s.last_register as int };
            let tone = r == 0 || r == 2 || r == 4;
            let v: int = if !latch && tone { s.register[r] % 16 + (data % 64) * 16 } else { (s.register[r] / 16) * 16
                + data % 16 };
            &&& t.last_register == r
            &&& t.register[r] == v
            &&& forall|j: int| 0 <= j < 8 && j != r ==> #[trigger] t.register[j] == s.register[j]
            &&& tone ==> t.period[r / 2] == (if v == 0 && s.sega_style_psg { 0x400 } else { v })
            &&& tone ==> t.volume == s.volume
            &&& r % 2 == 1 ==> t.volume == s.volume.update(r / 2, s.vol_table[(data % 16) as int]) && t.period == s.period
        }),
{
    lemma_i32_register_halves(s.register[((data / 16) % 8) as int], data as i32);
    lemma_i32_register_halves(s.register[s.last_register as int], data as i32);
    lemma_i32_shifts(s.register[((data / 16) % 8) as int]);
    lemma_i32_shifts(s.register[s.last_register as int]);
    lemma_i32_masks(s.register[((data / 16) % 8) as int]);
    lemma_i32_masks(s.register[s.last_register as int]);
    lemma_i32_masks(data as i32);
    lemma_i32_low6(data as i32);
    lemma_u8_latch_bits(data);
    lemma_u8_bits(data);
}

} // verus!
