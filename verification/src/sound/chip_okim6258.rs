use vstd::prelude::*;
use crate::bits::{lemma_i32_pow2, lemma_u8_bits, lemma_u8_status_ops};
use crate::sound::adpcm::{diff_table_bounded, fill_diff_lookup, spec_index_shift, DIFF_LOOKUP_SIZE};
use crate::sound::stream::OutputChannel;

verus! {

const COMMAND_STOP: u8 = 1;
const COMMAND_PLAY: u8 = 2;
const COMMAND_RECORD: u8 = 4;
const STATUS_PLAYING: u8 = 2;
const STATUS_RECORDING: u8 = 4;

/// Master clock dividers that the divider register selects.
pub const DIVIDERS: [u32; 4] = [1024, 768, 512, 512];

/// Step index changes, by the low three bits of a nibble.
pub const INDEX_SHIFT: [i32; 8] = [-1, -1, -1, -1, 2, 4, 6, 8];

/// The divider that divider register value `val` selects.
pub open spec fn spec_divider(val: int) -> u32 {
    if val == 0 { 1024 } else if val == 1 { 768 } else { 512 }
}

/// The state of an OKIM6258.
pub struct OKIM6258View {
    pub clock: u32,
    pub status: u8,
    pub divider: u32,
    pub adpcm_type: u8,
    pub data_in: u8,
    pub nibble_shift: u8,
    pub output_bits: u8,
    pub signal: int,
    pub step: int,
}

/// The signal after a nibble: the table's difference added, clamped to the
/// range of `output_bits` bits.
pub open spec fn spec_okim6258_signal(signal: int, step: int, table: Seq<i32>, output_bits: u8, nibble: u8) -> int {
    let max = spec_pow2((output_bits - 1) as nat) - 1;
    let min = -spec_pow2((output_bits - 1) as nat);
    let s = signal + table[step * 16 + (nibble % 16) as int];
    if s > max { max } else if s < min { min } else { s }
}

/// The step index after a nibble, clamped to the table.
pub open spec fn spec_okim6258_step(step: int, nibble: u8) -> int {
    let s = step + spec_index_shift((nibble % 8) as int);
    if s > 48 { 48 } else if s < 0 { 0 } else { s }
}

/// 2 to the power `n`.
pub open spec fn spec_pow2(n: nat) -> int
    decreases n,
{
    if n == 0 { 1 } else { 2 * spec_pow2((n - 1) as nat) }
}

/// The sample that a signal gives: shifted up four bits, in 16 bits.
pub open spec fn spec_okim6258_sample(signal: int) -> i16 {
    ((signal as i32) << 4u32) as i16
}

/// OKI MSM6258 ADPCM chip: a single voice fed nibble by nibble.
#[allow(clippy::upper_case_acronyms)]
pub struct OKIM6258 {
    clock: u32,
    status: u8,
    start_divider: u32,
    divider: u32,
    adpcm_type: u8,
    data_in: u8,
    nibble_shift: u8,
    output_bits: u8,
    signal: i32,
    step: i32,
    diff_lookup: Vec<i32>,
}

/// The effect on the sound stream that a port write asks for.
#[derive(PartialEq, Eq, Clone, Copy, Debug, Structural)]
pub enum Okim6258Effect {
    Nothing,
    SetOutputChannel(OutputChannel),
    ChangeSamplingRate(u32),
}

impl View for OKIM6258 {
    type V = OKIM6258View;

    closed spec fn view(&self) -> OKIM6258View {
        OKIM6258View {
            clock: self.clock,
            status: self.status,
            divider: self.divider,
            adpcm_type: self.adpcm_type,
            data_in: self.data_in,
            nibble_shift: self.nibble_shift,
            output_bits: self.output_bits,
            signal: self.signal as int,
            step: self.step as int,
        }
    }
}

proof fn lemma_pow2_mono(a: nat, b: nat)
    requires
        a <= b,
    ensures
        1 <= spec_pow2(a) <= spec_pow2(b),
    decreases b,
{
    if b > a {
        lemma_pow2_mono(a, (b - 1) as nat);
    } else {
        lemma_pow2_pos(a);
    }
}

proof fn lemma_pow2_pos(n: nat)
    ensures
        1 <= spec_pow2(n),
    decreases n,
{
    if n > 0 {
        lemma_pow2_pos((n - 1) as nat);
    }
}

proof fn lemma_pow2_bounds(n: nat)
    requires
        n <= 30,
    ensures
        1 <= spec_pow2(n) <= 0x4000_0000,
        n >= 1 ==> spec_pow2(n) == 2 * spec_pow2((n - 1) as nat),
{
    reveal_with_fuel(spec_pow2, 31);
    assert(spec_pow2(30) == 0x4000_0000);
    lemma_pow2_mono(n, 30);
}

proof fn lemma_shl_is_pow2(n: u8)
    requires
        n <= 30,
    ensures
        (1i32 << n) as int == spec_pow2(n as nat),
    decreases n,
{
    lemma_pow2_bounds(n as nat);
    if n == 0 {
        lemma_i32_pow2(0);
    } else {
        lemma_shl_is_pow2((n - 1) as u8);
        let m = (n - 1) as u8;
        lemma_i32_pow2(n);
    }
}

impl OKIM6258 {
    /// The difference table.
    pub closed spec fn table(&self) -> Seq<i32> {
        self.diff_lookup@
    }

    pub closed spec fn wf(&self) -> bool {
        &&& diff_table_bounded(self.diff_lookup@)
        &&& 0 <= self.step <= 48
        &&& -0x4000_0000 <= self.signal <= 0x4000_0000
        &&& self.start_divider == 0
        &&& self.nibble_shift == 0 || self.nibble_shift == 4
    }

    /// A stopped chip with an empty difference table.
    pub fn default() -> (r: Self)
        ensures
            r.wf(),
            r@ == (OKIM6258View {
                clock: 0, status: 0, divider: 512, adpcm_type: 0, data_in: 0, nibble_shift: 0,
                output_bits: 0, signal: 0, step: 0,
            }),
            r.table() == Seq::new(DIFF_LOOKUP_SIZE as nat, |i: int| 0i32),
    {
        let mut diff_lookup: Vec<i32> = Vec::new();
        let mut i: usize = 0;
        while i < DIFF_LOOKUP_SIZE
            invariant
                i <= DIFF_LOOKUP_SIZE,
                diff_lookup@ == Seq::new(i as nat, |k: int| 0i32),
            decreases DIFF_LOOKUP_SIZE - i,
        {
            diff_lookup.push(0);
            i = i + 1;
            assert(diff_lookup@ =~= Seq::new(i as nat, |k: int| 0i32));
        }
        OKIM6258 {
            clock: 0,
            status: 0,
            start_divider: 0,
            divider: 512,
            adpcm_type: 0,
            data_in: 0,
            nibble_shift: 0,
            output_bits: 0,
            signal: 0,
            step: 0,
            diff_lookup,
        }
    }

    /// Start the chip at `clock`: compute the difference table, select the
    /// first divider, and return the sampling rate `clock / 1024`.
    pub fn device_start(&mut self, clock: u32) -> (r: u32)
        requires
            old(self).wf(),
        ensures
            final(self).wf(),
            crate::sound::adpcm::diff_table_computed(final(self).table()),
            final(self)@ == (OKIM6258View { clock: clock, divider: 1024, signal: -1, step: 0, ..old(self)@ }),
            r == clock / 1024,
    {
        self.clock = clock;
        self.compute_tables();
        self.divider = DIVIDERS[self.start_divider as usize];
        self.signal = -1;
        self.step = 0;
        self.clock / self.divider
    }

    /// Reset the signal, the step index and the status.
    pub fn device_reset(&mut self)
        requires
            old(self).wf(),
        ensures
            final(self).wf(),
            final(self).table() == old(self).table(),
            final(self)@ == (OKIM6258View { signal: -2, step: 0, status: 0, ..old(self)@ }),
    {
        self.signal = -2;
        self.step = 0;
        self.status = 0;
    }

    /// Latch a data byte: its low nibble plays first.
    pub fn data_w(&mut self, data: u8)
        requires
            old(self).wf(),
        ensures
            final(self).wf(),
            final(self).table() == old(self).table(),
            final(self)@ == (OKIM6258View { data_in: data, nibble_shift: 0, ..old(self)@ }),
    {
        self.data_in = data;
        self.nibble_shift = 0;
    }

    /// Write the control register: stop, or play (which restarts the decoder
    /// when not already playing) and record.
    pub fn ctrl_w(&mut self, data: u8)
        requires
            old(self).wf(),
        ensures
            final(self).wf(),
            final(self).table() == old(self).table(),
            final(self)@ == spec_okim6258_ctrl(old(self)@, data),
    {
        proof {
            let st = self.status;
            lemma_u8_bits(st);
        }
        if (data & COMMAND_STOP) != 0 {
            self.status = self.status & !(STATUS_PLAYING | STATUS_RECORDING);
            return;
        }
        if (data & COMMAND_PLAY) != 0 && (self.status & STATUS_PLAYING) == 0 {
            self.status = self.status | STATUS_PLAYING;
            self.signal = -2;
            self.step = 0;
            self.nibble_shift = 0;
        } else {
            self.status = self.status & !STATUS_PLAYING;
        }
        if (data & COMMAND_RECORD) != 0 {
            self.status = self.status | STATUS_RECORDING;
        } else {
            self.status = self.status & !STATUS_RECORDING;
        }
    }

    /// Select a divider and return the new sampling rate.
    pub fn set_divider(&mut self, val: u32) -> (r: u32)
        requires
            old(self).wf(),
            val < 4,
        ensures
            final(self).wf(),
            final(self).table() == old(self).table(),
            final(self)@ == (OKIM6258View { divider: spec_divider(val as int), ..old(self)@ }),
            r == old(self)@.clock / spec_divider(val as int),
    {
        self.divider = DIVIDERS[val as usize];
        self.clock / self.divider
    }

    /// Set the output precision in bits.
    pub fn set_outbits(&mut self, outbit: u8)
        requires
            old(self).wf(),
        ensures
            final(self).wf(),
            final(self).table() == old(self).table(),
            final(self)@ == (OKIM6258View { output_bits: outbit, ..old(self)@ }),
    {
        self.output_bits = outbit;
    }

    /// Set the ADPCM type (3 or 4 bits).
    pub fn set_type(&mut self, typ: u8)
        requires
            old(self).wf(),
        ensures
            final(self).wf(),
            final(self).table() == old(self).table(),
            final(self)@ == (OKIM6258View { adpcm_type: typ, ..old(self)@ }),
    {
        self.adpcm_type = typ;
    }

    /// Decode one nibble and return the 16-bit sample.
    fn clock_adpcm(&mut self, nibble: u8) -> (r: i16)
        requires
            old(self).wf(),
            1 <= old(self)@.output_bits <= 31,
        ensures
            final(self).wf(),
            final(self).table() == old(self).table(),
            final(self)@ == (OKIM6258View {
                signal: spec_okim6258_signal(old(self)@.signal, old(self)@.step, old(self).table(), old(self)@.output_bits, nibble),
                step: spec_okim6258_step(old(self)@.step, nibble),
                ..old(self)@
            }),
            r == spec_okim6258_sample(final(self)@.signal),
    {
        let sh: u8 = self.output_bits - 1;
        proof {
            lemma_shl_is_pow2(sh);
            lemma_pow2_bounds(sh as nat);
            lemma_u8_bits(nibble);
            assert(INDEX_SHIFT@ =~= seq![-1i32, -1i32, -1i32, -1i32, 2i32, 4i32, 6i32, 8i32]);
        }
        let max: i32 = (1i32 << sh) - 1;
        let min: i32 = -(1i32 << sh);
        let idx: usize = (self.step * 16 + (nibble & 15) as i32) as usize;
        self.signal = self.signal + self.diff_lookup[idx];
        if self.signal > max {
            self.signal = max;
        } else if self.signal < min {
            self.signal = min;
        }
        self.step = self.step + INDEX_SHIFT[(nibble & 7) as usize];
        if self.step > 48 {
            self.step = 48;
        } else if self.step < 0 {
            self.step = 0;
        }
        (self.signal << 4u32) as i16
    }

    /// Compute the difference table.
    fn compute_tables(&mut self)
        requires
            old(self).wf(),
        ensures
            final(self).wf(),
            crate::sound::adpcm::diff_table_computed(final(self).table()),
            final(self)@ == old(self)@,
    {
        fill_diff_lookup(&mut self.diff_lookup);
    }
}

/// One sample step: decode the nibble that `nibble_shift` selects from the
/// latched byte, then move to the other nibble.
pub open spec fn spec_okim6258_next(s: OKIM6258View, table: Seq<i32>) -> OKIM6258View {
    let nibble = (s.data_in >> s.nibble_shift) & 0xf;
    OKIM6258View {
        signal: spec_okim6258_signal(s.signal, s.step, table, s.output_bits, nibble),
        step: spec_okim6258_step(s.step, nibble),
        nibble_shift: s.nibble_shift ^ 4,
        ..s
    }
}

/// The state and the samples after `n` sample steps while playing.
pub open spec fn spec_okim6258_run(s: OKIM6258View, table: Seq<i32>, n: nat) -> (OKIM6258View, Seq<i16>)
    decreases n,
{
    if n == 0 {
        (s, Seq::empty())
    } else {
        let (s1, out) = spec_okim6258_run(s, table, (n - 1) as nat);
        let s2 = spec_okim6258_next(s1, table);
        (s2, out.push(spec_okim6258_sample(s2.signal)))
    }
}

proof fn lemma_okim6258_run_keeps(s: OKIM6258View, table: Seq<i32>, n: nat)
    ensures
        spec_okim6258_run(s, table, n).1.len() == n,
        spec_okim6258_run(s, table, n).0.output_bits == s.output_bits,
        spec_okim6258_run(s, table, n).0.status == s.status,
    decreases n,
{
    if n > 0 {
        lemma_okim6258_run_keeps(s, table, (n - 1) as nat);
    }
}

impl OKIM6258 {
    /// Whether `sound_stream_update` may run: a playing chip needs an
    /// output precision of 1 to 31 bits.
    pub fn update_ok(&self) -> (r: bool)
        ensures
            r == (self@.status & 2 != 0 ==> 1 <= self@.output_bits <= 31),
    {
        self.status & 2 == 0 || (1 <= self.output_bits && self.output_bits <= 31)
    }

    /// Produce `length` samples. While playing, each sample decodes the next
    /// nibble of the latched byte (low nibble first); otherwise the samples
    /// are silent and nothing changes.
    pub fn sound_stream_update(&mut self, length: usize) -> (r: Vec<i16>)
        requires
            old(self).wf(),
            old(self)@.status & 2 != 0 ==> 1 <= old(self)@.output_bits <= 31,
        ensures
            final(self).wf(),
            final(self).table() == old(self).table(),
            r@.len() == length,
            old(self)@.status & 2 != 0 ==> (final(self)@, r@) == spec_okim6258_run(old(self)@, old(self).table(), length as nat),
            old(self)@.status & 2 == 0 ==> final(self)@ == old(self)@ && r@ == Seq::new(length as nat, |i: int| 0i16),
    {
        let mut out: Vec<i16> = Vec::new();
        if self.status & STATUS_PLAYING != 0 {
            let mut i: usize = 0;
            while i < length
                invariant
                    0 <= i <= length,
                    self.wf(),
                    self.table() == old(self).table(),
                    1 <= self@.output_bits <= 31,
                    (self@, out@) == spec_okim6258_run(old(self)@, old(self).table(), i as nat),
                decreases length - i,
            {
                proof {
                    lemma_okim6258_run_keeps(old(self)@, old(self).table(), i as nat);
                    let n = self.nibble_shift;
                    lemma_u8_bits(n);
                }
                let nibble: u8 = (self.data_in >> self.nibble_shift) & 0xf;
                let sample: i16 = self.clock_adpcm(nibble);
                self.nibble_shift = self.nibble_shift ^ 4;
                out.push(sample);
                i = i + 1;
            }
            proof { lemma_okim6258_run_keeps(old(self)@, old(self).table(), length as nat); }
        } else {
            let mut i: usize = 0;
            while i < length
                invariant
                    0 <= i <= length,
                    out@ == Seq::new(i as nat, |k: int| 0i16),
                decreases length - i,
            {
                out.push(0);
                i = i + 1;
                assert(out@ =~= Seq::new(i as nat, |k: int| 0i16));
            }
        }
        out
    }

    /// Write a port: 0 control, 1 data, 2 output channel (0 or 3 both
    /// speakers, 1 left, 2 right), 0x10 divider (gives the new sampling
    /// rate), 0x11 output bits, 0x12 ADPCM type.
    pub fn write_port(&mut self, offset: u32, data: u32) -> (r: Okim6258Effect)
        requires
            old(self).wf(),
            offset == 0 || offset == 1 || offset == 2 || offset == 0x10 || offset == 0x11 || offset == 0x12,
            offset == 2 ==> data <= 3,
            offset == 0x10 ==> data < 4,
        ensures
            final(self).wf(),
            final(self).table() == old(self).table(),
            offset == 0 ==> final(self)@ == spec_okim6258_ctrl(old(self)@, (data & 0xff) as u8) && r == Okim6258Effect::Nothing,
            offset == 1 ==> final(self)@ == (OKIM6258View { data_in: (data & 0xff) as u8, nibble_shift: 0, ..old(self)@ })
                && r == Okim6258Effect::Nothing,
            offset == 2 ==> final(self)@ == old(self)@ && r == Okim6258Effect::SetOutputChannel(
                if data == 1 { OutputChannel::Left } else if data == 2 { OutputChannel::Right } else { OutputChannel::Stereo }),
            offset == 0x10 ==> final(self)@ == (OKIM6258View { divider: spec_divider(data as int), ..old(self)@ })
                && r == Okim6258Effect::ChangeSamplingRate(old(self)@.clock / spec_divider(data as int)),
            offset == 0x11 ==> final(self)@ == (OKIM6258View { output_bits: (data & 0xff) as u8, ..old(self)@ })
                && r == Okim6258Effect::Nothing,
            offset == 0x12 ==> final(self)@ == (OKIM6258View { adpcm_type: (data & 0xff) as u8, ..old(self)@ })
                && r == Okim6258Effect::Nothing,
    {
        if offset == 0x0 {
            self.ctrl_w((data & 0xff) as u8);
            Okim6258Effect::Nothing
        } else if offset == 0x1 {
            self.data_w((data & 0xff) as u8);
            Okim6258Effect::Nothing
        } else if offset == 0x2 {
            if data == 1 {
                Okim6258Effect::SetOutputChannel(OutputChannel::Left)
            } else if data == 2 {
                Okim6258Effect::SetOutputChannel(OutputChannel::Right)
            } else {
                Okim6258Effect::SetOutputChannel(OutputChannel::Stereo)
            }
        } else if offset == 0x10 {
            Okim6258Effect::ChangeSamplingRate(self.set_divider(data))
        } else if offset == 0x11 {
            self.set_outbits((data & 0xff) as u8);
            Okim6258Effect::Nothing
        } else {
            self.set_type((data & 0xff) as u8);
            Okim6258Effect::Nothing
        }
    }

    /// Start the chip and return its sampling rate.
    pub fn init(&mut self, clock: u32) -> (r: u32)
        requires
            old(self).wf(),
        ensures
            final(self).wf(),
            crate::sound::adpcm::diff_table_computed(final(self).table()),
            final(self)@ == (OKIM6258View { clock: clock, divider: 1024, signal: -1, step: 0, ..old(self)@ }),
            r == clock / 1024,
    {
        self.device_start(clock)
    }

    /// Reset the chip.
    pub fn reset(&mut self)
        requires
            old(self).wf(),
        ensures
            final(self).wf(),
            final(self).table() == old(self).table(),
            final(self)@ == (OKIM6258View { signal: -2, step: 0, status: 0, ..old(self)@ }),
    {
        self.device_reset();
    }
}

/// The state after a control register write.
pub open spec fn spec_okim6258_ctrl(s: OKIM6258View, data: u8) -> OKIM6258View {
    if data & 1 != 0 {
        OKIM6258View { status: s.status & !6u8, ..s }
    } else {
        let s1 = if data & 2 != 0 && s.status & 2 == 0 {
            OKIM6258View { status: s.status | 2, signal: -2, step: 0, nibble_shift: 0, ..s }
        } else {
            OKIM6258View { status: s.status & !2u8, ..s }
        };
        if data & 4 != 0 {
            OKIM6258View { status: s1.status | 4, ..s1 }
        } else {
            OKIM6258View { status: s1.status & !4u8, ..s1 }
        }
    }
}

/// A control byte with bit 0 set stops playing and recording; otherwise bit
/// 1 starts playing (restarting the decoder: signal -2, step 0, low nibble
/// first) where the chip is not playing yet, and stops it where it is, and
/// bit 2 turns recording on or off. Status bits 1 and 2 are playing and
/// recording; the other status bits and the rest of the chip stay.
pub proof fn lemma_okim6258_ctrl_bits(s: OKIM6258View, data: u8)
    ensures
        ({
            let t = spec_okim6258_ctrl(s, data);
            let start = data % 2 == 0 && (data / 2) % 2 == 1 && (s.status / 2) % 2 == 0;
            &&& t.status % 2 == s.status % 2
            &&& t.status / 8 == s.status / 8
            &&& (t.status / 2) % 2 == (if start { 1int } else { 0 })
            &&& (t.status / 4) % 2 == (if data % 2 == 0 && (data / 4) % 2 == 1 { 1int } else { 0 })
            &&& start ==> t == (OKIM6258View { status: t.status, signal: -2, step: 0, nibble_shift: 0, ..s })
            &&& !start ==> t == (OKIM6258View { status: t.status, ..s })
        }),
{
    lemma_u8_status_ops(data);
    lemma_u8_status_ops(s.status);
    lemma_u8_status_ops(s.status | 2);
    lemma_u8_status_ops(s.status & !2u8);
}

/// Each sample step decodes one nibble of the latched byte, the low nibble
/// first and then the high one: the nibble's difference at the current step
/// index is added to the signal, clamped to `output_bits` signed bits, and
/// the step index moves by -1 for nibbles whose low three bits are below 4,
/// else by 2, 4, 6 or 8, clamped to 0..48.
pub proof fn lemma_okim6258_nibble_order(s: OKIM6258View, table: Seq<i32>)
    requires
        s.nibble_shift == 0 || s.nibble_shift == 4,
        s.output_bits >= 1,
    ensures
        ({
            let t = spec_okim6258_next(s, table);
            let nib: int = if s.nibble_shift == 0 { (s.data_in % 16) as int } else { (s.data_in / 16) as int };
            let max = spec_pow2((s.output_bits - 1) as nat) - 1;
            let min = -spec_pow2((s.output_bits - 1) as nat);
            let sum = s.signal + table[s.step * 16 + nib];
            let st = s.step + (if nib % 8 < 4 { -1 } else { 2 * (nib % 8 - 3) });
            &&& t.nibble_shift == 4 - s.nibble_shift
            &&& t.signal == (if sum > max { max } else if sum < min { min } else { sum })
            &&& t.step == (if st > 48 { 48 } else if st < 0 { 0 } else { st })
            &&& t == (OKIM6258View { signal: t.signal, step: t.step, nibble_shift: t.nibble_shift, ..s })
        }),
{
    let nibble = (s.data_in >> s.nibble_shift) & 0xf;
    assert(nibble as int == if s.nibble_shift == 0 { (s.data_in % 16) as int } else { (s.data_in / 16) as int }) by {
        lemma_u8_status_ops(s.data_in);
    }
    assert(s.nibble_shift ^ 4 == 4 - s.nibble_shift) by {
        lemma_u8_status_ops(s.data_in);
    }
}

} // verus!
