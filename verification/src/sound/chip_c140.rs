use vstd::prelude::*;
use crate::bits::{lemma_i32_masks, lemma_i32_shifts, lemma_u16_bits, lemma_u8_shifts, lemma_usize_bits};
use crate::sound::rom::{read_word, spec_read_word, RomBank, RomView};

verus! {

/// Number of voices of the C140.
pub const MAX_VOICE: usize = 24;

/// Size of the register file.
pub const C140_REGS: usize = 0x200;

/// One C140 voice: its position in the sample, the last two decoded values,
/// and the sample parameters latched at key-on.
#[derive(Clone, Copy, Debug, PartialEq, Eq, Structural)]
pub struct C140Voice {
    pub ptoffset: i32,
    pub pos: i32,
    pub key: i32,
    pub lastdt: i32,
    pub prevdt: i32,
    pub dltdt: i32,
    pub rvol: i32,
    pub lvol: i32,
    pub frequency: i32,
    pub bank: i32,
    pub mode: i32,
    pub sample_start: i32,
    pub sample_end: i32,
    pub sample_loop: i32,
}

/// A silent voice.
pub open spec fn spec_c140_voice_zero() -> C140Voice {
    C140Voice {
        ptoffset: 0, pos: 0, key: 0, lastdt: 0, prevdt: 0, dltdt: 0, rvol: 0, lvol: 0,
        frequency: 0, bank: 0, mode: 0, sample_start: 0, sample_end: 0, sample_loop: 0,
    }
}

/// The ranges that the voice's fields stay in.
pub open spec fn c140_voice_wf(v: C140Voice) -> bool {
    &&& 0 <= v.ptoffset <= 0xffff
    &&& 0 <= v.bank <= 0xff
    &&& 0 <= v.mode <= 0xff
    &&& 0 <= v.sample_start <= 0xffff
    &&& 0 <= v.sample_end <= 0xffff
    &&& 0 <= v.sample_loop <= 0xffff
    &&& -0xffff <= v.pos <= 0x10001
    &&& v.pos + v.sample_start >= 0
    &&& v.key != 0 ==> v.pos <= 0xffff
    &&& -2048 <= v.lastdt <= 2047
    &&& -2048 <= v.prevdt <= 2047
    &&& v.dltdt == v.lastdt - v.prevdt
}

/// The mu-law step that entry `i` of the expansion table adds.
pub open spec fn spec_mulaw_step(i: int) -> int {
    if i < 16 { 1 } else if i < 24 { 2 } else if i < 48 { 4 } else if i < 100 { 8 } else { 16 }
}

/// The running sum behind entry `i` of the mu-law expansion table.
pub open spec fn spec_mulaw_base(i: int) -> int
    decreases i,
{
    if i <= 0 { 0 } else { spec_mulaw_base(i - 1) + spec_mulaw_step(i - 1) }
}

/// Entry `i` of the mu-law expansion table: the running sum shifted up five
/// bits for the positive half, its complement (low five bits clear) for the
/// negative half.
pub open spec fn spec_pcmtbl(i: int) -> i16 {
    if i < 128 {
        ((spec_mulaw_base(i) as i16) << 5u16) as i16
    } else {
        ((!(((spec_mulaw_base(i - 128) as i16) << 5u16) as i16)) as u16 & 0xffe0u16) as i16
    }
}

proof fn lemma_mulaw_base(i: int)
    requires
        0 <= i <= 128,
    ensures
        spec_mulaw_base(i) == if i <= 16 { i } else if i <= 24 { 16 + 2 * (i - 16) } else if i <= 48 {
            32 + 4 * (i - 24) } else if i <= 100 { 128 + 8 * (i - 48) } else { 544 + 16 * (i - 100) },
        0 <= spec_mulaw_base(i) <= 992,
    decreases i,
{
    if i > 0 {
        lemma_mulaw_base(i - 1);
    }
}

/// Whether a voice loops (mode bit 4).
pub open spec fn spec_ch_looped(v: C140Voice) -> bool {
    (v.mode >> 4) & 1 == 1
}

/// Whether a voice plays mu-law compressed data (mode bit 3).
pub open spec fn spec_ch_mulaw(v: C140Voice) -> bool {
    (v.mode >> 3) & 1 == 1
}

/// The state of a C140.
pub struct C140View {
    pub sample_rate: int,
    pub baserate: int,
    pub reg: Seq<u8>,
    pub pcmtbl: Seq<i16>,
    pub voi: Seq<C140Voice>,
    pub lfsr: u16,
}

/// Namco C140 PCM chip: 24 voices of 8-bit mu-law or 12-bit linear PCM.
pub struct C140 {
    sample_rate: i32,
    baserate: i32,
    reg: Vec<u8>,
    pcmtbl: Vec<i16>,
    voi: Vec<C140Voice>,
    lfsr: u16,
    rombank: RomBank,
}

impl View for C140 {
    type V = C140View;

    closed spec fn view(&self) -> C140View {
        C140View {
            sample_rate: self.sample_rate as int,
            baserate: self.baserate as int,
            reg: self.reg@,
            pcmtbl: self.pcmtbl@,
            voi: self.voi@,
            lfsr: self.lfsr,
        }
    }
}

impl C140 {
    pub closed spec fn wf(&self) -> bool {
        &&& self.reg@.len() == C140_REGS
        &&& self.pcmtbl@.len() == 256
        &&& self.voi@.len() == MAX_VOICE
        &&& forall|i: int| 0 <= i < MAX_VOICE ==> c140_voice_wf(#[trigger] self.voi@[i])
        &&& self.baserate == self.sample_rate
        &&& self.rombank is Some ==> self.rombank->0.wf()
    }

    /// Whether the chip has been given a ROM set.
    pub closed spec fn has_rom(&self) -> bool {
        self.rombank is Some
    }

    /// The images of the chip's ROM set.
    pub closed spec fn roms(&self) -> Seq<RomView> {
        match self.rombank {
            Some(r) => r.roms(),
            None => Seq::empty(),
        }
    }

    /// The bus decoder of the chip's ROM set.
    pub closed spec fn bus(&self) -> Option<(u8, u8, Seq<u8>)> {
        match self.rombank {
            Some(r) => r.bus(),
            None => None,
        }
    }

    /// A chip with cleared registers and silent voices.
    pub fn new() -> (r: Self)
        ensures
            r.wf(),
            !r.has_rom(),
            r@.sample_rate == 0,
            r@.reg == Seq::new(C140_REGS as nat, |i: int| 0u8),
            r@.voi == Seq::new(MAX_VOICE as nat, |i: int| spec_c140_voice_zero()),
            r@.lfsr == 0,
    {
        let mut reg: Vec<u8> = Vec::new();
        let mut i: usize = 0;
        while i < C140_REGS
            invariant
                i <= C140_REGS,
                reg@ == Seq::new(i as nat, |k: int| 0u8),
            decreases C140_REGS - i,
        {
            reg.push(0);
            i = i + 1;
            assert(reg@ =~= Seq::new(i as nat, |k: int| 0u8));
        }
        let mut pcmtbl: Vec<i16> = Vec::new();
        let mut i: usize = 0;
        while i < 256
            invariant
                i <= 256,
                pcmtbl@.len() == i,
            decreases 256 - i,
        {
            pcmtbl.push(0);
            i = i + 1;
        }
        let mut voi: Vec<C140Voice> = Vec::new();
        let mut i: usize = 0;
        while i < MAX_VOICE
            invariant
                i <= MAX_VOICE,
                voi@ == Seq::new(i as nat, |k: int| spec_c140_voice_zero()),
            decreases MAX_VOICE - i,
        {
            voi.push(C140Voice {
                ptoffset: 0, pos: 0, key: 0, lastdt: 0, prevdt: 0, dltdt: 0, rvol: 0, lvol: 0,
                frequency: 0, bank: 0, mode: 0, sample_start: 0, sample_end: 0, sample_loop: 0,
            });
            i = i + 1;
            assert(voi@ =~= Seq::new(i as nat, |k: int| spec_c140_voice_zero()));
        }
        C140 { sample_rate: 0, baserate: 0, reg, pcmtbl, voi, lfsr: 0, rombank: None }
    }

    /// Build the mu-law expansion table and seed the noise register.
    pub fn device_start(&mut self)
        requires
            old(self).wf(),
        ensures
            final(self).wf(),
            final(self).has_rom() == old(self).has_rom(),
            final(self).roms() == old(self).roms(),
            final(self).bus() == old(self).bus(),
            final(self)@ == (C140View {
                pcmtbl: Seq::new(256, |i: int| spec_pcmtbl(i)),
                lfsr: 0x1234,
                ..old(self)@
            }),
    {
        let mut j: i16 = 0;
        let mut i: usize = 0;
        while i < 128
            invariant
                0 <= i <= 128,
                self.wf(),
                j as int == spec_mulaw_base(i as int),
                forall|k: int| 0 <= k < i ==> #[trigger] self.pcmtbl@[k] == spec_pcmtbl(k),
                self.reg == old(self).reg,
                self.voi == old(self).voi,
                self.sample_rate == old(self).sample_rate,
                self.baserate == old(self).baserate,
                self.lfsr == old(self).lfsr,
                self.rombank == old(self).rombank,
            decreases 128 - i,
        {
            proof { lemma_mulaw_base(i as int); lemma_mulaw_base(i as int + 1); }
            self.pcmtbl.set(i, j << 5);
            if i < 16 {
                j = j + 1;
            } else if i < 24 {
                j = j + 2;
            } else if i < 48 {
                j = j + 4;
            } else if i < 100 {
                j = j + 8;
            } else {
                j = j + 16;
            }
            i = i + 1;
        }
        let mut i: usize = 0;
        while i < 128
            invariant
                0 <= i <= 128,
                self.wf(),
                forall|k: int| 0 <= k < 128 ==> #[trigger] self.pcmtbl@[k] == spec_pcmtbl(k),
                forall|k: int| 128 <= k < 128 + i ==> #[trigger] self.pcmtbl@[k] == spec_pcmtbl(k),
                self.reg == old(self).reg,
                self.voi == old(self).voi,
                self.sample_rate == old(self).sample_rate,
                self.baserate == old(self).baserate,
                self.lfsr == old(self).lfsr,
                self.rombank == old(self).rombank,
            decreases 128 - i,
        {
            let v: i16 = ((!self.pcmtbl[i]) as u16 & 0xffe0) as i16;
            self.pcmtbl.set(i + 128, v);
            i = i + 1;
        }
        self.lfsr = 0x1234;
        proof {
            assert(self.pcmtbl@ =~= Seq::new(256, |i: int| spec_pcmtbl(i)));
        }
    }

    /// Set the sampling rate (the chip runs at its clock) and return it.
    pub fn device_clock_changed(&mut self, clock: i32) -> (r: i32)
        requires
            old(self).wf(),
        ensures
            final(self).wf(),
            final(self).has_rom() == old(self).has_rom(),
            final(self).roms() == old(self).roms(),
            final(self).bus() == old(self).bus(),
            final(self)@ == (C140View { sample_rate: clock as int, baserate: clock as int, ..old(self)@ }),
            r == clock,
    {
        self.sample_rate = clock;
        self.baserate = self.sample_rate;
        self.sample_rate
    }

    /// Nothing depends on the ROM contents ahead of a read.
    pub fn rom_bank_updated(&mut self)
        ensures
            *final(self) == *old(self),
    {
    }

    /// The word address of a voice's sample data: bank in the high bits.
    pub fn find_sample(adrs: i32, bank: i32, _voice: i32) -> (r: i32)
        requires
            0 <= bank <= 0xff,
            -0x10000 <= adrs <= 0x20000,
        ensures
            r == bank * 0x10000 + adrs,
    {
        proof {
            lemma_i32_masks(bank);
        }
        (bank << 16) + adrs
    }

    /// Whether a voice loops (mode bit 4).
    pub fn ch_looped(v: &C140Voice) -> (r: bool)
        ensures
            r == spec_ch_looped(*v),
    {
        ((v.mode >> 4) & 0x1) == 0x1
    }

    /// Whether a voice plays mu-law compressed data (mode bit 3).
    pub fn ch_mulaw(v: &C140Voice) -> (r: bool)
        ensures
            r == spec_ch_mulaw(*v),
    {
        ((v.mode >> 3) & 0x1) == 0x1
    }
}

/// A voice after key-on through the mode register of register block `b`.
pub open spec fn spec_c140_key_on(v: C140Voice, reg: Seq<u8>, b: int, data: u8) -> C140Voice {
    C140Voice {
        key: 1,
        ptoffset: 0,
        pos: 0,
        lastdt: 0,
        prevdt: 0,
        dltdt: 0,
        bank: reg[b + 4] as i32,
        mode: data as i32,
        sample_loop: (reg[b + 10] as int * 256 + reg[b + 11] as int) as i32,
        sample_start: (reg[b + 6] as int * 256 + reg[b + 7] as int) as i32,
        sample_end: (reg[b + 8] as int * 256 + reg[b + 9] as int) as i32,
        ..v
    }
}

/// The chip after a register write: the register takes the byte; a write to
/// byte 5 of a voice's 16-byte register block keys that voice on (bit 7
/// set) or off.
pub open spec fn spec_c140_w(s: C140View, offset: usize, data: u8) -> C140View {
    let off = (offset & 0x1ff) as int;
    let reg = s.reg.update(off, data);
    if off < 0x180 && off % 16 == 5 {
        let ch = off / 16;
        if data & 0x80 != 0 {
            C140View { reg: reg, voi: s.voi.update(ch, spec_c140_key_on(s.voi[ch], reg, ch * 16, data)), ..s }
        } else {
            C140View { reg: reg, voi: s.voi.update(ch, C140Voice { key: 0, ..s.voi[ch] }), ..s }
        }
    } else {
        C140View { reg: reg, ..s }
    }
}

/// The frequency register of voice `i`.
pub open spec fn spec_c140_frequency(reg: Seq<u8>, i: int) -> int {
    reg[i * 16 + 2] as int * 256 + reg[i * 16 + 3] as int
}

/// One output sample of voice `i`: the voice's next state and its (left,
/// right) contribution to the mix.
pub open spec fn spec_c140_voice_step(
    v: C140Voice,
    reg: Seq<u8>,
    i: int,
    roms: Seq<RomView>,
    bus: Option<(u8, u8, Seq<u8>)>,
    pcmtbl: Seq<i16>,
    sample_rate: int,
) -> (C140Voice, int, int) {
    let frequency = spec_c140_frequency(reg, i);
    if v.key == 0 || frequency == 0 {
        (v, 0, 0)
    } else {
        let delta = if sample_rate != 0 { frequency * 2 } else { 0 };
        let lvol = (reg[i * 16 + 1] as int * 32) / 24;
        let rvol = (reg[i * 16] as int * 32) / 24;
        let st = v.sample_start as int;
        let sz = v.sample_end - st;
        let offset0 = v.ptoffset + delta;
        let cnt = offset0 / 0x10000;
        let offset = offset0 % 0x10000;
        let pos0 = v.pos + cnt;
        if pos0 >= sz && !spec_ch_looped(v) {
            (C140Voice { key: 0, ptoffset: offset as i32, pos: pos0 as i32, ..v }, 0, 0)
        } else {
            let pos = if pos0 >= sz { v.sample_loop - st } else { pos0 };
            let sample = spec_read_word(roms, bus, (v.bank * 0x10000 + st + pos) as usize) & 0xfff0u16;
            let decoded = if spec_ch_mulaw(v) { pcmtbl[((sample >> 8u16) & 0xffu16) as int] } else { #[verifier::truncate] (sample as i16) };
            let lastdt = if cnt != 0 { ((decoded as i32) >> 4u32) as int } else { v.lastdt as int };
            let prevdt = if cnt != 0 { v.lastdt as int } else { v.prevdt as int };
            let dltdt = if cnt != 0 { lastdt - prevdt } else { v.dltdt as int };
            let dt = ((dltdt * offset) as i32 >> 16u32) as int + prevdt;
            (C140Voice {
                ptoffset: offset as i32,
                pos: pos as i32,
                lastdt: lastdt as i32,
                prevdt: prevdt as i32,
                dltdt: dltdt as i32,
                ..v
            }, ((dt * lvol) as i32 >> 9u32) as int, ((dt * rvol) as i32 >> 9u32) as int)
        }
    }
}

/// The sum of the (left, right) contributions of the first `n` voices.
pub open spec fn spec_c140_mix(s: C140View, roms: Seq<RomView>, bus: Option<(u8, u8, Seq<u8>)>, n: int) -> (int, int)
    decreases n,
{
    if n <= 0 {
        (0, 0)
    } else {
        let (l, r) = spec_c140_mix(s, roms, bus, n - 1);
        let (_, dl, dr) = spec_c140_voice_step(s.voi[n - 1], s.reg, n - 1, roms, bus, s.pcmtbl, s.sample_rate);
        (l + dl, r + dr)
    }
}

impl C140 {
    /// Write a register (the offset wraps at 0x200).
    pub fn c140_w(&mut self, offset: usize, data: u8)
        requires
            old(self).wf(),
        ensures
            final(self).wf(),
            final(self).has_rom() == old(self).has_rom(),
            final(self).roms() == old(self).roms(),
            final(self).bus() == old(self).bus(),
            final(self)@ == spec_c140_w(old(self)@, offset, data),
    {
        let off: usize = offset & 0x1ff;
        proof {
            lemma_usize_bits(offset);
        }
        let offset: usize = off;
        self.reg.set(offset, data);
        if offset < 0x180 {
            let ch: usize = offset >> 4;
            proof {
                lemma_usize_bits(offset);
            }
            if offset & 0x0f == 0x5 {
                let mut v = self.voi[ch];
                if data & 0x80 != 0 {
                    let b: usize = offset & 0x1f0;
                    v.key = 1;
                    v.ptoffset = 0;
                    v.pos = 0;
                    v.lastdt = 0;
                    v.prevdt = 0;
                    v.dltdt = 0;
                    v.bank = self.reg[b + 4] as i32;
                    v.mode = data as i32;
                    let loop_hi: u32 = self.reg[b + 10] as u32;
                    let start_hi: u32 = self.reg[b + 6] as u32;
                    let end_hi: u32 = self.reg[b + 8] as u32;
                    proof {
                        lemma_u8_shifts(self.reg@[b + 10], 0);
                        lemma_u8_shifts(self.reg@[b + 6], 0);
                        lemma_u8_shifts(self.reg@[b + 8], 0);
                    }
                    let sample_loop: u32 = (loop_hi << 8) + self.reg[b + 11] as u32;
                    let start: u32 = (start_hi << 8) + self.reg[b + 7] as u32;
                    let end: u32 = (end_hi << 8) + self.reg[b + 9] as u32;
                    v.sample_loop = sample_loop as i32;
                    v.sample_start = start as i32;
                    v.sample_end = end as i32;
                } else {
                    v.key = 0;
                }
                self.voi.set(ch, v);
            }
        }
    }

    /// Produce one output sample: advance every keyed voice and mix their
    /// contributions. The mix wraps at 16 bits, as the chip's accumulator
    /// does. A voice whose sample ends without looping is keyed off.
    pub fn sound_stream_update(&mut self) -> (r: (i16, i16))
        requires
            old(self).wf(),
            (exists|i: int| 0 <= i < MAX_VOICE && (#[trigger] old(self)@.voi[i]).key != 0
                && spec_c140_frequency(old(self)@.reg, i) != 0) ==> old(self).has_rom(),
        ensures
            final(self).wf(),
            final(self).has_rom() == old(self).has_rom(),
            final(self).roms() == old(self).roms(),
            final(self).bus() == old(self).bus(),
            final(self)@.reg == old(self)@.reg,
            final(self)@.pcmtbl == old(self)@.pcmtbl,
            final(self)@.sample_rate == old(self)@.sample_rate,
            final(self)@.baserate == old(self)@.baserate,
            final(self)@.lfsr == old(self)@.lfsr,
            final(self)@.voi.len() == MAX_VOICE,
            forall|i: int| 0 <= i < MAX_VOICE ==> #[trigger] final(self)@.voi[i] == spec_c140_voice_step(
                old(self)@.voi[i], old(self)@.reg, i, old(self).roms(), old(self).bus(), old(self)@.pcmtbl,
                old(self)@.sample_rate).0,
            r.0 == spec_c140_mix(old(self)@, old(self).roms(), old(self).bus(), MAX_VOICE as int).0 as i16,
            r.1 == spec_c140_mix(old(self)@, old(self).roms(), old(self).bus(), MAX_VOICE as int).1 as i16,
    {
        let mut lsum: i32 = 0;
        let mut rsum: i32 = 0;
        let mut i: usize = 0;
        while i < MAX_VOICE
            invariant
                0 <= i <= MAX_VOICE,
                self.wf(),
                old(self).wf(),
                self.reg == old(self).reg,
                self.pcmtbl == old(self).pcmtbl,
                self.sample_rate == old(self).sample_rate,
                self.baserate == old(self).baserate,
                self.lfsr == old(self).lfsr,
                self.rombank == old(self).rombank,
                forall|k: int| 0 <= k < i ==> #[trigger] self.voi@[k] == spec_c140_voice_step(
                    old(self)@.voi[k], old(self)@.reg, k, old(self).roms(), old(self).bus(), old(self)@.pcmtbl,
                    old(self)@.sample_rate).0,
                forall|k: int| i <= k < MAX_VOICE ==> #[trigger] self.voi@[k] == old(self).voi@[k],
                (lsum as int, rsum as int) == spec_c140_mix(old(self)@, old(self).roms(), old(self).bus(), i as int),
                -4096 * i <= lsum <= 4096 * i,
                -4096 * i <= rsum <= 4096 * i,
                (exists|k: int| 0 <= k < MAX_VOICE && (#[trigger] old(self)@.voi[k]).key != 0
                    && spec_c140_frequency(old(self)@.reg, k) != 0) ==> old(self).has_rom(),
            decreases MAX_VOICE - i,
        {
            let (v, dl, dr) = self.voice_step(i);
            self.voi.set(i, v);
            lsum = lsum + dl;
            rsum = rsum + dr;
            i = i + 1;
        }
        (lsum as i16, rsum as i16)
    }

    /// One output sample of voice `i` (the chip is left as it is).
    fn voice_step(&self, i: usize) -> (r: (C140Voice, i32, i32))
        requires
            self.wf(),
            i < MAX_VOICE,
            self.voi@[i as int].key != 0 && spec_c140_frequency(self@.reg, i as int) != 0 ==> self.has_rom(),
        ensures
            (r.0, r.1 as int, r.2 as int) == spec_c140_voice_step(self@.voi[i as int], self@.reg, i as int,
                self.roms(), self.bus(), self@.pcmtbl, self@.sample_rate),
            c140_voice_wf(r.0),
            -4096 <= r.1 <= 4096,
            -4096 <= r.2 <= 4096,
    {
        let mut v: C140Voice = self.voi[i];
        let base: usize = i * 16;
        let frequency: u16 = ((self.reg[base + 2] as u16) << 8) | (self.reg[base + 3] as u16);
        proof {
            lemma_u8_shifts(self.reg@[base + 2], self.reg@[base + 3]);
        }
        if v.key == 0 || frequency == 0 {
            return (v, 0, 0);
        }
        let delta: i32 = if self.sample_rate != 0 { frequency as i32 * 2 } else { 0 };
        let lvol: i32 = (self.reg[base + 1] as i32 * 32) / MAX_VOICE as i32;
        let rvol: i32 = (self.reg[base] as i32 * 32) / MAX_VOICE as i32;
        let st: i32 = v.sample_start;
        let ed: i32 = v.sample_end;
        let sz: i32 = ed - st;
        let sample_data: i32 = Self::find_sample(st, v.bank, i as i32);
        let mut offset: i32 = v.ptoffset;
        let mut pos: i32 = v.pos;
        let mut lastdt: i32 = v.lastdt;
        let mut prevdt: i32 = v.prevdt;
        let mut dltdt: i32 = v.dltdt;

        offset = offset + delta;
        let cnt: i32 = (offset >> 16) & 0x7fff;
        offset = offset & 0xffff;
        proof {
            let o = v.ptoffset + delta;
            assert(0 <= o < 0x40000);
            let oi = o as i32;
            lemma_i32_shifts(oi);
            lemma_i32_masks(oi);
        }
        pos = pos + cnt;
        if pos >= sz {
            if Self::ch_looped(&v) {
                pos = v.sample_loop - st;
            } else {
                v.key = 0;
                v.ptoffset = offset;
                v.pos = pos;
                return (v, 0, 0);
            }
        }
        if cnt != 0 {
            let address: usize = (sample_data + pos) as usize;
            let sample: u16 = read_word(&self.rombank, address) & 0xfff0;
            prevdt = lastdt;
            proof {
                lemma_u16_bits(sample);
            }
            let decoded: i16 = if Self::ch_mulaw(&v) { self.pcmtbl[((sample >> 8) & 0xff) as usize] } else { #[verifier::truncate] (sample as i16) };
            lastdt = (decoded as i32) >> 4;
            proof {
                let d = decoded as i32;
                lemma_i32_shifts(d);
            }
            dltdt = lastdt - prevdt;
        }
        proof {
            assert(-4095 <= dltdt <= 4095);
            assert(0 <= offset <= 0xffff);
            assert(-4095 * 0xffff <= dltdt * offset <= 4095 * 0xffff) by (nonlinear_arith)
                requires -4095 <= dltdt <= 4095, 0 <= offset <= 0xffff;
        }
        let prod: i32 = dltdt * offset;
        proof {
            lemma_i32_shifts(prod);
        }
        let dt: i32 = (prod >> 16) + prevdt;
        proof {
            assert(0 <= lvol <= 340 && 0 <= rvol <= 340);
            assert(-6144 * 340 <= dt * lvol <= 6143 * 340) by (nonlinear_arith)
                requires -6144 <= dt <= 6143, 0 <= lvol <= 340;
            assert(-6144 * 340 <= dt * rvol <= 6143 * 340) by (nonlinear_arith)
                requires -6144 <= dt <= 6143, 0 <= rvol <= 340;
        }
        let ml: i32 = dt * lvol;
        let mr: i32 = dt * rvol;
        proof {
            lemma_i32_shifts(ml);
            lemma_i32_shifts(mr);
        }
        v.ptoffset = offset;
        v.pos = pos;
        v.lastdt = lastdt;
        v.prevdt = prevdt;
        v.dltdt = dltdt;
        (v, ml >> 9, mr >> 9)
    }
}

impl C140 {
    /// Start the chip at `clock`: build the tables and return the output rate.
    pub fn init(&mut self, clock: u32) -> (r: u32)
        requires
            old(self).wf(),
        ensures
            final(self).wf(),
            final(self).has_rom() == old(self).has_rom(),
            final(self).roms() == old(self).roms(),
            final(self).bus() == old(self).bus(),
            final(self)@ == (C140View {
                pcmtbl: Seq::new(256, |i: int| spec_pcmtbl(i)),
                lfsr: 0x1234,
                sample_rate: clock as i32 as int,
                baserate: clock as i32 as int,
                ..old(self)@
            }),
            r == clock as i32 as u32,
    {
        self.device_start();
        self.device_clock_changed(clock as i32) as u32
    }

    /// A register write from the sound stream (offset and data truncated to
    /// the bus widths).
    pub fn write_port(&mut self, offset: u32, data: u32)
        requires
            old(self).wf(),
        ensures
            final(self).wf(),
            final(self).has_rom() == old(self).has_rom(),
            final(self).roms() == old(self).roms(),
            final(self).bus() == old(self).bus(),
            final(self)@ == spec_c140_w(old(self)@, offset as usize, data as u8),
    {
        self.c140_w(offset as usize, data as u8);
    }

    /// Give the chip its ROM set.
    pub fn set_rom_bank(&mut self, rombank: RomBank)
        requires
            old(self).wf(),
            rombank is Some ==> rombank->0.wf(),
        ensures
            final(self).wf(),
            final(self)@ == old(self)@,
            final(self).has_rom() == rombank is Some,
            rombank is Some ==> final(self).roms() == rombank->0.roms() && final(self).bus() == rombank->0.bus(),
    {
        self.rombank = rombank;
        self.rom_bank_updated();
    }

    /// Add a ROM image to the chip's ROM set; returns its index there.
    pub fn add_rom(&mut self, memory: &[u8], start_address: usize, end_address: usize) -> (r: usize)
        requires
            old(self).wf(),
            old(self).has_rom(),
            old(self).roms().len() < usize::MAX,
            start_address <= end_address ==> end_address - start_address < memory@.len(),
        ensures
            final(self).wf(),
            final(self)@ == old(self)@,
            final(self).has_rom(),
            final(self).bus() == old(self).bus(),
            final(self).roms() == old(self).roms().push(
                RomView { start: start_address as int, end: end_address as int, memory: memory@ }),
            r == old(self).roms().len(),
    {
        let r = match &mut self.rombank {
            Some(r) => r.add_rom(memory, start_address, end_address),
            None => 0,
        };
        self.rom_bank_updated();
        r
    }
}

/// A voice that is keyed off (or has no frequency) is left as it is and
/// adds nothing to the mix.
pub proof fn lemma_c140_off_voice_silent(v: C140Voice, reg: Seq<u8>, i: int, roms: Seq<RomView>,
    bus: Option<(u8, u8, Seq<u8>)>, pcmtbl: Seq<i16>, sample_rate: int)
    requires
        v.key == 0 || spec_c140_frequency(reg, i) == 0,
    ensures
        spec_c140_voice_step(v, reg, i, roms, bus, pcmtbl, sample_rate) == (v, 0int, 0int),
{
}

/// Keying a voice on restarts it at the start of its sample, with the
/// sample addresses and bank latched from its registers, for every voice.
pub proof fn lemma_c140_key_on_restarts(s: C140View, ch: int, data: u8)
    requires
        0 <= ch < MAX_VOICE,
        s.reg.len() == C140_REGS,
        s.voi.len() == MAX_VOICE,
        data & 0x80 != 0,
    ensures
        ({
            let t = spec_c140_w(s, (ch * 16 + 5) as usize, data);
            &&& t.voi[ch].key == 1
            &&& t.voi[ch].pos == 0
            &&& t.voi[ch].ptoffset == 0
            &&& t.voi[ch].mode == data as i32
            &&& t.voi[ch].sample_start == (s.reg[ch * 16 + 6] as int * 256 + s.reg[ch * 16 + 7] as int) as i32
        }),
{
    let off = (ch * 16 + 5) as usize;
    crate::bits::lemma_usize_bits(off);
    assert((off & 0x1ff) as int == ch * 16 + 5);
}

/// A register write stores the byte at the offset modulo 0x200. A write to
/// byte 5 (the mode register) of one of the 24 voices' 16-byte blocks
/// keys that voice on where bit 7 of the byte is set, latching from its
/// block the bank (byte 4), the sample start (bytes 6-7), end (bytes 8-9)
/// and loop (bytes 10-11) as big-endian words and restarting it at the
/// sample start, or keys it off where bit 7 is clear; every other voice,
/// and every voice on any other write, is left as it was. A voice's
/// frequency is the big-endian word at bytes 2-3 of its block.
pub proof fn lemma_c140_register_write(s: C140View, offset: usize, data: u8)
    requires
        s.reg.len() == C140_REGS,
        s.voi.len() == MAX_VOICE,
    ensures
        ({
            let off = (offset % 0x200) as int;
            let t = spec_c140_w(s, offset, data);
            let ch = off / 16;
            let b = ch * 16;
            let voice = off < 0x180 && off % 16 == 5;
            &&& t.reg == s.reg.update(off, data)
            &&& !voice ==> t.voi == s.voi
            &&& voice && data < 0x80 ==> t.voi == s.voi.update(ch, C140Voice { key: 0, ..s.voi[ch] })
            &&& voice && data >= 0x80 ==> t.voi == s.voi.update(ch, C140Voice {
                key: 1,
                ptoffset: 0,
                pos: 0,
                lastdt: 0,
                prevdt: 0,
                dltdt: 0,
                bank: s.reg[b + 4] as i32,
                mode: data as i32,
                sample_start: (s.reg[b + 6] * 256 + s.reg[b + 7]) as i32,
                sample_end: (s.reg[b + 8] * 256 + s.reg[b + 9]) as i32,
                sample_loop: (s.reg[b + 10] * 256 + s.reg[b + 11]) as i32,
                ..s.voi[ch]
            })
        }),
        forall|i: int| 0 <= i < MAX_VOICE ==> spec_c140_frequency(s.reg, i) == s.reg[i * 16 + 2] * 256 + s.reg[i * 16 + 3],
{
    lemma_usize_bits(offset);
    crate::bits::lemma_u8_latch_bits(data);
}

} // verus!
