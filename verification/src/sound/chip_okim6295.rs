use vstd::prelude::*;
use crate::bits::{lemma_address18, lemma_u32_bits, lemma_u32_bytes, lemma_u8_bits, lemma_u8_select_bits, lemma_u8_set_low_bit, lemma_usize_bits};
use crate::sound::rom::{read_byte, set_rom_bus, spec_read_byte, OKIM6295RomDecoder, RomBank, RomBusType, RomView};
use crate::sound::adpcm::{diff_table_bounded, diff_table_computed, fill_diff_lookup, spec_diff, spec_index_shift, DIFF_LOOKUP_SIZE};


verus! {

/// Number of voices of the OKIM6295.
pub const OKIM6295_VOICES: usize = 4;

/// The state of an OKI ADPCM decoder.
pub struct AdpcmView {
    pub signal: int,
    pub step: int,
    pub loop_signal: int,
    pub loop_step: int,
    pub saved: bool,
}

/// The signal after adding the difference of `nibble`, clamped to 12 bits.
pub open spec fn spec_adpcm_next_signal(signal: int, step: int, nibble: u8) -> int {
    let s = signal + spec_diff(step, (nibble % 16) as int);
    if s < -2048 { -2048 } else if s > 2047 { 2047 } else { s }
}

/// The step index after `nibble`, clamped to the table.
pub open spec fn spec_adpcm_next_step(step: int, nibble: u8) -> int {
    let s = step + spec_index_shift((nibble % 8) as int);
    if s < 0 { 0 } else if s > 48 { 48 } else { s }
}

/// An OKI ADPCM decoder: a 12-bit signal, a step index and a saved loop point.
pub struct OkiAdpcmState {
    signal: i32,
    step: i32,
    loop_signal: i32,
    loop_step: i32,
    saved: bool,
    index_shift: [i8; 8],
    diff_lookup: Vec<i32>,
    tables_computed: bool,
}

impl View for OkiAdpcmState {
    type V = AdpcmView;

    closed spec fn view(&self) -> AdpcmView {
        AdpcmView {
            signal: self.signal as int,
            step: self.step as int,
            loop_signal: self.loop_signal as int,
            loop_step: self.loop_step as int,
            saved: self.saved,
        }
    }
}

impl OkiAdpcmState {
    /// The difference table.
    pub closed spec fn table(&self) -> Seq<i32> {
        self.diff_lookup@
    }

    /// The step index changes.
    pub closed spec fn shifts(&self) -> Seq<i8> {
        self.index_shift@
    }

    /// Whether the difference table is marked computed.
    pub closed spec fn tables_flag(&self) -> bool {
        self.tables_computed
    }

    /// The tables are computed.
    pub closed spec fn tables_ready(&self) -> bool {
        &&& self.tables_computed
        &&& diff_table_computed(self.diff_lookup@)
        &&& diff_table_bounded(self.diff_lookup@)
        &&& forall|n: int| 0 <= n < 8 ==> #[trigger] self.index_shift@[n] == spec_index_shift(n)
    }

    /// The decoder's tables are computed and its registers are in range.
    pub closed spec fn wf(&self) -> bool {
        &&& self.tables_ready()
        &&& -2048 <= self.signal <= 2047
        &&& 0 <= self.step <= 48
        &&& -2048 <= self.loop_signal <= 2047
        &&& 0 <= self.loop_step <= 48
    }

    /// A decoder with its tables computed and its registers at zero.
    pub fn new() -> (r: Self)
        ensures
            r.wf(),
            r.tables_flag(),
            diff_table_computed(r.table()),
            diff_table_bounded(r.table()),
            r@ == (AdpcmView { signal: 0, step: 0, loop_signal: 0, loop_step: 0, saved: false }),
    {
        let mut diff_lookup: Vec<i32> = Vec::new();
        let mut i: usize = 0;
        while i < DIFF_LOOKUP_SIZE
            invariant
                i <= DIFF_LOOKUP_SIZE,
                diff_lookup@.len() == i,
            decreases DIFF_LOOKUP_SIZE - i,
        {
            diff_lookup.push(0);
            i = i + 1;
        }
        let mut state = OkiAdpcmState {
            signal: 0,
            step: 0,
            loop_signal: 0,
            loop_step: 0,
            saved: false,
            index_shift: [-1, -1, -1, -1, 2, 4, 6, 8],
            diff_lookup,
            tables_computed: false,
        };
        proof {
            assert forall|n: int| 0 <= n < 8 implies #[trigger] state.index_shift@[n] == spec_index_shift(n) by {
                assert(state.index_shift@ =~= seq![-1i8, -1i8, -1i8, -1i8, 2i8, 4i8, 6i8, 8i8]);
            }
        }
        state.compute_tables();
        state.reset();
        state
    }

    /// Reset the signal, the step index and the loop point.
    pub fn reset(&mut self)
        requires
            old(self).tables_ready(),
        ensures
            final(self)@ == (AdpcmView { signal: 0, step: 0, loop_signal: 0, loop_step: 0, saved: false }),
            final(self).wf(),
            final(self).table() == old(self).table(),
    {
        self.signal = 0;
        self.loop_signal = self.signal;
        self.step = 0;
        self.loop_step = self.step;
        self.saved = false;
    }

    /// Decode one nibble: add its difference to the signal (clamped to
    /// -2048..=2047), adjust the step index (clamped to 0..=48), and return
    /// the new signal.
    pub fn clock(&mut self, nibble: u8) -> (r: i32)
        requires
            old(self).wf(),
        ensures
            final(self).wf(),
            r == final(self)@.signal,
            final(self)@.signal == spec_adpcm_next_signal(old(self)@.signal, old(self)@.step, nibble),
            final(self)@.step == spec_adpcm_next_step(old(self)@.step, nibble),
            final(self)@.loop_signal == old(self)@.loop_signal,
            final(self)@.loop_step == old(self)@.loop_step,
            final(self)@.saved == old(self)@.saved,
    {
        let idx: usize = (self.step * 16 + (nibble & 15) as i32) as usize;
        proof {
            lemma_u8_bits(nibble);
            assert(self.diff_lookup@[self.step * 16 + (nibble % 16) as int] == spec_diff(self.step as int, (nibble % 16) as int));
        }
        let d = self.diff_lookup[idx];
        let mut signal: i32 = self.signal + d;
        if signal < -2048 {
            signal = -2048;
        } else if signal > 2047 {
            signal = 2047;
        }
        self.signal = signal;
        let mut step: i32 = self.step + self.index_shift[(nibble & 7) as usize] as i32;
        if step < 0 {
            step = 0;
        } else if step > 48 {
            step = 48;
        }
        self.step = step;
        self.signal
    }

    /// The current signal.
    pub fn output(&self) -> (r: i32)
        ensures
            r == self@.signal,
    {
        self.signal
    }

    /// Remember the current signal and step index as the loop point, unless
    /// one is already remembered.
    pub fn save(&mut self)
        requires
            old(self).wf(),
        ensures
            final(self).wf(),
            old(self)@.saved ==> final(self)@ == old(self)@,
            !old(self)@.saved ==> final(self)@ == (AdpcmView {
                signal: old(self)@.signal,
                step: old(self)@.step,
                loop_signal: old(self)@.signal,
                loop_step: old(self)@.step,
                saved: true,
            }),
            final(self)@ == spec_adpcm_save(old(self)@),
    {
        if !self.saved {
            self.loop_signal = self.signal;
            self.loop_step = self.step;
            self.saved = true;
        }
    }

    /// Go back to the remembered loop point.
    pub fn restore(&mut self)
        requires
            old(self).wf(),
        ensures
            final(self).wf(),
            final(self)@ == (AdpcmView {
                signal: old(self)@.loop_signal,
                step: old(self)@.loop_step,
                ..old(self)@
            }),
            final(self)@ == spec_adpcm_restore(old(self)@),
    {
        self.signal = self.loop_signal;
        self.step = self.loop_step;
    }

    /// Compute the difference table, unless it is computed already.
    pub fn compute_tables(&mut self)
        requires
            old(self).table().len() == DIFF_LOOKUP_SIZE,
            old(self).tables_flag() ==> diff_table_computed(old(self).table()) && diff_table_bounded(old(self).table()),
        ensures
            final(self).tables_flag(),
            diff_table_computed(final(self).table()),
            diff_table_bounded(final(self).table()),
            final(self)@ == old(self)@,
            old(self).tables_flag() ==> final(self).table() == old(self).table(),
            final(self).shifts() == old(self).shifts(),
    {
        if self.tables_computed {
            return;
        }
        self.tables_computed = true;
        fill_diff_lookup(&mut self.diff_lookup);
    }
}

/// The state of one OKIM6295 voice.
pub struct OkiVoiceView {
    pub adpcm: AdpcmView,
    pub playing: bool,
    pub base_offset: int,
    pub sample: int,
    pub count: int,
    pub volume: int,
}

/// One voice of the OKIM6295: an ADPCM decoder walking a sample in ROM.
/// The volume is held as its 4-bit attenuation index.
pub struct OkiVoice {
    adpcm: OkiAdpcmState,
    playing: bool,
    base_offset: usize,
    sample: u32,
    count: usize,
    volume: u8,
}

impl View for OkiVoice {
    type V = OkiVoiceView;

    closed spec fn view(&self) -> OkiVoiceView {
        OkiVoiceView {
            adpcm: self.adpcm@,
            playing: self.playing,
            base_offset: self.base_offset as int,
            sample: self.sample as int,
            count: self.count as int,
            volume: self.volume as int,
        }
    }
}

/// The ROM byte that holds the next nibble of a voice, and the shift that
/// brings that nibble down (4 for the high nibble, 0 for the low one).
pub open spec fn spec_voice_nibble(roms: Seq<RomView>, bus: Option<(u8, u8, Seq<u8>)>, v: OkiVoiceView) -> u8 {
    let byte = spec_read_byte(roms, bus, (v.base_offset + v.sample / 2) as usize);
    if v.sample % 2 == 0 { byte >> 4u8 } else { byte }
}

impl OkiVoice {
    pub closed spec fn wf(&self) -> bool {
        &&& self.adpcm.wf()
        &&& self.base_offset <= 0x3ffff
        &&& self.count <= 0x80000
        &&& self.sample <= self.count
        &&& self.playing ==> self.sample < self.count
        &&& self.volume < 16
    }

    /// A silent voice.
    pub fn new() -> (r: Self)
        ensures
            r.wf(),
            r@ == (OkiVoiceView {
                adpcm: AdpcmView { signal: 0, step: 0, loop_signal: 0, loop_step: 0, saved: false },
                playing: false,
                base_offset: 0,
                sample: 0,
                count: 0,
                volume: 0,
            }),
    {
        OkiVoice { adpcm: OkiAdpcmState::new(), playing: false, base_offset: 0, sample: 0, count: 0, volume: 0 }
    }

    /// Decode the next nibble of a playing voice and return the decoder's
    /// signal; the voice stops after its last nibble. A silent voice gives
    /// `None` and is left as it is.
    pub fn generate_adpcm(&mut self, rombank: &RomBank) -> (r: Option<i32>)
        requires
            old(self).wf(),
            old(self)@.playing ==> rombank is Some && rombank->0.wf(),
        ensures
            final(self).wf(),
            !old(self)@.playing ==> r is None && final(self)@ == old(self)@,
            old(self)@.playing ==> {
                let nibble = spec_voice_nibble(rombank->0.roms(), rombank->0.bus(), old(self)@);
                let signal = spec_adpcm_next_signal(old(self)@.adpcm.signal, old(self)@.adpcm.step, nibble);
                &&& r == Some(signal as i32)
                &&& final(self)@.adpcm == (AdpcmView {
                    signal: signal,
                    step: spec_adpcm_next_step(old(self)@.adpcm.step, nibble),
                    ..old(self)@.adpcm
                })
                &&& final(self)@.sample == old(self)@.sample + 1
                &&& final(self)@.playing == (old(self)@.sample + 1 < old(self)@.count)
                &&& final(self)@.base_offset == old(self)@.base_offset
                &&& final(self)@.count == old(self)@.count
                &&& final(self)@.volume == old(self)@.volume
            },
    {
        if !self.playing {
            return None;
        }
        let byte = read_byte(rombank, self.base_offset + self.sample as usize / 2);
        let shift: u32 = ((self.sample & 1) << 2) ^ 4;
        proof {
            let s = self.sample;
            lemma_u32_bits(s);
            lemma_u8_bits(byte);
        }
        let nibble: u8 = byte >> shift;
        let signal = self.adpcm.clock(nibble);
        self.sample = self.sample + 1;
        if self.sample as usize >= self.count {
            self.playing = false;
        }
        Some(signal)
    }
}

/// The 18-bit ROM address held big-endian in three bytes.
pub open spec fn spec_address18(b0: u8, b1: u8, b2: u8) -> usize {
    (((b0 as usize) << 16usize) | ((b1 as usize) << 8usize) | (b2 as usize)) & 0x3ffffusize
}

/// Whether `data` (the second byte of a play command) selects voice `i`.
pub open spec fn spec_voice_selected(mask: u8, i: int) -> bool {
    (mask >> (i as u8)) & 1 != 0
}

/// A voice after the second byte of a play command of sample `cmd`: a
/// selected silent voice starts the sample, unless its start address is not
/// below its stop address.
pub open spec fn spec_voice_after_play(
    v: OkiVoiceView,
    roms: Seq<RomView>,
    bus: Option<(u8, u8, Seq<u8>)>,
    cmd: int,
    data: u8,
    i: int,
) -> OkiVoiceView {
    if spec_voice_selected(data >> 4u8, i) && !v.playing {
        let base = cmd * 8;
        let start = spec_address18(spec_read_byte(roms, bus, base as usize),
            spec_read_byte(roms, bus, (base + 1) as usize), spec_read_byte(roms, bus, (base + 2) as usize));
        let stop = spec_address18(spec_read_byte(roms, bus, (base + 3) as usize),
            spec_read_byte(roms, bus, (base + 4) as usize), spec_read_byte(roms, bus, (base + 5) as usize));
        if start < stop {
            OkiVoiceView {
                adpcm: AdpcmView { signal: 0, step: 0, loop_signal: 0, loop_step: 0, saved: false },
                playing: true,
                base_offset: start as int,
                sample: 0,
                count: 2 * (stop - start + 1),
                volume: (data % 16) as int,
            }
        } else {
            v
        }
    } else {
        v
    }
}

/// A voice after a stop command: a selected voice stops.
pub open spec fn spec_voice_after_stop(v: OkiVoiceView, data: u8, i: int) -> OkiVoiceView {
    if spec_voice_selected(data >> 3u8, i) {
        OkiVoiceView { playing: false, ..v }
    } else {
        v
    }
}

/// The state of an OKIM6295.
pub struct OKIM6295View {
    pub voices: Seq<OkiVoiceView>,
    pub command: int,
    pub pin7_state: int,
    pub clock: int,
}

/// OKIM6295 ADPCM chip: four voices that play samples from ROM.
#[allow(clippy::upper_case_acronyms)]
pub struct OKIM6295 {
    voice: Vec<OkiVoice>,
    command: i32,
    pin7_state: u8,
    clock: u32,
    rom_bank: RomBank,
}

impl View for OKIM6295 {
    type V = OKIM6295View;

    closed spec fn view(&self) -> OKIM6295View {
        OKIM6295View {
            voices: self.voice@.map_values(|v: OkiVoice| v@),
            command: self.command as int,
            pin7_state: self.pin7_state as int,
            clock: self.clock as int,
        }
    }
}

/// The chip's output rate for a clock and a pin 7 level.
pub open spec fn spec_okim6295_rate(clock: int, pin7_state: int) -> int {
    if pin7_state != 0 { clock / 132 } else { clock / 165 }
}

impl OKIM6295 {
    pub closed spec fn wf(&self) -> bool {
        &&& self.voice@.len() == OKIM6295_VOICES
        &&& forall|i: int| 0 <= i < OKIM6295_VOICES ==> (#[trigger] self.voice@[i]).wf()
        &&& -1 <= self.command <= 0x7f
        &&& self.pin7_state <= 1
        &&& self.rom_bank is Some ==> self.rom_bank->0.wf()
    }

    /// Whether the chip has been given a ROM set.
    pub closed spec fn has_rom(&self) -> bool {
        self.rom_bank is Some
    }

    /// The images of the chip's ROM set.
    pub closed spec fn roms(&self) -> Seq<RomView> {
        match self.rom_bank {
            Some(r) => r.roms(),
            None => Seq::empty(),
        }
    }

    /// The bus decoder of the chip's ROM set.
    pub closed spec fn bus(&self) -> Option<(u8, u8, Seq<u8>)> {
        match self.rom_bank {
            Some(r) => r.bus(),
            None => None,
        }
    }

    /// A chip with four silent voices and no pending command.
    pub fn from() -> (r: Self)
        ensures
            r.wf(),
            !r.has_rom(),
            r@.command == -1,
            r@.pin7_state == 0,
            r@.clock == 0,
            r@.voices.len() == OKIM6295_VOICES,
            forall|i: int| 0 <= i < OKIM6295_VOICES ==> !(#[trigger] r@.voices[i]).playing,
    {
        let mut voice: Vec<OkiVoice> = Vec::new();
        voice.push(OkiVoice::new());
        voice.push(OkiVoice::new());
        voice.push(OkiVoice::new());
        voice.push(OkiVoice::new());
        OKIM6295 { voice, command: -1, pin7_state: 0, clock: 0, rom_bank: None }
    }

    /// Start the chip at `clock` and return its output rate.
    pub fn device_start(&mut self, clock: u32) -> (r: u32)
        requires
            old(self).wf(),
        ensures
            final(self).wf(),
            final(self)@ == (OKIM6295View { clock: clock as int, ..old(self)@ }),
            final(self).has_rom() == old(self).has_rom(),
            final(self).roms() == old(self).roms(),
            final(self).bus() == old(self).bus(),
            r == spec_okim6295_rate(clock as int, old(self)@.pin7_state),
    {
        self.clock = clock;
        if self.pin7_state != 0 && self.pin7_state != 1 {
            self.pin7_state = 0;
        }
        let divisor: u32 = if self.pin7_state != 0 { 132 } else { 165 };
        self.clock / divisor
    }

    /// Stop every voice.
    pub fn device_reset(&mut self)
        requires
            old(self).wf(),
        ensures
            final(self).wf(),
            final(self)@.command == old(self)@.command,
            final(self)@.pin7_state == old(self)@.pin7_state,
            final(self)@.clock == old(self)@.clock,
            final(self)@.voices.len() == OKIM6295_VOICES,
            forall|i: int| 0 <= i < OKIM6295_VOICES ==> #[trigger] final(self)@.voices[i]
                == (OkiVoiceView { playing: false, ..old(self)@.voices[i] }),
            final(self).has_rom() == old(self).has_rom(),
            final(self).roms() == old(self).roms(),
            final(self).bus() == old(self).bus(),
    {
        let mut i: usize = 0;
        while i < OKIM6295_VOICES
            invariant
                0 <= i <= OKIM6295_VOICES,
                self.voice@.len() == OKIM6295_VOICES,
                forall|k: int| 0 <= k < OKIM6295_VOICES ==> (#[trigger] self.voice@[k]).wf(),
                forall|k: int| 0 <= k < i ==> #[trigger] self.voice@[k]@ == (OkiVoiceView { playing: false, ..old(self).voice@[k]@ }),
                forall|k: int| i <= k < OKIM6295_VOICES ==> #[trigger] self.voice@[k] == old(self).voice@[k],
                self.command == old(self).command,
                self.pin7_state == old(self).pin7_state,
                self.clock == old(self).clock,
                self.rom_bank == old(self).rom_bank,
            decreases OKIM6295_VOICES - i,
        {
            self.voice[i].playing = false;
            i = i + 1;
        }
        proof {
            assert forall|k: int| 0 <= k < OKIM6295_VOICES implies #[trigger] self@.voices[k]
                == (OkiVoiceView { playing: false, ..old(self)@.voices[k] }) by {
                assert(self@.voices[k] == self.voice@[k]@);
            }
        }
    }

    /// The output rate for the current clock and pin 7 level.
    pub fn device_clock_changed(&self) -> (r: u32)
        ensures
            r == spec_okim6295_rate(self@.clock, self@.pin7_state),
    {
        let divisor: u32 = if self.pin7_state != 0 { 132 } else { 165 };
        self.clock / divisor
    }

    /// Nothing depends on the ROM contents ahead of a read.
    pub fn rom_bank_updated(&mut self)
        ensures
            final(self)@ == old(self)@,
            *final(self) == *old(self),
    {
    }

    /// Set the level of pin 7 (which selects the clock divisor).
    pub fn set_pin7(&mut self, pin7: u8)
        requires
            old(self).wf(),
        ensures
            final(self).wf(),
            final(self)@ == (OKIM6295View { pin7_state: if pin7 != 0 { 1 } else { 0 }, ..old(self)@ }),
            final(self).has_rom() == old(self).has_rom(),
            final(self).roms() == old(self).roms(),
            final(self).bus() == old(self).bus(),
    {
        self.pin7_state = if pin7 != 0 { 1 } else { 0 };
        self.device_clock_changed();
    }

    /// The status byte: bits 4-7 set, and bit `i` set while voice `i` plays.
    pub fn read(&self) -> (r: u8)
        requires
            self.wf(),
        ensures
            r == spec_okim6295_status(self@.voices),
    {
        let mut result: u8 = 0xf0;
        let mut voicenum: usize = 0;
        while voicenum < OKIM6295_VOICES
            invariant
                0 <= voicenum <= OKIM6295_VOICES,
                self.voice@.len() == OKIM6295_VOICES,
                result == spec_status_prefix(self@.voices, voicenum as int),
            decreases OKIM6295_VOICES - voicenum,
        {
            assert(self@.voices[voicenum as int] == self.voice@[voicenum as int]@);
            if self.voice[voicenum].playing {
                result = result | (1u8 << voicenum as u8);
            }
            voicenum = voicenum + 1;
        }
        result
    }
}

impl OKIM6295 {
    /// Whether the second byte `data` of a play command reads the ROM: some
    /// voice it selects is silent.
    pub open spec fn play_reads_rom(&self, data: u8) -> bool {
        self@.command != -1 && exists|i: int| 0 <= i < OKIM6295_VOICES
            && spec_voice_selected(data >> 4u8, i) && !(#[trigger] self@.voices[i]).playing
    }

    /// Write a command byte. The first byte of a play command (bit 7 set)
    /// remembers the sample number; the second byte starts that sample on
    /// each selected silent voice, at the volume of its low four bits. A byte
    /// with bit 7 clear and no command pending stops the voices that its bits
    /// 3-6 select.
    pub fn write(&mut self, command: u8)
        requires
            old(self).wf(),
            old(self).play_reads_rom(command) ==> old(self).has_rom(),
        ensures
            final(self).wf(),
            final(self)@.pin7_state == old(self)@.pin7_state,
            final(self)@.clock == old(self)@.clock,
            final(self).has_rom() == old(self).has_rom(),
            final(self).roms() == old(self).roms(),
            final(self).bus() == old(self).bus(),
            final(self)@.voices.len() == OKIM6295_VOICES,
            old(self)@.command != -1 ==> {
                &&& final(self)@.command == -1
                &&& forall|i: int| 0 <= i < OKIM6295_VOICES ==> #[trigger] final(self)@.voices[i]
                    == spec_voice_after_play(old(self)@.voices[i], old(self).roms(), old(self).bus(),
                        old(self)@.command, command, i)
            },
            old(self)@.command == -1 && command & 0x80 != 0 ==> {
                &&& final(self)@.command == (command & 0x7f) as int
                &&& final(self)@.voices == old(self)@.voices
            },
            old(self)@.command == -1 && command & 0x80 == 0 ==> {
                &&& final(self)@.command == -1
                &&& forall|i: int| 0 <= i < OKIM6295_VOICES ==> #[trigger] final(self)@.voices[i]
                    == spec_voice_after_stop(old(self)@.voices[i], command, i)
            },
    {
        if self.command != -1 {
            let voicemask: u8 = command >> 4;
            let mut voicenum: usize = 0;
            while voicenum < OKIM6295_VOICES
                invariant
                    0 <= voicenum <= OKIM6295_VOICES,
                    old(self).wf(),
                    voicemask == command >> 4u8,
                    self.voice@.len() == OKIM6295_VOICES,
                    forall|k: int| 0 <= k < OKIM6295_VOICES ==> (#[trigger] self.voice@[k]).wf(),
                    forall|k: int| 0 <= k < voicenum ==> #[trigger] self.voice@[k]@
                        == spec_voice_after_play(old(self).voice@[k]@, old(self).roms(), old(self).bus(),
                            old(self)@.command, command, k),
                    forall|k: int| voicenum <= k < OKIM6295_VOICES ==> #[trigger] self.voice@[k] == old(self).voice@[k],
                    self.command == old(self).command,
                    self.command != -1,
                    self.pin7_state == old(self).pin7_state,
                    self.clock == old(self).clock,
                    self.rom_bank == old(self).rom_bank,
                    old(self).play_reads_rom(command) ==> old(self).has_rom(),
                decreases OKIM6295_VOICES - voicenum,
            {
                assert(old(self)@.voices[voicenum as int] == old(self).voice@[voicenum as int]@);
                if (voicemask >> voicenum as u8) & 1 != 0 && !self.voice[voicenum].playing {
                    assert(self.rom_bank is Some);
                    let base: usize = (self.command * 8) as usize;
                    let b0 = read_byte(&self.rom_bank, base);
                    let b1 = read_byte(&self.rom_bank, base + 1);
                    let b2 = read_byte(&self.rom_bank, base + 2);
                    let b3 = read_byte(&self.rom_bank, base + 3);
                    let b4 = read_byte(&self.rom_bank, base + 4);
                    let b5 = read_byte(&self.rom_bank, base + 5);
                    let raw_start: usize = ((b0 as usize) << 16) | ((b1 as usize) << 8) | (b2 as usize);
                    let raw_stop: usize = ((b3 as usize) << 16) | ((b4 as usize) << 8) | (b5 as usize);
                    proof {
                        lemma_usize_bits(raw_start);
                        lemma_usize_bits(raw_stop);
                        lemma_u8_bits(command);
                    }
                    let start: usize = raw_start & 0x3ffff;
                    let stop: usize = raw_stop & 0x3ffff;
                    if start < stop {
                        let volume: u8 = command & 0x0f;
                        let ghost before = self.voice@[voicenum as int];
                        let voice = &mut self.voice[voicenum];
                        voice.playing = true;
                        voice.base_offset = start;
                        voice.sample = 0;
                        voice.count = 2 * (stop - start + 1);
                        voice.adpcm.reset();
                        voice.volume = volume;
                    }
                }
                voicenum = voicenum + 1;
            }
            self.command = -1;
        } else if command & 0x80 != 0 {
            proof {
                lemma_u8_bits(command);
            }
            self.command = (command & 0x7f) as i32;
        } else {
            let voicemask: u8 = command >> 3;
            let mut voicenum: usize = 0;
            while voicenum < OKIM6295_VOICES
                invariant
                    0 <= voicenum <= OKIM6295_VOICES,
                    voicemask == command >> 3u8,
                    self.voice@.len() == OKIM6295_VOICES,
                    forall|k: int| 0 <= k < OKIM6295_VOICES ==> (#[trigger] self.voice@[k]).wf(),
                    forall|k: int| 0 <= k < voicenum ==> #[trigger] self.voice@[k]@
                        == spec_voice_after_stop(old(self).voice@[k]@, command, k),
                    forall|k: int| voicenum <= k < OKIM6295_VOICES ==> #[trigger] self.voice@[k] == old(self).voice@[k],
                    self.command == old(self).command,
                    self.pin7_state == old(self).pin7_state,
                    self.clock == old(self).clock,
                    self.rom_bank == old(self).rom_bank,
                decreases OKIM6295_VOICES - voicenum,
            {
                if (voicemask >> voicenum as u8) & 1 != 0 {
                    self.voice[voicenum].playing = false;
                }
                voicenum = voicenum + 1;
            }
        }
        proof {
            assert forall|k: int| 0 <= k < OKIM6295_VOICES implies #[trigger] self@.voices[k] == self.voice@[k]@ by {}
            assert forall|k: int| 0 <= k < OKIM6295_VOICES implies #[trigger] old(self)@.voices[k] == old(self).voice@[k]@ by {}
            if old(self)@.command == -1 && command & 0x80 != 0 {
                assert(self@.voices =~= old(self)@.voices);
            }
        }
    }

    /// Advance every voice by one output sample. For each voice, in order,
    /// gives `None` for a silent voice and otherwise the decoder's signal with
    /// the voice's attenuation index.
    pub fn sound_stream_update(&mut self) -> (r: Vec<Option<(i32, u8)>>)
        requires
            old(self).wf(),
            (exists|i: int| 0 <= i < OKIM6295_VOICES && (#[trigger] old(self)@.voices[i]).playing) ==> old(self).has_rom(),
        ensures
            final(self).wf(),
            r@.len() == OKIM6295_VOICES,
            final(self)@.command == old(self)@.command,
            final(self)@.pin7_state == old(self)@.pin7_state,
            final(self)@.clock == old(self)@.clock,
            final(self).has_rom() == old(self).has_rom(),
            final(self).roms() == old(self).roms(),
            final(self).bus() == old(self).bus(),
            final(self)@.voices.len() == OKIM6295_VOICES,
            forall|i: int| 0 <= i < OKIM6295_VOICES ==> {
                let v = #[trigger] old(self)@.voices[i];
                let w = final(self)@.voices[i];
                if v.playing {
                    let nibble = spec_voice_nibble(old(self).roms(), old(self).bus(), v);
                    let signal = spec_adpcm_next_signal(v.adpcm.signal, v.adpcm.step, nibble);
                    &&& r@[i] == Some((signal as i32, v.volume as u8))
                    &&& w.adpcm == (AdpcmView { signal: signal, step: spec_adpcm_next_step(v.adpcm.step, nibble), ..v.adpcm })
                    &&& w.sample == v.sample + 1
                    &&& w.playing == (v.sample + 1 < v.count)
                    &&& w.base_offset == v.base_offset
                    &&& w.count == v.count
                    &&& w.volume == v.volume
                } else {
                    r@[i] is None && w == v
                }
            },
    {
        let mut out: Vec<Option<(i32, u8)>> = Vec::new();
        let mut i: usize = 0;
        while i < OKIM6295_VOICES
            invariant
                0 <= i <= OKIM6295_VOICES,
                out@.len() == i,
                self.voice@.len() == OKIM6295_VOICES,
                forall|k: int| 0 <= k < OKIM6295_VOICES ==> (#[trigger] self.voice@[k]).wf(),
                forall|k: int| i <= k < OKIM6295_VOICES ==> #[trigger] self.voice@[k] == old(self).voice@[k],
                forall|k: int| 0 <= k < i ==> {
                    let v = #[trigger] old(self).voice@[k]@;
                    let w = self.voice@[k]@;
                    if v.playing {
                        let nibble = spec_voice_nibble(old(self).roms(), old(self).bus(), v);
                        let signal = spec_adpcm_next_signal(v.adpcm.signal, v.adpcm.step, nibble);
                        &&& out@[k] == Some((signal as i32, v.volume as u8))
                        &&& w.adpcm == (AdpcmView { signal: signal, step: spec_adpcm_next_step(v.adpcm.step, nibble), ..v.adpcm })
                        &&& w.sample == v.sample + 1
                        &&& w.playing == (v.sample + 1 < v.count)
                        &&& w.base_offset == v.base_offset
                        &&& w.count == v.count
                        &&& w.volume == v.volume
                    } else {
                        out@[k] is None && w == v
                    }
                },
                self.command == old(self).command,
                self.pin7_state == old(self).pin7_state,
                self.clock == old(self).clock,
                self.rom_bank == old(self).rom_bank,
                old(self).wf(),
                (exists|k: int| 0 <= k < OKIM6295_VOICES && (#[trigger] old(self)@.voices[k]).playing) ==> old(self).has_rom(),
            decreases OKIM6295_VOICES - i,
        {
            assert(old(self)@.voices[i as int] == old(self).voice@[i as int]@);
            let volume = self.voice[i].volume;
            let sample = self.voice[i].generate_adpcm(&self.rom_bank);
            match sample {
                Some(signal) => out.push(Some((signal, volume))),
                None => out.push(None),
            }
            i = i + 1;
        }
        proof {
            assert forall|k: int| 0 <= k < OKIM6295_VOICES implies #[trigger] self@.voices[k] == self.voice@[k]@ by {}
            assert forall|k: int| 0 <= k < OKIM6295_VOICES implies #[trigger] old(self)@.voices[k] == old(self).voice@[k]@ by {}
        }
        out
    }

    /// The state of voice `i`.
    pub fn voice_playing(&self, i: usize) -> (r: bool)
        requires
            self.wf(),
            i < OKIM6295_VOICES,
        ensures
            r == self@.voices[i as int].playing,
    {
        self.voice[i].playing
    }

    /// Start the chip, stop its voices, and return its output rate.
    pub fn init(&mut self, clock: u32) -> (r: u32)
        requires
            old(self).wf(),
        ensures
            final(self).wf(),
            final(self)@.clock == clock,
            final(self)@.command == old(self)@.command,
            final(self)@.pin7_state == old(self)@.pin7_state,
            final(self)@.voices.len() == OKIM6295_VOICES,
            forall|i: int| 0 <= i < OKIM6295_VOICES ==> !(#[trigger] final(self)@.voices[i]).playing,
            final(self).has_rom() == old(self).has_rom(),
            final(self).roms() == old(self).roms(),
            final(self).bus() == old(self).bus(),
            r == spec_okim6295_rate(clock as int, old(self)@.pin7_state),
    {
        self.device_start(clock);
        self.device_reset();
        self.device_clock_changed()
    }

    /// Write to the chip's ports: 0 the command byte, 8-0xb the bytes of the
    /// clock (which give the new output rate), 0xc pin 7, 0xe-0x13 the bank
    /// registers of the ROM bus decoder. Other offsets are ignored.
    pub fn write_port(&mut self, offset: u32, data: u32) -> (r: Option<u32>)
        requires
            old(self).wf(),
            offset == 0 ==> (old(self).play_reads_rom((data & 0xff) as u8) ==> old(self).has_rom()),
        ensures
            final(self).wf(),
            final(self).has_rom() == old(self).has_rom(),
            final(self).roms() == old(self).roms(),
            offset == 0xb ==> r == Some(spec_okim6295_rate(final(self)@.clock, final(self)@.pin7_state) as u32),
            offset != 0xb ==> r is None,
            offset == 0x8 ==> final(self)@ == (OKIM6295View {
                clock: ((old(self)@.clock as u32 & !0xffu32) | (data & 0xff)) as int, ..old(self)@ }),
            offset == 0x9 ==> final(self)@ == (OKIM6295View {
                clock: ((old(self)@.clock as u32 & !0xff00u32) | ((data & 0xff) << 8)) as int, ..old(self)@ }),
            offset == 0xa ==> final(self)@ == (OKIM6295View {
                clock: ((old(self)@.clock as u32 & !0xff0000u32) | ((data & 0xff) << 16)) as int, ..old(self)@ }),
            offset == 0xb ==> final(self)@ == (OKIM6295View {
                clock: ((old(self)@.clock as u32 & !0xff000000u32) | ((data & 0x7f) << 24)) as int, ..old(self)@ }),
            offset == 0xc ==> final(self)@ == (OKIM6295View { pin7_state: if data & 0xff != 0 { 1 } else { 0 }, ..old(self)@ }),
            offset == 0xe ==> final(self)@ == old(self)@ && final(self).bus() == (match old(self).bus() {
                Some((e, b, nb)) => Some(((data & 0xff) as u8, b, nb)),
                None => None,
            }),
            offset == 0xf ==> final(self)@ == old(self)@ && final(self).bus() == (match old(self).bus() {
                Some((e, b, nb)) => Some((e, (data & 0xff) as u8, nb)),
                None => None,
            }),
            0x10 <= offset <= 0x13 ==> final(self)@ == old(self)@ && final(self).bus() == (match old(self).bus() {
                Some((e, b, nb)) => Some((e, b, nb.update((offset & 3) as int, (data & 0xff) as u8))),
                None => None,
            }),
            !(offset == 0 || 0x8 <= offset <= 0xc || 0xe <= offset <= 0x13) ==> final(self)@ == old(self)@
                && final(self).bus() == old(self).bus(),
    {
        let full = data;
        let data: u8 = (data & 0xff) as u8;
        proof {
            lemma_u32_bytes(full);
            lemma_u32_bytes(offset);
        }
        if offset == 0x0 {
            self.write(data);
            None
        } else if offset == 0x8 {
            self.clock = self.clock & !0x000000ff;
            self.clock = self.clock | data as u32;
            None
        } else if offset == 0x9 {
            self.clock = self.clock & !0x0000ff00;
            self.clock = self.clock | ((data as u32) << 8);
            None
        } else if offset == 0xa {
            self.clock = self.clock & !0x00ff0000;
            self.clock = self.clock | ((data as u32) << 16);
            None
        } else if offset == 0xb {
            let d: u8 = data & 0x7f;
            self.clock = self.clock & !0xff000000;
            self.clock = self.clock | ((d as u32) << 24);
            Some(self.device_clock_changed())
        } else if offset == 0xc {
            self.set_pin7(data);
            None
        } else if offset == 0xe {
            if let Some(r) = &mut self.rom_bank {
                r.set_bus_nmk112_enable(data);
            }
            None
        } else if offset == 0xf {
            if let Some(r) = &mut self.rom_bank {
                r.set_bus_bank(data);
            }
            None
        } else if 0x10 <= offset && offset <= 0x13 {
            if let Some(r) = &mut self.rom_bank {
                r.set_bus_nmk112_bank((offset & 0x03) as usize, data);
            }
            None
        } else {
            None
        }
    }

    /// Give the chip its ROM set (the OKIM6295 has one).
    pub fn set_rom_bank(&mut self, rombank: RomBank)
        requires
            old(self).wf(),
            rombank is Some ==> rombank->0.wf(),
        ensures
            final(self).wf(),
            final(self)@ == old(self)@,
            final(self).has_rom() == rombank is Some,
            rombank is Some ==> final(self).roms() == rombank->0.roms() && final(self).bus() == rombank->0.bus(),
    {
        self.rom_bank = rombank;
        self.rom_bank_updated();
    }

    /// Add a ROM image to the chip's ROM set; gives its index.
    pub fn add_rom(&mut self, memory: &[u8], start_address: usize, end_address: usize) -> (r: usize)
        requires
            old(self).wf(),
            old(self).has_rom(),
            old(self).roms().len() < usize::MAX,
            start_address <= end_address ==> end_address - start_address < memory@.len(),
        ensures
            final(self).wf(),
            final(self)@ == old(self)@,
            final(self).has_rom(),
            final(self).bus() == old(self).bus(),
            final(self).roms() == old(self).roms().push(
                RomView { start: start_address as int, end: end_address as int, memory: memory@ }),
            r == old(self).roms().len(),
    {
        match &mut self.rom_bank {
            Some(r) => r.add_rom(memory, start_address, end_address),
            None => 0,
        }
    }

    /// Attach the bus that the ROM type calls for: the OKIM6295 bus gets an
    /// NMK112 decoder with its registers at zero; other types change nothing.
    pub fn set_rom_bus(&mut self, rom_bus_type: Option<RomBusType>)
        requires
            old(self).wf(),
            rom_bus_type == Some(RomBusType::OKIM6295) ==> old(self).has_rom(),
        ensures
            final(self).wf(),
            final(self)@ == old(self)@,
            final(self).has_rom() == old(self).has_rom(),
            final(self).roms() == old(self).roms(),
            rom_bus_type == Some(RomBusType::OKIM6295) ==> final(self).bus() == Some((0u8, 0u8, seq![0u8, 0u8, 0u8, 0u8])),
            rom_bus_type != Some(RomBusType::OKIM6295) ==> final(self).bus() == old(self).bus(),
    {
        if let Some(RomBusType::OKIM6295) = rom_bus_type {
            set_rom_bus(&mut self.rom_bank, Some(OKIM6295RomDecoder::new()));
        }
    }
}

/// The status byte computed over the first `n` voices.
pub open spec fn spec_status_prefix(voices: Seq<OkiVoiceView>, n: int) -> u8
    decreases n,
{
    if n <= 0 {
        0xf0
    } else if voices[n - 1].playing {
        spec_status_prefix(voices, n - 1) | (1u8 << ((n - 1) as u8))
    } else {
        spec_status_prefix(voices, n - 1)
    }
}

/// The status byte of a chip.
pub open spec fn spec_okim6295_status(voices: Seq<OkiVoiceView>) -> u8 {
    spec_status_prefix(voices, 4)
}

/// Law: decoding keeps the decoder in range, whatever the nibbles.
pub proof fn lemma_adpcm_clock_in_range(signal: int, step: int, nibble: u8)
    requires
        -2048 <= signal <= 2047,
        0 <= step <= 48,
    ensures
        -2048 <= spec_adpcm_next_signal(signal, step, nibble) <= 2047,
        0 <= spec_adpcm_next_step(step, nibble) <= 48,
{
}

/// The decoder state after clocking in each nibble of `nibbles` in turn.
pub open spec fn spec_adpcm_run(a: AdpcmView, nibbles: Seq<u8>) -> AdpcmView
    decreases nibbles.len(),
{
    if nibbles.len() == 0 {
        a
    } else {
        let a1 = spec_adpcm_run(a, nibbles.drop_last());
        let n = nibbles.last();
        AdpcmView {
            signal: spec_adpcm_next_signal(a1.signal, a1.step, n),
            step: spec_adpcm_next_step(a1.step, n),
            ..a1
        }
    }
}

/// Clocking keeps the loop point.
pub proof fn lemma_adpcm_run_keeps_loop(a: AdpcmView, nibbles: Seq<u8>)
    ensures
        spec_adpcm_run(a, nibbles).loop_signal == a.loop_signal,
        spec_adpcm_run(a, nibbles).loop_step == a.loop_step,
        spec_adpcm_run(a, nibbles).saved == a.saved,
    decreases nibbles.len(),
{
    if nibbles.len() > 0 {
        lemma_adpcm_run_keeps_loop(a, nibbles.drop_last());
    }
}

/// A decoder that is in range stays in range (12-bit signal, step 0 to 48)
/// whatever it is fed.
pub proof fn lemma_adpcm_run_in_range(a: AdpcmView, nibbles: Seq<u8>)
    requires
        -2048 <= a.signal <= 2047,
        0 <= a.step <= 48,
    ensures
        -2048 <= spec_adpcm_run(a, nibbles).signal <= 2047,
        0 <= spec_adpcm_run(a, nibbles).step <= 48,
    decreases nibbles.len(),
{
    if nibbles.len() > 0 {
        lemma_adpcm_run_in_range(a, nibbles.drop_last());
        let a1 = spec_adpcm_run(a, nibbles.drop_last());
        lemma_adpcm_clock_in_range(a1.signal, a1.step, nibbles.last());
    }
}

/// Restoring after a first save brings the decoder back to the signal and
/// step it had when it saved, whatever was decoded in between.
pub proof fn lemma_adpcm_save_restore(a: AdpcmView, nibbles: Seq<u8>)
    requires
        !a.saved,
    ensures
        ({
            let saved = AdpcmView { loop_signal: a.signal, loop_step: a.step, saved: true, ..a };
            let run = spec_adpcm_run(saved, nibbles);
            &&& run.loop_signal == a.signal
            &&& run.loop_step == a.step
        }),
{
    let saved = AdpcmView { loop_signal: a.signal, loop_step: a.step, saved: true, ..a };
    lemma_adpcm_run_keeps_loop(saved, nibbles);
}

/// A save: the first one since a reset keeps the signal and step as the
/// loop point; later ones change nothing.
pub open spec fn spec_adpcm_save(a: AdpcmView) -> AdpcmView {
    if a.saved { a } else { AdpcmView { loop_signal: a.signal, loop_step: a.step, saved: true, ..a } }
}

/// A restore: the signal and step go back to the loop point.
pub open spec fn spec_adpcm_restore(a: AdpcmView) -> AdpcmView {
    AdpcmView { signal: a.loop_signal, step: a.loop_step, ..a }
}

/// The decoder after a sequence of calls: `Some(n)` clocks in nibble `n`,
/// `None` saves.
pub open spec fn spec_adpcm_calls(a: AdpcmView, calls: Seq<Option<u8>>) -> AdpcmView
    decreases calls.len(),
{
    if calls.len() == 0 {
        a
    } else {
        let a1 = spec_adpcm_calls(a, calls.drop_last());
        match calls.last() {
            Some(n) => AdpcmView {
                signal: spec_adpcm_next_signal(a1.signal, a1.step, n),
                step: spec_adpcm_next_step(a1.step, n),
                ..a1
            },
            None => spec_adpcm_save(a1),
        }
    }
}

proof fn lemma_adpcm_calls_keep_saved_loop(a: AdpcmView, calls: Seq<Option<u8>>)
    requires
        a.saved,
    ensures
        spec_adpcm_calls(a, calls).saved,
        spec_adpcm_calls(a, calls).loop_signal == a.loop_signal,
        spec_adpcm_calls(a, calls).loop_step == a.loop_step,
    decreases calls.len(),
{
    if calls.len() > 0 {
        lemma_adpcm_calls_keep_saved_loop(a, calls.drop_last());
    }
}

/// The first save after a reset fixes the loop point: whatever sequence of
/// clocks and further saves follows, a restore brings back the signal and
/// step of that first save.
pub proof fn lemma_adpcm_first_save_wins(a: AdpcmView, calls: Seq<Option<u8>>)
    requires
        !a.saved,
    ensures
        ({
            let b = spec_adpcm_restore(spec_adpcm_calls(spec_adpcm_save(a), calls));
            &&& b.signal == a.signal
            &&& b.step == a.step
            &&& b.saved
        }),
{
    lemma_adpcm_calls_keep_saved_loop(spec_adpcm_save(a), calls);
}

/// A stop byte (bit 7 clear, no command pending) stops voice `i` exactly
/// when its bit 3 + `i` is set (bit 3 for voice 0, up to bit 6 for voice
/// 3), and changes nothing else of the voice.
pub proof fn lemma_okim6295_stop_bits(v: OkiVoiceView, data: u8, i: int)
    requires
        0 <= i < 4,
    ensures
        ({
            let bit: u8 = if i == 0 { 0x08u8 } else if i == 1 { 0x10u8 } else if i == 2 { 0x20u8 } else { 0x40u8 };
            spec_voice_after_stop(v, data, i) == (if data & bit != 0 { OkiVoiceView { playing: false, ..v } } else { v })
        }),
{
    lemma_u8_select_bits(data);
}

/// The second byte of a play command selects voice `i` by its bit 4 + `i`
/// (bit 4 for voice 0, up to bit 7 for voice 3). A selected silent voice
/// starts sample `cmd`: its start and stop addresses are the 18-bit
/// big-endian values of the three bytes at `cmd * 8` and at `cmd * 8 + 3`;
/// where start is below stop, it plays 2 * (stop - start + 1) nibbles from
/// the start, at the volume of the byte's low four bits, with the decoder
/// cleared. Any other voice stays as it was.
pub proof fn lemma_okim6295_play_bits(
    v: OkiVoiceView,
    roms: Seq<RomView>,
    bus: Option<(u8, u8, Seq<u8>)>,
    cmd: int,
    data: u8,
    i: int,
)
    requires
        0 <= i < 4,
        0 <= cmd < 128,
    ensures
        ({
            let bit: u8 = if i == 0 { 0x10u8 } else if i == 1 { 0x20u8 } else if i == 2 { 0x40u8 } else { 0x80u8 };
            let rd = |k: int| spec_read_byte(roms, bus, (cmd * 8 + k) as usize) as int;
            let start = (rd(0) % 4) * 0x10000 + rd(1) * 0x100 + rd(2);
            let stop = (rd(3) % 4) * 0x10000 + rd(4) * 0x100 + rd(5);
            let w = spec_voice_after_play(v, roms, bus, cmd, data, i);
            &&& (data & bit == 0 || v.playing || start >= stop) ==> w == v
            &&& (data & bit != 0 && !v.playing && start < stop) ==> w == (OkiVoiceView {
                adpcm: AdpcmView { signal: 0, step: 0, loop_signal: 0, loop_step: 0, saved: false },
                playing: true,
                base_offset: start,
                sample: 0,
                count: 2 * (stop - start + 1),
                volume: (data % 16) as int,
            })
        }),
{
    lemma_u8_select_bits(data);
    let base = cmd * 8;
    lemma_address18(spec_read_byte(roms, bus, base as usize), spec_read_byte(roms, bus, (base + 1) as usize),
        spec_read_byte(roms, bus, (base + 2) as usize));
    lemma_address18(spec_read_byte(roms, bus, (base + 3) as usize), spec_read_byte(roms, bus, (base + 4) as usize),
        spec_read_byte(roms, bus, (base + 5) as usize));
}

/// The status byte has its high four bits set, and bit `i` set exactly
/// while voice `i` plays.
pub proof fn lemma_okim6295_status_bits(voices: Seq<OkiVoiceView>)
    requires
        voices.len() == 4,
    ensures
        spec_okim6295_status(voices) == 0xf0 + (if voices[0].playing { 1int } else { 0 })
            + (if voices[1].playing { 2int } else { 0 }) + (if voices[2].playing { 4int } else { 0 })
            + (if voices[3].playing { 8int } else { 0 }),
{
    reveal_with_fuel(spec_status_prefix, 5);
    lemma_u8_set_low_bit(spec_status_prefix(voices, 0));
    lemma_u8_set_low_bit(spec_status_prefix(voices, 1));
    lemma_u8_set_low_bit(spec_status_prefix(voices, 2));
    lemma_u8_set_low_bit(spec_status_prefix(voices, 3));
}

} // verus!
