use vstd::prelude::*;
use crate::sound::sound_chip::SoundChipType;

verus! {

/// The chips that the ymfm library emulates, as its interface numbers them.
#[allow(non_camel_case_types)]
#[derive(Clone, Copy, PartialEq, Eq, Debug, Structural)]
pub enum ChipType {
    CHIP_YM2149,
    CHIP_YM2151,
    CHIP_YM2203,
    CHIP_YM2413,
    CHIP_YM2608,
    CHIP_YM2610,
    CHIP_YM2612,
    CHIP_YM3526,
    CHIP_Y8950,
    CHIP_YM3812,
    CHIP_YMF262,
    CHIP_YMF278B,
}

/// The number that the ymfm interface gives a chip type.
pub open spec fn spec_chip_number(t: ChipType) -> u16 {
    match t {
        ChipType::CHIP_YM2149 => 0,
        ChipType::CHIP_YM2151 => 1,
        ChipType::CHIP_YM2203 => 2,
        ChipType::CHIP_YM2413 => 3,
        ChipType::CHIP_YM2608 => 4,
        ChipType::CHIP_YM2610 => 5,
        ChipType::CHIP_YM2612 => 6,
        ChipType::CHIP_YM3526 => 7,
        ChipType::CHIP_Y8950 => 8,
        ChipType::CHIP_YM3812 => 9,
        ChipType::CHIP_YMF262 => 10,
        ChipType::CHIP_YMF278B => 11,
    }
}

impl ChipType {
    /// The number that the ymfm interface gives this chip type.
    pub fn number(&self) -> (r: u16)
        ensures
            r == spec_chip_number(*self),
    {
        match self {
            ChipType::CHIP_YM2149 => 0,
            ChipType::CHIP_YM2151 => 1,
            ChipType::CHIP_YM2203 => 2,
            ChipType::CHIP_YM2413 => 3,
            ChipType::CHIP_YM2608 => 4,
            ChipType::CHIP_YM2610 => 5,
            ChipType::CHIP_YM2612 => 6,
            ChipType::CHIP_YM3526 => 7,
            ChipType::CHIP_Y8950 => 8,
            ChipType::CHIP_YM3812 => 9,
            ChipType::CHIP_YMF262 => 10,
            ChipType::CHIP_YMF278B => 11,
        }
    }
}

/// Whether the ymfm front end takes a sound chip kind.
pub open spec fn spec_ymfm_supported(t: SoundChipType) -> bool {
    t == SoundChipType::YM2151 || t == SoundChipType::YM2203 || t == SoundChipType::YM2149
        || t == SoundChipType::YM2612 || t == SoundChipType::YM2413
}

/// The ymfm chip type of a supported sound chip kind.
pub open spec fn spec_ymfm_chip_type(t: SoundChipType) -> ChipType {
    match t {
        SoundChipType::YM2151 => ChipType::CHIP_YM2151,
        SoundChipType::YM2203 => ChipType::CHIP_YM2203,
        SoundChipType::YM2149 => ChipType::CHIP_YM2149,
        SoundChipType::YM2612 => ChipType::CHIP_YM2612,
        _ => ChipType::CHIP_YM2413,
    }
}

/// The output time step of one 44100 Hz sample, in 2^-32 seconds
/// (2^32 / 44100, rounded down).
pub const YMFM_OUTPUT_STEP: i64 = 97391;

/// The state that the library keeps for a chip emulated by ymfm: its type,
/// clock and sampling rate, and the emulated output time.
#[derive(Clone, Copy)]
pub struct YmFm {
    pub chip_type: ChipType,
    pub clock: u32,
    pub sampling_rate: u32,
    pub output_pos: i64,
    pub output_step: i64,
}

/// The output time after one sample: it advances by the step, and where
/// the sum passes `i64::MAX` it restarts from the excess.
pub open spec fn spec_ymfm_next_pos(pos: i64, step: i64) -> i64 {
    if pos as u64 as int + step as u64 as int > i64::MAX {
        (pos as u64 as int + step as u64 as int - i64::MAX) as i64
    } else {
        (pos + step) as i64
    }
}

impl YmFm {
    /// A chip of a kind that ymfm emulates (the YM2151, YM2203, YM2149,
    /// YM2612 or YM2413), not started.
    pub fn new(sound_device_name: SoundChipType) -> (r: Self)
        requires
            spec_ymfm_supported(sound_device_name),
        ensures
            r.chip_type == spec_ymfm_chip_type(sound_device_name),
            r.clock == 0,
            r.sampling_rate == 0,
            r.output_pos == 0,
            r.output_step == 0,
    {
        let chip_type = match sound_device_name {
            SoundChipType::YM2151 => ChipType::CHIP_YM2151,
            SoundChipType::YM2203 => ChipType::CHIP_YM2203,
            SoundChipType::YM2149 => ChipType::CHIP_YM2149,
            SoundChipType::YM2612 => ChipType::CHIP_YM2612,
            _ => ChipType::CHIP_YM2413,
        };
        YmFm { chip_type, clock: 0, sampling_rate: 0, output_pos: 0, output_step: 0 }
    }

    /// Record the start of the chip: its clock and the sampling rate that
    /// ymfm reported for it; output steps at 44100 Hz. Returns the rate.
    pub fn init(&mut self, clock: u32, sampling_rate: u32) -> (r: u32)
        ensures
            *final(self) == (YmFm { clock, sampling_rate, output_step: YMFM_OUTPUT_STEP, ..*old(self) }),
            r == sampling_rate,
    {
        self.sampling_rate = sampling_rate;
        self.clock = clock;
        self.output_step = 0x100000000 / 44100i64;
        self.sampling_rate
    }

    /// Advance the output time by one sample.
    pub fn advance_output(&mut self)
        requires
            old(self).output_pos >= 0,
            old(self).output_step >= 0,
        ensures
            *final(self) == (YmFm { output_pos: spec_ymfm_next_pos(old(self).output_pos, old(self).output_step), ..*old(self) }),
            final(self).output_pos >= 0,
    {
        let pos: u64 = self.output_pos as u64;
        let step: u64 = self.output_step as u64;
        if pos as u128 + step as u128 > i64::MAX as u128 {
            self.output_pos = (pos + step - i64::MAX as u64) as i64;
        } else {
            self.output_pos = self.output_pos + self.output_step;
        }
    }

    /// Whether the chip was started (its clock is set), so that ymfm holds
    /// an instance of it to remove.
    pub fn started(&self) -> (r: bool)
        ensures
            r == (self.clock != 0),
    {
        self.clock != 0
    }
}

/// The state that the library keeps for a YM2151 driven through the ymfm
/// interface: its clock and output rate.
pub struct YM2151 {
    pub clock: u32,
    pub sample_rate: u32,
}

impl YM2151 {
    /// A YM2151, not started.
    pub fn new() -> (r: Self)
        ensures
            r.clock == 0,
            r.sample_rate == 0,
    {
        YM2151 { clock: 0, sample_rate: 0 }
    }

    /// Record the clock and output rate that the chip is started with.
    pub fn init(&mut self, sample_rate: u32, clock: u32)
        ensures
            final(self).clock == clock,
            final(self).sample_rate == sample_rate,
    {
        self.clock = clock;
        self.sample_rate = sample_rate;
    }
}

} // verus!
