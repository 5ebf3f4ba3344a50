use vstd::prelude::*;
use crate::sound::rom::RomIndex;
use crate::sound::sound_chip::SoundChipType;

verus! {

/// The resampler that carries a chip's output to the slot's output rate.
#[derive(PartialEq, Eq, Clone, Copy, Debug, Structural)]
pub enum StreamKind {
    /// The chip runs at the output rate.
    Native,
    /// A PSG or PWM chip faster than the output: average its samples.
    OverSample,
    /// Another chip faster than the output: take the nearest sample.
    NearestDownSample,
    /// A chip slower than the output: interpolate linearly.
    LinearUpSampling,
}

/// The resampler for a chip rate and an output rate.
pub open spec fn spec_select_stream(chip_rate: u32, output_rate: u32, t: SoundChipType) -> StreamKind {
    if chip_rate == output_rate {
        StreamKind::Native
    } else if chip_rate > output_rate {
        if t == SoundChipType::SEGAPSG || t == SoundChipType::SN76489 || t == SoundChipType::PWM {
            StreamKind::OverSample
        } else {
            StreamKind::NearestDownSample
        }
    } else {
        StreamKind::LinearUpSampling
    }
}

/// Choose the resampler for a chip of kind `t` running at `chip_rate`.
pub fn select_stream(chip_rate: u32, output_rate: u32, t: SoundChipType) -> (r: StreamKind)
    ensures
        r == spec_select_stream(chip_rate, output_rate, t),
{
    if chip_rate == output_rate {
        StreamKind::Native
    } else if chip_rate > output_rate {
        match t {
            SoundChipType::SEGAPSG | SoundChipType::SN76489 | SoundChipType::PWM => StreamKind::OverSample,
            _ => StreamKind::NearestDownSample,
        }
    } else {
        StreamKind::LinearUpSampling
    }
}

/// The ROM sets that a chip kind is given when it is added.
pub open spec fn spec_chip_rom_indexes(t: SoundChipType) -> Seq<RomIndex> {
    match t {
        SoundChipType::YM2608 => seq![RomIndex::YM2608_DELTA_T],
        SoundChipType::YM2610 => seq![RomIndex::YM2610_ADPCM, RomIndex::YM2610_DELTA_T],
        SoundChipType::Y8950 => seq![RomIndex::Y8950_ROM],
        SoundChipType::YMF278B => seq![RomIndex::YMF278B_ROM, RomIndex::YMF278B_RAM],
        SoundChipType::SEGAPCM => seq![RomIndex::SEGAPCM_ROM],
        _ => Seq::empty(),
    }
}

/// The ROM sets that a chip kind is given when it is added.
pub fn chip_rom_indexes(t: SoundChipType) -> (r: Vec<RomIndex>)
    ensures
        r@ == spec_chip_rom_indexes(t),
{
    let r = match t {
        SoundChipType::YM2608 => vec![RomIndex::YM2608_DELTA_T],
        SoundChipType::YM2610 => vec![RomIndex::YM2610_ADPCM, RomIndex::YM2610_DELTA_T],
        SoundChipType::Y8950 => vec![RomIndex::Y8950_ROM],
        SoundChipType::YMF278B => vec![RomIndex::YMF278B_ROM, RomIndex::YMF278B_RAM],
        SoundChipType::SEGAPCM => vec![RomIndex::SEGAPCM_ROM],
        _ => Vec::new(),
    };
    assert(r@ =~= spec_chip_rom_indexes(t));
    r
}

/// The chip kind that is told of a ROM added to a set.
pub open spec fn spec_rom_index_chip(r: RomIndex) -> Option<SoundChipType> {
    match r {
        RomIndex::YM2608_DELTA_T => Some(SoundChipType::YM2608),
        RomIndex::YM2610_ADPCM => Some(SoundChipType::YM2610),
        RomIndex::YM2610_DELTA_T => Some(SoundChipType::YM2610),
        RomIndex::YMF278B_ROM => Some(SoundChipType::YMF278B),
        RomIndex::YMF278B_RAM => Some(SoundChipType::YMF278B),
        RomIndex::Y8950_ROM => Some(SoundChipType::Y8950),
        RomIndex::SEGAPCM_ROM => Some(SoundChipType::SEGAPCM),
        _ => None,
    }
}

/// The chip kind that is told of a ROM added to a set, if any.
pub fn rom_index_chip(r: RomIndex) -> (c: Option<SoundChipType>)
    ensures
        c == spec_rom_index_chip(r),
{
    match r {
        RomIndex::YM2608_DELTA_T => Some(SoundChipType::YM2608),
        RomIndex::YM2610_ADPCM => Some(SoundChipType::YM2610),
        RomIndex::YM2610_DELTA_T => Some(SoundChipType::YM2610),
        RomIndex::YMF278B_ROM => Some(SoundChipType::YMF278B),
        RomIndex::YMF278B_RAM => Some(SoundChipType::YMF278B),
        RomIndex::Y8950_ROM => Some(SoundChipType::Y8950),
        RomIndex::SEGAPCM_ROM => Some(SoundChipType::SEGAPCM),
        _ => None,
    }
}

/// The index at which a device is looked up among `len` devices of a kind:
/// none where no device has that index.
pub fn find_device_index(len: usize, index: usize) -> (r: Option<usize>)
    ensures
        r == if index < len { Some(index) } else { None },
{
    if index < len { Some(index) } else { None }
}

} // verus!
