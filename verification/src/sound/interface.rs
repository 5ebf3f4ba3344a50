use vstd::prelude::*;
use crate::sound::rom::{spec_rom_read, RomBank};

pub use crate::sound::sound_chip::SoundChipType;

verus! {

/// Read the byte at `address` from a chip's ROM images (no bus decoding).
pub fn read_rombank(rombank: &RomBank, address: usize) -> (r: u8)
    requires
        rombank is Some,
        rombank->0.wf(),
    ensures
        r == spec_rom_read(rombank->0.roms(), address as int),
{
    match rombank {
        Some(r) => r.read(address),
        None => 0,
    }
}

/// The bytes, start address and length of image `index_no` of a chip's ROM
/// set.
pub fn get_rom_ref(rombank: &RomBank, index_no: usize) -> (r: (&[u8], usize, usize))
    requires
        rombank is Some,
        index_no < rombank->0.roms().len(),
    ensures
        r.0@ == rombank->0.roms()[index_no as int].memory,
        r.1 == rombank->0.roms()[index_no as int].start,
        r.2 == rombank->0.roms()[index_no as int].memory.len(),
{
    crate::sound::rom::get_rom_ref(rombank, index_no)
}

} // verus!
