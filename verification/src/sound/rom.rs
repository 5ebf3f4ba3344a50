use vstd::prelude::*;
use crate::bits::lemma_usize_bits;

verus! {

/// Identifier of a ROM image kind, as the VGM data block type names it.
#[allow(non_camel_case_types)]
#[derive(PartialEq, Eq, Clone, Copy, Debug, Structural)]
pub enum RomIndex {
    SEGAPCM_ROM,
    YM2608_DELTA_T,
    YM2610_ADPCM,
    YM2610_DELTA_T,
    YMF278B_ROM,
    YMF278B_RAM,
    Y8950_ROM,
    OKIM6295_ROM,
    C140_ROM,
    NOT_SUPPOTED,
}

/// The VGM data block type byte that each ROM kind stands for.
pub open spec fn spec_rom_index_code(r: RomIndex) -> u8 {
    match r {
        RomIndex::SEGAPCM_ROM => 0x80,
        RomIndex::YM2608_DELTA_T => 0x81,
        RomIndex::YM2610_ADPCM => 0x82,
        RomIndex::YM2610_DELTA_T => 0x83,
        RomIndex::YMF278B_ROM => 0x84,
        RomIndex::YMF278B_RAM => 0x87,
        RomIndex::Y8950_ROM => 0x88,
        RomIndex::OKIM6295_ROM => 0x8b,
        RomIndex::C140_ROM => 0x8d,
        RomIndex::NOT_SUPPOTED => 0xff,
    }
}

/// The ROM kind that a data block type byte names, or `NOT_SUPPOTED`.
pub open spec fn spec_rom_index_from_code(code: u8) -> RomIndex {
    if code == 0x80 { RomIndex::SEGAPCM_ROM }
    else if code == 0x81 { RomIndex::YM2608_DELTA_T }
    else if code == 0x82 { RomIndex::YM2610_ADPCM }
    else if code == 0x83 { RomIndex::YM2610_DELTA_T }
    else if code == 0x84 { RomIndex::YMF278B_ROM }
    else if code == 0x87 { RomIndex::YMF278B_RAM }
    else if code == 0x88 { RomIndex::Y8950_ROM }
    else if code == 0x8b { RomIndex::OKIM6295_ROM }
    else if code == 0x8d { RomIndex::C140_ROM }
    else { RomIndex::NOT_SUPPOTED }
}

impl RomIndex {
    /// The data block type byte of this ROM kind.
    pub fn code(&self) -> (r: u8)
        ensures
            r == spec_rom_index_code(*self),
    {
        match self {
            RomIndex::SEGAPCM_ROM => 0x80,
            RomIndex::YM2608_DELTA_T => 0x81,
            RomIndex::YM2610_ADPCM => 0x82,
            RomIndex::YM2610_DELTA_T => 0x83,
            RomIndex::YMF278B_ROM => 0x84,
            RomIndex::YMF278B_RAM => 0x87,
            RomIndex::Y8950_ROM => 0x88,
            RomIndex::OKIM6295_ROM => 0x8b,
            RomIndex::C140_ROM => 0x8d,
            RomIndex::NOT_SUPPOTED => 0xff,
        }
    }

    /// The ROM kind that a data block type byte names; any byte that names
    /// no supported kind gives `NOT_SUPPOTED`.
    pub fn from_code(code: u8) -> (r: RomIndex)
        ensures
            r == spec_rom_index_from_code(code),
            r != RomIndex::NOT_SUPPOTED ==> spec_rom_index_code(r) == code,
    {
        match code {
            0x80 => RomIndex::SEGAPCM_ROM,
            0x81 => RomIndex::YM2608_DELTA_T,
            0x82 => RomIndex::YM2610_ADPCM,
            0x83 => RomIndex::YM2610_DELTA_T,
            0x84 => RomIndex::YMF278B_ROM,
            0x87 => RomIndex::YMF278B_RAM,
            0x88 => RomIndex::Y8950_ROM,
            0x8b => RomIndex::OKIM6295_ROM,
            0x8d => RomIndex::C140_ROM,
            _ => RomIndex::NOT_SUPPOTED,
        }
    }
}

/// The address decoding that a ROM bus applies.
#[allow(non_camel_case_types)]
#[derive(PartialEq, Eq, Clone, Copy, Debug, Structural)]
pub enum RomBusType {
    C140_TYPE_SYSTEM2,
    C140_TYPE_SYSTEM21,
    C219_TYPE_ASIC219,
    OKIM6295,
}

/// One ROM image mapped at `start_address..=end_address`.
pub struct Rom {
    start_address: usize,
    end_address: usize,
    memory: Vec<u8>,
}

/// The mathematical content of a ROM image.
pub struct RomView {
    pub start: int,
    pub end: int,
    pub memory: Seq<u8>,
}

impl Rom {
    pub closed spec fn view_rom(&self) -> RomView {
        RomView { start: self.start_address as int, end: self.end_address as int, memory: self.memory@ }
    }

    /// The image's bytes, its start address attribute and its length.
    pub fn get_memory_ref(&self) -> (r: (&[u8], usize, usize))
        ensures
            r.0@ == self.view_rom().memory,
            r.1 == self.view_rom().start,
            r.2 == self.view_rom().memory.len(),
    {
        (self.memory.as_slice(), self.start_address, self.memory.len())
    }
}

/// A mapped image never claims an address beyond the bytes it holds.
pub open spec fn rom_view_wf(r: RomView) -> bool {
    r.start <= r.end ==> r.end - r.start < r.memory.len()
}

/// Whether an image's address range holds `address`.
pub open spec fn rom_covers(r: RomView, address: int) -> bool {
    r.start <= address <= r.end
}

/// The byte at `address`: from the first image whose range holds it, or 0.
pub open spec fn spec_rom_read(roms: Seq<RomView>, address: int) -> u8
    decreases roms.len(),
{
    if roms.len() == 0 {
        0
    } else if roms[0].start <= address <= roms[0].end {
        roms[0].memory[address - roms[0].start]
    } else {
        spec_rom_read(roms.drop_first(), address)
    }
}

proof fn lemma_rom_read_skip(roms: Seq<RomView>, i: int, address: int)
    requires
        0 <= i <= roms.len(),
        forall|j: int| 0 <= j < i ==> !rom_covers(#[trigger] roms[j], address),
    ensures
        spec_rom_read(roms, address) == spec_rom_read(roms.subrange(i, roms.len() as int), address),
    decreases i,
{
    if i > 0 {
        assert(roms.drop_first().subrange(i - 1, roms.len() - 1) =~= roms.subrange(i, roms.len() as int));
        lemma_rom_read_skip(roms.drop_first(), i - 1, address);
    } else {
        assert(roms.subrange(0, roms.len() as int) =~= roms);
    }
}

/// The address decoder of the OKIM6295 ROM bus (NMK112 banking).
pub struct OKIM6295RomDecoder {
    pub nmk112_enable: u8,
    pub bank: u8,
    pub nmk112_bank: [u8; 4],
}

/// The ROM address that the OKIM6295 bus maps a chip address to.
pub open spec fn spec_okim6295_decode_address(
    nmk112_enable: u8,
    bank: u8,
    nmk112_bank: Seq<u8>,
    address: usize,
) -> int {
    if nmk112_enable != 0 {
        if address < 0x400 && (nmk112_enable & 0x80) != 0 {
            ((nmk112_bank[((address >> 8usize) & 3) as int] as usize) << 16usize | address & 0x3ff) as int
        } else {
            ((nmk112_bank[((address >> 16usize) & 3) as int] as usize) << 16usize | address & 0xffff) as int
        }
    } else {
        ((((bank as usize) * 0x40000) as usize) | address) as int
    }
}

impl OKIM6295RomDecoder {
    pub fn new() -> (r: Self)
        ensures
            r.nmk112_enable == 0,
            r.bank == 0,
            r.nmk112_bank@ == seq![0u8, 0u8, 0u8, 0u8],
    {
        Self { nmk112_enable: 0, bank: 0, nmk112_bank: [0; 4] }
    }

}

/// An address decoder that sits between a chip and its ROM images.
pub trait Decoder {
    /// Read the ROM data that the decoder maps `address` to.
    fn decode(&self, rombank: &RomSet, address: usize) -> (r: u32)
        requires
            rombank.wf(),
    ;
}

impl Decoder for OKIM6295RomDecoder {
    /// Read the ROM byte that the bus maps `address` to.
    fn decode(&self, rombank: &RomSet, address: usize) -> (r: u32)
        ensures
            r == spec_rom_read(rombank.roms(),
                spec_okim6295_decode_address(self.nmk112_enable, self.bank, self.nmk112_bank@, address)),
    {
        proof {
            lemma_usize_bits(address);
        }
        let mapped: usize = if self.nmk112_enable != 0 {
            if address < 0x400 && (self.nmk112_enable & 0x80) != 0 {
                ((self.nmk112_bank[(address >> 8) & 0x3]) as usize) << 16 | address & 0x3ff
            } else {
                ((self.nmk112_bank[(address >> 16) & 0x3]) as usize) << 16 | address & 0xffff
            }
        } else {
            assert((self.bank as usize) * 0x40000 <= 0xff * 0x40000);
            (self.bank as usize * 0x40000) | address
        };
        rombank.read(mapped) as u32
    }
}

/// A set of ROM images and, optionally, the bus that decodes addresses
/// before they reach the images.
pub struct RomSet {
    rom: Vec<Rom>,
    rom_bus: Option<OKIM6295RomDecoder>,
}

impl RomSet {
    /// The images, in the order they were added.
    pub closed spec fn roms(&self) -> Seq<RomView> {
        self.rom@.map_values(|r: Rom| r.view_rom())
    }

    /// The bus that decodes addresses, where one is set.
    pub closed spec fn bus(&self) -> Option<(u8, u8, Seq<u8>)> {
        match self.rom_bus {
            Some(d) => Some((d.nmk112_enable, d.bank, d.nmk112_bank@)),
            None => None,
        }
    }

    pub open spec fn wf(&self) -> bool {
        forall|i: int| 0 <= i < self.roms().len() ==> rom_view_wf(#[trigger] self.roms()[i])
    }

    pub fn new() -> (r: RomSet)
        ensures
            r.wf(),
            r.roms() == Seq::<RomView>::empty(),
            r.bus() is None,
    {
        let r = RomSet { rom: Vec::new(), rom_bus: None };
        assert(r.roms() =~= Seq::<RomView>::empty());
        r
    }

    /// Add a ROM image to the set (a copy of `memory`) and return its index.
    /// Any range is taken; the set stays readable (`wf`) only where the
    /// image holds a byte for every address of its range, since a read of an
    /// address past the image's bytes has none to give.
    pub fn add_rom(&mut self, memory: &[u8], start_address: usize, end_address: usize) -> (r: usize)
        requires
            old(self).roms().len() < usize::MAX,
        ensures
            final(self).wf() == (old(self).wf() && rom_view_wf(
                RomView { start: start_address as int, end: end_address as int, memory: memory@ })),
            final(self).bus() == old(self).bus(),
            final(self).roms() == old(self).roms().push(
                RomView { start: start_address as int, end: end_address as int, memory: memory@ }),
            r == old(self).roms().len(),
    {
        let mem = vstd::slice::slice_to_vec(memory);
        let rom = Rom { start_address, end_address, memory: mem };
        self.rom.push(rom);
        proof {
            let added = RomView { start: start_address as int, end: end_address as int, memory: memory@ };
            assert(self.roms() =~= old(self).roms().push(added));
            assert(self.roms()[old(self).roms().len() as int] == added);
            if self.wf() {
                assert forall|i: int| 0 <= i < old(self).roms().len() implies rom_view_wf(#[trigger] old(self).roms()[i]) by {
                    assert(self.roms()[i] == old(self).roms()[i]);
                }
            }
            if old(self).wf() && rom_view_wf(added) {
                assert forall|i: int| 0 <= i < self.roms().len() implies rom_view_wf(#[trigger] self.roms()[i]) by {
                    if i < old(self).roms().len() {
                        assert(self.roms()[i] == old(self).roms()[i]);
                    }
                }
            }
        }
        self.rom.len() - 1
    }

    /// The byte at `address` in the first image that maps it, or 0.
    pub fn read(&self, address: usize) -> (r: u8)
        requires
            self.wf(),
        ensures
            r == spec_rom_read(self.roms(), address as int),
    {
        let n = self.rom.len();
        let mut i: usize = 0;
        while i < n
            invariant
                n == self.rom@.len(),
                self.wf(),
                0 <= i <= n,
                forall|j: int| 0 <= j < i ==> !rom_covers(#[trigger] self.roms()[j], address as int),
            decreases n - i,
        {
            let r = &self.rom[i];
            assert(self.roms()[i as int] == r.view_rom());
            if r.start_address <= address && r.end_address >= address {
                proof {
                    lemma_rom_read_skip(self.roms(), i as int, address as int);
                    assert(rom_view_wf(self.roms()[i as int]));
                }
                return r.memory[address - r.start_address];
            }
            i = i + 1;
        }
        proof {
            lemma_rom_read_skip(self.roms(), n as int, address as int);
        }
        0
    }

    /// Read a byte, through the bus decoder where one is set.
    pub fn read_byte(&self, address: usize) -> (r: u8)
        requires
            self.wf(),
        ensures
            r == spec_read_byte(self.roms(), self.bus(), address),
    {
        match &self.rom_bus {
            Some(d) => d.decode(self, address) as u8,
            None => self.read(address),
        }
    }

    /// Read a little-endian word at word address `address`, through the bus
    /// decoder where one is set.
    pub fn read_word(&self, address: usize) -> (r: u16)
        requires
            self.wf(),
            self.bus() is None ==> address * 2 + 1 <= usize::MAX,
        ensures
            r == spec_read_word(self.roms(), self.bus(), address),
    {
        match &self.rom_bus {
            Some(d) => d.decode(self, address) as u16,
            None => ((self.read(address * 2 + 1) as u16) << 8) | (self.read(address * 2) as u16),
        }
    }

    /// The bytes of image `index_no`, its start address and its length.
    pub fn ger_rom_ref(&self, index_no: usize) -> (r: (&[u8], usize, usize))
        requires
            index_no < self.roms().len(),
        ensures
            r.0@ == self.roms()[index_no as int].memory,
            r.1 == self.roms()[index_no as int].start,
            r.2 == self.roms()[index_no as int].memory.len(),
    {
        self.rom[index_no].get_memory_ref()
    }

    /// Set (or remove) the bus decoder.
    pub fn set_rom_bus(&mut self, rom_bus: Option<OKIM6295RomDecoder>)
        requires
            old(self).wf(),
        ensures
            final(self).wf(),
            final(self).roms() == old(self).roms(),
            final(self).bus() == (match rom_bus {
                Some(d) => Some((d.nmk112_enable, d.bank, d.nmk112_bank@)),
                None => None,
            }),
    {
        self.rom_bus = rom_bus;
        proof { assert(self.roms() =~= old(self).roms()); }
    }

    /// Set the NMK112 enable register of the bus decoder, where a bus is set.
    pub fn set_bus_nmk112_enable(&mut self, data: u8)
        requires
            old(self).wf(),
        ensures
            final(self).wf(),
            final(self).roms() == old(self).roms(),
            final(self).bus() == (match old(self).bus() {
                Some((e, b, nb)) => Some((data, b, nb)),
                None => None,
            }),
    {
        if let Some(d) = &mut self.rom_bus {
            d.nmk112_enable = data;
        }
        proof { assert(self.roms() =~= old(self).roms()); }
    }

    /// Set the bank register of the bus decoder, where a bus is set.
    pub fn set_bus_bank(&mut self, data: u8)
        requires
            old(self).wf(),
        ensures
            final(self).wf(),
            final(self).roms() == old(self).roms(),
            final(self).bus() == (match old(self).bus() {
                Some((e, b, nb)) => Some((e, data, nb)),
                None => None,
            }),
    {
        if let Some(d) = &mut self.rom_bus {
            d.bank = data;
        }
        proof { assert(self.roms() =~= old(self).roms()); }
    }

    /// Set NMK112 bank register `index` of the bus decoder, where a bus is set.
    pub fn set_bus_nmk112_bank(&mut self, index: usize, data: u8)
        requires
            old(self).wf(),
            index < 4,
        ensures
            final(self).wf(),
            final(self).roms() == old(self).roms(),
            final(self).bus() == (match old(self).bus() {
                Some((e, b, nb)) => Some((e, b, nb.update(index as int, data))),
                None => None,
            }),
    {
        if let Some(d) = &mut self.rom_bus {
            d.nmk112_bank[index] = data;
        }
        proof { assert(self.roms() =~= old(self).roms()); }
    }
}

/// What `read_byte` gives for a set of images and a bus.
pub open spec fn spec_read_byte(roms: Seq<RomView>, bus: Option<(u8, u8, Seq<u8>)>, address: usize) -> u8 {
    match bus {
        Some((e, b, nb)) => spec_rom_read(roms, spec_okim6295_decode_address(e, b, nb, address)),
        None => spec_rom_read(roms, address as int),
    }
}

/// What `read_word` gives for a set of images and a bus.
pub open spec fn spec_read_word(roms: Seq<RomView>, bus: Option<(u8, u8, Seq<u8>)>, address: usize) -> u16 {
    match bus {
        Some((e, b, nb)) => spec_rom_read(roms, spec_okim6295_decode_address(e, b, nb, address)) as u16,
        None => ((spec_rom_read(roms, address * 2 + 1) as u16) << 8u16) | (spec_rom_read(roms, address * 2) as u16),
    }
}

/// A ROM set that a chip may or may not have been given.
pub type RomBank = Option<RomSet>;

/// Read a byte from a chip's ROM set.
pub fn read_byte(rombank: &RomBank, address: usize) -> (r: u8)
    requires
        rombank is Some,
        rombank->0.wf(),
    ensures
        r == spec_read_byte(rombank->0.roms(), rombank->0.bus(), address),
{
    match rombank {
        Some(r) => r.read_byte(address),
        None => 0,
    }
}

/// Read a word from a chip's ROM set.
pub fn read_word(rombank: &RomBank, address: usize) -> (r: u16)
    requires
        rombank is Some,
        rombank->0.wf(),
        rombank->0.bus() is None ==> address * 2 + 1 <= usize::MAX,
    ensures
        r == spec_read_word(rombank->0.roms(), rombank->0.bus(), address),
{
    match rombank {
        Some(r) => r.read_word(address),
        None => 0,
    }
}

/// The bytes, start address and length of image `index_no` of a chip's ROM set.
pub fn get_rom_ref(rombank: &RomBank, index_no: usize) -> (r: (&[u8], usize, usize))
    requires
        rombank is Some,
        index_no < rombank->0.roms().len(),
    ensures
        r.0@ == rombank->0.roms()[index_no as int].memory,
        r.1 == rombank->0.roms()[index_no as int].start,
        r.2 == rombank->0.roms()[index_no as int].memory.len(),
{
    match rombank {
        Some(r) => r.ger_rom_ref(index_no),
        None => (&[], 0, 0),
    }
}

/// Set the bus decoder of a chip's ROM set.
pub fn set_rom_bus(rombank: &mut RomBank, rom_bus: Option<OKIM6295RomDecoder>)
    requires
        *old(rombank) is Some,
        (*old(rombank))->0.wf(),
    ensures
        *final(rombank) is Some,
        (*final(rombank))->0.wf(),
        (*final(rombank))->0.roms() == (*old(rombank))->0.roms(),
        (*final(rombank))->0.bus() == (match rom_bus {
            Some(d) => Some((d.nmk112_enable, d.bank, d.nmk112_bank@)),
            None => None,
        }),
{
    match rombank {
        Some(r) => r.set_rom_bus(rom_bus),
        None => {},
    }
}

/// Adding an image never changes what an address that an earlier image
/// maps reads.
pub proof fn lemma_add_rom_keeps_reads(roms: Seq<RomView>, r: RomView, address: int)
    requires
        exists|i: int| 0 <= i < roms.len() && rom_covers(#[trigger] roms[i], address),
    ensures
        spec_rom_read(roms.push(r), address) == spec_rom_read(roms, address),
    decreases roms.len(),
{
    if rom_covers(roms[0], address) {
        assert(roms.push(r)[0] == roms[0]);
    } else {
        let i = choose|i: int| 0 <= i < roms.len() && rom_covers(#[trigger] roms[i], address);
        assert(roms.drop_first()[i - 1] == roms[i]);
        assert(roms.push(r).drop_first() =~= roms.drop_first().push(r));
        lemma_add_rom_keeps_reads(roms.drop_first(), r, address);
    }
}

/// A read of an address that only a newly added image maps gives that
/// image's byte.
pub proof fn lemma_read_after_add_rom(roms: Seq<RomView>, r: RomView, address: int)
    requires
        forall|i: int| 0 <= i < roms.len() ==> !rom_covers(#[trigger] roms[i], address),
        rom_covers(r, address),
    ensures
        spec_rom_read(roms.push(r), address) == r.memory[address - r.start],
    decreases roms.len(),
{
    if roms.len() == 0 {
        assert(roms.push(r)[0] == r);
        assert(roms.push(r).drop_first().len() == 0);
    } else {
        assert(!rom_covers(roms[0], address));
        assert(roms.push(r).drop_first() =~= roms.drop_first().push(r));
        assert forall|i: int| 0 <= i < roms.drop_first().len() implies !rom_covers(#[trigger] roms.drop_first()[i], address) by {
            assert(roms.drop_first()[i] == roms[i + 1]);
        }
        lemma_read_after_add_rom(roms.drop_first(), r, address);
    }
}

/// The data block type byte of a ROM kind names that kind again.
pub proof fn lemma_rom_index_code_roundtrip(r: RomIndex)
    requires
        r != RomIndex::NOT_SUPPOTED,
    ensures
        spec_rom_index_from_code(spec_rom_index_code(r)) == r,
{
}

} // verus!
