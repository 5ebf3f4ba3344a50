use vstd::prelude::*;
use crate::bits::{lemma_u32_clock_fields, lemma_u8_bits, lemma_u8_shifts};
use crate::driver::meta::{extract, spec_extract, spec_le_u16, spec_le_u32, spec_has_tag};
use crate::driver::metadata::{parse_vgm_meta, spec_gd3_or_blank, spec_vgm_header, spec_vgm_tag, VgmHeader, VGM_HEADER_SIZE};
use crate::driver::gd3meta::Gd3;
use crate::sound::rom::{spec_rom_index_from_code, RomIndex};
use crate::sound::sound_chip::SoundChipType;

verus! {

/// The rate at which VGM commands count their waits (samples per second).
pub const VGM_TICK_RATE: u32 = 44100;

/// What a VGM command asks of the sound slot.
#[derive(PartialEq, Eq, Clone, Copy, Debug, Structural)]
pub enum VgmAction {
    /// Nothing to do.
    Nothing,
    /// Write `data` to `port` of chip `index` of a kind.
    Write(SoundChipType, usize, u32, u32),
    /// Load the VGM data bytes `start..end` as a ROM image of a kind, mapped
    /// at `start_address..=end_address`.
    AddRom(RomIndex, usize, usize, usize, usize),
    /// The byte at a position is no command that the player knows.
    Unknown(usize, u8),
}

/// The state of a VGM player.
pub struct VgmPlayView {
    pub file: Seq<u8>,
    pub data: Seq<u8>,
    pub pos: usize,
    pub loop_: usize,
    pub loop_offset: usize,
    pub loop_count: usize,
    pub end: bool,
    pub pcm_origin_pos: usize,
    pub pcm_pos: usize,
    pub pcm_offset: usize,
    pub pcm_stream_sample_count: u32,
    pub pcm_stream_sampling_pos: u32,
    pub pcm_stream_length: usize,
    pub pcm_stream_pos_init: usize,
    pub pcm_stream_pos: usize,
    pub pcm_stream_offset: usize,
    pub remain_tick_count: usize,
}

/// A VGM player: reads the command stream of a VGM file and tells the sound
/// slot what to write when.
pub struct VgmPlay {
    vgm_pos: usize,
    vgm_loop: usize,
    vgm_loop_offset: usize,
    vgm_loop_count: usize,
    vgm_end: bool,
    vgm_file: Vec<u8>,
    vgm_data: Vec<u8>,
    vgm_header: VgmHeader,
    vgm_gd3: Gd3,
    pcm_origin_pos: usize,
    pcm_pos: usize,
    pcm_offset: usize,
    pcm_stream_sample_count: u32,
    pcm_stream_sampling_pos: u32,
    pcm_stream_length: usize,
    pcm_stream_pos_init: usize,
    pcm_stream_pos: usize,
    pcm_stream_offset: usize,
    remain_tick_count: usize,
}

impl View for VgmPlay {
    type V = VgmPlayView;

    closed spec fn view(&self) -> VgmPlayView {
        VgmPlayView {
            file: self.vgm_file@,
            data: self.vgm_data@,
            pos: self.vgm_pos,
            loop_: self.vgm_loop,
            loop_offset: self.vgm_loop_offset,
            loop_count: self.vgm_loop_count,
            end: self.vgm_end,
            pcm_origin_pos: self.pcm_origin_pos,
            pcm_pos: self.pcm_pos,
            pcm_offset: self.pcm_offset,
            pcm_stream_sample_count: self.pcm_stream_sample_count,
            pcm_stream_sampling_pos: self.pcm_stream_sampling_pos,
            pcm_stream_length: self.pcm_stream_length,
            pcm_stream_pos_init: self.pcm_stream_pos_init,
            pcm_stream_pos: self.pcm_stream_pos,
            pcm_stream_offset: self.pcm_stream_offset,
            remain_tick_count: self.remain_tick_count,
        }
    }
}

/// The chip and port bit of a two-byte register write command, where `c` is
/// one.
pub open spec fn spec_vgm_write_chip(c: u8) -> Option<(SoundChipType, u32)> {
    if c == 0x51 || c == 0xa1 {
        Some((SoundChipType::YM2413, 0u32))
    } else if c == 0x52 || c == 0xa2 {
        Some((SoundChipType::YM2612, 0u32))
    } else if c == 0x53 || c == 0xa3 {
        Some((SoundChipType::YM2612, 0x100u32))
    } else if c == 0x54 || c == 0xa4 {
        Some((SoundChipType::YM2151, 0u32))
    } else if c == 0x55 || c == 0xa5 {
        Some((SoundChipType::YM2203, 0u32))
    } else {
        None
    }
}

/// The number of operand bytes of a command that the player reads and
/// ignores; 0 for any other command.
pub open spec fn spec_vgm_skip(c: u8) -> int {
    if (0x56 <= c <= 0x5c) || c == 0x5e || c == 0x5f || (0xa6 <= c <= 0xac) || c == 0xae || c == 0xaf {
        2
    } else if (0x30 <= c <= 0x3f) || c == 0x4f {
        1
    } else if (0x40 <= c <= 0x4e) || c == 0x5d || (0xb0 <= c <= 0xbf && c != 0xb2) {
        2
    } else if (0xc1 <= c <= 0xcf) || (0xd0 <= c <= 0xdf) {
        3
    } else if c == 0x90 || c == 0x91 || c == 0x95 || c >= 0xe1 {
        4
    } else {
        0
    }
}

/// The number of bytes that a ROM data block loads: no more than the block
/// holds after its 8-byte prefix nor past the ROM's end; none where the
/// start address lies beyond the ROM.
pub open spec fn spec_vgm_rom_data_size(d: Seq<u8>, data_pos: int, size: u32) -> int {
    let rom_size = spec_le_u32(d, data_pos);
    let start_address = spec_le_u32(d, data_pos + 4);
    if start_address < rom_size {
        if size - 8 < rom_size - start_address { size - 8 } else { rom_size - start_address }
    } else {
        0
    }
}

/// The ROM image that a data block of a ROM type describes: the data range
/// and the mapped address range. The block holds the ROM size and the start
/// address (32 bits each) before its bytes.
pub open spec fn spec_vgm_rom_block(d: Seq<u8>, data_pos: int, size: u32, data_type: u8) -> VgmAction {
    let start_address = spec_le_u32(d, data_pos + 4);
    let data_size = spec_vgm_rom_data_size(d, data_pos, size);
    VgmAction::AddRom(
        spec_rom_index_from_code(data_type),
        (data_pos + 8) as usize,
        (data_pos + 8 + data_size) as usize,
        start_address as usize,
        (start_address + data_size - 1) as usize,
    )
}

/// Whether the command at the current position can be carried out: its
/// operands, and any data it reads, lie inside the data, and no counter or
/// address it computes overflows.
pub open spec fn spec_vgm_step_ok(s: VgmPlayView, repeat: bool) -> bool {
    let len = s.data.len();
    let p = s.pos as int;
    s.pos < len && {
        let c = s.data[p];
        if c == 0x50 || c == 0x94 {
            p + 2 <= len
        } else if spec_vgm_write_chip(c) is Some || c == 0xa0 || c == 0xb2 || c == 0x61 {
            p + 3 <= len
        } else if spec_vgm_skip(c) > 0 {
            p + 1 + spec_vgm_skip(c) <= len
        } else if c == 0x66 {
            s.loop_ != 0 && repeat ==> s.loop_count < usize::MAX
        } else if c == 0x67 {
            p + 7 <= len && {
                let data_type = s.data[p + 2];
                let size = spec_le_u32(s.data, p + 3);
                let data_pos = p + 7;
                &&& data_pos + size <= usize::MAX
                &&& 0x80 <= data_type <= 0xbf ==> {
                    &&& data_pos + 8 <= len
                    &&& ({
                        let rom_size = spec_le_u32(s.data, data_pos);
                        let start_address = spec_le_u32(s.data, data_pos + 4);
                        let data_size = spec_vgm_rom_data_size(s.data, data_pos, size);
                        &&& start_address < rom_size ==> size >= 8
                        &&& data_pos + 8 + data_size <= len
                        &&& start_address + data_size >= 1
                    })
                }
            }
        } else if 0x80 <= c <= 0x8f {
            s.pcm_origin_pos + s.pcm_pos + s.pcm_offset < len
        } else if c == 0x92 {
            p + 6 <= len && spec_le_u32(s.data, p + 2) != 0
        } else if c == 0x93 {
            p + 11 <= len
        } else if c == 0xc0 {
            p + 4 <= len
        } else if c == 0xe0 {
            p + 5 <= len
        } else {
            true
        }
    }
}

/// One command of the VGM stream: the player's next state, the number of
/// samples to wait, and what the slot is to do.
pub open spec fn spec_vgm_step(s: VgmPlayView, repeat: bool) -> (VgmPlayView, u16, VgmAction) {
    let p = s.pos as int;
    let c = s.data[p];
    let d = s.data;
    if c == 0x50 {
        (VgmPlayView { pos: (p + 2) as usize, ..s }, 0, VgmAction::Write(SoundChipType::SEGAPSG, 0, 0, d[p + 1] as u32))
    } else if spec_vgm_write_chip(c) is Some {
        let (chip, port) = spec_vgm_write_chip(c)->0;
        (VgmPlayView { pos: (p + 3) as usize, ..s }, 0,
            VgmAction::Write(chip, (c / 128) as usize, (d[p + 1] as u32 + port) as u32, d[p + 2] as u32))
    } else if c == 0x61 {
        (VgmPlayView { pos: (p + 3) as usize, ..s }, spec_le_u16(d, p + 1), VgmAction::Nothing)
    } else if c == 0x62 {
        (VgmPlayView { pos: (p + 1) as usize, ..s }, 735, VgmAction::Nothing)
    } else if c == 0x63 {
        (VgmPlayView { pos: (p + 1) as usize, ..s }, 882, VgmAction::Nothing)
    } else if c == 0x66 {
        if s.loop_ != 0 && repeat {
            (VgmPlayView { pos: s.loop_offset, loop_count: (s.loop_count + 1) as usize, ..s }, 0, VgmAction::Nothing)
        } else {
            (VgmPlayView { pos: (p + 1) as usize, end: true, ..s }, 0, VgmAction::Nothing)
        }
    } else if c == 0x67 {
        let data_type = d[p + 2];
        let size = spec_le_u32(d, p + 3);
        let data_pos = p + 7;
        let next = VgmPlayView { pos: (data_pos + size) as usize, ..s };
        if data_type <= 0x3f {
            (VgmPlayView { pcm_origin_pos: data_pos as usize, ..next }, 0, VgmAction::Nothing)
        } else if 0x80 <= data_type <= 0xbf {
            (next, 0, spec_vgm_rom_block(d, data_pos, size, data_type))
        } else {
            (next, 0, VgmAction::Nothing)
        }
    } else if 0x70 <= c <= 0x7f {
        (VgmPlayView { pos: (p + 1) as usize, ..s }, ((c % 16) + 1) as u16, VgmAction::Nothing)
    } else if 0x80 <= c <= 0x8f {
        (VgmPlayView { pos: (p + 1) as usize, pcm_offset: (s.pcm_offset + 1) as usize, ..s }, (c % 16) as u16,
            VgmAction::Write(SoundChipType::YM2612, 0, 0x2a, d[s.pcm_origin_pos + s.pcm_pos + s.pcm_offset] as u32))
    } else if c == 0x92 {
        (VgmPlayView { pos: (p + 6) as usize, pcm_stream_sample_count: (VGM_TICK_RATE / spec_le_u32(d, p + 2)) as u32, ..s },
            0, VgmAction::Nothing)
    } else if c == 0x93 {
        let init = spec_le_u32(d, p + 2) as usize;
        (VgmPlayView {
            pos: (p + 11) as usize,
            pcm_stream_pos_init: init,
            pcm_stream_pos: init,
            pcm_stream_length: spec_le_u32(d, p + 7) as usize,
            pcm_stream_offset: 0,
            ..s
        }, 0, VgmAction::Nothing)
    } else if c == 0x94 {
        (VgmPlayView { pos: (p + 2) as usize, pcm_stream_length: 0, ..s }, 0, VgmAction::Nothing)
    } else if c == 0xa0 {
        (VgmPlayView { pos: (p + 3) as usize, ..s }, 0,
            VgmAction::Write(SoundChipType::YM2149, 0, d[p + 1] as u32, d[p + 2] as u32))
    } else if c == 0xb2 {
        (VgmPlayView { pos: (p + 3) as usize, ..s }, 0,
            VgmAction::Write(SoundChipType::PWM, 0, (d[p + 1] / 16) as u32, ((d[p + 1] % 16) as int * 256 + d[p + 2]) as u32))
    } else if c == 0xc0 {
        (VgmPlayView { pos: (p + 4) as usize, ..s }, 0,
            VgmAction::Write(SoundChipType::SEGAPCM, 0, spec_le_u16(d, p + 1) as u32, d[p + 3] as u32))
    } else if c == 0xe0 {
        (VgmPlayView { pos: (p + 5) as usize, pcm_pos: spec_le_u32(d, p + 1) as usize, pcm_offset: 0, ..s }, 0,
            VgmAction::Nothing)
    } else if spec_vgm_skip(c) > 0 {
        (VgmPlayView { pos: (p + 1 + spec_vgm_skip(c)) as usize, ..s }, 0, VgmAction::Nothing)
    } else {
        (VgmPlayView { pos: (p + 1) as usize, ..s }, 0, VgmAction::Unknown(p as usize, c))
    }
}

impl VgmPlay {
    /// The header read by `init`.
    pub closed spec fn header(&self) -> VgmHeader {
        self.vgm_header
    }

    /// The GD3 strings read by `init`.
    pub closed spec fn gd3(&self) -> Seq<Seq<char>> {
        self.vgm_gd3@
    }

    /// The unchanged parts of the player besides its view.
    pub open spec fn same_meta(&self, other: &VgmPlay) -> bool {
        self.header() == other.header() && self.gd3() == other.gd3()
    }

    /// A player for a file of `vgm_file_size` bytes, all 0 until written.
    pub fn new(vgm_file_size: usize) -> (r: Self)
        ensures
            r@.file == Seq::new(vgm_file_size as nat, |i: int| 0u8),
            r@.data == Seq::<u8>::empty(),
            r@.pos == 0,
            r@.loop_ == 0,
            r@.loop_offset == 0,
            r@.loop_count == 0,
            !r@.end,
            r@.pcm_origin_pos == 0,
            r@.pcm_pos == 0,
            r@.pcm_offset == 0,
            r@.pcm_stream_sample_count == 0,
            r@.pcm_stream_sampling_pos == 0,
            r@.pcm_stream_length == 0,
            r@.pcm_stream_pos_init == 0,
            r@.pcm_stream_pos == 0,
            r@.pcm_stream_offset == 0,
            r@.remain_tick_count == 0,
    {
        let mut file: Vec<u8> = Vec::new();
        let mut i: usize = 0;
        while i < vgm_file_size
            invariant
                i <= vgm_file_size,
                file@ == Seq::new(i as nat, |k: int| 0u8),
            decreases vgm_file_size - i,
        {
            file.push(0);
            i = i + 1;
            assert(file@ =~= Seq::new(i as nat, |k: int| 0u8));
        }
        VgmPlay {
            vgm_pos: 0,
            vgm_loop: 0,
            vgm_loop_offset: 0,
            vgm_loop_count: 0,
            vgm_end: false,
            vgm_file: file,
            vgm_data: Vec::new(),
            vgm_header: VgmHeader::default(),
            vgm_gd3: Gd3::default(),
            pcm_origin_pos: 0,
            pcm_pos: 0,
            pcm_offset: 0,
            pcm_stream_sample_count: 0,
            pcm_stream_sampling_pos: 0,
            pcm_stream_length: 0,
            pcm_stream_pos_init: 0,
            pcm_stream_pos: 0,
            pcm_stream_offset: 0,
            remain_tick_count: 0,
        }
    }

    /// Copy `bytes` into the file buffer at `offset`.
    pub fn write_vgmfile(&mut self, offset: usize, bytes: &[u8])
        requires
            offset + bytes.len() <= old(self)@.file.len(),
        ensures
            final(self)@ == (VgmPlayView {
                file: old(self)@.file.subrange(0, offset as int) + bytes@
                    + old(self)@.file.subrange(offset + bytes@.len(), old(self)@.file.len() as int),
                ..old(self)@
            }),
            final(self).same_meta(old(self)),
    {
        let mut i: usize = 0;
        while i < bytes.len()
            invariant
                i <= bytes@.len(),
                offset + bytes.len() <= old(self)@.file.len(),
                self@.file.len() == self.vgm_file.len(),
                self@ == (VgmPlayView { file: self@.file, ..old(self)@ }),
                self.same_meta(old(self)),
                self@.file.len() == old(self)@.file.len(),
                forall|k: int| 0 <= k < self@.file.len() ==> #[trigger] self@.file[k] == if offset <= k < offset + i {
                    bytes@[k - offset]
                } else {
                    old(self)@.file[k]
                },
            decreases bytes@.len() - i,
        {
            self.vgm_file.set(offset + i, bytes[i]);
            i = i + 1;
        }
        assert(self@.file =~= old(self)@.file.subrange(0, offset as int) + bytes@
            + old(self)@.file.subrange(offset + bytes@.len(), old(self)@.file.len() as int));
    }

    /// The (decompressed) file data.
    pub fn data(&self) -> (r: &[u8])
        ensures
            r@ == self@.data,
    {
        self.vgm_data.as_slice()
    }

    /// The header and the GD3 metadata.
    pub fn get_vgm_meta(&self) -> (r: (&VgmHeader, &Gd3))
        ensures
            *r.0 == self.header(),
            r.1@ == self.gd3(),
    {
        (&self.vgm_header, &self.vgm_gd3)
    }

    fn get_vgm_u8(&mut self) -> (r: u8)
        requires
            old(self).vgm_pos < old(self).vgm_data.len(),
        ensures
            r == old(self).vgm_data@[old(self).vgm_pos as int],
            final(self)@ == (VgmPlayView { pos: (old(self)@.pos + 1) as usize, ..old(self)@ }),
            final(self).same_meta(old(self)),
    {
        let ret = self.vgm_data[self.vgm_pos];
        self.vgm_pos = self.vgm_pos + 1;
        ret
    }

    fn get_vgm_u16(&mut self) -> (r: u16)
        requires
            old(self).vgm_pos + 2 <= old(self).vgm_data.len(),
        ensures
            r == spec_le_u16(old(self).vgm_data@, old(self).vgm_pos as int),
            final(self)@ == (VgmPlayView { pos: (old(self)@.pos + 2) as usize, ..old(self)@ }),
            final(self).same_meta(old(self)),
    {
        let lo = self.get_vgm_u8();
        let hi = self.get_vgm_u8();
        proof {
            lemma_u8_shifts(hi, lo);
        }
        lo as u16 + ((hi as u16) << 8)
    }

    fn get_vgm_u32(&mut self) -> (r: u32)
        requires
            old(self).vgm_pos + 4 <= old(self).vgm_data.len(),
        ensures
            r == spec_le_u32(old(self).vgm_data@, old(self).vgm_pos as int),
            final(self)@ == (VgmPlayView { pos: (old(self)@.pos + 4) as usize, ..old(self)@ }),
            final(self).same_meta(old(self)),
    {
        let b0 = self.get_vgm_u8();
        let b1 = self.get_vgm_u8();
        let b2 = self.get_vgm_u8();
        let b3 = self.get_vgm_u8();
        proof {
            lemma_u8_shifts(b1, b0);
            lemma_u8_shifts(b2, b0);
            lemma_u8_shifts(b3, b0);
        }
        b0 as u32 + ((b1 as u32) << 8) + ((b2 as u32) << 16) + ((b3 as u32) << 24)
    }

    /// Skip `n` operand bytes.
    fn skip(&mut self, n: usize)
        requires
            old(self).vgm_pos + n <= old(self).vgm_data.len(),
        ensures
            final(self)@ == (VgmPlayView { pos: (old(self)@.pos + n) as usize, ..old(self)@ }),
            final(self).same_meta(old(self)),
    {
        self.vgm_pos = self.vgm_pos + n;
    }
}

impl VgmPlay {
    /// Read the data block of a 0x67 command: the player jumps over the
    /// block; a stream block (types up to 0x3f) becomes the PCM origin, a
    /// ROM block (types 0x80 to 0xbf) is to be loaded.
    fn data_block(&mut self) -> (r: VgmAction)
        requires
            old(self).vgm_pos + 6 <= old(self).vgm_data.len(),
            ({
                let d = old(self)@.data;
                let p = old(self).vgm_pos as int;
                let data_type = d[p + 1];
                let size = spec_le_u32(d, p + 2);
                let data_pos = p + 6;
                &&& data_pos + size <= usize::MAX
                &&& 0x80 <= data_type <= 0xbf ==> {
                    &&& data_pos + 8 <= d.len()
                    &&& ({
                        let rom_size = spec_le_u32(d, data_pos);
                        let start_address = spec_le_u32(d, data_pos + 4);
                        let data_size = spec_vgm_rom_data_size(d, data_pos, size);
                        &&& start_address < rom_size ==> size >= 8
                        &&& data_pos + 8 + data_size <= d.len()
                        &&& start_address + data_size >= 1
                    })
                }
            }),
        ensures
            ({
                let d = old(self)@.data;
                let p = old(self).vgm_pos as int;
                let data_type = d[p + 1];
                let size = spec_le_u32(d, p + 2);
                let data_pos = p + 6;
                let next = VgmPlayView { pos: (data_pos + size) as usize, ..old(self)@ };
                &&& final(self)@ == if data_type <= 0x3f { VgmPlayView { pcm_origin_pos: data_pos as usize, ..next } } else { next }
                &&& r == if 0x80 <= data_type <= 0xbf { spec_vgm_rom_block(d, data_pos, size, data_type) } else { VgmAction::Nothing }
            }),
            final(self).same_meta(old(self)),
    {
        self.get_vgm_u8();
        let data_type = self.get_vgm_u8();
        let size = self.get_vgm_u32();
        let data_pos = self.vgm_pos;
        self.vgm_pos = self.vgm_pos + size as usize;
        if data_type <= 0x3f {
            self.pcm_origin_pos = data_pos;
            VgmAction::Nothing
        } else if 0x80 <= data_type && data_type <= 0xbf {
            let rom_size: u32 = crate::driver::meta::le_u32(self.vgm_data.as_slice(), data_pos);
            let start_address: u32 = crate::driver::meta::le_u32(self.vgm_data.as_slice(), data_pos + 4);
            let mut data_size: usize = 0;
            if start_address < rom_size {
                let avail: u32 = size - 8;
                let rest: u32 = rom_size - start_address;
                data_size = if avail < rest { avail as usize } else { rest as usize };
            }
            let start_address = start_address as usize;
            VgmAction::AddRom(
                RomIndex::from_code(data_type),
                data_pos + 8,
                data_pos + 8 + data_size,
                start_address,
                start_address + data_size - 1,
            )
        } else {
            VgmAction::Nothing
        }
    }

    /// Read and carry out the next command: returns the number of samples to
    /// wait before the next one, and what the slot is to do.
    #[verifier::rlimit(80)]
    pub fn parse_vgm(&mut self, repeat: bool) -> (r: (u16, VgmAction))
        requires
            spec_vgm_step_ok(old(self)@, repeat),
        ensures
            ({
                let (s, wait, action) = spec_vgm_step(old(self)@, repeat);
                final(self)@ == s && r == (wait, action)
            }),
            final(self).same_meta(old(self)),
    {
        assert(self.vgm_data@.len() == self.vgm_data.len());
        let command: u8 = self.get_vgm_u8();
        let mut wait: u16 = 0;
        let mut action = VgmAction::Nothing;
        match command {
            0x50 => {
                let dat = self.get_vgm_u8();
                action = VgmAction::Write(SoundChipType::SEGAPSG, 0, 0, dat as u32);
            },
            0x51 | 0xa1 => {
                let reg = self.get_vgm_u8();
                let dat = self.get_vgm_u8();
                action = VgmAction::Write(SoundChipType::YM2413, (command >> 7) as usize, reg as u32, dat as u32);
            },
            0x52 | 0xa2 => {
                let reg = self.get_vgm_u8();
                let dat = self.get_vgm_u8();
                action = VgmAction::Write(SoundChipType::YM2612, (command >> 7) as usize, reg as u32, dat as u32);
            },
            0x53 | 0xa3 => {
                let reg = self.get_vgm_u8();
                let dat = self.get_vgm_u8();
                proof {
                    lemma_u8_shifts(reg, reg);
                }
                action = VgmAction::Write(SoundChipType::YM2612, (command >> 7) as usize, reg as u32 | 0x100, dat as u32);
            },
            0x54 | 0xa4 => {
                let reg = self.get_vgm_u8();
                let dat = self.get_vgm_u8();
                action = VgmAction::Write(SoundChipType::YM2151, (command >> 7) as usize, reg as u32, dat as u32);
            },
            0x55 | 0xa5 => {
                let reg = self.get_vgm_u8();
                let dat = self.get_vgm_u8();
                action = VgmAction::Write(SoundChipType::YM2203, (command >> 7) as usize, reg as u32, dat as u32);
            },
            0x56..=0x5c | 0x5e | 0x5f | 0xa6..=0xac | 0xae | 0xaf => {
                self.skip(2);
            },
            0x61 => {
                wait = self.get_vgm_u16();
            },
            0x62 => {
                wait = 735;
            },
            0x63 => {
                wait = 882;
            },
            0x66 => {
                if self.vgm_loop == 0 {
                    self.vgm_end = true;
                } else if repeat {
                    self.vgm_pos = self.vgm_loop_offset;
                    self.vgm_loop_count = self.vgm_loop_count + 1;
                } else {
                    self.vgm_end = true;
                }
            },
            0x67 => {
                action = self.data_block();
            },
            0x70..=0x7f => {
                proof {
                    lemma_u8_bits(command);
                }
                wait = ((command & 0x0f) + 1) as u16;
            },
            0x80..=0x8f => {
                wait = (command & 0x0f) as u16;
                let dat = self.vgm_data[self.pcm_origin_pos + self.pcm_pos + self.pcm_offset];
                action = VgmAction::Write(SoundChipType::YM2612, 0, 0x2a, dat as u32);
                self.pcm_offset = self.pcm_offset + 1;
            },
            0x90 | 0x91 => {
                self.get_vgm_u32();
            },
            0x92 => {
                self.get_vgm_u8();
                let frequency = self.get_vgm_u32();
                self.pcm_stream_sample_count = VGM_TICK_RATE / frequency;
            },
            0x93 => {
                self.get_vgm_u8();
                self.pcm_stream_pos_init = self.get_vgm_u32() as usize;
                self.pcm_stream_pos = self.pcm_stream_pos_init;
                self.get_vgm_u8();
                self.pcm_stream_length = self.get_vgm_u32() as usize;
                self.pcm_stream_offset = 0;
            },
            0x94 => {
                self.get_vgm_u8();
                self.pcm_stream_length = 0;
            },
            0x95 => {
                self.get_vgm_u8();
                self.get_vgm_u16();
                self.get_vgm_u8();
            },
            0xa0 => {
                let reg = self.get_vgm_u8();
                let dat = self.get_vgm_u8();
                action = VgmAction::Write(SoundChipType::YM2149, 0, reg as u32, dat as u32);
            },
            0xb2 => {
                let raw1 = self.get_vgm_u8();
                let raw2 = self.get_vgm_u8();
                let channel: u8 = (raw1 & 0xf0) >> 4u8;
                let dat: u16 = (raw1 as u16 & 0x0f) << 8u16 | raw2 as u16;
                proof {
                    lemma_u8_bits(raw1);
                    lemma_u8_shifts(raw1, raw2);
                }
                action = VgmAction::Write(SoundChipType::PWM, 0, channel as u32, dat as u32);
            },
            0xc0 => {
                let offset = self.get_vgm_u16();
                let dat = self.get_vgm_u8();
                action = VgmAction::Write(SoundChipType::SEGAPCM, 0, offset as u32, dat as u32);
            },
            0xe0 => {
                self.pcm_pos = self.get_vgm_u32() as usize;
                self.pcm_offset = 0;
            },
            0x30..=0x3f | 0x4f => {
                self.skip(1);
            },
            0x40..=0x4e | 0x5d | 0xb0..=0xbf => {
                self.skip(2);
            },
            0xc9..=0xcf | 0xd7..=0xdf | 0xc1..=0xc8 | 0xd0..=0xd6 => {
                self.skip(3);
            },
            0xe1..=0xff => {
                self.skip(4);
            },
            _ => {
                action = VgmAction::Unknown(self.vgm_pos - 1, self.vgm_data[self.vgm_pos - 1]);
            },
        }
        proof {
            lemma_u8_bits(command);
        }
        (wait, action)
    }
}

/// How many chips a header clock asks for: two where bit 30 is set.
pub open spec fn spec_number_of_chip(clock: u32) -> usize {
    if clock & 0x40000000 != 0 { 2 } else { 1 }
}

/// The chip entry for a header clock: none where the clock is 0.
pub open spec fn spec_chip_entry(t: SoundChipType, clock: u32, number: usize, chip_clock: u32) -> Seq<(SoundChipType, usize, u32)> {
    if clock != 0 { seq![(t, number, chip_clock)] } else { Seq::empty() }
}

/// The clock that the AY8910 is given: four times the YM2151's where there
/// is one, else four times the YM2413's where there is one, else eight
/// times its own.
pub open spec fn spec_ay8910_clock(h: VgmHeader) -> int {
    if h.clock_ym2151 != 0 {
        h.clock_ym2151 * 4
    } else if h.clock_ym2413 != 0 {
        h.clock_ym2413 * 4
    } else {
        h.clock_ay8910 * 8
    }
}

/// The chips that a header asks for, in the order they are set up: kind,
/// number and clock.
pub open spec fn spec_vgm_chips(h: VgmHeader) -> Seq<(SoundChipType, usize, u32)> {
    spec_chip_entry(SoundChipType::YM2612, h.clock_ym2612, spec_number_of_chip(h.clock_ym2612), h.clock_ym2612 & 0x3fffffff)
    + spec_chip_entry(SoundChipType::YM2151, h.clock_ym2151, spec_number_of_chip(h.clock_ym2151), h.clock_ym2151 & 0x3fffffff)
    + spec_chip_entry(SoundChipType::YM2203, h.clock_ym2203, spec_number_of_chip(h.clock_ym2203), h.clock_ym2203 & 0x3fffffff)
    + spec_chip_entry(SoundChipType::YM2413, h.clock_ym2413, spec_number_of_chip(h.clock_ym2413), h.clock_ym2413 & 0x3fffffff)
    + spec_chip_entry(SoundChipType::YM2149, h.clock_ay8910, spec_number_of_chip(h.clock_ay8910),
        (spec_ay8910_clock(h) as u32) & 0x3fffffff)
    + spec_chip_entry(SoundChipType::SEGAPSG, h.clock_sn76489, 1, h.clock_sn76489)
    + spec_chip_entry(SoundChipType::PWM, h.clock_pwm, 1, h.clock_pwm)
    + spec_chip_entry(SoundChipType::SEGAPCM, h.sega_pcm_clock, 1, h.sega_pcm_clock)
}

/// Where the commands of a VGM file start: 0x34 plus the header's data
/// offset, or 0x40 where there is none (files before version 1.50).
pub open spec fn spec_vgm_data_start(h: VgmHeader) -> usize {
    if h.vgm_data_offset == 0 { 0x40 } else { (0x34 + h.vgm_data_offset) as usize }
}

/// Whether the VGM data can be set up without a fault: it holds a header,
/// and where it is a VGM file, its GD3 offset lies inside it and the
/// offsets and clocks that the setup computes fit 32 bits.
pub open spec fn spec_vgm_init_ok(data: Seq<u8>) -> bool {
    data.len() >= VGM_HEADER_SIZE && (spec_has_tag(data, spec_vgm_tag()) ==> {
        let h = spec_vgm_header(data);
        &&& 0x14 + h.offset_gd3 <= data.len()
        &&& 0x1c + h.offset_loop <= u32::MAX
        &&& 0x34 + h.vgm_data_offset <= u32::MAX
        &&& h.clock_ay8910 != 0 ==> spec_ay8910_clock(h) <= u32::MAX
    })
}

/// Whether `data` can be set up without a fault.
pub fn vgm_init_ok(data: &[u8]) -> (r: bool)
    ensures
        r == spec_vgm_init_ok(data@),
{
    if data.len() < VGM_HEADER_SIZE {
        return false;
    }
    match crate::driver::metadata::parse_vgm_header(data) {
        None => true,
        Some((h, _)) => {
            let gd3_ok: bool = (h.offset_gd3 as u64) + 0x14 <= data.len() as u64;
            let loop_ok: bool = h.offset_loop <= u32::MAX - 0x1c;
            let data_ok: bool = h.vgm_data_offset <= u32::MAX - 0x34;
            let ay_ok: bool = if h.clock_ay8910 == 0 {
                true
            } else if h.clock_ym2151 != 0 {
                h.clock_ym2151 <= u32::MAX / 4
            } else if h.clock_ym2413 != 0 {
                h.clock_ym2413 <= u32::MAX / 4
            } else {
                h.clock_ay8910 <= u32::MAX / 8
            };
            gd3_ok && loop_ok && data_ok && ay_ok
        },
    }
}

/// How many chips a header clock asks for: two where bit 30 is set.
fn number_of_chip(clock: u32) -> (r: usize)
    ensures
        r == spec_number_of_chip(clock),
{
    if clock & 0x40000000 != 0 { 2 } else { 1 }
}

/// Append the entry for a header clock to `chips`.
fn push_chip_entry(chips: &mut Vec<(SoundChipType, usize, u32)>, t: SoundChipType, clock: u32, number: usize, chip_clock: u32)
    ensures
        final(chips)@ == old(chips)@ + spec_chip_entry(t, clock, number, chip_clock),
{
    if clock != 0 {
        chips.push((t, number, chip_clock));
    }
    assert(final(chips)@ =~= old(chips)@ + spec_chip_entry(t, clock, number, chip_clock));
}

/// The chips that a header asks for: kind, number and clock.
pub fn vgm_chips(h: VgmHeader) -> (r: Vec<(SoundChipType, usize, u32)>)
    requires
        h.clock_ay8910 != 0 ==> spec_ay8910_clock(h) <= u32::MAX,
    ensures
        r@ == spec_vgm_chips(h),
{
    let mut chips: Vec<(SoundChipType, usize, u32)> = Vec::new();
    push_chip_entry(&mut chips, SoundChipType::YM2612, h.clock_ym2612, number_of_chip(h.clock_ym2612), h.clock_ym2612 & 0x3fffffff);
    assert(Seq::<(SoundChipType, usize, u32)>::empty() + spec_chip_entry(SoundChipType::YM2612, h.clock_ym2612,
        spec_number_of_chip(h.clock_ym2612), h.clock_ym2612 & 0x3fffffff) =~= spec_chip_entry(SoundChipType::YM2612,
        h.clock_ym2612, spec_number_of_chip(h.clock_ym2612), h.clock_ym2612 & 0x3fffffff));
    push_chip_entry(&mut chips, SoundChipType::YM2151, h.clock_ym2151, number_of_chip(h.clock_ym2151), h.clock_ym2151 & 0x3fffffff);
    push_chip_entry(&mut chips, SoundChipType::YM2203, h.clock_ym2203, number_of_chip(h.clock_ym2203), h.clock_ym2203 & 0x3fffffff);
    push_chip_entry(&mut chips, SoundChipType::YM2413, h.clock_ym2413, number_of_chip(h.clock_ym2413), h.clock_ym2413 & 0x3fffffff);
    let clock_ay8910: u32 = if h.clock_ay8910 == 0 {
        0
    } else if h.clock_ym2151 != 0 {
        h.clock_ym2151 * 4
    } else if h.clock_ym2413 != 0 {
        h.clock_ym2413 * 4
    } else {
        h.clock_ay8910 * 8
    };
    push_chip_entry(&mut chips, SoundChipType::YM2149, h.clock_ay8910, number_of_chip(h.clock_ay8910), clock_ay8910 & 0x3fffffff);
    push_chip_entry(&mut chips, SoundChipType::SEGAPSG, h.clock_sn76489, 1, h.clock_sn76489);
    push_chip_entry(&mut chips, SoundChipType::PWM, h.clock_pwm, 1, h.clock_pwm);
    push_chip_entry(&mut chips, SoundChipType::SEGAPCM, h.sega_pcm_clock, 1, h.sega_pcm_clock);
    chips
}

impl VgmPlay {
    /// How many chips a header clock asks for: two where bit 30 is set.
    pub fn number_of_chip(&self, clock: u32) -> (r: usize)
        ensures
            r == spec_number_of_chip(clock),
    {
        number_of_chip(clock)
    }

    /// Take the file's content as the VGM data: decompressed where it is
    /// gzip data (a .vgz), else as it is.
    pub fn extract(&mut self)
        ensures
            final(self)@ == (VgmPlayView { data: spec_extract(old(self)@.file), ..old(self)@ }),
            final(self).same_meta(old(self)),
    {
        self.vgm_data = extract(self.vgm_file.as_slice());
    }

    /// Extract the file, read its header and GD3 tag, and set the play
    /// position and loop point. Returns the chips that the header asks for
    /// (kind, number, clock), or an error where the data is not a VGM file.
    pub fn init(&mut self) -> (r: Result<Vec<(SoundChipType, usize, u32)>, &'static str>)
        requires
            spec_vgm_init_ok(spec_extract(old(self)@.file)),
        ensures
            ({
                let data = spec_extract(old(self)@.file);
                let h = spec_vgm_header(data);
                match r {
                    Ok(chips) => {
                        &&& spec_has_tag(data, spec_vgm_tag())
                        &&& final(self).header() == h
                        &&& final(self).gd3() == spec_gd3_or_blank(data, 0x14 + h.offset_gd3)
                        &&& final(self)@ == (VgmPlayView {
                            data: data,
                            loop_: h.offset_loop as usize,
                            loop_offset: (0x1c + h.offset_loop) as usize,
                            pos: spec_vgm_data_start(h),
                            ..old(self)@
                        })
                        &&& chips@ == spec_vgm_chips(h)
                    },
                    Err(e) => {
                        &&& !spec_has_tag(data, spec_vgm_tag())
                        &&& e@ == "vgm header parse error."@
                        &&& final(self)@ == (VgmPlayView { data: data, ..old(self)@ })
                        &&& final(self).same_meta(old(self))
                    },
                }
            }),
    {
        self.extract();
        self.setup()
    }

    /// Read the metadata of the data already in the player (decompressed)
    /// and set up to play it: the commands start at the header's data
    /// position. Fails where the data is no VGM file.
    pub fn setup(&mut self) -> (r: Result<Vec<(SoundChipType, usize, u32)>, &'static str>)
        requires
            spec_vgm_init_ok(old(self)@.data),
        ensures
            ({
                let data = old(self)@.data;
                let h = spec_vgm_header(data);
                match r {
                    Ok(chips) => {
                        &&& spec_has_tag(data, spec_vgm_tag())
                        &&& final(self).header() == h
                        &&& final(self).gd3() == spec_gd3_or_blank(data, 0x14 + h.offset_gd3)
                        &&& final(self)@ == (VgmPlayView {
                            data: data,
                            loop_: h.offset_loop as usize,
                            loop_offset: (0x1c + h.offset_loop) as usize,
                            pos: spec_vgm_data_start(h),
                            ..old(self)@
                        })
                        &&& chips@ == spec_vgm_chips(h)
                    },
                    Err(e) => {
                        &&& !spec_has_tag(data, spec_vgm_tag())
                        &&& e@ == "vgm header parse error."@
                        &&& final(self)@ == (VgmPlayView { data: data, ..old(self)@ })
                        &&& final(self).same_meta(old(self))
                    },
                }
            }),
    {
        assert(self.vgm_data@.len() == self.vgm_data.len());
        match parse_vgm_meta(self.vgm_data.as_slice()) {
            Ok((header, gd3)) => {
                self.vgm_header = header;
                self.vgm_gd3 = gd3;
            },
            Err(message) => {
                return Err(message);
            },
        }
        self.vgm_loop = self.vgm_header.offset_loop as usize;
        self.vgm_loop_offset = (0x1c + self.vgm_header.offset_loop) as usize;
        self.vgm_pos = if self.vgm_header.vgm_data_offset == 0 {
            0x40
        } else {
            (0x34 + self.vgm_header.vgm_data_offset) as usize
        };

        Ok(vgm_chips(self.vgm_header))
    }

    /// `init` for a file that is not compressed: its bytes are the data.
    pub fn init_plain(&mut self) -> (r: Result<Vec<(SoundChipType, usize, u32)>, &'static str>)
        requires
            spec_vgm_init_ok(old(self)@.file),
        ensures
            ({
                let data = old(self)@.file;
                let h = spec_vgm_header(data);
                match r {
                    Ok(chips) => {
                        &&& spec_has_tag(data, spec_vgm_tag())
                        &&& final(self).header() == h
                        &&& final(self).gd3() == spec_gd3_or_blank(data, 0x14 + h.offset_gd3)
                        &&& final(self)@ == (VgmPlayView {
                            data: data,
                            loop_: h.offset_loop as usize,
                            loop_offset: (0x1c + h.offset_loop) as usize,
                            pos: spec_vgm_data_start(h),
                            ..old(self)@
                        })
                        &&& chips@ == spec_vgm_chips(h)
                    },
                    Err(e) => {
                        &&& !spec_has_tag(data, spec_vgm_tag())
                        &&& e@ == "vgm header parse error."@
                        &&& final(self)@ == (VgmPlayView { data: data, ..old(self)@ })
                        &&& final(self).same_meta(old(self))
                    },
                }
            }),
    {
        self.vgm_data = self.vgm_file.clone();
        assert(self.vgm_data@ == old(self).vgm_file@);
        self.setup()
    }

    /// `init`, where the file can be set up without a fault; `None` (and the
    /// player unchanged) where it cannot.
    pub fn init_checked(&mut self) -> (r: Option<Result<Vec<(SoundChipType, usize, u32)>, &'static str>>)
        ensures
            r is None <==> !spec_vgm_init_ok(spec_extract(old(self)@.file)),
            r is None ==> final(self)@ == old(self)@ && final(self).same_meta(old(self)),
            r is Some ==> match r->0 {
                Ok(chips) => {
                    let data = spec_extract(old(self)@.file);
                    let h = spec_vgm_header(data);
                    &&& spec_has_tag(data, spec_vgm_tag())
                    &&& final(self).header() == h
                    &&& final(self)@.data == data
                    &&& final(self)@.pos == spec_vgm_data_start(h)
                    &&& chips@ == spec_vgm_chips(h)
                },
                Err(_) => !spec_has_tag(spec_extract(old(self)@.file), spec_vgm_tag()),
            },
    {
        let data = extract(self.vgm_file.as_slice());
        if vgm_init_ok(data.as_slice()) {
            Some(self.init())
        } else {
            None
        }
    }
}

/// The stream sampling position at the start of a tick: it restarts where
/// the stream stands at its start position.
pub open spec fn spec_pcm_sampling_pos(s: VgmPlayView) -> u32 {
    if s.pcm_stream_pos_init == s.pcm_stream_pos && s.pcm_stream_length > 0 { 0 } else { s.pcm_stream_sampling_pos }
}

/// Whether the PCM stream writes a byte at this tick: it has bytes left and
/// its sampling position is at a multiple of the sample period.
pub open spec fn spec_pcm_fires(s: VgmPlayView) -> bool {
    s.pcm_stream_length > 0 && spec_pcm_sampling_pos(s) % s.pcm_stream_sample_count == 0
}

/// Whether one tick of the PCM stream can run without a fault: a running
/// stream has a sample period, the byte it writes lies inside the data, and
/// the sampling position does not overflow.
pub open spec fn spec_pcm_stream_ok(s: VgmPlayView) -> bool {
    &&& s.pcm_stream_length > 0 ==> s.pcm_stream_sample_count != 0
    &&& spec_pcm_fires(s) ==> s.pcm_origin_pos + s.pcm_stream_pos + s.pcm_stream_offset < s.data.len()
    &&& s.pcm_stream_length - (if spec_pcm_fires(s) { 1int } else { 0 }) > 0 ==> spec_pcm_sampling_pos(s) < u32::MAX
}

/// One tick of the YM2612 PCM stream: the byte it writes to the DAC, where
/// it fires, and the stream's next state.
pub open spec fn spec_pcm_stream_step(s: VgmPlayView) -> (VgmPlayView, Option<u8>) {
    let sp = spec_pcm_sampling_pos(s);
    let fires = spec_pcm_fires(s);
    let length = if fires { (s.pcm_stream_length - 1) as usize } else { s.pcm_stream_length };
    let pos = if fires { (s.pcm_stream_pos + 1) as usize } else { s.pcm_stream_pos };
    let out = if fires { Some(s.data[s.pcm_origin_pos + s.pcm_stream_pos + s.pcm_stream_offset]) } else { None };
    (VgmPlayView {
        pcm_stream_sampling_pos: if length > 0 { (sp + 1) as u32 } else { sp },
        pcm_stream_length: length,
        pcm_stream_pos: pos,
        ..s
    }, out)
}

impl VgmPlay {
    /// Whether the next command can be carried out without a fault.
    pub fn vgm_step_ok(&self, repeat: bool) -> (r: bool)
        ensures
            r == spec_vgm_step_ok(self@, repeat),
    {
        let len: usize = self.vgm_data.len();
        let p: usize = self.vgm_pos;
        if p >= len {
            return false;
        }
        let c: u8 = self.vgm_data[p];
        let d = self.vgm_data.as_slice();
        if c == 0x50 || c == 0x94 {
            len - p >= 2
        } else if c == 0x51 || c == 0xa1 || c == 0x52 || c == 0xa2 || c == 0x53 || c == 0xa3 || c == 0x54
            || c == 0xa4 || c == 0x55 || c == 0xa5 || c == 0xa0 || c == 0xb2 || c == 0x61 {
            len - p >= 3
        } else if (0x56 <= c && c <= 0x5c) || c == 0x5e || c == 0x5f || (0xa6 <= c && c <= 0xac) || c == 0xae
            || c == 0xaf || (0x40 <= c && c <= 0x4e) || c == 0x5d || (0xb0 <= c && c <= 0xbf && c != 0xb2) {
            len - p >= 3
        } else if (0x30 <= c && c <= 0x3f) || c == 0x4f {
            len - p >= 2
        } else if (0xc1 <= c && c <= 0xcf) || (0xd0 <= c && c <= 0xdf) {
            len - p >= 4
        } else if c == 0x90 || c == 0x91 || c == 0x95 || c >= 0xe1 {
            len - p >= 5
        } else if c == 0x66 {
            !(self.vgm_loop != 0 && repeat) || self.vgm_loop_count < usize::MAX
        } else if c == 0x67 {
            if len - p < 7 {
                return false;
            }
            let data_type: u8 = d[p + 2];
            let size: u32 = crate::driver::meta::le_u32(d, p + 3);
            let data_pos: usize = p + 7;
            if size as usize > usize::MAX - data_pos {
                return false;
            }
            if 0x80 <= data_type && data_type <= 0xbf {
                if len - data_pos < 8 {
                    return false;
                }
                let rom_size: u32 = crate::driver::meta::le_u32(d, data_pos);
                let start_address: u32 = crate::driver::meta::le_u32(d, data_pos + 4);
                if start_address < rom_size && size < 8 {
                    return false;
                }
                let data_size: u32 = if start_address < rom_size {
                    if size - 8 < rom_size - start_address { size - 8 } else { rom_size - start_address }
                } else {
                    0
                };
                (data_size as usize) <= len - data_pos - 8 && (start_address as u64 + data_size as u64) >= 1
            } else {
                true
            }
        } else if 0x80 <= c && c <= 0x8f {
            self.pcm_origin_pos < len && self.pcm_pos < len - self.pcm_origin_pos
                && self.pcm_offset < len - self.pcm_origin_pos - self.pcm_pos
        } else if c == 0x92 {
            len - p >= 6 && crate::driver::meta::le_u32(d, p + 2) != 0
        } else if c == 0x93 {
            len - p >= 11
        } else if c == 0xc0 {
            len - p >= 4
        } else if c == 0xe0 {
            len - p >= 5
        } else {
            true
        }
    }

    /// Whether one tick of the PCM stream can run without a fault.
    pub fn pcm_stream_ok(&self) -> (r: bool)
        ensures
            r == spec_pcm_stream_ok(self@),
    {
        let sp: u32 = if self.pcm_stream_pos_init == self.pcm_stream_pos && self.pcm_stream_length > 0 {
            0
        } else {
            self.pcm_stream_sampling_pos
        };
        if self.pcm_stream_length > 0 && self.pcm_stream_sample_count == 0 {
            return false;
        }
        let fires: bool = self.pcm_stream_length > 0 && sp % self.pcm_stream_sample_count == 0;
        let len: usize = self.vgm_data.len();
        if fires && !(self.pcm_origin_pos < len && self.pcm_stream_pos < len - self.pcm_origin_pos
            && self.pcm_stream_offset < len - self.pcm_origin_pos - self.pcm_stream_pos) {
            return false;
        }
        let length: usize = if fires { self.pcm_stream_length - 1 } else { self.pcm_stream_length };
        !(length > 0) || sp < u32::MAX
    }

    /// One tick of the YM2612 PCM stream: returns the byte to write to the
    /// DAC (port 0x2a of the first YM2612), where the stream fires.
    pub fn update_pcm_stream(&mut self) -> (r: Option<u8>)
        requires
            spec_pcm_stream_ok(old(self)@),
        ensures
            (final(self)@, r) == spec_pcm_stream_step(old(self)@),
            final(self).same_meta(old(self)),
    {
        assert(self.vgm_data@.len() == self.vgm_data.len());
        if self.pcm_stream_pos_init == self.pcm_stream_pos && self.pcm_stream_length > 0 {
            self.pcm_stream_sampling_pos = 0;
        }
        let mut out: Option<u8> = None;
        if self.pcm_stream_length > 0 && self.pcm_stream_sampling_pos % self.pcm_stream_sample_count == 0 {
            out = Some(self.vgm_data[self.pcm_origin_pos + self.pcm_stream_pos + self.pcm_stream_offset]);
            self.pcm_stream_length = self.pcm_stream_length - 1;
            self.pcm_stream_pos = self.pcm_stream_pos + 1;
        }
        if self.pcm_stream_length > 0 {
            self.pcm_stream_sampling_pos = self.pcm_stream_sampling_pos + 1;
        }
        out
    }

    /// The number of ticks left before the next command.
    pub fn remain_tick_count(&self) -> (r: usize)
        ensures
            r == self@.remain_tick_count,
    {
        self.remain_tick_count
    }

    /// Whether the stream has ended.
    pub fn is_end(&self) -> (r: bool)
        ensures
            r == self@.end,
    {
        self.vgm_end
    }

    /// Count one tick played.
    pub fn tick_done(&mut self)
        requires
            old(self)@.remain_tick_count > 0,
        ensures
            final(self)@ == (VgmPlayView { remain_tick_count: (old(self)@.remain_tick_count - 1) as usize, ..old(self)@ }),
            final(self).same_meta(old(self)),
    {
        self.remain_tick_count = self.remain_tick_count - 1;
    }

    /// Carry out the next command and wait the ticks it asks for; returns
    /// what the slot is to do.
    pub fn next_command(&mut self, repeat: bool) -> (r: VgmAction)
        requires
            spec_vgm_step_ok(old(self)@, repeat),
        ensures
            ({
                let (s, wait, action) = spec_vgm_step(old(self)@, repeat);
                &&& final(self)@ == (VgmPlayView { remain_tick_count: wait as usize, ..s })
                &&& r == action
            }),
            final(self).same_meta(old(self)),
    {
        let (wait, action) = self.parse_vgm(repeat);
        self.remain_tick_count = wait as usize;
        action
    }

    /// The result of a play call: the loop count (reset to 0 where it has
    /// reached the largest value), or `usize::MAX` once the stream has ended.
    pub fn play_result(&mut self) -> (r: usize)
        ensures
            final(self)@ == (VgmPlayView {
                loop_count: if old(self)@.loop_count == usize::MAX { 0 } else { old(self)@.loop_count },
                ..old(self)@
            }),
            final(self).same_meta(old(self)),
            r == if old(self)@.end { usize::MAX } else if old(self)@.loop_count == usize::MAX { 0 } else { old(self)@.loop_count },
    {
        if self.vgm_loop_count == usize::MAX {
            self.vgm_loop_count = 0;
        }
        if self.vgm_end { usize::MAX } else { self.vgm_loop_count }
    }
}

/// Every command but the loop jump moves the read position forward: the
/// player never reads a command twice except by looping.
pub proof fn lemma_vgm_step_advances(s: VgmPlayView, repeat: bool)
    requires
        s.data.len() <= usize::MAX,
        spec_vgm_step_ok(s, repeat),
        !(s.data[s.pos as int] == 0x66 && s.loop_ != 0 && repeat),
    ensures
        spec_vgm_step(s, repeat).0.pos > s.pos,
{
}

/// The end command ends the stream unless it loops; looping goes back to
/// the loop point and counts one more loop.
pub proof fn lemma_vgm_end_or_loop(s: VgmPlayView, repeat: bool)
    requires
        spec_vgm_step_ok(s, repeat),
        s.data[s.pos as int] == 0x66,
    ensures
        s.loop_ != 0 && repeat ==> {
            &&& spec_vgm_step(s, repeat).0.pos == s.loop_offset
            &&& spec_vgm_step(s, repeat).0.loop_count == s.loop_count + 1
            &&& !spec_vgm_step(s, repeat).0.end || s.end
        },
        !(s.loop_ != 0 && repeat) ==> spec_vgm_step(s, repeat).0.end,
        spec_vgm_step(s, repeat).1 == 0,
        spec_vgm_step(s, repeat).2 == VgmAction::Nothing,
{
}

/// The wait commands: 0x61 waits the 16-bit little-endian count in its next
/// two bytes, 0x62 one NTSC frame (735 samples), 0x63 one PAL frame (882),
/// 0x7n waits n + 1 samples, and 0x8n writes the next PCM byte to the
/// YM2612 DAC (register 0x2a) and waits n samples. Each moves past its own
/// bytes and touches nothing else of the player.
pub proof fn lemma_vgm_wait_commands(s: VgmPlayView, repeat: bool)
    requires
        s.pos < s.data.len(),
    ensures
        ({
            let p = s.pos as int;
            let c = s.data[p];
            let (t, wait, action) = spec_vgm_step(s, repeat);
            &&& c == 0x61 ==> wait == s.data[p + 1] + s.data[p + 2] * 256 && action == VgmAction::Nothing
                && t == (VgmPlayView { pos: (p + 3) as usize, ..s })
            &&& c == 0x62 ==> wait == 735 && action == VgmAction::Nothing && t == (VgmPlayView { pos: (p + 1) as usize, ..s })
            &&& c == 0x63 ==> wait == 882 && action == VgmAction::Nothing && t == (VgmPlayView { pos: (p + 1) as usize, ..s })
            &&& 0x70 <= c <= 0x7f ==> wait == c - 0x70 + 1 && action == VgmAction::Nothing
                && t == (VgmPlayView { pos: (p + 1) as usize, ..s })
            &&& 0x80 <= c <= 0x8f ==> {
                &&& wait == c - 0x80
                &&& action == VgmAction::Write(SoundChipType::YM2612, 0, 0x2a,
                    s.data[s.pcm_origin_pos + s.pcm_pos + s.pcm_offset] as u32)
                &&& t == (VgmPlayView { pos: (p + 1) as usize, pcm_offset: (s.pcm_offset + 1) as usize, ..s })
            }
        }),
{
}

/// The register write commands: 0x50 writes its byte to the PSG; 0x51-0x55
/// write register `aa` = its first byte with value `dd` = its second byte
/// to the YM2413, the YM2612 (port 0), the YM2612 (port 1, register
/// 0x100 + aa), the YM2151 and the YM2203; 0xa1-0xa5 the same to the second
/// chip; 0xa0 writes the AY8910 (YM2149); 0xb2 writes PWM register (first
/// byte's high nibble) with the 12 bits that follow; 0xc0 writes Sega PCM
/// memory at the 16-bit little-endian address. None of them waits, and each
/// moves past its own bytes.
pub proof fn lemma_vgm_write_commands(s: VgmPlayView, repeat: bool)
    requires
        s.pos < s.data.len(),
    ensures
        ({
            let p = s.pos as int;
            let d = s.data;
            let c = d[p];
            let (t, wait, action) = spec_vgm_step(s, repeat);
            &&& c == 0x50 ==> action == VgmAction::Write(SoundChipType::SEGAPSG, 0, 0, d[p + 1] as u32)
                && wait == 0 && t == (VgmPlayView { pos: (p + 2) as usize, ..s })
            &&& (0x51 <= c <= 0x55 || 0xa0 <= c <= 0xa5 || c == 0xb2) ==> wait == 0
                && t == (VgmPlayView { pos: (p + 3) as usize, ..s })
            &&& c == 0x51 ==> action == VgmAction::Write(SoundChipType::YM2413, 0, d[p + 1] as u32, d[p + 2] as u32)
            &&& c == 0x52 ==> action == VgmAction::Write(SoundChipType::YM2612, 0, d[p + 1] as u32, d[p + 2] as u32)
            &&& c == 0x53 ==> action == VgmAction::Write(SoundChipType::YM2612, 0, (d[p + 1] + 0x100) as u32, d[p + 2] as u32)
            &&& c == 0x54 ==> action == VgmAction::Write(SoundChipType::YM2151, 0, d[p + 1] as u32, d[p + 2] as u32)
            &&& c == 0x55 ==> action == VgmAction::Write(SoundChipType::YM2203, 0, d[p + 1] as u32, d[p + 2] as u32)
            &&& c == 0xa0 ==> action == VgmAction::Write(SoundChipType::YM2149, 0, d[p + 1] as u32, d[p + 2] as u32)
            &&& c == 0xa1 ==> action == VgmAction::Write(SoundChipType::YM2413, 1, d[p + 1] as u32, d[p + 2] as u32)
            &&& c == 0xa2 ==> action == VgmAction::Write(SoundChipType::YM2612, 1, d[p + 1] as u32, d[p + 2] as u32)
            &&& c == 0xa3 ==> action == VgmAction::Write(SoundChipType::YM2612, 1, (d[p + 1] + 0x100) as u32, d[p + 2] as u32)
            &&& c == 0xa4 ==> action == VgmAction::Write(SoundChipType::YM2151, 1, d[p + 1] as u32, d[p + 2] as u32)
            &&& c == 0xa5 ==> action == VgmAction::Write(SoundChipType::YM2203, 1, d[p + 1] as u32, d[p + 2] as u32)
            &&& c == 0xb2 ==> action == VgmAction::Write(SoundChipType::PWM, 0, (d[p + 1] / 16) as u32,
                ((d[p + 1] % 16) * 256 + d[p + 2]) as u32)
            &&& c == 0xc0 ==> action == VgmAction::Write(SoundChipType::SEGAPCM, 0, (d[p + 1] + d[p + 2] * 256) as u32,
                d[p + 3] as u32) && wait == 0 && t == (VgmPlayView { pos: (p + 4) as usize, ..s })
        }),
{
}

/// The PCM commands: 0x67 skips its data block (size in the little-endian
/// word at 3) and, for a block of type 0x00-0x3f, makes it the PCM data;
/// 0xe0 seeks the PCM data to the little-endian word that follows; 0x92
/// sets the stream rate to 44100 divided by the word at 2; 0x93 starts the
/// stream at the word at 2 for the length in the word at 7; 0x94 stops it.
/// None of them waits or asks the slot for a write.
pub proof fn lemma_vgm_pcm_commands(s: VgmPlayView, repeat: bool)
    requires
        spec_vgm_step_ok(s, repeat),
    ensures
        ({
            let p = s.pos as int;
            let d = s.data;
            let c = d[p];
            let (t, wait, action) = spec_vgm_step(s, repeat);
            let w = |q: int| d[q] + d[q + 1] * 0x100 + d[q + 2] * 0x10000 + d[q + 3] * 0x1000000;
            &&& c == 0x67 ==> wait == 0 && t.pos == p + 7 + w(p + 3)
            &&& c == 0x67 && d[p + 2] <= 0x3f ==> action == VgmAction::Nothing
                && t == (VgmPlayView { pos: (p + 7 + w(p + 3)) as usize, pcm_origin_pos: (p + 7) as usize, ..s })
            &&& c == 0xe0 ==> wait == 0 && action == VgmAction::Nothing
                && t == (VgmPlayView { pos: (p + 5) as usize, pcm_pos: w(p + 1) as usize, pcm_offset: 0, ..s })
            &&& c == 0x92 ==> wait == 0 && action == VgmAction::Nothing
                && t == (VgmPlayView { pos: (p + 6) as usize, pcm_stream_sample_count: (44100int / w(p + 2)) as u32, ..s })
            &&& c == 0x93 ==> wait == 0 && action == VgmAction::Nothing && t == (VgmPlayView {
                pos: (p + 11) as usize,
                pcm_stream_pos_init: w(p + 2) as usize,
                pcm_stream_pos: w(p + 2) as usize,
                pcm_stream_length: w(p + 7) as usize,
                pcm_stream_offset: 0,
                ..s
            })
            &&& c == 0x94 ==> wait == 0 && action == VgmAction::Nothing
                && t == (VgmPlayView { pos: (p + 2) as usize, pcm_stream_length: 0, ..s })
        }),
{
}

/// The chip number that a header clock asks for: two where its bit 30 is
/// set, else one.
pub open spec fn spec_clock_count(c: u32) -> usize {
    if (c / 0x40000000) % 2 == 1 { 2 } else { 1 }
}

/// The entry that a header asks for of a chip kind, from that kind's clock
/// field alone: none where the clock is 0; the YM2612, YM2151, YM2203,
/// YM2413 and AY8910 one or two at a time (bit 30) at the clock's low 30
/// bits (for the AY8910, four times the YM2151 or else the YM2413 clock, or
/// else eight times its own); the PSG, the PWM and the Sega PCM once at
/// their clock as it stands.
pub open spec fn spec_header_chip(h: VgmHeader, t: SoundChipType) -> Option<(SoundChipType, usize, u32)> {
    let ay = (if h.clock_ym2151 != 0 { h.clock_ym2151 * 4 } else if h.clock_ym2413 != 0 { h.clock_ym2413 * 4 }
        else { h.clock_ay8910 * 8 }) as u32;
    if t == SoundChipType::YM2612 && h.clock_ym2612 != 0 {
        Some((t, spec_clock_count(h.clock_ym2612), h.clock_ym2612 % 0x40000000))
    } else if t == SoundChipType::YM2151 && h.clock_ym2151 != 0 {
        Some((t, spec_clock_count(h.clock_ym2151), h.clock_ym2151 % 0x40000000))
    } else if t == SoundChipType::YM2203 && h.clock_ym2203 != 0 {
        Some((t, spec_clock_count(h.clock_ym2203), h.clock_ym2203 % 0x40000000))
    } else if t == SoundChipType::YM2413 && h.clock_ym2413 != 0 {
        Some((t, spec_clock_count(h.clock_ym2413), h.clock_ym2413 % 0x40000000))
    } else if t == SoundChipType::YM2149 && h.clock_ay8910 != 0 {
        Some((t, spec_clock_count(h.clock_ay8910), ay % 0x40000000))
    } else if t == SoundChipType::SEGAPSG && h.clock_sn76489 != 0 {
        Some((t, 1usize, h.clock_sn76489))
    } else if t == SoundChipType::PWM && h.clock_pwm != 0 {
        Some((t, 1usize, h.clock_pwm))
    } else if t == SoundChipType::SEGAPCM && h.sega_pcm_clock != 0 {
        Some((t, 1usize, h.sega_pcm_clock))
    } else {
        None
    }
}

/// Every chip that a header asks for comes from its own kind's clock
/// field, and every kind whose clock is not 0 is asked for.
#[verifier::spinoff_prover]
#[verifier::rlimit(60)]
pub proof fn lemma_vgm_chips_from_clocks(h: VgmHeader)
    ensures
        forall|i: int| 0 <= i < spec_vgm_chips(h).len()
            ==> spec_header_chip(h, (#[trigger] spec_vgm_chips(h)[i]).0) == Some(spec_vgm_chips(h)[i]),
        forall|t: SoundChipType| #[trigger] spec_header_chip(h, t) is Some
            ==> spec_vgm_chips(h).contains(spec_header_chip(h, t)->0),
{
    lemma_u32_clock_fields(h.clock_ym2612);
    lemma_u32_clock_fields(h.clock_ym2151);
    lemma_u32_clock_fields(h.clock_ym2203);
    lemma_u32_clock_fields(h.clock_ym2413);
    lemma_u32_clock_fields(h.clock_ay8910);
    lemma_u32_clock_fields(spec_ay8910_clock(h) as u32);
    let e1 = spec_chip_entry(SoundChipType::YM2612, h.clock_ym2612, spec_number_of_chip(h.clock_ym2612), h.clock_ym2612 & 0x3fffffff);
    let e2 = spec_chip_entry(SoundChipType::YM2151, h.clock_ym2151, spec_number_of_chip(h.clock_ym2151), h.clock_ym2151 & 0x3fffffff);
    let e3 = spec_chip_entry(SoundChipType::YM2203, h.clock_ym2203, spec_number_of_chip(h.clock_ym2203), h.clock_ym2203 & 0x3fffffff);
    let e4 = spec_chip_entry(SoundChipType::YM2413, h.clock_ym2413, spec_number_of_chip(h.clock_ym2413), h.clock_ym2413 & 0x3fffffff);
    let e5 = spec_chip_entry(SoundChipType::YM2149, h.clock_ay8910, spec_number_of_chip(h.clock_ay8910),
        (spec_ay8910_clock(h) as u32) & 0x3fffffff);
    let e6 = spec_chip_entry(SoundChipType::SEGAPSG, h.clock_sn76489, 1, h.clock_sn76489);
    let e7 = spec_chip_entry(SoundChipType::PWM, h.clock_pwm, 1, h.clock_pwm);
    let e8 = spec_chip_entry(SoundChipType::SEGAPCM, h.sega_pcm_clock, 1, h.sega_pcm_clock);
    let a2 = e1 + e2;
    let a3 = a2 + e3;
    let a4 = a3 + e4;
    let a5 = a4 + e5;
    let a6 = a5 + e6;
    let a7 = a6 + e7;
    let chips = a7 + e8;
    assert(spec_vgm_chips(h) == chips);
    let ok = |x: (SoundChipType, usize, u32)| spec_header_chip(h, x.0) == Some(x);
    assert forall|i: int| 0 <= i < chips.len() implies ok(#[trigger] chips[i]) by {
        if i < a7.len() {
            if i < a6.len() {
                if i < a5.len() {
                    if i < a4.len() {
                        if i < a3.len() {
                            if i < a2.len() {
                                if i < e1.len() {
                                    assert(chips[i] == e1[i]);
                                } else {
                                    assert(chips[i] == e2[i - e1.len()]);
                                }
                            } else {
                                assert(chips[i] == e3[i - a2.len()]);
                            }
                        } else {
                            assert(chips[i] == e4[i - a3.len()]);
                        }
                    } else {
                        assert(chips[i] == e5[i - a4.len()]);
                    }
                } else {
                    assert(chips[i] == e6[i - a5.len()]);
                }
            } else {
                assert(chips[i] == e7[i - a6.len()]);
            }
        } else {
            assert(chips[i] == e8[i - a7.len()]);
        }
    }
    if e1.len() == 1 { assert(chips[0] == e1[0]); }
    if e2.len() == 1 { assert(chips[e1.len() as int] == e2[0]); }
    if e3.len() == 1 { assert(chips[a2.len() as int] == e3[0]); }
    if e4.len() == 1 { assert(chips[a3.len() as int] == e4[0]); }
    if e5.len() == 1 { assert(chips[a4.len() as int] == e5[0]); }
    if e6.len() == 1 { assert(chips[a5.len() as int] == e6[0]); }
    if e7.len() == 1 { assert(chips[a6.len() as int] == e7[0]); }
    if e8.len() == 1 { assert(chips[a7.len() as int] == e8[0]); }
}

/// Every chip that a header asks for comes one or two at a time, with a
/// clock below 2^30 where the header's clock carries the dual-chip flag.
pub proof fn lemma_vgm_chips_counts(h: VgmHeader)
    ensures
        forall|i: int| 0 <= i < spec_vgm_chips(h).len() ==> {
            let (t, n, c) = #[trigger] spec_vgm_chips(h)[i];
            1 <= n <= 2
        },
{
    let parts = seq![
        spec_chip_entry(SoundChipType::YM2612, h.clock_ym2612, spec_number_of_chip(h.clock_ym2612), h.clock_ym2612 & 0x3fffffff),
        spec_chip_entry(SoundChipType::YM2151, h.clock_ym2151, spec_number_of_chip(h.clock_ym2151), h.clock_ym2151 & 0x3fffffff),
        spec_chip_entry(SoundChipType::YM2203, h.clock_ym2203, spec_number_of_chip(h.clock_ym2203), h.clock_ym2203 & 0x3fffffff),
        spec_chip_entry(SoundChipType::YM2413, h.clock_ym2413, spec_number_of_chip(h.clock_ym2413), h.clock_ym2413 & 0x3fffffff),
    ];
    let all = spec_vgm_chips(h);
    assert forall|i: int| 0 <= i < all.len() implies { let (t, n, c) = #[trigger] all[i]; 1 <= n <= 2 } by {
        assert(all.contains(all[i]));
    }
}

} // verus!
