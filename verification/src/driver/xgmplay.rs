use vstd::prelude::*;
use crate::bits::lemma_u8_shifts;
use crate::driver::meta::{extract, spec_extract, spec_le_u16, spec_le_u32};
use crate::driver::gd3meta::{spec_parse_gd3, Gd3, GD3_FIELDS};
use crate::driver::xgmmeta::{
    parse_xgm_meta, spec_xgm_gd3_pos, spec_xgm_header, spec_xgm_header_parses,
    VDPMode, XgmHeader, XgmHeaderView, XGM_SAMPLE_DATA_BLOC_ADDRESS,
};

verus! {

/// The tick rate of an NTSC XGM file (frames per second).
pub const XGM_NTSC_TICK_RATE: u32 = 60;

/// The sampling rate of the XGM PCM channels.
pub const XGM_PCM_SAMPLING_RATE: u32 = 14000;

/// The number of XGM PCM channels.
pub const XGM_PCM_MAX_CHANNEL: u32 = 4;

/// The Mega Drive master clock, NTSC.
pub const MASTER_CLOCK_NTSC: u32 = 53693175;

/// The Mega Drive master clock, PAL.
pub const MASTER_CLOCK_PAL: u32 = 53203424;

/// What the sound slot is to be given for an XGM file.
pub struct XgmSetup {
    /// Whether the file is PAL, which changes the tick rate to 50.
    pub pal: bool,
    /// The YM2612 clock.
    pub clock_ym2612: u32,
    /// The SN76489 clock.
    pub clock_sn76489: u32,
    /// The data range (start, end) of each sample, by sample id.
    pub sample_blocks: Vec<(usize, usize)>,
}

/// The data range of a sample entry: from 0x104 plus 256 times its address,
/// 256 times its size long.
pub open spec fn spec_xgm_sample_block(entry: (u16, u16)) -> (usize, usize) {
    let start = entry.0 as int * 256 + XGM_SAMPLE_DATA_BLOC_ADDRESS as int;
    (start as usize, (entry.1 as int * 256 + start) as usize)
}

/// Whether an XGM file can be set up without a fault: where its header
/// parses, any GD3 tag position fits, and every
/// sample lies inside the data.
pub open spec fn spec_xgm_init_ok(data: Seq<u8>) -> bool {
    spec_xgm_header_parses(data) ==> {
        let h = spec_xgm_header(data);
        &&& h.gd3_tag ==> spec_xgm_gd3_pos(h) <= u32::MAX && spec_xgm_gd3_pos(h) <= data.len()
        &&& forall|k: int| 0 <= k < h.sample_id_table.len() ==> (#[trigger] spec_xgm_sample_block(h.sample_id_table[k])).1 <= data.len()
    }
}

/// The state of an XGM player.
pub struct XgmPlayView {
    pub data: Seq<u8>,
    pub pos: usize,
    pub loop_: usize,
    pub loop_offset: usize,
    pub loop_count: usize,
    pub end: bool,
    pub remain_tick_count: usize,
}

/// An XGM player: holds the decompressed file and its metadata.
pub struct XgmPlay {
    xgm_pos: usize,
    xgm_loop: usize,
    xgm_loop_offset: usize,
    xgm_loop_count: usize,
    xgm_end: bool,
    xgm_data: Vec<u8>,
    xgm_header: XgmHeader,
    xgm_gd3: Gd3,
    remain_tick_count: usize,
}

impl View for XgmPlay {
    type V = XgmPlayView;

    closed spec fn view(&self) -> XgmPlayView {
        XgmPlayView {
            data: self.xgm_data@,
            pos: self.xgm_pos,
            loop_: self.xgm_loop,
            loop_offset: self.xgm_loop_offset,
            loop_count: self.xgm_loop_count,
            end: self.xgm_end,
            remain_tick_count: self.remain_tick_count,
        }
    }
}

impl XgmPlay {
    /// The header read from the file.
    pub closed spec fn header(&self) -> XgmHeaderView {
        self.xgm_header@
    }

    /// The GD3 strings read from the file.
    pub closed spec fn gd3(&self) -> Seq<Seq<char>> {
        self.xgm_gd3@
    }

    /// Decompress the file where it is gzip data, read its metadata, and
    /// say how the sound slot is to be set up: the chip clocks by video
    /// mode, and one data block per sample. Fails where the header does not
    /// parse.
    pub fn new(xgm_file: &[u8]) -> (r: Result<(XgmPlay, XgmSetup), &'static str>)
        requires
            spec_xgm_init_ok(spec_extract(xgm_file@)),
        ensures
            ({
                let data = spec_extract(xgm_file@);
                match r {
                    Ok((p, setup)) => {
                        let h = spec_xgm_header(data);
                        &&& spec_xgm_header_parses(data)
                        &&& p@ == (XgmPlayView {
                            data: data, pos: 0, loop_: 0, loop_offset: 0, loop_count: 0, end: false, remain_tick_count: 0,
                        })
                        &&& p.header() == h
                        &&& p.gd3() == if h.gd3_tag {
                            match spec_parse_gd3(data.subrange(spec_xgm_gd3_pos(h), data.len() as int)) {
                                Some((fs, _)) => fs,
                                None => Seq::new(GD3_FIELDS as nat, |i: int| Seq::<char>::empty()),
                            }
                        } else {
                            Seq::new(GD3_FIELDS as nat, |i: int| Seq::<char>::empty())
                        }
                        &&& setup.pal == (h.vdp_mode == VDPMode::PAL)
                        &&& setup.clock_ym2612 == if h.vdp_mode == VDPMode::NTSC { MASTER_CLOCK_NTSC / 7 } else { MASTER_CLOCK_PAL / 7 }
                        &&& setup.clock_sn76489 == MASTER_CLOCK_NTSC / 15
                        &&& setup.sample_blocks@ == h.sample_id_table.map_values(|e: (u16, u16)| spec_xgm_sample_block(e))
                    },
                    Err(e) => !spec_xgm_header_parses(data) && e@ == "xgm header parse error."@,
                }
            }),
    {
        Self::from_data(extract(xgm_file))
    }

    /// `new` for data that is already decompressed.
    pub fn from_data(xgm_data: Vec<u8>) -> (r: Result<(XgmPlay, XgmSetup), &'static str>)
        requires
            spec_xgm_init_ok(xgm_data@),
        ensures
            ({
                let data = xgm_data@;
                match r {
                    Ok((p, setup)) => {
                        let h = spec_xgm_header(data);
                        &&& spec_xgm_header_parses(data)
                        &&& p@ == (XgmPlayView {
                            data: data, pos: 0, loop_: 0, loop_offset: 0, loop_count: 0, end: false, remain_tick_count: 0,
                        })
                        &&& p.header() == h
                        &&& p.gd3() == if h.gd3_tag {
                            match spec_parse_gd3(data.subrange(spec_xgm_gd3_pos(h), data.len() as int)) {
                                Some((fs, _)) => fs,
                                None => Seq::new(GD3_FIELDS as nat, |i: int| Seq::<char>::empty()),
                            }
                        } else {
                            Seq::new(GD3_FIELDS as nat, |i: int| Seq::<char>::empty())
                        }
                        &&& setup.pal == (h.vdp_mode == VDPMode::PAL)
                        &&& setup.clock_ym2612 == if h.vdp_mode == VDPMode::NTSC { MASTER_CLOCK_NTSC / 7 } else { MASTER_CLOCK_PAL / 7 }
                        &&& setup.clock_sn76489 == MASTER_CLOCK_NTSC / 15
                        &&& setup.sample_blocks@ == h.sample_id_table.map_values(|e: (u16, u16)| spec_xgm_sample_block(e))
                    },
                    Err(e) => !spec_xgm_header_parses(data) && e@ == "xgm header parse error."@,
                }
            }),
    {
        let (header, gd3) = match parse_xgm_meta(xgm_data.as_slice()) {
            Ok((header, gd3)) => (header, gd3),
            Err(message) => {
                return Err(message);
            },
        };
        let (clock_ym2612, clock_sn76489): (u32, u32) = match header.vdp_mode {
            VDPMode::NTSC => (MASTER_CLOCK_NTSC / 7, MASTER_CLOCK_NTSC / 15),
            VDPMode::PAL => (MASTER_CLOCK_PAL / 7, MASTER_CLOCK_NTSC / 15),
        };
        let pal: bool = header.vdp_mode == VDPMode::PAL;
        let mut sample_blocks: Vec<(usize, usize)> = Vec::new();
        let mut k: usize = 0;
        while k < header.sample_id_table.len()
            invariant
                k <= header.sample_id_table@.len(),
                sample_blocks@ == header.sample_id_table@.subrange(0, k as int).map_values(
                    |e: (u16, u16)| spec_xgm_sample_block(e)),
            decreases header.sample_id_table@.len() - k,
        {
            let (address, size) = header.sample_id_table[k];
            let start_address: usize = address as usize * 256 + XGM_SAMPLE_DATA_BLOC_ADDRESS;
            let end_address: usize = size as usize * 256 + start_address;
            sample_blocks.push((start_address, end_address));
            k = k + 1;
            assert(sample_blocks@ =~= header.sample_id_table@.subrange(0, k as int).map_values(
                |e: (u16, u16)| spec_xgm_sample_block(e)));
        }
        assert(header.sample_id_table@.subrange(0, k as int) =~= header.sample_id_table@);
        let player = XgmPlay {
            xgm_pos: 0,
            xgm_loop: 0,
            xgm_loop_offset: 0,
            xgm_loop_count: 0,
            xgm_end: false,
            xgm_data,
            xgm_header: header,
            xgm_gd3: gd3,
            remain_tick_count: 0,
        };
        Ok((player, XgmSetup { pal, clock_ym2612, clock_sn76489, sample_blocks }))
    }

    /// `new`, where the file can be set up without a fault; `None` where it
    /// cannot.
    pub fn new_checked(xgm_file: &[u8]) -> (r: Option<Result<(XgmPlay, XgmSetup), &'static str>>)
        ensures
            r is None <==> !spec_xgm_init_ok(spec_extract(xgm_file@)),
            r is Some ==> match r->0 {
                Ok((p, setup)) => {
                    &&& spec_xgm_header_parses(spec_extract(xgm_file@))
                    &&& p@.data == spec_extract(xgm_file@)
                    &&& p.header() == spec_xgm_header(spec_extract(xgm_file@))
                    &&& setup.sample_blocks@ == p.header().sample_id_table.map_values(|e: (u16, u16)| spec_xgm_sample_block(e))
                },
                Err(_) => !spec_xgm_header_parses(spec_extract(xgm_file@)),
            },
    {
        let data = extract(xgm_file);
        if xgm_init_ok(data.as_slice()) {
            Some(Self::new(xgm_file))
        } else {
            None
        }
    }

    /// The (decompressed) file data.
    pub fn data(&self) -> (r: &[u8])
        ensures
            r@ == self@.data,
    {
        self.xgm_data.as_slice()
    }

    /// The header and the GD3 metadata.
    pub fn get_vgm_meta(&self) -> (r: (&XgmHeader, &Gd3))
        ensures
            r.0@ == self.header(),
            r.1@ == self.gd3(),
    {
        (&self.xgm_header, &self.xgm_gd3)
    }

    fn get_xgm_u8(&mut self) -> (r: u8)
        requires
            old(self).xgm_pos < old(self).xgm_data.len(),
        ensures
            r == old(self)@.data[old(self)@.pos as int],
            final(self)@ == (XgmPlayView { pos: (old(self)@.pos + 1) as usize, ..old(self)@ }),
    {
        let ret = self.xgm_data[self.xgm_pos];
        self.xgm_pos = self.xgm_pos + 1;
        ret
    }

    fn get_xgm_u16(&mut self) -> (r: u16)
        requires
            old(self).xgm_pos + 2 <= old(self).xgm_data.len(),
        ensures
            r == spec_le_u16(old(self)@.data, old(self)@.pos as int),
            final(self)@ == (XgmPlayView { pos: (old(self)@.pos + 2) as usize, ..old(self)@ }),
    {
        let lo = self.get_xgm_u8();
        let hi = self.get_xgm_u8();
        proof {
            lemma_u8_shifts(hi, lo);
        }
        lo as u16 + ((hi as u16) << 8)
    }

    fn get_xgm_u32(&mut self) -> (r: u32)
        requires
            old(self).xgm_pos + 4 <= old(self).xgm_data.len(),
        ensures
            r == spec_le_u32(old(self)@.data, old(self)@.pos as int),
            final(self)@ == (XgmPlayView { pos: (old(self)@.pos + 4) as usize, ..old(self)@ }),
    {
        let b0 = self.get_xgm_u8();
        let b1 = self.get_xgm_u8();
        let b2 = self.get_xgm_u8();
        let b3 = self.get_xgm_u8();
        proof {
            lemma_u8_shifts(b1, b0);
            lemma_u8_shifts(b2, b0);
            lemma_u8_shifts(b3, b0);
        }
        b0 as u32 + ((b1 as u32) << 8) + ((b2 as u32) << 16) + ((b3 as u32) << 24)
    }
}

/// Whether an XGM file's data can be set up without a fault.
pub fn xgm_init_ok(data: &[u8]) -> (r: bool)
    ensures
        r == spec_xgm_init_ok(data@),
{
    match crate::driver::xgmmeta::parse_xgm_header(data) {
        None => true,
        Some((h, _)) => {
            if h.gd3_tag {
                let pos: u64 = 0x108 + h.sample_data_bloc_size as u64 * 256 + h.music_data_bloc_size as u64;
                if pos > u32::MAX as u64 || pos > data.len() as u64 {
                    return false;
                }
            }
            let mut k: usize = 0;
            while k < h.sample_id_table.len()
                invariant
                    k <= h.sample_id_table@.len(),
                    h@ == spec_xgm_header(data@),
                    spec_xgm_header_parses(data@),
                    forall|j: int| 0 <= j < k ==> (#[trigger] spec_xgm_sample_block(h.sample_id_table@[j])).1 <= data@.len(),
                decreases h.sample_id_table@.len() - k,
            {
                let (address, size) = h.sample_id_table[k];
                let end: u64 = size as u64 * 256 + address as u64 * 256 + XGM_SAMPLE_DATA_BLOC_ADDRESS as u64;
                if end > data.len() as u64 {
                    assert(spec_xgm_sample_block(h.sample_id_table@[k as int]).1 > data@.len());
                    assert(spec_xgm_header(data@).sample_id_table[k as int] == h.sample_id_table@[k as int]);
                    assert(!spec_xgm_init_ok(data@));
                    return false;
                }
                k = k + 1;
            }
            true
        },
    }
}

/// A sample's data starts 256 bytes per unit of its address past 0x104 (the
/// start of the sample data block) and runs 256 bytes per unit of its size.
pub proof fn lemma_xgm_sample_block_bytes(e: (u16, u16))
    ensures
        spec_xgm_sample_block(e).0 == e.0 * 256 + 0x104,
        spec_xgm_sample_block(e).1 == e.0 * 256 + 0x104 + e.1 * 256,
{
}

} // verus!
