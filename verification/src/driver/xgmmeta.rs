use vstd::prelude::*;
use crate::driver::meta::{has_tag, le_u16, le_u32, spec_has_tag, spec_le_u16, spec_le_u32};
use crate::driver::gd3meta::{parse_vgm_gd3, spec_parse_gd3, Gd3, GD3_FIELDS};
use crate::bits::lemma_u8_flag_bits;

verus! {

/// The video mode that an XGM file was made for.
#[allow(clippy::upper_case_acronyms)]
#[derive(Debug, Clone, Copy, PartialEq, Eq, Structural)]
pub enum VDPMode {
    NTSC,
    PAL,
}

impl VDPMode {
    /// The frame rate of the mode: 60 for NTSC, 50 for PAL.
    pub fn rate(&self) -> (r: u32)
        ensures
            r == spec_vdp_rate(*self),
    {
        match self {
            VDPMode::NTSC => 60,
            VDPMode::PAL => 50,
        }
    }
}

/// The frame rate of a video mode.
pub open spec fn spec_vdp_rate(m: VDPMode) -> u32 {
    match m {
        VDPMode::NTSC => 60,
        VDPMode::PAL => 50,
    }
}

/// Where the sample data block starts in an XGM file.
pub const XGM_SAMPLE_DATA_BLOC_ADDRESS: usize = 0x104;

/// Number of entries in the sample id table.
pub const XGM_SAMPLE_ENTRIES: usize = 63;

/// The bytes "XGM " that open an XGM file.
pub open spec fn spec_xgm_tag() -> Seq<u8> {
    seq![0x58u8, 0x47u8, 0x4du8, 0x20u8]
}

/// The header of an XGM file.
#[derive(Debug)]
pub struct XgmHeader {
    pub sample_id_table: Vec<(u16, u16)>,
    pub sample_data_bloc_size: u16,
    pub version: u8,
    pub vdp_mode: VDPMode,
    pub gd3_tag: bool,
    pub multi_track_file: bool,
    pub music_data_bloc_size: u32,
}

/// The content of an XGM header.
pub struct XgmHeaderView {
    pub sample_id_table: Seq<(u16, u16)>,
    pub sample_data_bloc_size: u16,
    pub version: u8,
    pub vdp_mode: VDPMode,
    pub gd3_tag: bool,
    pub multi_track_file: bool,
    pub music_data_bloc_size: u32,
}

impl View for XgmHeader {
    type V = XgmHeaderView;

    open spec fn view(&self) -> XgmHeaderView {
        XgmHeaderView {
            sample_id_table: self.sample_id_table@,
            sample_data_bloc_size: self.sample_data_bloc_size,
            version: self.version,
            vdp_mode: self.vdp_mode,
            gd3_tag: self.gd3_tag,
            multi_track_file: self.multi_track_file,
            music_data_bloc_size: self.music_data_bloc_size,
        }
    }
}

/// The address of sample table entry `k`.
pub open spec fn spec_xgm_entry_address(s: Seq<u8>, k: int) -> u16 {
    spec_le_u16(s, 4 + 4 * k)
}

/// The size of sample table entry `k`.
pub open spec fn spec_xgm_entry_size(s: Seq<u8>, k: int) -> u16 {
    spec_le_u16(s, 4 + 4 * k + 2)
}

/// Whether sample table entry `k` is empty (address 0xffff).
pub open spec fn spec_xgm_entry_empty(s: Seq<u8>, k: int) -> bool {
    spec_xgm_entry_address(s, k) == 0xffff
}

/// The (address, size) entries from `k` on, empty ones skipped.
pub open spec fn spec_xgm_entries(s: Seq<u8>, k: int) -> Seq<(u16, u16)>
    decreases XGM_SAMPLE_ENTRIES - k,
{
    if k < 0 || k >= XGM_SAMPLE_ENTRIES {
        Seq::empty()
    } else if spec_xgm_entry_empty(s, k) {
        spec_xgm_entries(s, k + 1)
    } else {
        seq![(spec_xgm_entry_address(s, k), spec_xgm_entry_size(s, k))] + spec_xgm_entries(s, k + 1)
    }
}

/// The size of the sample data block, in 256-byte units.
pub open spec fn spec_xgm_sdbs(s: Seq<u8>) -> u16 {
    spec_le_u16(s, 256)
}

/// The number of bytes that the header reads: up to and including the
/// music data size, after the sample data block.
pub open spec fn spec_xgm_header_len(s: Seq<u8>) -> int {
    264 + spec_xgm_sdbs(s) as int * 256
}

/// Whether `s` holds a complete XGM header.
pub open spec fn spec_xgm_header_parses(s: Seq<u8>) -> bool {
    spec_has_tag(s, spec_xgm_tag()) && s.len() >= 260 && s.len() >= spec_xgm_header_len(s)
}

/// The header that `s` holds: "XGM ", 63 sample entries of address and
/// size (little-endian words), the sample data block size, the version, the
/// flags (bit 0 PAL, bit 1 GD3 tag present, bit 2 multi-track), the sample
/// data block, then the music data size.
pub open spec fn spec_xgm_header(s: Seq<u8>) -> XgmHeaderView {
    let flags = s[259];
    XgmHeaderView {
        sample_id_table: spec_xgm_entries(s, 0),
        sample_data_bloc_size: spec_xgm_sdbs(s),
        version: s[258],
        vdp_mode: if flags & 1 == 0 { VDPMode::NTSC } else { VDPMode::PAL },
        gd3_tag: flags & 2 != 0,
        multi_track_file: flags & 4 != 0,
        music_data_bloc_size: spec_le_u32(s, spec_xgm_header_len(s) - 4),
    }
}

/// Parse an XGM header; returns it and the number of bytes read, or `None`
/// where the tag is missing or the input ends first.
pub fn parse_xgm_header(i: &[u8]) -> (r: Option<(XgmHeader, usize)>)
    ensures
        match r {
            Some((h, n)) => {
                &&& spec_xgm_header_parses(i@)
                &&& h@ == spec_xgm_header(i@)
                &&& n == spec_xgm_header_len(i@)
            },
            None => !spec_xgm_header_parses(i@),
        },
{
    if !has_tag(i, &[0x58u8, 0x47u8, 0x4du8, 0x20u8]) || i.len() < 260 {
        return None;
    }
    let sample_data_bloc_size: u16 = le_u16(i, 256);
    let version: u8 = i[258];
    let flags: u8 = i[259];
    let vdp_mode = if flags & 1 == 0 { VDPMode::NTSC } else { VDPMode::PAL };
    let gd3_tag: bool = flags & 2 != 0;
    let multi_track_file: bool = flags & 4 != 0;
    let skip: usize = sample_data_bloc_size as usize * 256;
    if i.len() - 260 < skip + 4 {
        return None;
    }
    let music_data_bloc_size: u32 = le_u32(i, 260 + skip);

    let mut sample_id_table: Vec<(u16, u16)> = Vec::new();
    let mut index: usize = 0;
    while index < XGM_SAMPLE_ENTRIES
        invariant
            index <= XGM_SAMPLE_ENTRIES,
            i@.len() >= 260,
            sample_id_table@ + spec_xgm_entries(i@, index as int) == spec_xgm_entries(i@, 0),
        decreases XGM_SAMPLE_ENTRIES - index,
    {
        let p: usize = index * 4;
        let address: u16 = le_u16(i, 4 + p);
        if address == 0xffff {
            // empty entries are skipped wherever they stand
            assert(spec_xgm_entries(i@, index as int) == spec_xgm_entries(i@, index + 1));
        } else {
            let size: u16 = le_u16(i, 4 + p + 2);
            proof {
                assert(sample_id_table@.push((address, size)) + spec_xgm_entries(i@, index + 1)
                    =~= sample_id_table@ + spec_xgm_entries(i@, index as int));
            }
            sample_id_table.push((address, size));
        }
        index = index + 1;
    }
    proof {
        assert(sample_id_table@ + spec_xgm_entries(i@, XGM_SAMPLE_ENTRIES as int) =~= sample_id_table@);
    }
    Some((
        XgmHeader {
            sample_id_table,
            sample_data_bloc_size,
            version,
            vdp_mode,
            gd3_tag,
            multi_track_file,
            music_data_bloc_size,
        },
        264 + skip,
    ))
}

/// Where the GD3 tag of an XGM file starts: after the header's 0x108
/// bytes, the sample data block and the music data block.
pub open spec fn spec_xgm_gd3_pos(h: XgmHeaderView) -> int {
    0x108 + h.sample_data_bloc_size as int * 256 + h.music_data_bloc_size as int
}

/// Parse the header and, where its flags say there is one, the GD3 tag of
/// an XGM file; the metadata is blank where there is no tag or it does not
/// parse. Fails only where the header does not parse.
pub fn parse_xgm_meta(xgmdata: &[u8]) -> (r: Result<(XgmHeader, Gd3), &'static str>)
    requires
        spec_xgm_header_parses(xgmdata@) && spec_xgm_header(xgmdata@).gd3_tag ==> {
            &&& spec_xgm_gd3_pos(spec_xgm_header(xgmdata@)) <= u32::MAX
            &&& spec_xgm_gd3_pos(spec_xgm_header(xgmdata@)) <= xgmdata@.len()
        },
    ensures
        match r {
            Ok((h, g)) => {
                &&& spec_xgm_header_parses(xgmdata@)
                &&& h@ == spec_xgm_header(xgmdata@)
                &&& g@ == if h.gd3_tag {
                    match spec_parse_gd3(xgmdata@.subrange(spec_xgm_gd3_pos(h@), xgmdata@.len() as int)) {
                        Some((fs, _)) => fs,
                        None => Seq::new(GD3_FIELDS as nat, |i: int| Seq::<char>::empty()),
                    }
                } else {
                    Seq::new(GD3_FIELDS as nat, |i: int| Seq::<char>::empty())
                }
            },
            Err(e) => !spec_xgm_header_parses(xgmdata@) && e@ == "xgm header parse error."@,
        },
{
    let header = match parse_xgm_header(xgmdata) {
        Some((header, _)) => header,
        None => {
            return Err("xgm header parse error.");
        },
    };
    let gd3 = if header.gd3_tag {
        let pos: u32 = 0x108 + (header.sample_data_bloc_size as u32 * 256) + header.music_data_bloc_size;
        match parse_vgm_gd3(vstd::slice::slice_subrange(xgmdata, pos as usize, xgmdata.len())) {
            Some((gd3, _)) => gd3,
            None => Gd3::default(),
        }
    } else {
        Gd3::default()
    };
    Ok((header, gd3))
}

/// The sample table holds no empty entry, and no more than the table has.
pub proof fn lemma_xgm_entries_used(s: Seq<u8>, k: int)
    requires
        0 <= k <= XGM_SAMPLE_ENTRIES,
    ensures
        spec_xgm_entries(s, k).len() <= XGM_SAMPLE_ENTRIES - k,
        forall|i: int| 0 <= i < spec_xgm_entries(s, k).len() ==> (#[trigger] spec_xgm_entries(s, k)[i]).0 != 0xffff,
    decreases XGM_SAMPLE_ENTRIES - k,
{
    if k < XGM_SAMPLE_ENTRIES && spec_xgm_entry_empty(s, k) {
        lemma_xgm_entries_used(s, k + 1);
    } else if k < XGM_SAMPLE_ENTRIES && !spec_xgm_entry_empty(s, k) {
        lemma_xgm_entries_used(s, k + 1);
        let e = seq![(spec_xgm_entry_address(s, k), spec_xgm_entry_size(s, k))];
        assert forall|i: int| 0 <= i < spec_xgm_entries(s, k).len() implies (#[trigger] spec_xgm_entries(s, k)[i]).0 != 0xffff by {
            if i > 0 {
                assert(spec_xgm_entries(s, k)[i] == spec_xgm_entries(s, k + 1)[i - 1]);
            }
        }
    }
}

/// The layout of an XGM header: sample table entry `k` is the address and
/// size words (little-endian) at 4 + 4k and 6 + 4k, empty where the address
/// is ffff; the table lists the used entries in order. The sample data
/// block size is the word at 0x100, the version the byte at 0x102, the
/// flags the byte at 0x103 (bit 0 PAL, bit 1 GD3 tag, bit 2 multi-track),
/// and the music data size the little-endian word at 0x104 past the sample
/// data block.
pub proof fn lemma_xgm_header_layout(s: Seq<u8>, k: int)
    requires
        spec_xgm_header_parses(s),
        0 <= k < XGM_SAMPLE_ENTRIES,
    ensures
        ({
            let h = spec_xgm_header(s);
            let sdbs = s[0x100] + s[0x101] * 0x100;
            let m = 0x104 + sdbs * 256;
            &&& h.sample_data_bloc_size == sdbs
            &&& h.version == s[0x102]
            &&& (h.vdp_mode == VDPMode::PAL) == (s[0x103] % 2 == 1)
            &&& h.gd3_tag == ((s[0x103] / 2) % 2 == 1)
            &&& h.multi_track_file == ((s[0x103] / 4) % 2 == 1)
            &&& h.music_data_bloc_size == s[m] + s[m + 1] * 0x100 + s[m + 2] * 0x10000 + s[m + 3] * 0x1000000
            &&& spec_xgm_entry_empty(s, k) == (s[4 + 4 * k] == 0xff && s[5 + 4 * k] == 0xff)
            &&& spec_xgm_entry_empty(s, k) ==> spec_xgm_entries(s, k) == spec_xgm_entries(s, k + 1)
            &&& !spec_xgm_entry_empty(s, k) ==> spec_xgm_entries(s, k) == seq![(
                (s[4 + 4 * k] + s[5 + 4 * k] * 0x100) as u16,
                (s[6 + 4 * k] + s[7 + 4 * k] * 0x100) as u16,
            )] + spec_xgm_entries(s, k + 1)
            &&& h.sample_id_table == spec_xgm_entries(s, 0)
        }),
{
    lemma_u8_flag_bits(s[0x103]);
}

} // verus!
