use vstd::prelude::*;
use crate::driver::meta::{has_tag, le_u16, le_u32, spec_has_tag, spec_le_u16, spec_le_u32};
use crate::driver::gd3meta::{parse_vgm_gd3, spec_parse_gd3, Gd3, GD3_FIELDS};

verus! {

/// Size of the VGM header that the parser reads.
pub const VGM_HEADER_SIZE: usize = 255;

/// The bytes "Vgm " that open a VGM file.
pub open spec fn spec_vgm_tag() -> Seq<u8> {
    seq![0x56u8, 0x67u8, 0x6du8, 0x20u8]
}

/// The two decimal digits of a BCD byte, or `None` where a nibble exceeds 9.
pub open spec fn spec_bcd_byte(b: u8) -> Option<u32> {
    if b / 16 <= 9 && b % 16 <= 9 { Some(((b / 16) * 10 + b % 16) as u32) } else { None }
}

/// The version field read as the decimal number that its four bytes spell in
/// hexadecimal, most significant byte first (0x00000171 is 171); 0 where a
/// nibble is not a decimal digit.
pub open spec fn spec_bcd_version(s: Seq<u8>, p: int) -> u32 {
    match (spec_bcd_byte(s[p + 3]), spec_bcd_byte(s[p + 2]), spec_bcd_byte(s[p + 1]), spec_bcd_byte(s[p])) {
        (Some(a), Some(b), Some(c), Some(d)) => (((a * 100 + b) * 100 + c) * 100 + d) as u32,
        _ => 0,
    }
}

/// The header of a VGM file; a field that the file's version does not
/// define is 0.
#[derive(Debug, Clone, Copy, PartialEq, Eq, Structural)]
pub struct VgmHeader {
    pub eof: u32,
    pub version: u32,
    pub clock_sn76489: u32,
    pub clock_ym2413: u32,
    pub offset_gd3: u32,
    pub total_samples: u32,
    pub offset_loop: u32,
    pub loop_samples: u32,
    pub rate: u32,
    pub sn76489_fb: u16,
    pub sn76489_w: u8,
    pub sn76489_f: u8,
    pub clock_ym2612: u32,
    pub clock_ym2151: u32,
    pub vgm_data_offset: u32,
    pub sega_pcm_clock: u32,
    pub spcm_interface: u32,
    pub clock_rf5c68: u32,
    pub clock_ym2203: u32,
    pub clock_ym2608: u32,
    pub clock_ym2610_b: u32,
    pub clock_ym3812: u32,
    pub clock_ym3526: u32,
    pub clock_y8950: u32,
    pub clock_ymf262: u32,
    pub clock_ymf278_b: u32,
    pub clock_ym271: u32,
    pub clock_ymz280b: u32,
    pub clock_rf5c164: u32,
    pub clock_pwm: u32,
    pub clock_ay8910: u32,
    pub ay8910_chip_type: u8,
    pub ay8910_flag: u32,
    pub volume_modifier: u8,
    pub reserved01: u8,
    pub loop_base: u8,
    pub loop_modifier: u8,
    pub clock_gb_dmg: u32,
    pub clock_nes_apu: u32,
    pub clock_multi_pcm: u32,
    pub clock_upd7759: u32,
    pub clock_okim6258: u32,
    pub okmi6258_flag: u8,
    pub k054539_flag: u8,
    pub c140_chip_type: u8,
    pub reserved02: u8,
    pub clock_okim6295: u32,
    pub clock_k051649: u32,
    pub clock_k054539: u32,
    pub clock_huc6280: u32,
    pub clock_c140: u32,
    pub clock_k053260: u32,
    pub clock_pokey: u32,
    pub clock_qsound: u32,
    pub clock_scsp: u32,
    pub extra_hdr_ofs: u32,
    pub clock_wonder_swan: u32,
    pub clock_vsu: u32,
    pub clock_saa1099: u32,
    pub clock_es5503: u32,
    pub clock_es5506: u32,
    pub es5503_amount_channel: u8,
    pub es5506_amount_channel: u8,
    pub c352_clock_divider: u8,
    pub reserved03: u8,
    pub clock_x1_010: u32,
    pub clock_c352: u32,
    pub clock_ga20: u32,
    pub reserved04: u32,
    pub reserved05: u32,
    pub reserved06: u32,
    pub reserved07: u32,
    pub reserved08: u32,
    pub reserved09: u32,
    pub reserved10: u32,
}

/// A header whose fields are all 0.
pub open spec fn spec_vgm_header_zero() -> VgmHeader {
    VgmHeader {
        eof: 0,
        version: 0,
        clock_sn76489: 0,
        clock_ym2413: 0,
        offset_gd3: 0,
        total_samples: 0,
        offset_loop: 0,
        loop_samples: 0,
        rate: 0,
        sn76489_fb: 0,
        sn76489_w: 0,
        sn76489_f: 0,
        clock_ym2612: 0,
        clock_ym2151: 0,
        vgm_data_offset: 0,
        sega_pcm_clock: 0,
        spcm_interface: 0,
        clock_rf5c68: 0,
        clock_ym2203: 0,
        clock_ym2608: 0,
        clock_ym2610_b: 0,
        clock_ym3812: 0,
        clock_ym3526: 0,
        clock_y8950: 0,
        clock_ymf262: 0,
        clock_ymf278_b: 0,
        clock_ym271: 0,
        clock_ymz280b: 0,
        clock_rf5c164: 0,
        clock_pwm: 0,
        clock_ay8910: 0,
        ay8910_chip_type: 0,
        ay8910_flag: 0,
        volume_modifier: 0,
        reserved01: 0,
        loop_base: 0,
        loop_modifier: 0,
        clock_gb_dmg: 0,
        clock_nes_apu: 0,
        clock_multi_pcm: 0,
        clock_upd7759: 0,
        clock_okim6258: 0,
        okmi6258_flag: 0,
        k054539_flag: 0,
        c140_chip_type: 0,
        reserved02: 0,
        clock_okim6295: 0,
        clock_k051649: 0,
        clock_k054539: 0,
        clock_huc6280: 0,
        clock_c140: 0,
        clock_k053260: 0,
        clock_pokey: 0,
        clock_qsound: 0,
        clock_scsp: 0,
        extra_hdr_ofs: 0,
        clock_wonder_swan: 0,
        clock_vsu: 0,
        clock_saa1099: 0,
        clock_es5503: 0,
        clock_es5506: 0,
        es5503_amount_channel: 0,
        es5506_amount_channel: 0,
        c352_clock_divider: 0,
        reserved03: 0,
        clock_x1_010: 0,
        clock_c352: 0,
        clock_ga20: 0,
        reserved04: 0,
        reserved05: 0,
        reserved06: 0,
        reserved07: 0,
        reserved08: 0,
        reserved09: 0,
        reserved10: 0,
    }
}

impl Default for VgmHeader {
    fn default() -> (r: Self)
        ensures
            r == spec_vgm_header_zero(),
    {
        VgmHeader {
            eof: 0,
            version: 0,
            clock_sn76489: 0,
            clock_ym2413: 0,
            offset_gd3: 0,
            total_samples: 0,
            offset_loop: 0,
            loop_samples: 0,
            rate: 0,
            sn76489_fb: 0,
            sn76489_w: 0,
            sn76489_f: 0,
            clock_ym2612: 0,
            clock_ym2151: 0,
            vgm_data_offset: 0,
            sega_pcm_clock: 0,
            spcm_interface: 0,
            clock_rf5c68: 0,
            clock_ym2203: 0,
            clock_ym2608: 0,
            clock_ym2610_b: 0,
            clock_ym3812: 0,
            clock_ym3526: 0,
            clock_y8950: 0,
            clock_ymf262: 0,
            clock_ymf278_b: 0,
            clock_ym271: 0,
            clock_ymz280b: 0,
            clock_rf5c164: 0,
            clock_pwm: 0,
            clock_ay8910: 0,
            ay8910_chip_type: 0,
            ay8910_flag: 0,
            volume_modifier: 0,
            reserved01: 0,
            loop_base: 0,
            loop_modifier: 0,
            clock_gb_dmg: 0,
            clock_nes_apu: 0,
            clock_multi_pcm: 0,
            clock_upd7759: 0,
            clock_okim6258: 0,
            okmi6258_flag: 0,
            k054539_flag: 0,
            c140_chip_type: 0,
            reserved02: 0,
            clock_okim6295: 0,
            clock_k051649: 0,
            clock_k054539: 0,
            clock_huc6280: 0,
            clock_c140: 0,
            clock_k053260: 0,
            clock_pokey: 0,
            clock_qsound: 0,
            clock_scsp: 0,
            extra_hdr_ofs: 0,
            clock_wonder_swan: 0,
            clock_vsu: 0,
            clock_saa1099: 0,
            clock_es5503: 0,
            clock_es5506: 0,
            es5503_amount_channel: 0,
            es5506_amount_channel: 0,
            c352_clock_divider: 0,
            reserved03: 0,
            clock_x1_010: 0,
            clock_c352: 0,
            clock_ga20: 0,
            reserved04: 0,
            reserved05: 0,
            reserved06: 0,
            reserved07: 0,
            reserved08: 0,
            reserved09: 0,
            reserved10: 0,
        }
    }
}

/// The header that the first 255 bytes of `s` hold: each field at its
/// offset, little-endian, where the version (at offset 8) is at least the
/// one that introduced the field, else 0. The last field, at 252, keeps
/// the three bytes that the 255-byte header holds of it.
pub open spec fn spec_vgm_header(s: Seq<u8>) -> VgmHeader {
    let version = spec_bcd_version(s, 8);
    VgmHeader {
        eof: if version >= 100 { spec_le_u32(s, 4) } else { 0 },
        version: if version >= 100 { spec_bcd_version(s, 8) } else { 0 },
        clock_sn76489: if version >= 100 { spec_le_u32(s, 12) } else { 0 },
        clock_ym2413: if version >= 100 { spec_le_u32(s, 16) } else { 0 },
        offset_gd3: if version >= 100 { spec_le_u32(s, 20) } else { 0 },
        total_samples: if version >= 100 { spec_le_u32(s, 24) } else { 0 },
        offset_loop: if version >= 100 { spec_le_u32(s, 28) } else { 0 },
        loop_samples: if version >= 100 { spec_le_u32(s, 32) } else { 0 },
        rate: if version >= 101 { spec_le_u32(s, 36) } else { 0 },
        sn76489_fb: if version >= 110 { spec_le_u16(s, 40) } else { 0 },
        sn76489_w: if version >= 110 { s[42] } else { 0 },
        sn76489_f: if version >= 151 { s[43] } else { 0 },
        clock_ym2612: if version >= 110 { spec_le_u32(s, 44) } else { 0 },
        clock_ym2151: if version >= 110 { spec_le_u32(s, 48) } else { 0 },
        vgm_data_offset: if version >= 150 { spec_le_u32(s, 52) } else { 0 },
        sega_pcm_clock: if version >= 151 { spec_le_u32(s, 56) } else { 0 },
        spcm_interface: if version >= 151 { spec_le_u32(s, 60) } else { 0 },
        clock_rf5c68: if version >= 151 { spec_le_u32(s, 64) } else { 0 },
        clock_ym2203: if version >= 151 { spec_le_u32(s, 68) } else { 0 },
        clock_ym2608: if version >= 151 { spec_le_u32(s, 72) } else { 0 },
        clock_ym2610_b: if version >= 151 { spec_le_u32(s, 76) } else { 0 },
        clock_ym3812: if version >= 151 { spec_le_u32(s, 80) } else { 0 },
        clock_ym3526: if version >= 151 { spec_le_u32(s, 84) } else { 0 },
        clock_y8950: if version >= 151 { spec_le_u32(s, 88) } else { 0 },
        clock_ymf262: if version >= 151 { spec_le_u32(s, 92) } else { 0 },
        clock_ymf278_b: if version >= 151 { spec_le_u32(s, 96) } else { 0 },
        clock_ym271: if version >= 151 { spec_le_u32(s, 100) } else { 0 },
        clock_ymz280b: if version >= 151 { spec_le_u32(s, 104) } else { 0 },
        clock_rf5c164: if version >= 151 { spec_le_u32(s, 108) } else { 0 },
        clock_pwm: if version >= 151 { spec_le_u32(s, 112) } else { 0 },
        clock_ay8910: if version >= 151 { spec_le_u32(s, 116) } else { 0 },
        ay8910_chip_type: if version >= 151 { s[120] } else { 0 },
        ay8910_flag: if version >= 151 { (s[121] + s[122] * 0x100 + s[123] * 0x10000) as u32 } else { 0 },
        volume_modifier: if version >= 160 { s[124] } else { 0 },
        reserved01: if version >= 160 { s[125] } else { 0 },
        loop_base: if version >= 160 { s[126] } else { 0 },
        loop_modifier: if version >= 151 { s[127] } else { 0 },
        clock_gb_dmg: if version >= 161 { spec_le_u32(s, 128) } else { 0 },
        clock_nes_apu: if version >= 161 { spec_le_u32(s, 132) } else { 0 },
        clock_multi_pcm: if version >= 161 { spec_le_u32(s, 136) } else { 0 },
        clock_upd7759: if version >= 161 { spec_le_u32(s, 140) } else { 0 },
        clock_okim6258: if version >= 161 { spec_le_u32(s, 144) } else { 0 },
        okmi6258_flag: if version >= 161 { s[148] } else { 0 },
        k054539_flag: if version >= 161 { s[149] } else { 0 },
        c140_chip_type: if version >= 161 { s[150] } else { 0 },
        reserved02: if version >= 161 { s[151] } else { 0 },
        clock_okim6295: if version >= 161 { spec_le_u32(s, 152) } else { 0 },
        clock_k051649: if version >= 161 { spec_le_u32(s, 156) } else { 0 },
        clock_k054539: if version >= 161 { spec_le_u32(s, 160) } else { 0 },
        clock_huc6280: if version >= 161 { spec_le_u32(s, 164) } else { 0 },
        clock_c140: if version >= 161 { spec_le_u32(s, 168) } else { 0 },
        clock_k053260: if version >= 161 { spec_le_u32(s, 172) } else { 0 },
        clock_pokey: if version >= 161 { spec_le_u32(s, 176) } else { 0 },
        clock_qsound: if version >= 161 { spec_le_u32(s, 180) } else { 0 },
        clock_scsp: if version >= 171 { spec_le_u32(s, 184) } else { 0 },
        extra_hdr_ofs: if version >= 170 { spec_le_u32(s, 188) } else { 0 },
        clock_wonder_swan: if version >= 171 { spec_le_u32(s, 192) } else { 0 },
        clock_vsu: if version >= 171 { spec_le_u32(s, 196) } else { 0 },
        clock_saa1099: if version >= 171 { spec_le_u32(s, 200) } else { 0 },
        clock_es5503: if version >= 171 { spec_le_u32(s, 204) } else { 0 },
        clock_es5506: if version >= 171 { spec_le_u32(s, 208) } else { 0 },
        es5503_amount_channel: if version >= 171 { s[212] } else { 0 },
        es5506_amount_channel: if version >= 171 { s[213] } else { 0 },
        c352_clock_divider: if version >= 171 { s[214] } else { 0 },
        reserved03: if version >= 171 { s[215] } else { 0 },
        clock_x1_010: if version >= 171 { spec_le_u32(s, 216) } else { 0 },
        clock_c352: if version >= 171 { spec_le_u32(s, 220) } else { 0 },
        clock_ga20: if version >= 171 { spec_le_u32(s, 224) } else { 0 },
        reserved04: if version >= 171 { spec_le_u32(s, 228) } else { 0 },
        reserved05: if version >= 171 { spec_le_u32(s, 232) } else { 0 },
        reserved06: if version >= 171 { spec_le_u32(s, 236) } else { 0 },
        reserved07: if version >= 171 { spec_le_u32(s, 240) } else { 0 },
        reserved08: if version >= 171 { spec_le_u32(s, 244) } else { 0 },
        reserved09: if version >= 171 { spec_le_u32(s, 248) } else { 0 },
        reserved10: if version >= 171 { (s[252] + s[253] * 0x100 + s[254] * 0x10000) as u32 } else { 0 },
    }
}

/// The two decimal digits of a BCD byte.
fn bcd_byte(b: u8) -> (r: Option<u32>)
    ensures
        r == spec_bcd_byte(b),
{
    if b / 16 <= 9 && b % 16 <= 9 { Some(((b / 16) * 10 + b % 16) as u32) } else { None }
}

/// Read the BCD version at `p`.
fn bcd_version(i: &[u8], p: usize) -> (r: u32)
    requires
        p + 4 <= i.len(),
    ensures
        r == spec_bcd_version(i@, p as int),
{
    match (bcd_byte(i[p + 3]), bcd_byte(i[p + 2]), bcd_byte(i[p + 1]), bcd_byte(i[p])) {
        (Some(a), Some(b), Some(c), Some(d)) => ((a * 100 + b) * 100 + c) * 100 + d,
        _ => 0,
    }
}

/// Parse the 255-byte VGM header; returns it and the number of bytes read,
/// or `None` where the input does not start with "Vgm " or is shorter.
pub fn parse_vgm_header(i: &[u8]) -> (r: Option<(VgmHeader, usize)>)
    ensures
        match r {
            Some((h, n)) => {
                &&& i@.len() >= VGM_HEADER_SIZE
                &&& spec_has_tag(i@, spec_vgm_tag())
                &&& h == spec_vgm_header(i@)
                &&& n == VGM_HEADER_SIZE
            },
            None => !(i@.len() >= VGM_HEADER_SIZE && spec_has_tag(i@, spec_vgm_tag())),
        },
{
    if !has_tag(i, &[0x56u8, 0x67u8, 0x6du8, 0x20u8]) || i.len() < VGM_HEADER_SIZE {
        return None;
    }
    let version: u32 = bcd_version(i, 8);
    let header = VgmHeader {
        eof: if version >= 100 { le_u32(i, 4) } else { 0 },
        version: if version >= 100 { version } else { 0 },
        clock_sn76489: if version >= 100 { le_u32(i, 12) } else { 0 },
        clock_ym2413: if version >= 100 { le_u32(i, 16) } else { 0 },
        offset_gd3: if version >= 100 { le_u32(i, 20) } else { 0 },
        total_samples: if version >= 100 { le_u32(i, 24) } else { 0 },
        offset_loop: if version >= 100 { le_u32(i, 28) } else { 0 },
        loop_samples: if version >= 100 { le_u32(i, 32) } else { 0 },
        rate: if version >= 101 { le_u32(i, 36) } else { 0 },
        sn76489_fb: if version >= 110 { le_u16(i, 40) } else { 0 },
        sn76489_w: if version >= 110 { i[42] } else { 0 },
        sn76489_f: if version >= 151 { i[43] } else { 0 },
        clock_ym2612: if version >= 110 { le_u32(i, 44) } else { 0 },
        clock_ym2151: if version >= 110 { le_u32(i, 48) } else { 0 },
        vgm_data_offset: if version >= 150 { le_u32(i, 52) } else { 0 },
        sega_pcm_clock: if version >= 151 { le_u32(i, 56) } else { 0 },
        spcm_interface: if version >= 151 { le_u32(i, 60) } else { 0 },
        clock_rf5c68: if version >= 151 { le_u32(i, 64) } else { 0 },
        clock_ym2203: if version >= 151 { le_u32(i, 68) } else { 0 },
        clock_ym2608: if version >= 151 { le_u32(i, 72) } else { 0 },
        clock_ym2610_b: if version >= 151 { le_u32(i, 76) } else { 0 },
        clock_ym3812: if version >= 151 { le_u32(i, 80) } else { 0 },
        clock_ym3526: if version >= 151 { le_u32(i, 84) } else { 0 },
        clock_y8950: if version >= 151 { le_u32(i, 88) } else { 0 },
        clock_ymf262: if version >= 151 { le_u32(i, 92) } else { 0 },
        clock_ymf278_b: if version >= 151 { le_u32(i, 96) } else { 0 },
        clock_ym271: if version >= 151 { le_u32(i, 100) } else { 0 },
        clock_ymz280b: if version >= 151 { le_u32(i, 104) } else { 0 },
        clock_rf5c164: if version >= 151 { le_u32(i, 108) } else { 0 },
        clock_pwm: if version >= 151 { le_u32(i, 112) } else { 0 },
        clock_ay8910: if version >= 151 { le_u32(i, 116) } else { 0 },
        ay8910_chip_type: if version >= 151 { i[120] } else { 0 },
        ay8910_flag: if version >= 151 { i[121] as u32 + i[122] as u32 * 0x100 + i[123] as u32 * 0x10000 } else { 0 },
        volume_modifier: if version >= 160 { i[124] } else { 0 },
        reserved01: if version >= 160 { i[125] } else { 0 },
        loop_base: if version >= 160 { i[126] } else { 0 },
        loop_modifier: if version >= 151 { i[127] } else { 0 },
        clock_gb_dmg: if version >= 161 { le_u32(i, 128) } else { 0 },
        clock_nes_apu: if version >= 161 { le_u32(i, 132) } else { 0 },
        clock_multi_pcm: if version >= 161 { le_u32(i, 136) } else { 0 },
        clock_upd7759: if version >= 161 { le_u32(i, 140) } else { 0 },
        clock_okim6258: if version >= 161 { le_u32(i, 144) } else { 0 },
        okmi6258_flag: if version >= 161 { i[148] } else { 0 },
        k054539_flag: if version >= 161 { i[149] } else { 0 },
        c140_chip_type: if version >= 161 { i[150] } else { 0 },
        reserved02: if version >= 161 { i[151] } else { 0 },
        clock_okim6295: if version >= 161 { le_u32(i, 152) } else { 0 },
        clock_k051649: if version >= 161 { le_u32(i, 156) } else { 0 },
        clock_k054539: if version >= 161 { le_u32(i, 160) } else { 0 },
        clock_huc6280: if version >= 161 { le_u32(i, 164) } else { 0 },
        clock_c140: if version >= 161 { le_u32(i, 168) } else { 0 },
        clock_k053260: if version >= 161 { le_u32(i, 172) } else { 0 },
        clock_pokey: if version >= 161 { le_u32(i, 176) } else { 0 },
        clock_qsound: if version >= 161 { le_u32(i, 180) } else { 0 },
        clock_scsp: if version >= 171 { le_u32(i, 184) } else { 0 },
        extra_hdr_ofs: if version >= 170 { le_u32(i, 188) } else { 0 },
        clock_wonder_swan: if version >= 171 { le_u32(i, 192) } else { 0 },
        clock_vsu: if version >= 171 { le_u32(i, 196) } else { 0 },
        clock_saa1099: if version >= 171 { le_u32(i, 200) } else { 0 },
        clock_es5503: if version >= 171 { le_u32(i, 204) } else { 0 },
        clock_es5506: if version >= 171 { le_u32(i, 208) } else { 0 },
        es5503_amount_channel: if version >= 171 { i[212] } else { 0 },
        es5506_amount_channel: if version >= 171 { i[213] } else { 0 },
        c352_clock_divider: if version >= 171 { i[214] } else { 0 },
        reserved03: if version >= 171 { i[215] } else { 0 },
        clock_x1_010: if version >= 171 { le_u32(i, 216) } else { 0 },
        clock_c352: if version >= 171 { le_u32(i, 220) } else { 0 },
        clock_ga20: if version >= 171 { le_u32(i, 224) } else { 0 },
        reserved04: if version >= 171 { le_u32(i, 228) } else { 0 },
        reserved05: if version >= 171 { le_u32(i, 232) } else { 0 },
        reserved06: if version >= 171 { le_u32(i, 236) } else { 0 },
        reserved07: if version >= 171 { le_u32(i, 240) } else { 0 },
        reserved08: if version >= 171 { le_u32(i, 244) } else { 0 },
        reserved09: if version >= 171 { le_u32(i, 248) } else { 0 },
        reserved10: if version >= 171 { i[252] as u32 + i[253] as u32 * 0x100 + i[254] as u32 * 0x10000 } else { 0 },
    };
    Some((header, VGM_HEADER_SIZE))
}
/// The header only reads the first 255 bytes.
proof fn lemma_vgm_header_prefix(s: Seq<u8>)
    requires
        s.len() >= VGM_HEADER_SIZE,
    ensures
        spec_vgm_header(s.subrange(0, VGM_HEADER_SIZE as int)) == spec_vgm_header(s),
        spec_has_tag(s.subrange(0, VGM_HEADER_SIZE as int), spec_vgm_tag()) == spec_has_tag(s, spec_vgm_tag()),
{
    let t = s.subrange(0, VGM_HEADER_SIZE as int);
    assert forall|k: int| 0 <= k < VGM_HEADER_SIZE implies t[k] == s[k] by {}
    assert(t.subrange(0, 4) =~= s.subrange(0, 4));
}

/// The GD3 strings of a VGM file whose GD3 tag starts at `p`: blank where
/// the tag does not parse.
pub open spec fn spec_gd3_or_blank(s: Seq<u8>, p: int) -> Seq<Seq<char>> {
    match spec_parse_gd3(s.subrange(p, s.len() as int)) {
        Some((fs, _)) => fs,
        None => Seq::new(GD3_FIELDS as nat, |i: int| Seq::<char>::empty()),
    }
}

/// Parse the header and the GD3 tag of a VGM file. The GD3 tag is read at
/// 0x14 plus the header's GD3 offset; where it does not parse, the metadata
/// is blank. Fails only where the file does not start with "Vgm ".
pub fn parse_vgm_meta(vgmdata: &[u8]) -> (r: Result<(VgmHeader, Gd3), &'static str>)
    requires
        vgmdata@.len() >= VGM_HEADER_SIZE,
        spec_has_tag(vgmdata@, spec_vgm_tag()) ==> 0x14 + spec_vgm_header(vgmdata@).offset_gd3 <= vgmdata.len(),
    ensures
        match r {
            Ok((h, g)) => {
                &&& spec_has_tag(vgmdata@, spec_vgm_tag())
                &&& h == spec_vgm_header(vgmdata@)
                &&& g@ == spec_gd3_or_blank(vgmdata@, 0x14 + h.offset_gd3)
            },
            Err(e) => !spec_has_tag(vgmdata@, spec_vgm_tag()) && e@ == "vgm header parse error."@,
        },
{
    proof {
        lemma_vgm_header_prefix(vgmdata@);
    }
    let header = match parse_vgm_header(vstd::slice::slice_subrange(vgmdata, 0, VGM_HEADER_SIZE)) {
        Some((header, _)) => header,
        None => {
            return Err("vgm header parse error.");
        },
    };
    let gd3_pos: usize = 0x14 + header.offset_gd3 as usize;
    let gd3 = match parse_vgm_gd3(vstd::slice::slice_subrange(vgmdata, gd3_pos, vgmdata.len())) {
        Some((gd3, _)) => gd3,
        None => Gd3::default(),
    };
    Ok((header, gd3))
}

/// The decimal version that the four BCD bytes at `p` spell, most
/// significant byte last (bytes 50 01 00 00 read 150), or 0 where a nibble
/// is not a decimal digit.
pub proof fn lemma_bcd_version_digits(s: Seq<u8>, p: int)
    requires
        0 <= p,
        p + 4 <= s.len(),
    ensures
        ({
            let digits = s[p] / 16 <= 9 && s[p] % 16 <= 9 && s[p + 1] / 16 <= 9 && s[p + 1] % 16 <= 9
                && s[p + 2] / 16 <= 9 && s[p + 2] % 16 <= 9 && s[p + 3] / 16 <= 9 && s[p + 3] % 16 <= 9;
            &&& digits ==> spec_bcd_version(s, p) == (s[p + 3] / 16) * 10000000 + (s[p + 3] % 16) * 1000000
                + (s[p + 2] / 16) * 100000 + (s[p + 2] % 16) * 10000 + (s[p + 1] / 16) * 1000
                + (s[p + 1] % 16) * 100 + (s[p] / 16) * 10 + s[p] % 16
            &&& !digits ==> spec_bcd_version(s, p) == 0
        }),
{
}

/// Where a header's version is at least 1.00, the version field is the BCD
/// version at 0x08, and every field that the version defines is the
/// little-endian value of the bytes at its offset in the header: the
/// SN76489 clock at 0x0c, the YM2413 clock at 0x10, the GD3 offset at 0x14,
/// and so on to the reserved bytes at 0xfc.
pub proof fn lemma_vgm_header_layout(s: Seq<u8>)
    requires
        s.len() >= VGM_HEADER_SIZE,
    ensures
        ({
            let h = spec_vgm_header(s);
            let v = spec_bcd_version(s, 8);
            &&& v >= 100 ==> h.version == v
            &&& v >= 100 ==> h.eof == s[0x04] + s[0x05] * 0x100 + s[0x06] * 0x10000 + s[0x07] * 0x1000000
            &&& v >= 100 ==> h.clock_sn76489 == s[0x0c] + s[0x0d] * 0x100 + s[0x0e] * 0x10000 + s[0x0f] * 0x1000000
            &&& v >= 100 ==> h.clock_ym2413 == s[0x10] + s[0x11] * 0x100 + s[0x12] * 0x10000 + s[0x13] * 0x1000000
            &&& v >= 100 ==> h.offset_gd3 == s[0x14] + s[0x15] * 0x100 + s[0x16] * 0x10000 + s[0x17] * 0x1000000
            &&& v >= 100 ==> h.total_samples == s[0x18] + s[0x19] * 0x100 + s[0x1a] * 0x10000 + s[0x1b] * 0x1000000
            &&& v >= 100 ==> h.offset_loop == s[0x1c] + s[0x1d] * 0x100 + s[0x1e] * 0x10000 + s[0x1f] * 0x1000000
            &&& v >= 100 ==> h.loop_samples == s[0x20] + s[0x21] * 0x100 + s[0x22] * 0x10000 + s[0x23] * 0x1000000
            &&& v >= 101 ==> h.rate == s[0x24] + s[0x25] * 0x100 + s[0x26] * 0x10000 + s[0x27] * 0x1000000
            &&& v >= 110 ==> h.sn76489_fb == s[0x28] + s[0x29] * 0x100
            &&& v >= 110 ==> h.sn76489_w == s[0x2a]
            &&& v >= 151 ==> h.sn76489_f == s[0x2b]
            &&& v >= 110 ==> h.clock_ym2612 == s[0x2c] + s[0x2d] * 0x100 + s[0x2e] * 0x10000 + s[0x2f] * 0x1000000
            &&& v >= 110 ==> h.clock_ym2151 == s[0x30] + s[0x31] * 0x100 + s[0x32] * 0x10000 + s[0x33] * 0x1000000
            &&& v >= 150 ==> h.vgm_data_offset == s[0x34] + s[0x35] * 0x100 + s[0x36] * 0x10000 + s[0x37] * 0x1000000
            &&& v >= 151 ==> h.sega_pcm_clock == s[0x38] + s[0x39] * 0x100 + s[0x3a] * 0x10000 + s[0x3b] * 0x1000000
            &&& v >= 151 ==> h.spcm_interface == s[0x3c] + s[0x3d] * 0x100 + s[0x3e] * 0x10000 + s[0x3f] * 0x1000000
            &&& v >= 151 ==> h.clock_rf5c68 == s[0x40] + s[0x41] * 0x100 + s[0x42] * 0x10000 + s[0x43] * 0x1000000
            &&& v >= 151 ==> h.clock_ym2203 == s[0x44] + s[0x45] * 0x100 + s[0x46] * 0x10000 + s[0x47] * 0x1000000
            &&& v >= 151 ==> h.clock_ym2608 == s[0x48] + s[0x49] * 0x100 + s[0x4a] * 0x10000 + s[0x4b] * 0x1000000
            &&& v >= 151 ==> h.clock_ym2610_b == s[0x4c] + s[0x4d] * 0x100 + s[0x4e] * 0x10000 + s[0x4f] * 0x1000000
            &&& v >= 151 ==> h.clock_ym3812 == s[0x50] + s[0x51] * 0x100 + s[0x52] * 0x10000 + s[0x53] * 0x1000000
            &&& v >= 151 ==> h.clock_ym3526 == s[0x54] + s[0x55] * 0x100 + s[0x56] * 0x10000 + s[0x57] * 0x1000000
            &&& v >= 151 ==> h.clock_y8950 == s[0x58] + s[0x59] * 0x100 + s[0x5a] * 0x10000 + s[0x5b] * 0x1000000
            &&& v >= 151 ==> h.clock_ymf262 == s[0x5c] + s[0x5d] * 0x100 + s[0x5e] * 0x10000 + s[0x5f] * 0x1000000
            &&& v >= 151 ==> h.clock_ymf278_b == s[0x60] + s[0x61] * 0x100 + s[0x62] * 0x10000 + s[0x63] * 0x1000000
            &&& v >= 151 ==> h.clock_ym271 == s[0x64] + s[0x65] * 0x100 + s[0x66] * 0x10000 + s[0x67] * 0x1000000
            &&& v >= 151 ==> h.clock_ymz280b == s[0x68] + s[0x69] * 0x100 + s[0x6a] * 0x10000 + s[0x6b] * 0x1000000
            &&& v >= 151 ==> h.clock_rf5c164 == s[0x6c] + s[0x6d] * 0x100 + s[0x6e] * 0x10000 + s[0x6f] * 0x1000000
            &&& v >= 151 ==> h.clock_pwm == s[0x70] + s[0x71] * 0x100 + s[0x72] * 0x10000 + s[0x73] * 0x1000000
            &&& v >= 151 ==> h.clock_ay8910 == s[0x74] + s[0x75] * 0x100 + s[0x76] * 0x10000 + s[0x77] * 0x1000000
            &&& v >= 151 ==> h.ay8910_chip_type == s[0x78]
            &&& v >= 151 ==> h.ay8910_flag == s[0x79] + s[0x7a] * 0x100 + s[0x7b] * 0x10000
            &&& v >= 160 ==> h.volume_modifier == s[0x7c]
            &&& v >= 160 ==> h.reserved01 == s[0x7d]
            &&& v >= 160 ==> h.loop_base == s[0x7e]
            &&& v >= 151 ==> h.loop_modifier == s[0x7f]
            &&& v >= 161 ==> h.clock_gb_dmg == s[0x80] + s[0x81] * 0x100 + s[0x82] * 0x10000 + s[0x83] * 0x1000000
            &&& v >= 161 ==> h.clock_nes_apu == s[0x84] + s[0x85] * 0x100 + s[0x86] * 0x10000 + s[0x87] * 0x1000000
            &&& v >= 161 ==> h.clock_multi_pcm == s[0x88] + s[0x89] * 0x100 + s[0x8a] * 0x10000 + s[0x8b] * 0x1000000
            &&& v >= 161 ==> h.clock_upd7759 == s[0x8c] + s[0x8d] * 0x100 + s[0x8e] * 0x10000 + s[0x8f] * 0x1000000
            &&& v >= 161 ==> h.clock_okim6258 == s[0x90] + s[0x91] * 0x100 + s[0x92] * 0x10000 + s[0x93] * 0x1000000
            &&& v >= 161 ==> h.okmi6258_flag == s[0x94]
            &&& v >= 161 ==> h.k054539_flag == s[0x95]
            &&& v >= 161 ==> h.c140_chip_type == s[0x96]
            &&& v >= 161 ==> h.reserved02 == s[0x97]
            &&& v >= 161 ==> h.clock_okim6295 == s[0x98] + s[0x99] * 0x100 + s[0x9a] * 0x10000 + s[0x9b] * 0x1000000
            &&& v >= 161 ==> h.clock_k051649 == s[0x9c] + s[0x9d] * 0x100 + s[0x9e] * 0x10000 + s[0x9f] * 0x1000000
            &&& v >= 161 ==> h.clock_k054539 == s[0xa0] + s[0xa1] * 0x100 + s[0xa2] * 0x10000 + s[0xa3] * 0x1000000
            &&& v >= 161 ==> h.clock_huc6280 == s[0xa4] + s[0xa5] * 0x100 + s[0xa6] * 0x10000 + s[0xa7] * 0x1000000
            &&& v >= 161 ==> h.clock_c140 == s[0xa8] + s[0xa9] * 0x100 + s[0xaa] * 0x10000 + s[0xab] * 0x1000000
            &&& v >= 161 ==> h.clock_k053260 == s[0xac] + s[0xad] * 0x100 + s[0xae] * 0x10000 + s[0xaf] * 0x1000000
            &&& v >= 161 ==> h.clock_pokey == s[0xb0] + s[0xb1] * 0x100 + s[0xb2] * 0x10000 + s[0xb3] * 0x1000000
            &&& v >= 161 ==> h.clock_qsound == s[0xb4] + s[0xb5] * 0x100 + s[0xb6] * 0x10000 + s[0xb7] * 0x1000000
            &&& v >= 171 ==> h.clock_scsp == s[0xb8] + s[0xb9] * 0x100 + s[0xba] * 0x10000 + s[0xbb] * 0x1000000
            &&& v >= 170 ==> h.extra_hdr_ofs == s[0xbc] + s[0xbd] * 0x100 + s[0xbe] * 0x10000 + s[0xbf] * 0x1000000
            &&& v >= 171 ==> h.clock_wonder_swan == s[0xc0] + s[0xc1] * 0x100 + s[0xc2] * 0x10000 + s[0xc3] * 0x1000000
            &&& v >= 171 ==> h.clock_vsu == s[0xc4] + s[0xc5] * 0x100 + s[0xc6] * 0x10000 + s[0xc7] * 0x1000000
            &&& v >= 171 ==> h.clock_saa1099 == s[0xc8] + s[0xc9] * 0x100 + s[0xca] * 0x10000 + s[0xcb] * 0x1000000
            &&& v >= 171 ==> h.clock_es5503 == s[0xcc] + s[0xcd] * 0x100 + s[0xce] * 0x10000 + s[0xcf] * 0x1000000
            &&& v >= 171 ==> h.clock_es5506 == s[0xd0] + s[0xd1] * 0x100 + s[0xd2] * 0x10000 + s[0xd3] * 0x1000000
            &&& v >= 171 ==> h.es5503_amount_channel == s[0xd4]
            &&& v >= 171 ==> h.es5506_amount_channel == s[0xd5]
            &&& v >= 171 ==> h.c352_clock_divider == s[0xd6]
            &&& v >= 171 ==> h.reserved03 == s[0xd7]
            &&& v >= 171 ==> h.clock_x1_010 == s[0xd8] + s[0xd9] * 0x100 + s[0xda] * 0x10000 + s[0xdb] * 0x1000000
            &&& v >= 171 ==> h.clock_c352 == s[0xdc] + s[0xdd] * 0x100 + s[0xde] * 0x10000 + s[0xdf] * 0x1000000
            &&& v >= 171 ==> h.clock_ga20 == s[0xe0] + s[0xe1] * 0x100 + s[0xe2] * 0x10000 + s[0xe3] * 0x1000000
            &&& v >= 171 ==> h.reserved04 == s[0xe4] + s[0xe5] * 0x100 + s[0xe6] * 0x10000 + s[0xe7] * 0x1000000
            &&& v >= 171 ==> h.reserved05 == s[0xe8] + s[0xe9] * 0x100 + s[0xea] * 0x10000 + s[0xeb] * 0x1000000
            &&& v >= 171 ==> h.reserved06 == s[0xec] + s[0xed] * 0x100 + s[0xee] * 0x10000 + s[0xef] * 0x1000000
            &&& v >= 171 ==> h.reserved07 == s[0xf0] + s[0xf1] * 0x100 + s[0xf2] * 0x10000 + s[0xf3] * 0x1000000
            &&& v >= 171 ==> h.reserved08 == s[0xf4] + s[0xf5] * 0x100 + s[0xf6] * 0x10000 + s[0xf7] * 0x1000000
            &&& v >= 171 ==> h.reserved09 == s[0xf8] + s[0xf9] * 0x100 + s[0xfa] * 0x10000 + s[0xfb] * 0x1000000
            &&& v >= 171 ==> h.reserved10 == s[0xfc] + s[0xfd] * 0x100 + s[0xfe] * 0x10000
        }),
{
}

/// A field that the header's version does not define reads as 0.
pub proof fn lemma_vgm_header_undefined_fields(s: Seq<u8>)
    requires
        s.len() >= VGM_HEADER_SIZE,
    ensures
        ({
            let h = spec_vgm_header(s);
            let v = spec_bcd_version(s, 8);
            &&& v < 100 ==> h.version == 0
            &&& v < 100 ==> h.eof == 0
            &&& v < 100 ==> h.clock_sn76489 == 0
            &&& v < 100 ==> h.clock_ym2413 == 0
            &&& v < 100 ==> h.offset_gd3 == 0
            &&& v < 100 ==> h.total_samples == 0
            &&& v < 100 ==> h.offset_loop == 0
            &&& v < 100 ==> h.loop_samples == 0
            &&& v < 101 ==> h.rate == 0
            &&& v < 110 ==> h.sn76489_fb == 0
            &&& v < 110 ==> h.sn76489_w == 0
            &&& v < 151 ==> h.sn76489_f == 0
            &&& v < 110 ==> h.clock_ym2612 == 0
            &&& v < 110 ==> h.clock_ym2151 == 0
            &&& v < 150 ==> h.vgm_data_offset == 0
            &&& v < 151 ==> h.sega_pcm_clock == 0
            &&& v < 151 ==> h.spcm_interface == 0
            &&& v < 151 ==> h.clock_rf5c68 == 0
            &&& v < 151 ==> h.clock_ym2203 == 0
            &&& v < 151 ==> h.clock_ym2608 == 0
            &&& v < 151 ==> h.clock_ym2610_b == 0
            &&& v < 151 ==> h.clock_ym3812 == 0
            &&& v < 151 ==> h.clock_ym3526 == 0
            &&& v < 151 ==> h.clock_y8950 == 0
            &&& v < 151 ==> h.clock_ymf262 == 0
            &&& v < 151 ==> h.clock_ymf278_b == 0
            &&& v < 151 ==> h.clock_ym271 == 0
            &&& v < 151 ==> h.clock_ymz280b == 0
            &&& v < 151 ==> h.clock_rf5c164 == 0
            &&& v < 151 ==> h.clock_pwm == 0
            &&& v < 151 ==> h.clock_ay8910 == 0
            &&& v < 151 ==> h.ay8910_chip_type == 0
            &&& v < 151 ==> h.ay8910_flag == 0
            &&& v < 160 ==> h.volume_modifier == 0
            &&& v < 160 ==> h.reserved01 == 0
            &&& v < 160 ==> h.loop_base == 0
            &&& v < 151 ==> h.loop_modifier == 0
            &&& v < 161 ==> h.clock_gb_dmg == 0
            &&& v < 161 ==> h.clock_nes_apu == 0
            &&& v < 161 ==> h.clock_multi_pcm == 0
            &&& v < 161 ==> h.clock_upd7759 == 0
            &&& v < 161 ==> h.clock_okim6258 == 0
            &&& v < 161 ==> h.okmi6258_flag == 0
            &&& v < 161 ==> h.k054539_flag == 0
            &&& v < 161 ==> h.c140_chip_type == 0
            &&& v < 161 ==> h.reserved02 == 0
            &&& v < 161 ==> h.clock_okim6295 == 0
            &&& v < 161 ==> h.clock_k051649 == 0
            &&& v < 161 ==> h.clock_k054539 == 0
            &&& v < 161 ==> h.clock_huc6280 == 0
            &&& v < 161 ==> h.clock_c140 == 0
            &&& v < 161 ==> h.clock_k053260 == 0
            &&& v < 161 ==> h.clock_pokey == 0
            &&& v < 161 ==> h.clock_qsound == 0
            &&& v < 171 ==> h.clock_scsp == 0
            &&& v < 170 ==> h.extra_hdr_ofs == 0
            &&& v < 171 ==> h.clock_wonder_swan == 0
            &&& v < 171 ==> h.clock_vsu == 0
            &&& v < 171 ==> h.clock_saa1099 == 0
            &&& v < 171 ==> h.clock_es5503 == 0
            &&& v < 171 ==> h.clock_es5506 == 0
            &&& v < 171 ==> h.es5503_amount_channel == 0
            &&& v < 171 ==> h.es5506_amount_channel == 0
            &&& v < 171 ==> h.c352_clock_divider == 0
            &&& v < 171 ==> h.reserved03 == 0
            &&& v < 171 ==> h.clock_x1_010 == 0
            &&& v < 171 ==> h.clock_c352 == 0
            &&& v < 171 ==> h.clock_ga20 == 0
            &&& v < 171 ==> h.reserved04 == 0
            &&& v < 171 ==> h.reserved05 == 0
            &&& v < 171 ==> h.reserved06 == 0
            &&& v < 171 ==> h.reserved07 == 0
            &&& v < 171 ==> h.reserved08 == 0
            &&& v < 171 ==> h.reserved09 == 0
            &&& v < 171 ==> h.reserved10 == 0
        }),
{
}

/// A field that a file's version does not define reads as 0: a version
/// 1.01 file has no YM2612 or YM2151 clock, one below 1.51 no Sega PCM,
/// PWM or AY8910 clock.
pub proof fn lemma_vgm_header_version_gates(s: Seq<u8>)
    ensures
        spec_bcd_version(s, 8) < 110 ==> spec_vgm_header(s).clock_ym2612 == 0 && spec_vgm_header(s).clock_ym2151 == 0,
        spec_bcd_version(s, 8) < 151 ==> {
            &&& spec_vgm_header(s).sega_pcm_clock == 0
            &&& spec_vgm_header(s).clock_pwm == 0
            &&& spec_vgm_header(s).clock_ay8910 == 0
        },
        spec_bcd_version(s, 8) < 100 ==> spec_vgm_header(s) == spec_vgm_header_zero(),
{
}

} // verus!
