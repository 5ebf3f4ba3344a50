use libymfm::driver::metadata::{parse_vgm_header, parse_vgm_meta, VgmHeader};
use libymfm::driver::gd3meta::{parse_utf16_until_null, parse_vgm_gd3};
use libymfm::driver::xgmmeta::{parse_xgm_header, parse_xgm_meta, VDPMode};
use libymfm::driver::vgmplay::{VgmAction, VgmPlay};
use libymfm::driver::xgmplay::{XgmPlay, MASTER_CLOCK_NTSC, MASTER_CLOCK_PAL};
use std::io::Write;
use libymfm::sound::sound_chip::SoundChipType;

fn le32(v: &mut Vec<u8>, x: u32) {
    v.extend_from_slice(&x.to_le_bytes());
}

fn vgm_header_bytes(version: u32, ym2612: u32, gd3_offset: u32, data_offset: u32) -> Vec<u8> {
    let mut v = vec![0u8; 256];
    v[0..4].copy_from_slice(b"Vgm ");
    v[8..12].copy_from_slice(&version.to_le_bytes());
    v[0x14..0x18].copy_from_slice(&gd3_offset.to_le_bytes());
    v[0x2c..0x30].copy_from_slice(&ym2612.to_le_bytes());
    v[0x34..0x38].copy_from_slice(&data_offset.to_le_bytes());
    v
}

#[test]
fn vgm_header_version_is_read_as_bcd() {
    let v = vgm_header_bytes(0x0000_0171, 7670453, 0, 0x0c);
    let (h, n) = parse_vgm_header(&v).unwrap();
    assert_eq!(n, 255);
    assert_eq!(h.version, 171);
    assert_eq!(h.clock_ym2612, 7670453);
    assert_eq!(h.vgm_data_offset, 0x0c);
}

#[test]
fn vgm_header_of_exactly_255_bytes_parses() {
    let mut v = vec![0u8; 255];
    v[0..4].copy_from_slice(b"Vgm ");
    v[8..12].copy_from_slice(&[0x50, 0x01, 0x00, 0x00]);
    v[0x34..0x38].copy_from_slice(&[0x0c, 0, 0, 0]);
    v[0x44..0x48].copy_from_slice(&[0x01, 0, 0, 0]);
    let (h, n) = parse_vgm_header(&v).unwrap();
    assert_eq!(n, v.len());
    assert_eq!(h.version, 150);
    assert_eq!(h.vgm_data_offset, 12);
    assert_eq!(h.clock_ym2203, 0);
    let (h, gd3) = parse_vgm_meta(&v).unwrap();
    assert_eq!(h.version, 150);
    assert_eq!(gd3.track_name, "");
    assert!(parse_vgm_header(&v[..254]).is_none());
}

#[test]
fn vgm_header_fields_gated_by_version() {
    let v = vgm_header_bytes(0x0000_0101, 7670453, 0, 0x0c);
    let (h, _) = parse_vgm_header(&v).unwrap();
    assert_eq!(h.version, 101);
    assert_eq!(h.clock_ym2612, 0);
    assert_eq!(h.vgm_data_offset, 0);
}

#[test]
fn vgm_header_rejects_missing_tag() {
    let mut v = vgm_header_bytes(0x150, 0, 0, 0);
    v[0] = b'X';
    assert!(parse_vgm_header(&v).is_none());
    assert!(parse_vgm_meta(&v).is_err());
}

#[test]
fn vgm_header_hex_version_reads_as_zero() {
    let v = vgm_header_bytes(0x0000_01a0, 7670453, 0, 0);
    let (h, _) = parse_vgm_header(&v).unwrap();
    assert_eq!(h.version, 0);
    assert_eq!(h.eof, 0);
}

fn utf16z(s: &str) -> Vec<u8> {
    let mut v = Vec::new();
    for u in s.encode_utf16() {
        v.extend_from_slice(&u.to_le_bytes());
    }
    v.extend_from_slice(&[0, 0]);
    v
}

#[test]
fn gd3_strings_are_read_in_order() {
    let mut g = b"Gd3 ".to_vec();
    le32(&mut g, 0x100);
    le32(&mut g, 0);
    let names = ["Track", "トラック", "Game", "", "System", "", "Author", "", "2021", "me"];
    for n in names.iter() {
        g.extend_from_slice(&utf16z(n));
    }
    let (gd3, n) = parse_vgm_gd3(&g).unwrap();
    assert_eq!(n, g.len());
    assert_eq!(gd3.track_name, "Track");
    assert_eq!(gd3.track_name_j, "トラック");
    assert_eq!(gd3.game_name, "Game");
    assert_eq!(gd3.track_author, "Author");
    assert_eq!(gd3.date, "2021");
    assert_eq!(gd3.converted, "me");
}

#[test]
fn utf16_invalid_string_is_empty() {
    let bytes = [0x00u8, 0xd8, 0x41, 0x00, 0x00, 0x00];
    let (s, e) = parse_utf16_until_null(&bytes, 0).unwrap();
    assert_eq!(s, "");
    assert_eq!(e, 6);
    assert!(parse_utf16_until_null(&[0x41u8, 0x00], 0).is_none());
}

#[test]
fn vgm_meta_reads_gd3_at_offset() {
    let mut v = vgm_header_bytes(0x150, 0, 256 - 0x14, 0);
    v.extend_from_slice(b"Gd3 ");
    le32(&mut v, 0x100);
    le32(&mut v, 0);
    for n in ["a", "b", "c", "d", "e", "f", "g", "h", "i", "j"].iter() {
        v.extend_from_slice(&utf16z(n));
    }
    let (h, gd3) = parse_vgm_meta(&v).unwrap();
    assert_eq!(h.version, 150);
    assert_eq!(gd3.track_name, "a");
    assert_eq!(gd3.converted, "j");
}

fn xgm_bytes(entries: &[(u16, u16)], flags: u8, sdbs: u16) -> Vec<u8> {
    let mut v = b"XGM ".to_vec();
    for k in 0..63 {
        let (a, s) = if k < entries.len() { entries[k] } else { (0xffff, 1) };
        v.extend_from_slice(&a.to_le_bytes());
        v.extend_from_slice(&s.to_le_bytes());
    }
    v.extend_from_slice(&sdbs.to_le_bytes());
    v.push(1);
    v.push(flags);
    v.extend(std::iter::repeat(0u8).take(sdbs as usize * 256));
    le32(&mut v, 0);
    v
}

#[test]
fn xgm_header_reads_table_and_flags() {
    let v = xgm_bytes(&[(0, 2), (2, 1)], 0b101, 3);
    let (h, n) = parse_xgm_header(&v).unwrap();
    assert_eq!(n, 264 + 3 * 256);
    assert_eq!(h.sample_id_table, vec![(0, 2), (2, 1)]);
    assert_eq!(h.sample_data_bloc_size, 3);
    assert_eq!(h.version, 1);
    assert_eq!(h.vdp_mode, VDPMode::PAL);
    assert!(!h.gd3_tag);
    assert!(h.multi_track_file);
    assert_eq!(h.vdp_mode.rate(), 50);
    let (_, gd3) = parse_xgm_meta(&v).unwrap();
    assert_eq!(gd3.track_name, "");
}

#[test]
fn xgm_header_too_short_is_an_error() {
    let mut v = xgm_bytes(&[], 0, 1);
    v.truncate(300);
    assert!(parse_xgm_header(&v).is_none());
    assert!(parse_xgm_meta(&v).is_err());
}

fn player_with(data_after_header: &[u8], version: u32, loop_offset: u32) -> VgmPlay {
    let mut v = vgm_header_bytes(version, 7670453, 0, 256 - 0x34);
    v[0x1c..0x20].copy_from_slice(&loop_offset.to_le_bytes());
    v.extend_from_slice(data_after_header);
    let mut p = VgmPlay::new(v.len());
    p.write_vgmfile(0, &v);
    p
}

#[test]
fn vgm_init_lists_chips_and_parses_commands() {
    let mut p = player_with(&[0x52, 0x28, 0xf0, 0x61, 0x10, 0x00, 0x62, 0x66], 0x150, 0);
    let chips = p.init().unwrap();
    assert_eq!(chips, vec![(SoundChipType::YM2612, 1, 7670453)]);
    assert!(p.vgm_step_ok(false));
    assert_eq!(p.parse_vgm(false), (0, VgmAction::Write(SoundChipType::YM2612, 0, 0x28, 0xf0)));
    assert_eq!(p.parse_vgm(false), (0x10, VgmAction::Nothing));
    assert_eq!(p.parse_vgm(false), (735, VgmAction::Nothing));
    assert!(!p.is_end());
    assert_eq!(p.parse_vgm(false), (0, VgmAction::Nothing));
    assert!(p.is_end());
    assert_eq!(p.play_result(), usize::MAX);
}

#[test]
fn vgm_stream_block_feeds_ym2612_dac() {
    // data block (type 0x00, 3 bytes), then 0x80 | wait, a seek and another write
    let cmds = [
        0x67, 0x66, 0x00, 0x03, 0x00, 0x00, 0x00, 0x11, 0x22, 0x33, 0x82, 0x81, 0xe0, 0x02, 0x00,
        0x00, 0x00, 0x80, 0x66,
    ];
    let mut p = player_with(&cmds, 0x150, 0);
    p.init().unwrap();
    assert_eq!(p.parse_vgm(false), (0, VgmAction::Nothing));
    assert_eq!(p.parse_vgm(false), (2, VgmAction::Write(SoundChipType::YM2612, 0, 0x2a, 0x11)));
    assert_eq!(p.parse_vgm(false), (1, VgmAction::Write(SoundChipType::YM2612, 0, 0x2a, 0x22)));
    assert_eq!(p.parse_vgm(false), (0, VgmAction::Nothing));
    assert_eq!(p.parse_vgm(false), (0, VgmAction::Write(SoundChipType::YM2612, 0, 0x2a, 0x33)));
}

#[test]
fn vgm_rom_block_is_loaded() {
    // type 0x80 (SEGAPCM ROM): rom size 0x100, start 0x10, 4 data bytes
    let mut cmds = vec![0x67, 0x66, 0x80, 0x0c, 0x00, 0x00, 0x00];
    cmds.extend_from_slice(&0x100u32.to_le_bytes());
    cmds.extend_from_slice(&0x10u32.to_le_bytes());
    cmds.extend_from_slice(&[1, 2, 3, 4]);
    cmds.push(0x66);
    let mut p = player_with(&cmds, 0x150, 0);
    p.init().unwrap();
    let data_pos = 256 + 7;
    assert_eq!(
        p.parse_vgm(false),
        (0, VgmAction::AddRom(libymfm::sound::rom::RomIndex::SEGAPCM_ROM, data_pos + 8, data_pos + 12, 0x10, 0x13))
    );
    assert_eq!(p.parse_vgm(false), (0, VgmAction::Nothing));
    assert!(p.is_end());
}

#[test]
fn vgm_pwm_and_segapcm_writes() {
    let mut p = player_with(&[0xb2, 0x12, 0x34, 0xc0, 0x34, 0x12, 0x56, 0x53, 0x2b, 0x80, 0x66], 0x150, 0);
    p.init().unwrap();
    assert_eq!(p.parse_vgm(false), (0, VgmAction::Write(SoundChipType::PWM, 0, 1, 0x234)));
    assert_eq!(p.parse_vgm(false), (0, VgmAction::Write(SoundChipType::SEGAPCM, 0, 0x1234, 0x56)));
    assert_eq!(p.parse_vgm(false), (0, VgmAction::Write(SoundChipType::YM2612, 0, 0x12b, 0x80)));
}

#[test]
fn vgm_unknown_command_is_reported() {
    let mut p = player_with(&[0x62, 0x20, 0x66], 0x150, 0);
    p.init().unwrap();
    assert_eq!(p.parse_vgm(false), (735, VgmAction::Nothing));
    assert_eq!(p.parse_vgm(false), (0, VgmAction::Unknown(257, 0x20)));
}

#[test]
fn vgm_loop_repeats_from_loop_offset() {
    // loop offset points at the first command (0x1c + offset == 256)
    let mut p = player_with(&[0x63, 0x66], 0x150, 256 - 0x1c);
    p.init().unwrap();
    assert_eq!(p.parse_vgm(true), (882, VgmAction::Nothing));
    assert_eq!(p.parse_vgm(true), (0, VgmAction::Nothing));
    assert!(!p.is_end());
    assert_eq!(p.play_result(), 1);
    assert_eq!(p.parse_vgm(true), (882, VgmAction::Nothing));
    assert_eq!(p.parse_vgm(false), (0, VgmAction::Nothing));
    assert!(p.is_end());
}

#[test]
fn vgm_stream_commands_drive_pcm_stream() {
    // block of 4 bytes, stream frequency 22050, start at 1 for 2 bytes
    let mut cmds = vec![0x67, 0x66, 0x00, 0x04, 0x00, 0x00, 0x00, 9, 8, 7, 6];
    cmds.extend_from_slice(&[0x92, 0x00]);
    cmds.extend_from_slice(&22050u32.to_le_bytes());
    cmds.extend_from_slice(&[0x93, 0x00]);
    cmds.extend_from_slice(&1u32.to_le_bytes());
    cmds.push(0x00);
    cmds.extend_from_slice(&2u32.to_le_bytes());
    cmds.push(0x66);
    let mut p = player_with(&cmds, 0x150, 0);
    p.init().unwrap();
    for _ in 0..3 {
        assert!(p.vgm_step_ok(false));
        p.parse_vgm(false);
    }
    let mut out = Vec::new();
    for _ in 0..6 {
        assert!(p.pcm_stream_ok());
        out.push(p.update_pcm_stream());
    }
    assert_eq!(out.iter().filter(|x| x.is_some()).count(), 2);
    assert_eq!(out.iter().flatten().copied().collect::<Vec<u8>>(), vec![8, 7]);
}

#[test]
fn vgm_gzip_file_is_extracted() {
    let mut v = vgm_header_bytes(0x150, 3579545, 0, 256 - 0x34);
    v.extend_from_slice(&[0x62, 0x66]);
    let mut enc = flate2::write::GzEncoder::new(Vec::new(), flate2::Compression::default());
    enc.write_all(&v).unwrap();
    let gz = enc.finish().unwrap();
    assert_ne!(gz[0], b'V');
    let mut p = VgmPlay::new(gz.len());
    p.write_vgmfile(0, &gz);
    let chips = p.init().unwrap();
    assert_eq!(chips, vec![(SoundChipType::YM2612, 1, 3579545)]);
    assert_eq!(p.parse_vgm(false), (735, VgmAction::Nothing));
    assert_eq!(p.get_vgm_meta().0.version, 150);
}

#[test]
fn xgm_player_setup_by_video_mode() {
    let v = xgm_bytes(&[(0, 2), (2, 1)], 0b001, 3);
    let (p, setup) = XgmPlay::new(&v).unwrap();
    assert!(setup.pal);
    assert_eq!(setup.clock_ym2612, MASTER_CLOCK_PAL / 7);
    assert_eq!(setup.clock_sn76489, MASTER_CLOCK_NTSC / 15);
    assert_eq!(p.get_vgm_meta().0.sample_id_table, vec![(0, 2), (2, 1)]);
    let v = xgm_bytes(&[], 0, 1);
    let (_, setup) = XgmPlay::new(&v).unwrap();
    assert!(!setup.pal);
    assert_eq!(setup.clock_ym2612, MASTER_CLOCK_NTSC / 7);
    let mut bad = v.clone();
    bad[0] = b'Y';
    assert!(XgmPlay::new_checked(&bad).unwrap().is_err());
}

#[test]
fn vgm_reserved_commands_skip_their_operands() {
    let mut p = player_with(&[0xd0, 1, 2, 3, 0xe1, 1, 2, 3, 4, 0xff, 9, 9, 9, 9, 0x62, 0x66], 0x150, 0);
    p.init().unwrap();
    assert_eq!(p.parse_vgm(false), (0, VgmAction::Nothing));
    assert_eq!(p.parse_vgm(false), (0, VgmAction::Nothing));
    assert_eq!(p.parse_vgm(false), (0, VgmAction::Nothing));
    assert_eq!(p.parse_vgm(false), (735, VgmAction::Nothing));
}

#[test]
fn vgm_old_version_commands_start_at_0x40() {
    let mut v = vgm_header_bytes(0x0000_0110, 7670453, 0, 0);
    v[0x40] = 0x62;
    v[0x41] = 0x66;
    let mut p = VgmPlay::new(v.len());
    p.write_vgmfile(0, &v);
    p.init().unwrap();
    assert_eq!(p.parse_vgm(false), (735, VgmAction::Nothing));
    assert_eq!(p.parse_vgm(false), (0, VgmAction::Nothing));
    assert!(p.is_end());
}

#[test]
fn vgm_v161_fields_after_three_byte_ay_flags() {
    let mut v = vgm_header_bytes(0x0000_0161, 0, 0, 0);
    v[0x79] = 0x01;
    v[0x7a] = 0x02;
    v[0x7b] = 0x03;
    v[0x7c] = 0x40;
    v[0x7e] = 0x05;
    v[0x7f] = 0x06;
    v[0x80..0x84].copy_from_slice(&4194304u32.to_le_bytes());
    v[0x90..0x94].copy_from_slice(&4000000u32.to_le_bytes());
    v[0xa8..0xac].copy_from_slice(&21390u32.to_le_bytes());
    let (h, n) = parse_vgm_header(&v).unwrap();
    assert_eq!(n, 255);
    assert_eq!(h.ay8910_flag, 0x030201);
    assert_eq!(h.volume_modifier, 0x40);
    assert_eq!(h.loop_base, 5);
    assert_eq!(h.loop_modifier, 6);
    assert_eq!(h.clock_gb_dmg, 4194304);
    assert_eq!(h.clock_okim6258, 4000000);
    assert_eq!(h.clock_c140, 21390);
}

#[test]
fn xgm_table_reads_all_entries_and_skips_empty_ones() {
    let mut v = xgm_bytes(&[], 0, 1);
    // entry 1 used behind an empty entry 0, and the last entry (62) used
    v[4 + 4..4 + 8].copy_from_slice(&[0x00, 0x00, 0x01, 0x00]);
    v[4 + 4 * 62..4 + 4 * 63].copy_from_slice(&[0x10, 0x00, 0x02, 0x00]);
    let (h, _) = parse_xgm_header(&v).unwrap();
    assert_eq!(h.sample_id_table, vec![(0x0000, 0x0001), (0x0010, 0x0002)]);
}

#[test]
fn vgm_plain_data_sets_up_without_extraction() {
    let mut v = vgm_header_bytes(0x150, 3579545, 0, 256 - 0x34);
    v.extend_from_slice(&[0x63, 0x66]);
    assert!(libymfm::driver::vgmplay::vgm_init_ok(&v));
    let mut p = VgmPlay::new(v.len());
    p.write_vgmfile(0, &v);
    let chips = p.init_plain().unwrap();
    assert_eq!(chips, vec![(SoundChipType::YM2612, 1, 3579545)]);
    assert_eq!(p.data(), &v[..]);
    assert_eq!(p.parse_vgm(false), (882, VgmAction::Nothing));
}

#[test]
fn xgm_player_from_plain_data() {
    let v = xgm_bytes(&[(0, 1)], 0, 1);
    let (p, setup) = XgmPlay::from_data(v.clone()).unwrap();
    assert_eq!(p.data(), &v[..]);
    assert_eq!(setup.sample_blocks, vec![(0x104, 0x204)]);
}

#[test]
fn extract_keeps_data_without_gzip_magic() {
    let v = vgm_header_bytes(0x150, 0, 0, 0);
    assert_eq!(libymfm::driver::meta::extract(&v), v);
    assert_eq!(libymfm::driver::meta::extract(&[0x1f, 0x8b]), vec![0x1f, 0x8b]);
    let mut enc = flate2::write::GzEncoder::new(Vec::new(), flate2::Compression::default());
    enc.write_all(b"abc").unwrap();
    let gz = enc.finish().unwrap();
    assert_eq!(libymfm::driver::meta::extract(&gz), b"abc".to_vec());
}
