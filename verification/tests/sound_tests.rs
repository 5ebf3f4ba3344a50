use libymfm::sound::adpcm::STEP_VALUES;
use libymfm::sound::chip_c140::C140;
use libymfm::sound::chip_okim6258::{Okim6258Effect, OKIM6258};
use libymfm::sound::chip_okim6295::{OkiAdpcmState, OKIM6295};
use libymfm::sound::chip_pwm::{PWM, EMU_SAMPLING_RATE};
use libymfm::sound::chip_segapcm::SEGAPCM;
use libymfm::sound::chip_sn76489::SN76489;
use libymfm::sound::chip_ymfm::{ChipType, YmFm, YMFM_OUTPUT_STEP};
use libymfm::sound::data_stream::DataBlock;
use libymfm::sound::device::pcm_merge;
use libymfm::sound::interface::read_rombank;
use libymfm::sound::rom::{read_word, RomIndex, RomSet};
use libymfm::sound::slot::{chip_rom_indexes, find_device_index, rom_index_chip, select_stream, StreamKind};
use libymfm::sound::sound_chip::SoundChipType;
use libymfm::sound::stream::OutputChannel;

#[test]
fn adpcm_clock_steps_through_the_tables() {
    let mut s = OkiAdpcmState::new();
    assert_eq!(s.clock(7), 30);
    assert_eq!(s.output(), 30);
    assert_eq!(s.clock(15), 30 - 63);
}

#[test]
fn adpcm_save_restore_returns_to_loop_point() {
    let mut s = OkiAdpcmState::new();
    s.clock(7);
    s.save();
    s.clock(7);
    s.clock(3);
    assert_ne!(s.output(), 30);
    s.restore();
    assert_eq!(s.output(), 30);
}

#[test]
fn adpcm_signal_saturates_at_twelve_bits() {
    let mut s = OkiAdpcmState::new();
    for _ in 0..40 {
        s.clock(7);
    }
    assert_eq!(s.output(), 2047);
    for _ in 0..40 {
        s.clock(15);
    }
    assert_eq!(s.output(), -2048);
}

#[test]
fn adpcm_step_table_matches_float_formula() {
    for (i, v) in STEP_VALUES.iter().enumerate() {
        let f = (16.0_f32 * 1.1_f32.powf(i as f32)).floor() as i32;
        assert_eq!(*v, f, "step {}", i);
    }
}

#[test]
fn rom_read_uses_first_mapping_image() {
    let mut set = RomSet::new();
    assert_eq!(set.add_rom(&[1, 2, 3, 4], 0x100, 0x103), 0);
    assert_eq!(set.add_rom(&[9, 9, 9, 9, 9, 9], 0x102, 0x107), 1);
    assert_eq!(set.read(0x101), 2);
    assert_eq!(set.read(0x103), 4);
    assert_eq!(set.read(0x104), 9);
    assert_eq!(set.read(0x10), 0);
    assert_eq!(set.read_byte(0x100), 1);
    assert_eq!(set.read_word(0x80), 0x0201);
    let bank = Some(set);
    assert_eq!(read_word(&bank, 0x81), 0x0403);
    assert_eq!(read_rombank(&bank, 0x105), 9);
}

#[test]
fn rom_index_codes_round_trip() {
    for r in [RomIndex::SEGAPCM_ROM, RomIndex::YM2608_DELTA_T, RomIndex::YM2610_ADPCM, RomIndex::YM2610_DELTA_T,
        RomIndex::YMF278B_ROM, RomIndex::YMF278B_RAM, RomIndex::Y8950_ROM, RomIndex::OKIM6295_ROM, RomIndex::C140_ROM].iter() {
        assert_eq!(RomIndex::from_code(r.code()), *r);
    }
    assert_eq!(RomIndex::from_code(0x85), RomIndex::NOT_SUPPOTED);
}

#[test]
fn sn76489_volume_table_matches_float_formula() {
    let mut chip = SN76489::from_chip_type(SoundChipType::SEGAPSG);
    assert_eq!(chip.init(3579545), 1789772);
    let mut out: f64 = (0x7fff / 4) as f64;
    let mut expect = Vec::new();
    for _ in 0..15 {
        expect.push(if out > (0x7fff / 4) as f64 { 0x7fff / 4 } else { out as i32 });
        out /= 1.258925412_f64;
    }
    expect.push(0);
    assert_eq!(expect, vec![8191, 6506, 5168, 4105, 3260, 2590, 2057, 1634, 1298, 1031, 819, 650, 516, 410, 326, 0]);
}

#[test]
fn sn76489_tone_toggles_after_divided_clock() {
    let mut chip = SN76489::from_chip_type(SoundChipType::SEGAPSG);
    chip.init(3579545);
    chip.write(0x90);
    chip.write(0x81);
    chip.write(0x00);
    for _ in 0..7 {
        assert_eq!(chip.sound_stream_update(), (0, 0));
    }
    assert_eq!(chip.sound_stream_update(), (-4095, -4095));
}

#[test]
fn pwm_fifo_is_first_in_first_out() {
    let mut pwm = PWM::new();
    assert_eq!(pwm.init(23011361), EMU_SAMPLING_RATE);
    assert_eq!(pwm.emu_timer_up_hz(), None);
    pwm.pwm_w(0, 0x0105);
    assert_eq!(pwm.emu_timer_up_hz(), Some(23011361 / 4094));
    pwm.pwm_w(1, 1040);
    assert_eq!(pwm.emu_timer_up_hz(), Some(23011361 / 1039));
    pwm.pwm_w(2, 0x123);
    pwm.pwm_w(2, 0x456);
    assert!(pwm.pwm_callback_ok());
    assert_eq!(pwm.handle_pwm_callback(), (0x123, 0));
    assert_eq!(pwm.handle_pwm_callback(), (0x456, 0));
    assert_eq!(pwm.handle_pwm_callback(), (0, 0));
}

#[test]
fn pwm_undefined_routing_is_refused() {
    let mut pwm = PWM::new();
    pwm.init(23011361);
    pwm.pwm_w(0, 0x0107);
    pwm.pwm_w(2, 1);
    assert!(!pwm.pwm_callback_ok());
}

#[test]
fn segapcm_plays_active_channel() {
    let mut chip = SEGAPCM::from();
    assert_eq!(chip.init(4000000), 31250);
    chip.set_rom_bank(Some(RomSet::new()));
    chip.add_rom(&[0x90, 0x70, 0x80], 0, 2);
    chip.write(0x86, 0x00);
    chip.write(0x84, 0x00);
    chip.write(0x85, 0x00);
    chip.write(0x06, 0x00);
    chip.write(0x07, 0x80);
    chip.write(0x02, 0x7f);
    chip.write(0x03, 0x40);
    let out = chip.update();
    assert_eq!(out.len(), 16);
    assert_eq!(out[0], Some((16 * 127, 16 * 64)));
    assert!(out[1..].iter().all(|o| o.is_none()));
    let out = chip.update();
    assert_eq!(out[0], Some((16 * 127, 16 * 64)));
    let out = chip.update();
    assert_eq!(out[0], Some((-16 * 127, -16 * 64)));
}

#[test]
fn segapcm_stops_at_end_without_loop() {
    let mut chip = SEGAPCM::from();
    chip.init(4000000);
    chip.set_rom_bank(Some(RomSet::new()));
    chip.add_rom(&[0x80; 4], 0, 3);
    chip.write(0x86, 0x02);
    chip.write(0x85, 0x01);
    chip.write(0x06, 0x00);
    let out = chip.update();
    assert_eq!(out[0], None);
    let out = chip.update();
    assert_eq!(out[0], None);
    chip.reset();
    assert!(chip.update().iter().all(|o| o.is_none()));
}

#[test]
fn c140_keyed_voice_interpolates_samples() {
    let mut chip = C140::new();
    assert_eq!(chip.init(21390), 21390);
    chip.set_rom_bank(Some(RomSet::new()));
    chip.add_rom(&[0, 0, 0x30, 0x12, 0, 0, 0, 0], 0, 7);
    assert_eq!(chip.sound_stream_update(), (0, 0));
    chip.write_port(0x01, 0xff);
    chip.write_port(0x02, 0x80);
    chip.write_port(0x03, 0x00);
    chip.write_port(0x08, 0x01);
    chip.write_port(0x09, 0x00);
    chip.write_port(0x05, 0x80);
    assert_eq!(chip.sound_stream_update(), (0, 0));
    assert_eq!(chip.sound_stream_update(), (193, 0));
}

#[test]
fn oki6295_status_reads_idle_voices() {
    let mut chip = OKIM6295::from();
    chip.init(1000000);
    assert_eq!(chip.read(), 0xf0);
    assert!(!chip.voice_playing(0));
}

#[test]
fn oki6258_port_effects() {
    let mut chip = OKIM6258::default();
    assert_eq!(chip.init(4000000), 4000000 / 1024);
    assert_eq!(chip.write_port(0x10, 1), Okim6258Effect::ChangeSamplingRate(4000000 / 768));
    assert_eq!(chip.write_port(2, 1), Okim6258Effect::SetOutputChannel(OutputChannel::Left));
    assert_eq!(chip.write_port(2, 3), Okim6258Effect::SetOutputChannel(OutputChannel::Stereo));
    assert_eq!(chip.sound_stream_update(3), vec![0, 0, 0]);
}

#[test]
fn ymfm_chip_types_and_output_time() {
    let mut chip = YmFm::new(SoundChipType::YM2612);
    assert!(chip.chip_type == ChipType::CHIP_YM2612);
    assert_eq!(chip.chip_type.number(), 6);
    assert!(!chip.started());
    assert_eq!(chip.init(7670453, 53267), 53267);
    assert_eq!(chip.output_step, YMFM_OUTPUT_STEP);
    assert_eq!(YMFM_OUTPUT_STEP, (0x100000000_i64 / 44100) as i64);
    chip.advance_output();
    assert_eq!(chip.output_pos, YMFM_OUTPUT_STEP);
    chip.output_pos = i64::MAX - 10;
    chip.advance_output();
    assert_eq!(chip.output_pos, YMFM_OUTPUT_STEP - 10);
}

#[test]
fn slot_decisions() {
    assert_eq!(select_stream(44100, 44100, SoundChipType::YM2612), StreamKind::Native);
    assert_eq!(select_stream(223721, 44100, SoundChipType::SEGAPSG), StreamKind::OverSample);
    assert_eq!(select_stream(53267, 44100, SoundChipType::YM2612), StreamKind::NearestDownSample);
    assert_eq!(select_stream(22050, 44100, SoundChipType::PWM), StreamKind::LinearUpSampling);
    assert_eq!(chip_rom_indexes(SoundChipType::YM2610), vec![RomIndex::YM2610_ADPCM, RomIndex::YM2610_DELTA_T]);
    assert_eq!(chip_rom_indexes(SoundChipType::SEGAPCM), vec![RomIndex::SEGAPCM_ROM]);
    assert!(chip_rom_indexes(SoundChipType::YM2612).is_empty());
    assert_eq!(rom_index_chip(RomIndex::Y8950_ROM), Some(SoundChipType::Y8950));
    assert_eq!(rom_index_chip(RomIndex::NOT_SUPPOTED), None);
    assert_eq!(find_device_index(2, 1), Some(1));
    assert_eq!(find_device_index(2, 2), None);
    assert_eq!(find_device_index(2, 3), None);
}

#[test]
fn pcm_merge_sums_priority_streams() {
    let ws = [(10u32, 0x2au32, Some(5u32)), (20, 0x2a, Some(1)), (30, 0x2b, None)];
    assert_eq!(pcm_merge(&ws, 2), Some((0x2a, 10)));
    assert_eq!(pcm_merge(&ws, 9), None);
    assert_eq!(pcm_merge(&[(1, 3, Some(4)), (2, 5, Some(4))], 0), Some((5, 3)));
}

#[test]
fn data_block_copies_bytes() {
    let b = DataBlock::new(&[1, 2, 3]);
    assert_eq!(b.get_data_block(), &[1, 2, 3]);
}

#[test]
fn c140_key_on_works_for_every_voice_block() {
    let mut chip = C140::new();
    assert_eq!(chip.init(21390), 21390);
    chip.set_rom_bank(Some(RomSet::new()));
    chip.add_rom(&[0, 0, 0x30, 0x12, 0, 0, 0, 0], 0, 7);
    // voice 1: registers 0x10-0x1f, key-on through 0x15
    chip.write_port(0x11, 0xff);
    chip.write_port(0x12, 0x80);
    chip.write_port(0x13, 0x00);
    chip.write_port(0x18, 0x01);
    chip.write_port(0x19, 0x00);
    chip.write_port(0x15, 0x80);
    assert_eq!(chip.sound_stream_update(), (0, 0));
    assert_eq!(chip.sound_stream_update(), (193, 0));
}

#[test]
fn zero_tone_period_stays_zero_on_sega_psg_only() {
    // A zero tone period stays 0 on the Sega PSG, so the tone toggles at
    // every divided clock; the SN76489 takes it as 0x400 and holds.
    let mut sega = SN76489::from_chip_type(SoundChipType::SEGAPSG);
    sega.init(3579545);
    sega.write(0x90);
    sega.write(0x80);
    sega.write(0x00);
    let mut ti = SN76489::from_chip_type(SoundChipType::SN76489);
    ti.init(3579545);
    ti.write(0x90);
    ti.write(0x80);
    ti.write(0x00);
    let sega_out: Vec<(i32, i32)> = (0..16).map(|_| sega.sound_stream_update()).collect();
    let ti_out: Vec<(i32, i32)> = (0..16).map(|_| ti.sound_stream_update()).collect();
    assert_eq!(sega_out[7], (-4095, -4095));
    assert_eq!(ti_out[7], (-4095, -4095));
    assert_eq!(sega_out[15], (0, 0));
    assert_eq!(ti_out[15], (-4095, -4095));
}

#[test]
fn sega_psg_latches_register_three_at_start() {
    // A first data byte goes to register 3 (tone 1 volume) on the Sega PSG
    // and to register 0 (tone 0 period) on the SN76489.
    let mut sega = SN76489::from_chip_type(SoundChipType::SEGAPSG);
    sega.init(3579545);
    sega.write(0x00);
    let mut ti = SN76489::from_chip_type(SoundChipType::SN76489);
    ti.init(3579545);
    ti.write(0x00);
    let sega_out: Vec<(i32, i32)> = (0..8).map(|_| sega.sound_stream_update()).collect();
    let ti_out: Vec<(i32, i32)> = (0..8).map(|_| ti.sound_stream_update()).collect();
    assert_eq!(sega_out[7], (-4095, -4095));
    assert_eq!(ti_out[7], (0, 0));
}

#[test]
fn adpcm_later_saves_keep_the_first_loop_point() {
    let mut s = OkiAdpcmState::new();
    s.clock(7);
    s.save();
    s.clock(7);
    s.save();
    s.clock(3);
    s.save();
    s.restore();
    assert_eq!(s.output(), 30);
    s.clock(1);
    s.restore();
    assert_eq!(s.output(), 30);
}

#[test]
fn adpcm_tables_recomputed_after_new_stay_the_same() {
    let mut s = OkiAdpcmState::new();
    s.compute_tables();
    assert_eq!(s.clock(7), 30);
    assert_eq!(s.clock(15), 30 - 63);
}
