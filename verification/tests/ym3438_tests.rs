use libymfm::sound::ym3438::YM3438;
use libymfm::sound::ym3438::YM3438Mode;

fn write_reg(chip: &mut YM3438, addr: u8, data: u8) {
    chip.opn2_write(0, addr);
    for _ in 0..24 {
        chip.opn2_clock();
    }
    chip.opn2_write(1, data);
    for _ in 0..24 {
        chip.opn2_clock();
    }
}

#[test]
fn ym3438_silent_output_is_dac_offset() {
    let mut chip = YM3438::default();
    chip.reset(7_670_453, 44_100);
    // Position 0 is below the ratio: nothing generated yet.
    assert_eq!(chip.opn2_generate_resampled(), (0, 0));
    // A silent YM2612 still outputs +1 (times 3) on every cycle: 24 * 3 * 11.
    assert_eq!(chip.opn2_generate_resampled(), (792 * 177 / 847, 792 * 177 / 847));
    assert_eq!(chip.opn2_generate_resampled(), (792, 792));
}

#[test]
fn ym3438_status_read_ports() {
    let mut chip = YM3438::default();
    chip.reset(7_670_453, 44_100);
    assert_eq!(chip.opn2_read(1), 0);
    assert_eq!(chip.opn2_read(0), 0);
    assert_eq!(chip.opn2_read_irq_pin(), 0);
    assert_eq!(chip.opn2_read_test_pin(), 0);
}

#[test]
fn ym3438_timer_a_overflow_sets_status() {
    let mut chip = YM3438::default();
    chip.reset(7_670_453, 44_100);
    write_reg(&mut chip, 0x24, 0xff);
    write_reg(&mut chip, 0x25, 0x03);
    write_reg(&mut chip, 0x27, 0x05);
    for _ in 0..(24 * 8) {
        chip.opn2_clock();
    }
    assert_eq!(chip.opn2_read_irq_pin(), 1);
    assert_eq!(chip.opn2_read(0) & 0x03, 0x01);
    // A read on port 1 keeps the latched status while it is held.
    assert_eq!(chip.opn2_read(1) & 0x03, 0x01);
}

#[test]
fn ym3438_buffered_writes_reach_the_chip() {
    let mut chip = YM3438::default();
    chip.init(44_100, 7_670_453);
    for (addr, data) in [(0x24u8, 0xffu8), (0x25, 0x03), (0x27, 0x05)] {
        assert!(chip.write_bufferd_ok());
        chip.write(0, addr);
        chip.write(1, data);
    }
    assert_eq!(chip.opn2_read_irq_pin(), 0);
    for _ in 0..16 {
        chip.opn2_generate_resampled();
    }
    assert_eq!(chip.opn2_read_irq_pin(), 1);
}

#[test]
fn ym3438_read_mode_latches_any_port() {
    let mut chip = YM3438::default();
    chip.reset(7_670_453, 44_100);
    chip.opn2_set_chip_type(YM3438Mode::ReadMode);
    write_reg(&mut chip, 0x24, 0xff);
    write_reg(&mut chip, 0x25, 0x03);
    write_reg(&mut chip, 0x27, 0x05);
    for _ in 0..(24 * 8) {
        chip.opn2_clock();
    }
    assert_eq!(chip.opn2_read(3) & 0x01, 0x01);
}

#[test]
fn ym3438_slot_cycle_wraps_every_24() {
    let mut chip = YM3438::default();
    chip.reset(7_670_453, 44_100);
    write_reg(&mut chip, 0x2c, 0x80);
    let mut highs = Vec::new();
    for i in 0..48 {
        if chip.opn2_read_test_pin() == 1 {
            highs.push(i);
        }
        chip.opn2_clock();
    }
    assert_eq!(highs.len(), 2);
    assert_eq!(highs[1] - highs[0], 24);
}

#[test]
fn ym3438_reset_twice_is_reset_once() {
    let mut a = YM3438::default();
    a.reset(7_670_453, 44_100);
    let mut b = YM3438::default();
    b.reset(7_670_453, 44_100);
    b.reset(7_670_453, 44_100);
    for _ in 0..8 {
        assert_eq!(a.opn2_generate_resampled(), b.opn2_generate_resampled());
    }
}

#[test]
fn ym3438_status_read_twice_is_stable() {
    let mut chip = YM3438::default();
    chip.reset(7_670_453, 44_100);
    write_reg(&mut chip, 0x24, 0xff);
    write_reg(&mut chip, 0x25, 0x03);
    write_reg(&mut chip, 0x27, 0x05);
    for _ in 0..(24 * 8) {
        chip.opn2_clock();
    }
    let first = chip.opn2_read(0);
    assert_eq!(chip.opn2_read(2), first);
    assert_eq!(chip.opn2_read(0), first);
}

#[test]
fn ym3438_first_cycle_output_by_variant() {
    let mut chip = YM3438::default();
    chip.reset(7_670_453, 44_100);
    // YM2612: a silent channel still sits one step above zero, tripled.
    assert_eq!(chip.opn2_clock(), (3, 3));
    let mut chip = YM3438::default();
    chip.reset(7_670_453, 44_100);
    chip.opn2_set_chip_type(YM3438Mode::ReadMode);
    assert_eq!(chip.opn2_clock(), (0, 0));
}
