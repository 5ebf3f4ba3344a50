use vstd::prelude::*;

verus! {

/// The chip variant that a YM3438 core emulates: the YM2612 (with its DAC
/// distortion and status behaviour) or the YM3438 with status read on any
/// port.
#[derive(PartialEq, Eq, Clone, Copy, Debug, Structural)]
pub enum YM3438Mode {
    YM2612,
    ReadMode,
}

/// The state of an operator's envelope.
#[derive(PartialEq, Eq, Clone, Copy, Debug, Structural)]
pub enum EgNum {
    Attack,
    Decay,
    Sustain,
    Release,
}

/// A write held in the write buffer until its time comes.
#[derive(Clone, Copy, PartialEq, Eq, Debug, Structural)]
pub struct Opn2WriteBuf {
    pub time: u64,
    pub port: u8,
    pub data: u8,
}

/// Fraction bits of the resampler's position.
pub const RSM_FRAC: i32 = 10;

/// Size of the write buffer.
pub const OPN_WRITEBUF_SIZE: usize = 2048;

/// Internal clocks between two buffered writes.
pub const OPN_WRITEBUF_DELAY: u32 = 15;

/// The log-sine table: -log2(sin) of a quarter wave, in 1/256 units.
pub const LOGSINROM: [u16; 256] = [
    0x859, 0x6c3, 0x607, 0x58b, 0x52e, 0x4e4, 0x4a6, 0x471, 0x443, 0x41a, 0x3f5, 0x3d3,
    0x3b5, 0x398, 0x37e, 0x365, 0x34e, 0x339, 0x324, 0x311, 0x2ff, 0x2ed, 0x2dc, 0x2cd,
    0x2bd, 0x2af, 0x2a0, 0x293, 0x286, 0x279, 0x26d, 0x261, 0x256, 0x24b, 0x240, 0x236,
    0x22c, 0x222, 0x218, 0x20f, 0x206, 0x1fd, 0x1f5, 0x1ec, 0x1e4, 0x1dc, 0x1d4, 0x1cd,
    0x1c5, 0x1be, 0x1b7, 0x1b0, 0x1a9, 0x1a2, 0x19b, 0x195, 0x18f, 0x188, 0x182, 0x17c,
    0x177, 0x171, 0x16b, 0x166, 0x160, 0x15b, 0x155, 0x150, 0x14b, 0x146, 0x141, 0x13c,
    0x137, 0x133, 0x12e, 0x129, 0x125, 0x121, 0x11c, 0x118, 0x114, 0x10f, 0x10b, 0x107,
    0x103, 0x0ff, 0x0fb, 0x0f8, 0x0f4, 0x0f0, 0x0ec, 0x0e9, 0x0e5, 0x0e2, 0x0de, 0x0db,
    0x0d7, 0x0d4, 0x0d1, 0x0cd, 0x0ca, 0x0c7, 0x0c4, 0x0c1, 0x0be, 0x0bb, 0x0b8, 0x0b5,
    0x0b2, 0x0af, 0x0ac, 0x0a9, 0x0a7, 0x0a4, 0x0a1, 0x09f, 0x09c, 0x099, 0x097, 0x094,
    0x092, 0x08f, 0x08d, 0x08a, 0x088, 0x086, 0x083, 0x081, 0x07f, 0x07d, 0x07a, 0x078,
    0x076, 0x074, 0x072, 0x070, 0x06e, 0x06c, 0x06a, 0x068, 0x066, 0x064, 0x062, 0x060,
    0x05e, 0x05c, 0x05b, 0x059, 0x057, 0x055, 0x053, 0x052, 0x050, 0x04e, 0x04d, 0x04b,
    0x04a, 0x048, 0x046, 0x045, 0x043, 0x042, 0x040, 0x03f, 0x03e, 0x03c, 0x03b, 0x039,
    0x038, 0x037, 0x035, 0x034, 0x033, 0x031, 0x030, 0x02f, 0x02e, 0x02d, 0x02b, 0x02a,
    0x029, 0x028, 0x027, 0x026, 0x025, 0x024, 0x023, 0x022, 0x021, 0x020, 0x01f, 0x01e,
    0x01d, 0x01c, 0x01b, 0x01a, 0x019, 0x018, 0x017, 0x017, 0x016, 0x015, 0x014, 0x014,
    0x013, 0x012, 0x011, 0x011, 0x010, 0x00f, 0x00f, 0x00e, 0x00d, 0x00d, 0x00c, 0x00c,
    0x00b, 0x00a, 0x00a, 0x009, 0x009, 0x008, 0x008, 0x007, 0x007, 0x007, 0x006, 0x006,
    0x005, 0x005, 0x005, 0x004, 0x004, 0x004, 0x003, 0x003, 0x003, 0x002, 0x002, 0x002,
    0x002, 0x001, 0x001, 0x001, 0x001, 0x001, 0x001, 0x001, 0x000, 0x000, 0x000, 0x000,
    0x000, 0x000, 0x000, 0x000,
];

/// The exponent table: 2^(-x) as a 10-bit mantissa.
pub const EXPROM: [u16; 256] = [
    0x000, 0x003, 0x006, 0x008, 0x00b, 0x00e, 0x011, 0x014, 0x016, 0x019, 0x01c, 0x01f,
    0x022, 0x025, 0x028, 0x02a, 0x02d, 0x030, 0x033, 0x036, 0x039, 0x03c, 0x03f, 0x042,
    0x045, 0x048, 0x04b, 0x04e, 0x051, 0x054, 0x057, 0x05a, 0x05d, 0x060, 0x063, 0x066,
    0x069, 0x06c, 0x06f, 0x072, 0x075, 0x078, 0x07b, 0x07e, 0x082, 0x085, 0x088, 0x08b,
    0x08e, 0x091, 0x094, 0x098, 0x09b, 0x09e, 0x0a1, 0x0a4, 0x0a8, 0x0ab, 0x0ae, 0x0b1,
    0x0b5, 0x0b8, 0x0bb, 0x0be, 0x0c2, 0x0c5, 0x0c8, 0x0cc, 0x0cf, 0x0d2, 0x0d6, 0x0d9,
    0x0dc, 0x0e0, 0x0e3, 0x0e7, 0x0ea, 0x0ed, 0x0f1, 0x0f4, 0x0f8, 0x0fb, 0x0ff, 0x102,
    0x106, 0x109, 0x10c, 0x110, 0x114, 0x117, 0x11b, 0x11e, 0x122, 0x125, 0x129, 0x12c,
    0x130, 0x134, 0x137, 0x13b, 0x13e, 0x142, 0x146, 0x149, 0x14d, 0x151, 0x154, 0x158,
    0x15c, 0x160, 0x163, 0x167, 0x16b, 0x16f, 0x172, 0x176, 0x17a, 0x17e, 0x181, 0x185,
    0x189, 0x18d, 0x191, 0x195, 0x199, 0x19c, 0x1a0, 0x1a4, 0x1a8, 0x1ac, 0x1b0, 0x1b4,
    0x1b8, 0x1bc, 0x1c0, 0x1c4, 0x1c8, 0x1cc, 0x1d0, 0x1d4, 0x1d8, 0x1dc, 0x1e0, 0x1e4,
    0x1e8, 0x1ec, 0x1f0, 0x1f5, 0x1f9, 0x1fd, 0x201, 0x205, 0x209, 0x20e, 0x212, 0x216,
    0x21a, 0x21e, 0x223, 0x227, 0x22b, 0x230, 0x234, 0x238, 0x23c, 0x241, 0x245, 0x249,
    0x24e, 0x252, 0x257, 0x25b, 0x25f, 0x264, 0x268, 0x26d, 0x271, 0x276, 0x27a, 0x27f,
    0x283, 0x288, 0x28c, 0x291, 0x295, 0x29a, 0x29e, 0x2a3, 0x2a8, 0x2ac, 0x2b1, 0x2b5,
    0x2ba, 0x2bf, 0x2c4, 0x2c8, 0x2cd, 0x2d2, 0x2d6, 0x2db, 0x2e0, 0x2e5, 0x2e9, 0x2ee,
    0x2f3, 0x2f8, 0x2fd, 0x302, 0x306, 0x30b, 0x310, 0x315, 0x31a, 0x31f, 0x324, 0x329,
    0x32e, 0x333, 0x338, 0x33d, 0x342, 0x347, 0x34c, 0x351, 0x356, 0x35b, 0x360, 0x365,
    0x36a, 0x370, 0x375, 0x37a, 0x37f, 0x384, 0x38a, 0x38f, 0x394, 0x399, 0x39f, 0x3a4,
    0x3a9, 0x3ae, 0x3b4, 0x3b9, 0x3bf, 0x3c4, 0x3c9, 0x3cf, 0x3d4, 0x3da, 0x3df, 0x3e4,
    0x3ea, 0x3ef, 0x3f5, 0x3fa,
];

/// The note of an F-number's top bits, for the key code.
pub const FN_NOTE: [u32; 16] = [
    0, 0, 0, 0, 0, 0, 0, 1, 2, 3, 3, 3, 3, 3, 3, 3,
];

/// The envelope step pattern of the fastest rates, four patterns of four
/// steps.
pub const EG_STEPHI: [u32; 16] = [
    0, 0, 0, 0, 1, 0, 0, 0, 1, 0, 1, 0, 1, 1, 1, 0,
];

/// The amplitude-modulation depth shift of each AMS setting.
pub const EG_AM_SHIFT: [u8; 4] = [
    7, 3, 1, 0,
];

/// The detune base values.
pub const PG_DETUNE: [u32; 8] = [
    16, 17, 19, 20, 22, 24, 27, 29,
];

/// The first shift of the vibrato (eight PMS settings by eight LFO steps).
pub const PG_LFO_SH1: [u32; 64] = [
    7, 7, 7, 7, 7, 7, 7, 7, 7, 7, 7, 7, 7, 7, 7, 7,
    7, 7, 7, 7, 7, 7, 1, 1, 7, 7, 7, 7, 1, 1, 1, 1,
    7, 7, 7, 1, 1, 1, 1, 0, 7, 7, 1, 1, 0, 0, 0, 0,
    7, 7, 1, 1, 0, 0, 0, 0, 7, 7, 1, 1, 0, 0, 0, 0,
];

/// The second shift of the vibrato (eight PMS settings by eight LFO steps).
pub const PG_LFO_SH2: [u32; 64] = [
    7, 7, 7, 7, 7, 7, 7, 7, 7, 7, 7, 7, 2, 2, 2, 2,
    7, 7, 7, 2, 2, 2, 7, 7, 7, 7, 2, 2, 7, 7, 2, 2,
    7, 7, 2, 7, 7, 7, 2, 7, 7, 7, 7, 2, 7, 7, 2, 1,
    7, 7, 7, 2, 7, 7, 2, 1, 7, 7, 7, 2, 7, 7, 2, 1,
];

/// The register offset of each operator slot pair.
pub const OP_OFFSET: [u32; 12] = [
    0x000, 0x001, 0x002, 0x100, 0x101, 0x102, 0x004, 0x005, 0x006, 0x104, 0x105, 0x106,
];

/// The register offset of each channel.
pub const CH_OFFSET: [u32; 6] = [
    0x000, 0x001, 0x002, 0x100, 0x101, 0x102,
];

/// The LFO period, in sample cycles, of each LFO frequency.
pub const LFO_CYCLES: [u32; 8] = [
    108, 77, 71, 67, 62, 44, 8, 5,
];

/// The connections of the eight algorithms: for each operator (4) and
/// each role (6: OP1 modulation, old OP1, OP2, previous operator twice,
/// output), one flag per algorithm.
pub const FM_ALGORITHM: [u32; 192] = [
    1, 1, 1, 1, 1, 1, 1, 1, 1, 1, 1, 1, 1, 1, 1, 1,
    0, 0, 0, 0, 0, 0, 0, 0, 0, 0, 0, 0, 0, 0, 0, 0,
    0, 0, 0, 0, 0, 0, 0, 0, 0, 0, 0, 0, 0, 0, 0, 1,
    0, 1, 0, 0, 0, 1, 0, 0, 0, 0, 0, 0, 0, 0, 0, 0,
    1, 1, 1, 0, 0, 0, 0, 0, 0, 0, 0, 0, 0, 0, 0, 0,
    0, 0, 0, 0, 0, 0, 0, 0, 0, 0, 0, 0, 0, 1, 1, 1,
    0, 0, 0, 0, 0, 0, 0, 0, 0, 0, 0, 0, 0, 0, 0, 0,
    0, 0, 0, 0, 0, 0, 0, 0, 1, 0, 0, 1, 1, 1, 1, 0,
    0, 0, 0, 0, 0, 0, 0, 0, 0, 0, 0, 0, 1, 1, 1, 1,
    0, 0, 1, 0, 0, 1, 0, 0, 0, 0, 0, 0, 0, 0, 0, 0,
    0, 0, 0, 1, 0, 0, 0, 0, 1, 1, 0, 1, 1, 0, 0, 0,
    0, 0, 1, 0, 0, 0, 0, 0, 1, 1, 1, 1, 1, 1, 1, 1,
];

/// The state of a YM3438 core.
pub struct YM3438View {
    pub chip_type: YM3438Mode,
    pub cycles: usize,
    pub channel: usize,
    pub mol: i16,
    pub mor: i16,
    pub write_data: u16,
    pub write_a: u8,
    pub write_d: u8,
    pub write_a_en: u8,
    pub write_d_en: u8,
    pub write_busy: u8,
    pub write_busy_cnt: u8,
    pub write_fm_address: u8,
    pub write_fm_data: u8,
    pub write_fm_mode_a: u8,
    pub address: u16,
    pub data: u8,
    pub pin_test_in: u8,
    pub pin_irq: u8,
    pub busy: u8,
    pub lfo_en: u8,
    pub lfo_freq: u8,
    pub lfo_pm: u8,
    pub lfo_am: u8,
    pub lfo_cnt: u8,
    pub lfo_inc: u8,
    pub lfo_quotient: u8,
    pub pg_fnum: u16,
    pub pg_block: u8,
    pub pg_kcode: u8,
    pub pg_inc: Seq<u32>,
    pub pg_phase: Seq<u32>,
    pub pg_reset: Seq<u8>,
    pub pg_read: u32,
    pub eg_cycle: u8,
    pub eg_cycle_stop: u8,
    pub eg_shift: u8,
    pub eg_shift_lock: u8,
    pub eg_timer_low_lock: u8,
    pub eg_timer: u16,
    pub eg_timer_inc: u8,
    pub eg_quotient: u16,
    pub eg_custom_timer: u8,
    pub eg_rate: u8,
    pub eg_ksv: u8,
    pub eg_inc: u8,
    pub eg_ratemax: u8,
    pub eg_sl: Seq<u8>,
    pub eg_lfo_am: u8,
    pub eg_tl: Seq<u8>,
    pub eg_state: Seq<EgNum>,
    pub eg_level: Seq<u16>,
    pub eg_out: Seq<u16>,
    pub eg_kon: Seq<u8>,
    pub eg_kon_csm: Seq<u8>,
    pub eg_kon_latch: Seq<u8>,
    pub eg_csm_mode: Seq<u8>,
    pub eg_ssg_enable: Seq<u8>,
    pub eg_ssg_pgrst_latch: Seq<u8>,
    pub eg_ssg_repeat_latch: Seq<u8>,
    pub eg_ssg_hold_up_latch: Seq<u8>,
    pub eg_ssg_dir: Seq<u8>,
    pub eg_ssg_inv: Seq<u8>,
    pub eg_read: Seq<u32>,
    pub eg_read_inc: u8,
    pub fm_op1: Seq<i16>,
    pub fm_op2: Seq<i16>,
    pub fm_out: Seq<i16>,
    pub fm_mod: Seq<u16>,
    pub ch_acc: Seq<i16>,
    pub ch_out: Seq<i16>,
    pub ch_lock: i16,
    pub ch_lock_l: u8,
    pub ch_lock_r: u8,
    pub ch_read: i16,
    pub timer_a_cnt: u16,
    pub timer_a_reg: u16,
    pub timer_a_load_lock: u8,
    pub timer_a_load: u8,
    pub timer_a_enable: u8,
    pub timer_a_reset: u8,
    pub timer_a_load_latch: u8,
    pub timer_a_overflow_flag: u8,
    pub timer_a_overflow: u8,
    pub timer_b_cnt: u16,
    pub timer_b_subcnt: u8,
    pub timer_b_reg: u16,
    pub timer_b_load_lock: u8,
    pub timer_b_load: u8,
    pub timer_b_enable: u8,
    pub timer_b_reset: u8,
    pub timer_b_load_latch: u8,
    pub timer_b_overflow_flag: u8,
    pub timer_b_overflow: u8,
    pub mode_test_21: Seq<u8>,
    pub mode_test_2c: Seq<u8>,
    pub mode_ch3: u8,
    pub mode_kon_channel: u8,
    pub mode_kon_operator: Seq<u8>,
    pub mode_kon: Seq<u8>,
    pub mode_csm: u8,
    pub mode_kon_csm: u8,
    pub dacen: u8,
    pub dacdata: i16,
    pub ks: Seq<u8>,
    pub ar: Seq<u8>,
    pub sr: Seq<u8>,
    pub dt: Seq<u8>,
    pub multi: Seq<u8>,
    pub sl: Seq<u8>,
    pub rr: Seq<u8>,
    pub dr: Seq<u8>,
    pub am: Seq<u8>,
    pub tl: Seq<u8>,
    pub ssg_eg: Seq<u8>,
    pub fnum: Seq<u16>,
    pub block: Seq<u8>,
    pub kcode: Seq<u8>,
    pub fnum_3ch: Seq<u16>,
    pub block_3ch: Seq<u8>,
    pub kcode_3ch: Seq<u8>,
    pub reg_a4: u8,
    pub reg_ac: u8,
    pub connect: Seq<u8>,
    pub fb: Seq<u8>,
    pub pan_l: Seq<u8>,
    pub pan_r: Seq<u8>,
    pub ams: Seq<u8>,
    pub pms: Seq<u8>,
    pub status: u8,
    pub status_time: u32,
    pub mute: Seq<u32>,
    pub rateratio: i32,
    pub samplecnt: i32,
    pub oldsamples: Seq<i32>,
    pub samples: Seq<i32>,
    pub writebuf_samplecnt: u64,
    pub writebuf_cur: usize,
    pub writebuf_last: usize,
    pub writebuf_lasttime: usize,
    pub writebuf: Seq<Opn2WriteBuf>,
    pub sample_rate: u32,
    pub clock: u32,
}

/// Nuked OPN2: a cycle-exact model of the Yamaha YM3438 / YM2612 FM
/// synthesiser, clocked once per internal slot cycle.
pub struct YM3438 {
    chip_type: YM3438Mode,
    cycles: usize,
    channel: usize,
    mol: i16,
    mor: i16,
    write_data: u16,
    write_a: u8,
    write_d: u8,
    write_a_en: u8,
    write_d_en: u8,
    write_busy: u8,
    write_busy_cnt: u8,
    write_fm_address: u8,
    write_fm_data: u8,
    write_fm_mode_a: u8,
    address: u16,
    data: u8,
    pin_test_in: u8,
    pin_irq: u8,
    busy: u8,
    lfo_en: u8,
    lfo_freq: u8,
    lfo_pm: u8,
    lfo_am: u8,
    lfo_cnt: u8,
    lfo_inc: u8,
    lfo_quotient: u8,
    pg_fnum: u16,
    pg_block: u8,
    pg_kcode: u8,
    pg_inc: Vec<u32>,
    pg_phase: Vec<u32>,
    pg_reset: Vec<u8>,
    pg_read: u32,
    eg_cycle: u8,
    eg_cycle_stop: u8,
    eg_shift: u8,
    eg_shift_lock: u8,
    eg_timer_low_lock: u8,
    eg_timer: u16,
    eg_timer_inc: u8,
    eg_quotient: u16,
    eg_custom_timer: u8,
    eg_rate: u8,
    eg_ksv: u8,
    eg_inc: u8,
    eg_ratemax: u8,
    eg_sl: Vec<u8>,
    eg_lfo_am: u8,
    eg_tl: Vec<u8>,
    eg_state: Vec<EgNum>,
    eg_level: Vec<u16>,
    eg_out: Vec<u16>,
    eg_kon: Vec<u8>,
    eg_kon_csm: Vec<u8>,
    eg_kon_latch: Vec<u8>,
    eg_csm_mode: Vec<u8>,
    eg_ssg_enable: Vec<u8>,
    eg_ssg_pgrst_latch: Vec<u8>,
    eg_ssg_repeat_latch: Vec<u8>,
    eg_ssg_hold_up_latch: Vec<u8>,
    eg_ssg_dir: Vec<u8>,
    eg_ssg_inv: Vec<u8>,
    eg_read: Vec<u32>,
    eg_read_inc: u8,
    fm_op1: Vec<i16>,
    fm_op2: Vec<i16>,
    fm_out: Vec<i16>,
    fm_mod: Vec<u16>,
    ch_acc: Vec<i16>,
    ch_out: Vec<i16>,
    ch_lock: i16,
    ch_lock_l: u8,
    ch_lock_r: u8,
    ch_read: i16,
    timer_a_cnt: u16,
    timer_a_reg: u16,
    timer_a_load_lock: u8,
    timer_a_load: u8,
    timer_a_enable: u8,
    timer_a_reset: u8,
    timer_a_load_latch: u8,
    timer_a_overflow_flag: u8,
    timer_a_overflow: u8,
    timer_b_cnt: u16,
    timer_b_subcnt: u8,
    timer_b_reg: u16,
    timer_b_load_lock: u8,
    timer_b_load: u8,
    timer_b_enable: u8,
    timer_b_reset: u8,
    timer_b_load_latch: u8,
    timer_b_overflow_flag: u8,
    timer_b_overflow: u8,
    mode_test_21: Vec<u8>,
    mode_test_2c: Vec<u8>,
    mode_ch3: u8,
    mode_kon_channel: u8,
    mode_kon_operator: Vec<u8>,
    mode_kon: Vec<u8>,
    mode_csm: u8,
    mode_kon_csm: u8,
    dacen: u8,
    dacdata: i16,
    ks: Vec<u8>,
    ar: Vec<u8>,
    sr: Vec<u8>,
    dt: Vec<u8>,
    multi: Vec<u8>,
    sl: Vec<u8>,
    rr: Vec<u8>,
    dr: Vec<u8>,
    am: Vec<u8>,
    tl: Vec<u8>,
    ssg_eg: Vec<u8>,
    fnum: Vec<u16>,
    block: Vec<u8>,
    kcode: Vec<u8>,
    fnum_3ch: Vec<u16>,
    block_3ch: Vec<u8>,
    kcode_3ch: Vec<u8>,
    reg_a4: u8,
    reg_ac: u8,
    connect: Vec<u8>,
    fb: Vec<u8>,
    pan_l: Vec<u8>,
    pan_r: Vec<u8>,
    ams: Vec<u8>,
    pms: Vec<u8>,
    status: u8,
    status_time: u32,
    mute: Vec<u32>,
    rateratio: i32,
    samplecnt: i32,
    oldsamples: Vec<i32>,
    samples: Vec<i32>,
    writebuf_samplecnt: u64,
    writebuf_cur: usize,
    writebuf_last: usize,
    writebuf_lasttime: usize,
    writebuf: Vec<Opn2WriteBuf>,
    sample_rate: u32,
    clock: u32,
}

impl View for YM3438 {
    type V = YM3438View;

    closed spec fn view(&self) -> YM3438View {
        YM3438View {
            chip_type: self.chip_type,
            cycles: self.cycles,
            channel: self.channel,
            mol: self.mol,
            mor: self.mor,
            write_data: self.write_data,
            write_a: self.write_a,
            write_d: self.write_d,
            write_a_en: self.write_a_en,
            write_d_en: self.write_d_en,
            write_busy: self.write_busy,
            write_busy_cnt: self.write_busy_cnt,
            write_fm_address: self.write_fm_address,
            write_fm_data: self.write_fm_data,
            write_fm_mode_a: self.write_fm_mode_a,
            address: self.address,
            data: self.data,
            pin_test_in: self.pin_test_in,
            pin_irq: self.pin_irq,
            busy: self.busy,
            lfo_en: self.lfo_en,
            lfo_freq: self.lfo_freq,
            lfo_pm: self.lfo_pm,
            lfo_am: self.lfo_am,
            lfo_cnt: self.lfo_cnt,
            lfo_inc: self.lfo_inc,
            lfo_quotient: self.lfo_quotient,
            pg_fnum: self.pg_fnum,
            pg_block: self.pg_block,
            pg_kcode: self.pg_kcode,
            pg_inc: self.pg_inc@,
            pg_phase: self.pg_phase@,
            pg_reset: self.pg_reset@,
            pg_read: self.pg_read,
            eg_cycle: self.eg_cycle,
            eg_cycle_stop: self.eg_cycle_stop,
            eg_shift: self.eg_shift,
            eg_shift_lock: self.eg_shift_lock,
            eg_timer_low_lock: self.eg_timer_low_lock,
            eg_timer: self.eg_timer,
            eg_timer_inc: self.eg_timer_inc,
            eg_quotient: self.eg_quotient,
            eg_custom_timer: self.eg_custom_timer,
            eg_rate: self.eg_rate,
            eg_ksv: self.eg_ksv,
            eg_inc: self.eg_inc,
            eg_ratemax: self.eg_ratemax,
            eg_sl: self.eg_sl@,
            eg_lfo_am: self.eg_lfo_am,
            eg_tl: self.eg_tl@,
            eg_state: self.eg_state@,
            eg_level: self.eg_level@,
            eg_out: self.eg_out@,
            eg_kon: self.eg_kon@,
            eg_kon_csm: self.eg_kon_csm@,
            eg_kon_latch: self.eg_kon_latch@,
            eg_csm_mode: self.eg_csm_mode@,
            eg_ssg_enable: self.eg_ssg_enable@,
            eg_ssg_pgrst_latch: self.eg_ssg_pgrst_latch@,
            eg_ssg_repeat_latch: self.eg_ssg_repeat_latch@,
            eg_ssg_hold_up_latch: self.eg_ssg_hold_up_latch@,
            eg_ssg_dir: self.eg_ssg_dir@,
            eg_ssg_inv: self.eg_ssg_inv@,
            eg_read: self.eg_read@,
            eg_read_inc: self.eg_read_inc,
            fm_op1: self.fm_op1@,
            fm_op2: self.fm_op2@,
            fm_out: self.fm_out@,
            fm_mod: self.fm_mod@,
            ch_acc: self.ch_acc@,
            ch_out: self.ch_out@,
            ch_lock: self.ch_lock,
            ch_lock_l: self.ch_lock_l,
            ch_lock_r: self.ch_lock_r,
            ch_read: self.ch_read,
            timer_a_cnt: self.timer_a_cnt,
            timer_a_reg: self.timer_a_reg,
            timer_a_load_lock: self.timer_a_load_lock,
            timer_a_load: self.timer_a_load,
            timer_a_enable: self.timer_a_enable,
            timer_a_reset: self.timer_a_reset,
            timer_a_load_latch: self.timer_a_load_latch,
            timer_a_overflow_flag: self.timer_a_overflow_flag,
            timer_a_overflow: self.timer_a_overflow,
            timer_b_cnt: self.timer_b_cnt,
            timer_b_subcnt: self.timer_b_subcnt,
            timer_b_reg: self.timer_b_reg,
            timer_b_load_lock: self.timer_b_load_lock,
            timer_b_load: self.timer_b_load,
            timer_b_enable: self.timer_b_enable,
            timer_b_reset: self.timer_b_reset,
            timer_b_load_latch: self.timer_b_load_latch,
            timer_b_overflow_flag: self.timer_b_overflow_flag,
            timer_b_overflow: self.timer_b_overflow,
            mode_test_21: self.mode_test_21@,
            mode_test_2c: self.mode_test_2c@,
            mode_ch3: self.mode_ch3,
            mode_kon_channel: self.mode_kon_channel,
            mode_kon_operator: self.mode_kon_operator@,
            mode_kon: self.mode_kon@,
            mode_csm: self.mode_csm,
            mode_kon_csm: self.mode_kon_csm,
            dacen: self.dacen,
            dacdata: self.dacdata,
            ks: self.ks@,
            ar: self.ar@,
            sr: self.sr@,
            dt: self.dt@,
            multi: self.multi@,
            sl: self.sl@,
            rr: self.rr@,
            dr: self.dr@,
            am: self.am@,
            tl: self.tl@,
            ssg_eg: self.ssg_eg@,
            fnum: self.fnum@,
            block: self.block@,
            kcode: self.kcode@,
            fnum_3ch: self.fnum_3ch@,
            block_3ch: self.block_3ch@,
            kcode_3ch: self.kcode_3ch@,
            reg_a4: self.reg_a4,
            reg_ac: self.reg_ac,
            connect: self.connect@,
            fb: self.fb@,
            pan_l: self.pan_l@,
            pan_r: self.pan_r@,
            ams: self.ams@,
            pms: self.pms@,
            status: self.status,
            status_time: self.status_time,
            mute: self.mute@,
            rateratio: self.rateratio,
            samplecnt: self.samplecnt,
            oldsamples: self.oldsamples@,
            samples: self.samples@,
            writebuf_samplecnt: self.writebuf_samplecnt,
            writebuf_cur: self.writebuf_cur,
            writebuf_last: self.writebuf_last,
            writebuf_lasttime: self.writebuf_lasttime,
            writebuf: self.writebuf@,
            sample_rate: self.sample_rate,
            clock: self.clock,
        }
    }
}

/// The sizes of the core's tables.
pub open spec fn ym3438_sizes(s: YM3438View) -> bool {
    &&& s.pg_inc.len() == 24
    &&& s.pg_phase.len() == 24
    &&& s.pg_reset.len() == 24
    &&& s.eg_sl.len() == 2
    &&& s.eg_tl.len() == 2
    &&& s.eg_state.len() == 24
    &&& s.eg_level.len() == 24
    &&& s.eg_out.len() == 24
    &&& s.eg_kon.len() == 24
    &&& s.eg_kon_csm.len() == 24
    &&& s.eg_kon_latch.len() == 24
    &&& s.eg_csm_mode.len() == 24
    &&& s.eg_ssg_enable.len() == 24
    &&& s.eg_ssg_pgrst_latch.len() == 24
    &&& s.eg_ssg_repeat_latch.len() == 24
    &&& s.eg_ssg_hold_up_latch.len() == 24
    &&& s.eg_ssg_dir.len() == 24
    &&& s.eg_ssg_inv.len() == 24
    &&& s.eg_read.len() == 2
    &&& s.fm_op1.len() == 12
    &&& s.fm_op2.len() == 6
    &&& s.fm_out.len() == 24
    &&& s.fm_mod.len() == 24
    &&& s.ch_acc.len() == 6
    &&& s.ch_out.len() == 6
    &&& s.mode_test_21.len() == 8
    &&& s.mode_test_2c.len() == 8
    &&& s.mode_kon_operator.len() == 4
    &&& s.mode_kon.len() == 24
    &&& s.ks.len() == 24
    &&& s.ar.len() == 24
    &&& s.sr.len() == 24
    &&& s.dt.len() == 24
    &&& s.multi.len() == 24
    &&& s.sl.len() == 24
    &&& s.rr.len() == 24
    &&& s.dr.len() == 24
    &&& s.am.len() == 24
    &&& s.tl.len() == 24
    &&& s.ssg_eg.len() == 24
    &&& s.fnum.len() == 6
    &&& s.block.len() == 6
    &&& s.kcode.len() == 6
    &&& s.fnum_3ch.len() == 6
    &&& s.block_3ch.len() == 6
    &&& s.kcode_3ch.len() == 6
    &&& s.connect.len() == 6
    &&& s.fb.len() == 6
    &&& s.pan_l.len() == 6
    &&& s.pan_r.len() == 6
    &&& s.ams.len() == 6
    &&& s.pms.len() == 6
    &&& s.mute.len() == 7
    &&& s.oldsamples.len() == 2
    &&& s.samples.len() == 2
    &&& s.writebuf.len() == 2048
}

fn filled<T: Copy>(n: usize, v: T) -> (r: Vec<T>)
    ensures
        r@ == Seq::new(n as nat, |i: int| v),
{
    let mut r: Vec<T> = Vec::new();
    let mut i: usize = 0;
    while i < n
        invariant
            i <= n,
            r@ == Seq::new(i as nat, |k: int| v),
        decreases n - i,
    {
        r.push(v);
        i = i + 1;
        assert(r@ =~= Seq::new(i as nat, |k: int| v));
    }
    r
}

/// The power-on state: every register, counter and table at zero, the
/// envelopes in attack, YM2612 mode.
pub open spec fn spec_ym3438_power_on() -> YM3438View {
    YM3438View {
            chip_type: YM3438Mode::YM2612,
            cycles: 0,
            channel: 0,
            mol: 0,
            mor: 0,
            write_data: 0,
            write_a: 0,
            write_d: 0,
            write_a_en: 0,
            write_d_en: 0,
            write_busy: 0,
            write_busy_cnt: 0,
            write_fm_address: 0,
            write_fm_data: 0,
            write_fm_mode_a: 0,
            address: 0,
            data: 0,
            pin_test_in: 0,
            pin_irq: 0,
            busy: 0,
            lfo_en: 0,
            lfo_freq: 0,
            lfo_pm: 0,
            lfo_am: 0,
            lfo_cnt: 0,
            lfo_inc: 0,
            lfo_quotient: 0,
            pg_fnum: 0,
            pg_block: 0,
            pg_kcode: 0,
            pg_inc: Seq::new(24, |i: int| 0u32),
            pg_phase: Seq::new(24, |i: int| 0u32),
            pg_reset: Seq::new(24, |i: int| 0u8),
            pg_read: 0,
            eg_cycle: 0,
            eg_cycle_stop: 0,
            eg_shift: 0,
            eg_shift_lock: 0,
            eg_timer_low_lock: 0,
            eg_timer: 0,
            eg_timer_inc: 0,
            eg_quotient: 0,
            eg_custom_timer: 0,
            eg_rate: 0,
            eg_ksv: 0,
            eg_inc: 0,
            eg_ratemax: 0,
            eg_sl: Seq::new(2, |i: int| 0u8),
            eg_lfo_am: 0,
            eg_tl: Seq::new(2, |i: int| 0u8),
            eg_state: Seq::new(24, |i: int| EgNum::Attack),
            eg_level: Seq::new(24, |i: int| 0u16),
            eg_out: Seq::new(24, |i: int| 0u16),
            eg_kon: Seq::new(24, |i: int| 0u8),
            eg_kon_csm: Seq::new(24, |i: int| 0u8),
            eg_kon_latch: Seq::new(24, |i: int| 0u8),
            eg_csm_mode: Seq::new(24, |i: int| 0u8),
            eg_ssg_enable: Seq::new(24, |i: int| 0u8),
            eg_ssg_pgrst_latch: Seq::new(24, |i: int| 0u8),
            eg_ssg_repeat_latch: Seq::new(24, |i: int| 0u8),
            eg_ssg_hold_up_latch: Seq::new(24, |i: int| 0u8),
            eg_ssg_dir: Seq::new(24, |i: int| 0u8),
            eg_ssg_inv: Seq::new(24, |i: int| 0u8),
            eg_read: Seq::new(2, |i: int| 0u32),
            eg_read_inc: 0,
            fm_op1: Seq::new(12, |i: int| 0i16),
            fm_op2: Seq::new(6, |i: int| 0i16),
            fm_out: Seq::new(24, |i: int| 0i16),
            fm_mod: Seq::new(24, |i: int| 0u16),
            ch_acc: Seq::new(6, |i: int| 0i16),
            ch_out: Seq::new(6, |i: int| 0i16),
            ch_lock: 0,
            ch_lock_l: 0,
            ch_lock_r: 0,
            ch_read: 0,
            timer_a_cnt: 0,
            timer_a_reg: 0,
            timer_a_load_lock: 0,
            timer_a_load: 0,
            timer_a_enable: 0,
            timer_a_reset: 0,
            timer_a_load_latch: 0,
            timer_a_overflow_flag: 0,
            timer_a_overflow: 0,
            timer_b_cnt: 0,
            timer_b_subcnt: 0,
            timer_b_reg: 0,
            timer_b_load_lock: 0,
            timer_b_load: 0,
            timer_b_enable: 0,
            timer_b_reset: 0,
            timer_b_load_latch: 0,
            timer_b_overflow_flag: 0,
            timer_b_overflow: 0,
            mode_test_21: Seq::new(8, |i: int| 0u8),
            mode_test_2c: Seq::new(8, |i: int| 0u8),
            mode_ch3: 0,
            mode_kon_channel: 0,
            mode_kon_operator: Seq::new(4, |i: int| 0u8),
            mode_kon: Seq::new(24, |i: int| 0u8),
            mode_csm: 0,
            mode_kon_csm: 0,
            dacen: 0,
            dacdata: 0,
            ks: Seq::new(24, |i: int| 0u8),
            ar: Seq::new(24, |i: int| 0u8),
            sr: Seq::new(24, |i: int| 0u8),
            dt: Seq::new(24, |i: int| 0u8),
            multi: Seq::new(24, |i: int| 0u8),
            sl: Seq::new(24, |i: int| 0u8),
            rr: Seq::new(24, |i: int| 0u8),
            dr: Seq::new(24, |i: int| 0u8),
            am: Seq::new(24, |i: int| 0u8),
            tl: Seq::new(24, |i: int| 0u8),
            ssg_eg: Seq::new(24, |i: int| 0u8),
            fnum: Seq::new(6, |i: int| 0u16),
            block: Seq::new(6, |i: int| 0u8),
            kcode: Seq::new(6, |i: int| 0u8),
            fnum_3ch: Seq::new(6, |i: int| 0u16),
            block_3ch: Seq::new(6, |i: int| 0u8),
            kcode_3ch: Seq::new(6, |i: int| 0u8),
            reg_a4: 0,
            reg_ac: 0,
            connect: Seq::new(6, |i: int| 0u8),
            fb: Seq::new(6, |i: int| 0u8),
            pan_l: Seq::new(6, |i: int| 0u8),
            pan_r: Seq::new(6, |i: int| 0u8),
            ams: Seq::new(6, |i: int| 0u8),
            pms: Seq::new(6, |i: int| 0u8),
            status: 0,
            status_time: 0,
            mute: Seq::new(7, |i: int| 0u32),
            rateratio: 0,
            samplecnt: 0,
            oldsamples: Seq::new(2, |i: int| 0i32),
            samples: Seq::new(2, |i: int| 0i32),
            writebuf_samplecnt: 0,
            writebuf_cur: 0,
            writebuf_last: 0,
            writebuf_lasttime: 0,
            writebuf: Seq::new(2048, |i: int| Opn2WriteBuf { time: 0, port: 0, data: 0 }),
            sample_rate: 0,
            clock: 0,
    }
}

impl YM3438 {
    /// A core with every register and counter cleared, emulating the YM2612.
    pub fn default() -> (r: Self)
        ensures
            r.wf(),
            r@ == spec_ym3438_power_on(),
    {
        YM3438 {
            chip_type: YM3438Mode::YM2612,
            cycles: 0,
            channel: 0,
            mol: 0,
            mor: 0,
            write_data: 0,
            write_a: 0,
            write_d: 0,
            write_a_en: 0,
            write_d_en: 0,
            write_busy: 0,
            write_busy_cnt: 0,
            write_fm_address: 0,
            write_fm_data: 0,
            write_fm_mode_a: 0,
            address: 0,
            data: 0,
            pin_test_in: 0,
            pin_irq: 0,
            busy: 0,
            lfo_en: 0,
            lfo_freq: 0,
            lfo_pm: 0,
            lfo_am: 0,
            lfo_cnt: 0,
            lfo_inc: 0,
            lfo_quotient: 0,
            pg_fnum: 0,
            pg_block: 0,
            pg_kcode: 0,
            pg_inc: filled(24, 0),
            pg_phase: filled(24, 0),
            pg_reset: filled(24, 0),
            pg_read: 0,
            eg_cycle: 0,
            eg_cycle_stop: 0,
            eg_shift: 0,
            eg_shift_lock: 0,
            eg_timer_low_lock: 0,
            eg_timer: 0,
            eg_timer_inc: 0,
            eg_quotient: 0,
            eg_custom_timer: 0,
            eg_rate: 0,
            eg_ksv: 0,
            eg_inc: 0,
            eg_ratemax: 0,
            eg_sl: filled(2, 0),
            eg_lfo_am: 0,
            eg_tl: filled(2, 0),
            eg_state: filled(24, EgNum::Attack),
            eg_level: filled(24, 0),
            eg_out: filled(24, 0),
            eg_kon: filled(24, 0),
            eg_kon_csm: filled(24, 0),
            eg_kon_latch: filled(24, 0),
            eg_csm_mode: filled(24, 0),
            eg_ssg_enable: filled(24, 0),
            eg_ssg_pgrst_latch: filled(24, 0),
            eg_ssg_repeat_latch: filled(24, 0),
            eg_ssg_hold_up_latch: filled(24, 0),
            eg_ssg_dir: filled(24, 0),
            eg_ssg_inv: filled(24, 0),
            eg_read: filled(2, 0),
            eg_read_inc: 0,
            fm_op1: filled(12, 0),
            fm_op2: filled(6, 0),
            fm_out: filled(24, 0),
            fm_mod: filled(24, 0),
            ch_acc: filled(6, 0),
            ch_out: filled(6, 0),
            ch_lock: 0,
            ch_lock_l: 0,
            ch_lock_r: 0,
            ch_read: 0,
            timer_a_cnt: 0,
            timer_a_reg: 0,
            timer_a_load_lock: 0,
            timer_a_load: 0,
            timer_a_enable: 0,
            timer_a_reset: 0,
            timer_a_load_latch: 0,
            timer_a_overflow_flag: 0,
            timer_a_overflow: 0,
            timer_b_cnt: 0,
            timer_b_subcnt: 0,
            timer_b_reg: 0,
            timer_b_load_lock: 0,
            timer_b_load: 0,
            timer_b_enable: 0,
            timer_b_reset: 0,
            timer_b_load_latch: 0,
            timer_b_overflow_flag: 0,
            timer_b_overflow: 0,
            mode_test_21: filled(8, 0),
            mode_test_2c: filled(8, 0),
            mode_ch3: 0,
            mode_kon_channel: 0,
            mode_kon_operator: filled(4, 0),
            mode_kon: filled(24, 0),
            mode_csm: 0,
            mode_kon_csm: 0,
            dacen: 0,
            dacdata: 0,
            ks: filled(24, 0),
            ar: filled(24, 0),
            sr: filled(24, 0),
            dt: filled(24, 0),
            multi: filled(24, 0),
            sl: filled(24, 0),
            rr: filled(24, 0),
            dr: filled(24, 0),
            am: filled(24, 0),
            tl: filled(24, 0),
            ssg_eg: filled(24, 0),
            fnum: filled(6, 0),
            block: filled(6, 0),
            kcode: filled(6, 0),
            fnum_3ch: filled(6, 0),
            block_3ch: filled(6, 0),
            kcode_3ch: filled(6, 0),
            reg_a4: 0,
            reg_ac: 0,
            connect: filled(6, 0),
            fb: filled(6, 0),
            pan_l: filled(6, 0),
            pan_r: filled(6, 0),
            ams: filled(6, 0),
            pms: filled(6, 0),
            status: 0,
            status_time: 0,
            mute: filled(7, 0),
            rateratio: 0,
            samplecnt: 0,
            oldsamples: filled(2, 0),
            samples: filled(2, 0),
            writebuf_samplecnt: 0,
            writebuf_cur: 0,
            writebuf_last: 0,
            writebuf_lasttime: 0,
            writebuf: filled(2048, Opn2WriteBuf { time: 0, port: 0, data: 0 }),
            sample_rate: 0,
            clock: 0,
        }
    }
}

/// The ranges that the core's state keeps: table sizes, the slot cycle and
/// its channel, the write buffer positions, the resampler position, and the
/// register fields that index tables.
pub open spec fn ym3438_wf(s: YM3438View) -> bool {
    &&& ym3438_sizes(s)
    &&& s.cycles < 24
    &&& s.channel == s.cycles % 6
    &&& s.writebuf_cur < OPN_WRITEBUF_SIZE
    &&& s.writebuf_last < OPN_WRITEBUF_SIZE
    &&& s.eg_timer_low_lock <= 3
    &&& s.lfo_freq <= 7
    &&& s.dacen <= 1
    &&& s.write_data <= 0x1ff
    &&& s.samplecnt >= 0
    &&& forall|c: int| 0 <= c < 6 ==> #[trigger] s.connect[c] <= 7
    &&& forall|c: int| 0 <= c < 6 ==> #[trigger] s.pms[c] <= 7
    &&& forall|c: int| 0 <= c < 6 ==> #[trigger] s.ams[c] <= 3
    &&& forall|c: int| 0 <= c < 6 ==> #[trigger] s.fb[c] <= 7
    &&& forall|i: int| 0 <= i < 8 ==> #[trigger] s.mode_test_21[i] <= 1
}

/// An operator register write (0x30-0x90 ranges) to slot `slot`: the
/// register's bit fields go to the slot's parameters (multiplier 0 means
/// one half, kept doubled; sustain level 15 means the bottom).
pub open spec fn spec_slot_reg(s: YM3438View, slot: int, address: u32, data: u8) -> YM3438View {
    if address == 0x30 {
        let m = data & 0x0f;
        YM3438View {
            multi: s.multi.update(slot, if m == 0 { 1u8 } else { (m * 2) as u8 }),
            dt: s.dt.update(slot, (data >> 4u8) & 0x07),
            ..s
        }
    } else if address == 0x40 {
        YM3438View { tl: s.tl.update(slot, data & 0x7f), ..s }
    } else if address == 0x50 {
        YM3438View { ar: s.ar.update(slot, data & 0x1f), ks: s.ks.update(slot, (data >> 6u8) & 0x03), ..s }
    } else if address == 0x60 {
        YM3438View { dr: s.dr.update(slot, data & 0x1f), am: s.am.update(slot, (data >> 7u8) & 0x01), ..s }
    } else if address == 0x70 {
        YM3438View { sr: s.sr.update(slot, data & 0x1f), ..s }
    } else if address == 0x80 {
        let level = (data >> 4u8) & 0x0f;
        YM3438View {
            rr: s.rr.update(slot, data & 0x0f),
            sl: s.sl.update(slot, level | (((level + 1) as u8) & 0x10)),
            ..s
        }
    } else if address == 0x90 {
        YM3438View { ssg_eg: s.ssg_eg.update(slot, data & 0x0f), ..s }
    } else {
        s
    }
}

/// The F-number of a frequency write: the low byte from the data, the high
/// three bits from the latched upper register.
pub open spec fn spec_fnum(data: u8, upper: u8) -> u16 {
    (data as u16 & 0xff) | ((upper as u16 & 0x07) << 8u16)
}

/// The key code of an F-number and block: the block over the note of the
/// F-number's top bits.
pub open spec fn spec_kcode(fnum: u16, block: u8) -> u8 {
    (((block * 4) as u32) | FN_NOTE@[(fnum >> 7u16) as int]) as u8
}

/// A channel register write (0xa0-0xb4 ranges) to channel `channel`:
/// frequency writes take the latched upper byte, and the algorithm,
/// feedback, modulation depths and pans take their bit fields.
pub open spec fn spec_channel_reg(s: YM3438View, channel: int, address: u32, data: u8) -> YM3438View {
    if address == 0xa0 {
        let fnum = spec_fnum(data, s.reg_a4);
        let block = (s.reg_a4 >> 3u8) & 0x07;
        YM3438View {
            fnum: s.fnum.update(channel, fnum),
            block: s.block.update(channel, block),
            kcode: s.kcode.update(channel, spec_kcode(fnum, block)),
            ..s
        }
    } else if address == 0xa4 {
        YM3438View { reg_a4: data, ..s }
    } else if address == 0xa8 {
        let fnum = spec_fnum(data, s.reg_ac);
        let block = (s.reg_ac >> 3u8) & 0x07;
        YM3438View {
            fnum_3ch: s.fnum_3ch.update(channel, fnum),
            block_3ch: s.block_3ch.update(channel, block),
            kcode_3ch: s.kcode_3ch.update(channel, spec_kcode(fnum, block)),
            ..s
        }
    } else if address == 0xac {
        YM3438View { reg_ac: data, ..s }
    } else if address == 0xb0 {
        YM3438View { connect: s.connect.update(channel, data & 0x07), fb: s.fb.update(channel, (data >> 3u8) & 0x07), ..s }
    } else if address == 0xb4 {
        YM3438View {
            pms: s.pms.update(channel, data & 0x07),
            ams: s.ams.update(channel, (data >> 4u8) & 0x03),
            pan_l: s.pan_l.update(channel, (data >> 7u8) & 0x01),
            pan_r: s.pan_r.update(channel, (data >> 6u8) & 0x01),
            ..s
        }
    } else {
        s
    }
}

/// The bits of a register value, lowest first, from bit `first` on.
pub open spec fn spec_register_bits(wd: u16, n: nat, first: int) -> Seq<u8> {
    Seq::new(n, |i: int| ((wd >> ((first + i) as u16)) & 0x01) as u8)
}

/// A mode register write (0x21-0x2c, as latched) of the bus value: test
/// bits, the LFO, timer values and controls, channel 3 mode, key on/off,
/// and the DAC.
pub open spec fn spec_mode_reg(s: YM3438View) -> YM3438View {
    let wd = s.write_data;
    let mode = s.write_fm_mode_a;
    if mode == 0x21 {
        YM3438View { mode_test_21: spec_register_bits(wd, 8, 0), ..s }
    } else if mode == 0x22 {
        YM3438View { lfo_en: if (wd >> 3u16) & 0x01 != 0 { 0x7fu8 } else { 0u8 }, lfo_freq: (wd & 0x07) as u8, ..s }
    } else if mode == 0x24 {
        YM3438View { timer_a_reg: (s.timer_a_reg & 0x03) | ((wd & 0xff) * 4) as u16, ..s }
    } else if mode == 0x25 {
        YM3438View { timer_a_reg: (s.timer_a_reg & 0x3fc) | (wd & 0x03), ..s }
    } else if mode == 0x26 {
        YM3438View { timer_b_reg: wd & 0xff, ..s }
    } else if mode == 0x27 {
        let ch3 = ((wd & 0xc0) >> 6u16) as u8;
        YM3438View {
            mode_ch3: ch3,
            mode_csm: if ch3 == 2 { 1u8 } else { 0u8 },
            timer_a_load: (wd & 0x01) as u8,
            timer_a_enable: ((wd >> 2u16) & 0x01) as u8,
            timer_a_reset: ((wd >> 4u16) & 0x01) as u8,
            timer_b_load: ((wd >> 1u16) & 0x01) as u8,
            timer_b_enable: ((wd >> 3u16) & 0x01) as u8,
            timer_b_reset: ((wd >> 5u16) & 0x01) as u8,
            ..s
        }
    } else if mode == 0x28 {
        YM3438View {
            mode_kon_operator: spec_register_bits(wd, 4, 4),
            mode_kon_channel: if wd & 0x03 == 0x03 { 0xffu8 } else { ((wd & 0x03) + ((wd >> 2u16) & 1) * 3) as u8 },
            ..s
        }
    } else if mode == 0x2a {
        YM3438View { dacdata: (s.dacdata & 0x01) | (vstd::wrapping::u16_specs::wrapping_shl(wd ^ 0x80, 1) as i16), ..s }
    } else if mode == 0x2b {
        YM3438View { dacen: (wd >> 7u16) as u8, ..s }
    } else if mode == 0x2c {
        let bits = spec_register_bits(wd, 8, 0);
        YM3438View {
            mode_test_2c: bits,
            dacdata: (s.dacdata & 0x1fe) | (bits[3] as i16),
            eg_custom_timer: if bits[7] == 0 && bits[6] != 0 { 1u8 } else { 0u8 },
            ..s
        }
    } else {
        s
    }
}

/// The attack step of an envelope: a fraction of the distance to full
/// level, by the rate's shift.
pub open spec fn spec_attack_inc(level: i16, eg_inc: u8) -> i16 {
    vstd::wrapping::i16_specs::wrapping_shl(!level, eg_inc as u32) >> 5i16
}

/// The decay, sustain and release step of an envelope: a power of two by
/// the rate, four times larger in SSG-EG mode.
pub open spec fn spec_decay_inc(eg_inc: u8, ssg: bool) -> i16 {
    let inc = vstd::wrapping::i16_specs::wrapping_shl(1i16, vstd::wrapping::u32_specs::wrapping_sub(eg_inc as u32, 1));
    if ssg { vstd::wrapping::i16_specs::wrapping_shl(inc, 2) } else { inc }
}

/// The F-number with the LFO's pitch modulation: the shifts of the
/// modulation table for the channel's depth and the LFO's position, added
/// or subtracted by the LFO's half, twelve bits.
pub open spec fn spec_fnum_lfo(s: YM3438View) -> u32 {
    let fnum0 = s.pg_fnum as u32;
    let fnum_h = fnum0 >> 4u32;
    let lfo = s.lfo_pm;
    let lfo_l0 = lfo & 0x0f;
    let pms = s.pms[s.channel as int];
    let lfo_l = if lfo_l0 & 0x08 != 0 { lfo_l0 ^ 0x0f } else { lfo_l0 };
    let t = pms as int * 8 + lfo_l as int;
    let fm0 = vstd::wrapping::u32_specs::wrapping_add(
        vstd::wrapping::u32_specs::wrapping_shr(fnum_h, PG_LFO_SH1@[t]),
        vstd::wrapping::u32_specs::wrapping_shr(fnum_h, PG_LFO_SH2@[t]),
    );
    let fm1 = if pms > 5 { vstd::wrapping::u32_specs::wrapping_shl(fm0, (pms - 5) as u32) } else { fm0 };
    let fm = fm1 >> 2u32;
    let fnum1 = vstd::wrapping::u32_specs::wrapping_shl(fnum0, 1);
    let fnum = if lfo & 0x10 != 0 { vstd::wrapping::u32_specs::wrapping_sub(fnum1, fm) } else { vstd::wrapping::u32_specs::wrapping_add(fnum1, fm) };
    fnum & 0xfff
}

/// The detune of a key code (at most 0x1c) by a detune level of 1 to 3,
/// from the detune table.
pub open spec fn spec_detune(kcode: u8, dt_l: u8) -> u8 {
    let k: u8 = if kcode > 0x1c { 0x1c } else { kcode };
    let block = k >> 2u8;
    let note = k & 0x03;
    let sum: u8 = (block + 9 + ((if dt_l == 3 { 1u8 } else { 0u8 }) | (dt_l & 0x02))) as u8;
    let di = ((sum & 0x01) << 2u8) | note;
    (PG_DETUNE@[di as int] >> ((9 - (sum >> 1u8)) as u32)) as u8
}

/// The phase increment of the current slot: the modulated F-number shifted
/// by the block, detuned up or down, times the multiplier (kept doubled),
/// twenty bits.
pub open spec fn spec_phase_calc_increment(s: YM3438View) -> YM3438View {
    let slot = s.cycles as int;
    let dt = s.dt[slot];
    let dt_l = dt & 0x03;
    let base0 = (vstd::wrapping::u32_specs::wrapping_shl(spec_fnum_lfo(s), s.pg_block as u32) >> 2u32) as i32;
    let detune: u8 = if dt_l != 0 { spec_detune(s.pg_kcode, dt_l) } else { 0 };
    let base1 = if dt & 0x04 != 0 {
        vstd::wrapping::i32_specs::wrapping_sub(base0, detune as i32)
    } else {
        vstd::wrapping::i32_specs::wrapping_add(base0, detune as i32)
    };
    let base = base1 & 0x1ffff;
    let inc = (vstd::wrapping::u32_specs::wrapping_mul(base as u32, s.multi[slot] as u32) >> 1u32) & 0xfffff;
    YM3438View { pg_inc: s.pg_inc.update(slot, inc), ..s }
}

/// The envelope timer's step: the counter advances once per three samples
/// (at cycle 1) and again at cycle 13, the shift for the envelope rates is
/// the position of the timer's lowest set bit (counting cycles from the
/// restart); cycle 0 also takes the LFO's pitch and amplitude values, cycle
/// 2 the test read of phase and envelope.
pub open spec fn spec_clock_timers(s: YM3438View) -> YM3438View {
    let lock = s.cycles == 1 && s.eg_quotient == 2;
    let s1 = YM3438View {
        lfo_inc: s.mode_test_21[1],
        pg_read: s.pg_read >> 1u32,
        eg_read: s.eg_read.update(1, if s.cycles == 2 { s.eg_out[0] as u32 } else { s.eg_read[1] >> 1u32 }),
        eg_cycle: vstd::wrapping::u8_specs::wrapping_add(s.eg_cycle, 1),
        eg_shift_lock: if lock {
            if s.eg_cycle_stop != 0 { 0u8 } else { vstd::wrapping::u8_specs::wrapping_add(s.eg_shift, 1) }
        } else {
            s.eg_shift_lock
        },
        eg_timer_low_lock: if lock { (s.eg_timer & 0x03) as u8 } else { s.eg_timer_low_lock },
        ..s
    };
    let s2 = if s.cycles == 0 {
        let am = if s.lfo_cnt & 0x40 != 0 { s.lfo_cnt & 0x3f } else { s.lfo_cnt ^ 0x3f };
        YM3438View { lfo_pm: s.lfo_cnt >> 2u8, lfo_am: vstd::wrapping::u8_specs::wrapping_shl(am, 1), ..s1 }
    } else if s.cycles == 1 {
        let quotient = vstd::wrapping::u16_specs::wrapping_add(s.eg_quotient, 1) % 3;
        let inc = s.eg_timer_inc | ((quotient >> 1u16) as u8);
        let timer = vstd::wrapping::u16_specs::wrapping_add(s.eg_timer, inc as u16);
        YM3438View {
            eg_quotient: quotient,
            eg_cycle: 0,
            eg_cycle_stop: 1,
            eg_shift: 0,
            eg_timer_inc: (timer >> 12u16) as u8,
            eg_timer: timer & 0xfff,
            ..s1
        }
    } else if s.cycles == 2 {
        YM3438View { pg_read: s.pg_phase[21] & 0x3ff, ..s1 }
    } else if s.cycles == 13 {
        let timer = vstd::wrapping::u16_specs::wrapping_add(s.eg_timer, s.eg_timer_inc as u16);
        YM3438View {
            eg_cycle: 0,
            eg_cycle_stop: 1,
            eg_shift: 0,
            eg_timer_inc: (timer >> 12u16) as u8,
            eg_timer: timer & 0xfff,
            ..s1
        }
    } else if s.cycles == 23 {
        YM3438View { lfo_inc: s1.lfo_inc | 1, ..s1 }
    } else {
        s1
    };
    let timer = s2.eg_timer & !vstd::wrapping::u16_specs::wrapping_shl(s.mode_test_21[5] as u16, s2.eg_cycle as u32);
    let s3 = YM3438View { eg_timer: timer, ..s2 };
    if (vstd::wrapping::u16_specs::wrapping_shr(timer, s2.eg_cycle as u32) | ((s.pin_test_in & s.eg_custom_timer) as u16))
        & (s2.eg_cycle_stop as u16) != 0 {
        YM3438View { eg_shift: s2.eg_cycle, eg_cycle_stop: 0, ..s3 }
    } else {
        s3
    }
}

/// The envelope step size of a rate at the current timer shift: slow
/// rates step on some timer counts only, fast rates (48 and up) step every
/// time by the step table, at most 4; only every third sample steps.
pub open spec fn spec_eg_inc(s: YM3438View, rate: u8) -> u8 {
    let sum = vstd::wrapping::u8_specs::wrapping_add(rate >> 2u8, s.eg_shift_lock) & 0x0f;
    if s.eg_rate != 0 && s.eg_quotient == 2 {
        if rate < 48 {
            if sum == 12 { 1u8 } else if sum == 13 { (rate >> 1u8) & 0x01 } else if sum == 14 { rate & 0x01 } else { 0u8 }
        } else {
            let hi = EG_STEPHI@[(rate & 0x03) as int * 4 + s.eg_timer_low_lock as int] as u8;
            let inc = vstd::wrapping::u8_specs::wrapping_sub(vstd::wrapping::u8_specs::wrapping_add(hi, rate >> 2u8), 11);
            if inc > 4 { 4u8 } else { inc }
        }
    } else {
        0u8
    }
}

/// The envelope set-up for the current slot: the step of the rate chosen
/// last time (twice the rate plus the key scaling, at most 63), the rate of
/// the slot's state (attack on a key-on), its key scaling, amplitude
/// modulation and total and sustain levels (each kept one step back).
pub open spec fn spec_envelope_prepare(s: YM3438View) -> YM3438View {
    let slot = s.cycles as int;
    let rate0 = vstd::wrapping::u8_specs::wrapping_add(vstd::wrapping::u8_specs::wrapping_shl(s.eg_rate, 1), s.eg_ksv);
    let rate = if rate0 > 0x3f { 0x3fu8 } else { rate0 };
    let attack = (s.eg_kon[slot] != 0 && s.eg_ssg_repeat_latch[slot] != 0) || (s.eg_kon[slot] == 0 && s.eg_kon_latch[slot] != 0);
    let sel = if attack { EgNum::Attack } else { s.eg_state[slot] };
    let next_rate = match sel {
        EgNum::Attack => s.ar[slot],
        EgNum::Decay => s.dr[slot],
        EgNum::Sustain => s.sr[slot],
        EgNum::Release => vstd::wrapping::u8_specs::wrapping_shl(s.rr[slot], 1) | 0x01,
    };
    YM3438View {
        eg_inc: spec_eg_inc(s, rate),
        eg_ratemax: if (rate >> 1u8) == 0x1f { 1u8 } else { 0u8 },
        eg_rate: next_rate,
        eg_ksv: vstd::wrapping::u8_specs::wrapping_shr(s.pg_kcode, (s.ks[slot] ^ 0x03) as u32),
        eg_lfo_am: if s.am[slot] != 0 {
            vstd::wrapping::u8_specs::wrapping_shr(s.lfo_am, EG_AM_SHIFT@[s.ams[s.channel as int] as int] as u32)
        } else {
            0u8
        },
        eg_tl: s.eg_tl.update(1, s.eg_tl[0]).update(0, s.tl[slot]),
        eg_sl: s.eg_sl.update(1, s.eg_sl[0]).update(0, s.sl[slot]),
        ..s
    }
}

/// One slot cycle of the chip: the envelope timer and LFO values, the bus,
/// the two timers, key-on, the output stage, the channel accumulator, the
/// operator modulation and output, the phase unit, the envelope units, the
/// next frequency, the LFO, and the register writes, in that order; then
/// the slot cycle advances and the status hold counts down.
#[verifier::opaque]
pub open spec fn spec_opn2_cycle(s: YM3438View) -> YM3438View {
    let units = spec_envelope_prepare(spec_envelope_ssg_eg(spec_envelope_generate(spec_envelope_adsr(
        spec_phase_calc_increment(spec_phase_generate(spec_fm_generate(spec_fm_prepare(spec_ch_generate(
        spec_ch_output(spec_key_on(spec_timer_b(spec_timer_a(spec_do_io(spec_clock_timers(s)))))))))))))));
    let regs = spec_latch_bus(spec_take_pending(spec_update_lfo(spec_prepare_fnum(units, s.cycles))));
    let cycles = ((regs.cycles + 1) % 24) as usize;
    YM3438View {
        cycles: cycles,
        channel: cycles % 6,
        status_time: if regs.status_time != 0 { (regs.status_time - 1) as u32 } else { 0u32 },
        ..regs
    }
}

/// The frequency that the phase unit takes next: in channel 3 special mode
/// operators at slots 1, 7 and 13 take their own, else the next channel's.
pub open spec fn spec_prepare_fnum(s: YM3438View, slot: usize) -> YM3438View {
    let next = ((s.channel + 1) % 6) as int;
    let k: int = if s.mode_ch3 != 0 && slot == 1 {
        1
    } else if s.mode_ch3 != 0 && slot == 7 {
        0
    } else if s.mode_ch3 != 0 && slot == 13 {
        2
    } else {
        -1
    };
    if k >= 0 {
        YM3438View { pg_fnum: s.fnum_3ch[k], pg_block: s.block_3ch[k], pg_kcode: s.kcode_3ch[k], ..s }
    } else {
        YM3438View { pg_fnum: s.fnum[next], pg_block: s.block[next], pg_kcode: s.kcode[next], ..s }
    }
}

/// The SSG-EG step of the current slot: with SSG-EG on, an envelope past
/// half level restarts the phase (modes 0 and 4), repeats (even modes),
/// turns over (modes 2 and 6) or holds high (modes 3 and 7); the direction
/// and inversion follow the key; with it off they are cleared.
pub open spec fn spec_envelope_ssg_eg(s: YM3438View) -> YM3438View {
    let slot = s.cycles as int;
    let ssg = s.ssg_eg[slot];
    let on = ssg & 0x08 != 0;
    let high = s.eg_level[slot] & 0x200 != 0;
    let dir0 = s.eg_ssg_dir[slot];
    let kon = s.eg_kon[slot];
    let dir1 = if high && ssg & 0x03 == 0x02 { dir0 ^ 1 } else if high && ssg & 0x03 == 0x03 { 1u8 } else { dir0 };
    YM3438View {
        eg_ssg_pgrst_latch: s.eg_ssg_pgrst_latch.update(slot, if on && high && ssg & 0x03 == 0 { 1u8 } else { 0u8 }),
        eg_ssg_repeat_latch: s.eg_ssg_repeat_latch.update(slot, if on && high && ssg & 0x01 == 0 { 1u8 } else { 0u8 }),
        eg_ssg_hold_up_latch: s.eg_ssg_hold_up_latch.update(slot,
            if on && s.eg_kon_latch[slot] != 0 && (ssg & 0x07 == 0x05 || ssg & 0x07 == 0x03) { 1u8 } else { 0u8 }),
        eg_ssg_inv: s.eg_ssg_inv.update(slot, if on { (dir0 ^ ((ssg >> 2u8) & 0x01)) & kon } else { 0u8 }),
        eg_ssg_dir: s.eg_ssg_dir.update(slot, if on { dir1 & kon } else { 0u8 }),
        eg_ssg_enable: s.eg_ssg_enable.update(slot, (ssg >> 3u8) & 0x01),
        ..s
    }
}

/// The modulation input of the slot six cycles ahead, from the operators
/// that its channel's algorithm routes to it (the first operator's own
/// feedback scaled by the feedback level, others halved); the outputs of
/// the first and third operators are kept for the channel's next pass.
pub open spec fn spec_fm_prepare(s: YM3438View) -> YM3438View {
    let slot = ((s.cycles + 6) % 24) as int;
    let channel = s.channel as int;
    let prev = ((s.cycles + 18) % 24) as int;
    YM3438View {
        fm_mod: s.fm_mod.update(slot, spec_fm_modulation(s) as u16),
        fm_op1: if prev / 6 == 0 {
            s.fm_op1.update(channel * 2 + 1, s.fm_op1[channel * 2]).update(channel * 2, s.fm_out[prev])
        } else {
            s.fm_op1
        },
        fm_op2: if prev / 6 == 2 { s.fm_op2.update(channel, s.fm_out[prev]) } else { s.fm_op2 },
        ..s
    }
}

/// The modulation of the slot six cycles ahead (see `spec_fm_prepare`).
pub open spec fn spec_fm_modulation(s: YM3438View) -> i16 {
    let slot = ((s.cycles + 6) % 24) as int;
    let channel = s.channel as int;
    let op = slot / 6;
    let prev = ((s.cycles + 18) % 24) as int;
    let base = op * 48 + s.connect[channel];
    let m2a = if FM_ALGORITHM@[base] != 0 { 0i16 | s.fm_op1[channel * 2] } else { 0i16 };
    let m1a = if FM_ALGORITHM@[base + 8] != 0 { 0i16 | s.fm_op1[channel * 2 + 1] } else { 0i16 };
    let m1b = if FM_ALGORITHM@[base + 16] != 0 { m1a | s.fm_op2[channel] } else { m1a };
    let m2 = if FM_ALGORITHM@[base + 24] != 0 { m2a | s.fm_out[prev] } else { m2a };
    let m1 = if FM_ALGORITHM@[base + 32] != 0 { m1b | s.fm_out[prev] } else { m1b };
    let sum = vstd::wrapping::i16_specs::wrapping_add(m1, m2);
    if op == 0 {
        if s.fb[channel] == 0 { 0i16 } else { vstd::wrapping::i16_specs::wrapping_shr(sum, (10 - s.fb[channel]) as u32) }
    } else {
        sum >> 1i16
    }
}

/// The phase step: the slot four cycles back drops its increment where its
/// phase resets, and the slot five cycles back advances its 20-bit phase
/// (or resets it).
pub open spec fn spec_phase_generate(s: YM3438View) -> YM3438View {
    let r = ((s.cycles + 20) % 24) as int;
    let inc = if s.pg_reset[r] != 0 { s.pg_inc.update(r, 0) } else { s.pg_inc };
    let slot = ((s.cycles + 19) % 24) as int;
    let phase = vstd::wrapping::u32_specs::wrapping_add(s.pg_phase[slot], inc[slot]) & 0xfffff;
    YM3438View {
        pg_inc: inc,
        pg_phase: s.pg_phase.update(slot, if s.pg_reset[slot] != 0 || s.mode_test_21[3] != 0 { 0u32 } else { phase }),
        ..s
    }
}

/// The envelope output of the slot one cycle back: its level (inverted in
/// SSG-EG mode), plus the LFO's amplitude modulation and the total level
/// (not in CSM mode on channel 3), at most 0x3ff.
pub open spec fn spec_envelope_generate(s: YM3438View) -> YM3438View {
    let slot = ((s.cycles + 23) % 24) as int;
    let level0 = s.eg_level[slot];
    let inverted = if s.eg_ssg_inv[slot] != 0 { vstd::wrapping::u16_specs::wrapping_sub(512u16, level0) } else { level0 };
    let masked = (if s.mode_test_21[5] != 0 { 0u16 } else { inverted }) & 0x3ff;
    let with_am = vstd::wrapping::u16_specs::wrapping_add(masked, s.eg_lfo_am as u16);
    let with_tl = if !(s.mode_csm != 0 && s.channel == 3) {
        vstd::wrapping::u16_specs::wrapping_add(with_am, vstd::wrapping::u16_specs::wrapping_shl(s.eg_tl[0] as u16, 3))
    } else {
        with_am
    };
    YM3438View { eg_out: s.eg_out.update(slot, if with_tl > 0x3ff { 0x3ffu16 } else { with_tl }), ..s }
}

/// The operator output of the slot five cycles back: the log-sine of its
/// modulated phase plus its attenuation, through the exponent table, signed
/// by the phase's half, as a 14-bit value.
pub open spec fn spec_fm_generate(s: YM3438View) -> YM3438View {
    let slot = ((s.cycles + 19) % 24) as int;
    let phase = (vstd::wrapping::u32_specs::wrapping_add(s.fm_mod[slot] as u32, s.pg_phase[slot] >> 10u32) & 0x3ff) as u16;
    let quarter = if phase & 0x100 != 0 { (phase ^ 0xff) & 0xff } else { phase & 0xff };
    let level0 = vstd::wrapping::u16_specs::wrapping_add(LOGSINROM@[quarter as int], vstd::wrapping::u16_specs::wrapping_shl(s.eg_out[slot], 2));
    let level = if level0 > 0x1fff { 0x1fffu16 } else { level0 };
    let e = EXPROM@[((level & 0xff) ^ 0xff) as int] as u32;
    let out0 = (((e | 0x400) << 2u32) >> ((level >> 8u16) as u32)) as i16;
    let t = vstd::wrapping::u16_specs::wrapping_shl(s.mode_test_21[4] as u16, 13) as i16;
    let out1 = if phase & 0x200 != 0 { vstd::wrapping::i16_specs::wrapping_add((!out0) ^ t, 1) } else { out0 ^ t };
    YM3438View { fm_out: s.fm_out.update(slot, vstd::wrapping::i16_specs::wrapping_shl(out1, 2) >> 2i16), ..s }
}

/// The channel accumulator step for the slot six cycles back: the first
/// operator's pass hands the last sum to the channel output and restarts,
/// and operators that the algorithm sends to the output add their output;
/// the sum is clamped to nine bits.
pub open spec fn spec_ch_generate(s: YM3438View) -> YM3438View {
    let slot = ((s.cycles + 18) % 24) as int;
    let channel = s.channel as int;
    let op = slot / 6;
    let test_dac = s.mode_test_2c[5];
    let acc = if op == 0 && test_dac == 0 { 0i16 } else { s.ch_acc[channel] };
    let add = if FM_ALGORITHM@[op * 48 + 40 + s.connect[channel]] != 0 && test_dac == 0 {
        vstd::wrapping::i16_specs::wrapping_add(test_dac as i16, s.fm_out[slot] >> 5i16)
    } else {
        test_dac as i16
    };
    let sum0 = vstd::wrapping::i16_specs::wrapping_add(acc, add);
    let sum = if sum0 > 255 { 255i16 } else if sum0 < -256 { -256i16 } else { sum0 };
    YM3438View {
        ch_out: if op == 0 || test_dac != 0 { s.ch_out.update(channel, s.ch_acc[channel]) } else { s.ch_out },
        ch_acc: s.ch_acc.update(channel, sum),
        ..s
    }
}

/// The envelope state machine for the slot two cycles back: a key-on (or an
/// SSG-EG repeat) restarts the attack, an attack that reaches full level
/// decays, a decay that reaches the sustain level sustains, a key-off
/// releases, and an envelope that has run out (outside attack, without
/// SSG-EG hold) stops at silence; the level moves by the state's step.
pub open spec fn spec_envelope_adsr(s: YM3438View) -> YM3438View {
    let slot = ((s.cycles + 22) % 24) as int;
    let nkon = s.eg_kon_latch[slot];
    let okon = s.eg_kon[slot];
    let state = s.eg_state[slot];
    let ssg = s.eg_ssg_enable[slot] != 0;
    let pgrst: u8 = if (nkon != 0 && okon == 0) || s.eg_ssg_pgrst_latch[slot] != 0 { 1 } else { 0 };
    let kon_event = (nkon != 0 && okon == 0) || (okon != 0 && s.eg_ssg_repeat_latch[slot] != 0);
    let koff_event = okon != 0 && nkon == 0;
    let level0 = s.eg_level[slot] as i16;
    let ssg_level = if s.eg_ssg_inv[slot] != 0 {
        vstd::wrapping::i16_specs::wrapping_sub(512i16, level0) & 0x3ff
    } else {
        level0
    };
    let level = if koff_event { ssg_level } else { level0 };
    let eg_off = if ssg { (level >> 9i16) as u8 != 0 } else { level & 0x3f0 == 0x3f0 };
    let (state1, level1, inc) = if kon_event {
        (
            EgNum::Attack,
            if s.eg_ratemax != 0 { 0i16 } else { level },
            if s.eg_ratemax == 0 && state == EgNum::Attack && level != 0 && s.eg_inc != 0 && nkon != 0 {
                spec_attack_inc(level, s.eg_inc)
            } else {
                0i16
            },
        )
    } else {
        let (st, inc) = match state {
            EgNum::Attack => if level == 0 {
                (EgNum::Decay, 0i16)
            } else if s.eg_inc != 0 && s.eg_ratemax == 0 && nkon != 0 {
                (EgNum::Attack, spec_attack_inc(level, s.eg_inc))
            } else {
                (EgNum::Attack, 0i16)
            },
            EgNum::Decay => if (level >> 5i16) == s.eg_sl[1] as i16 {
                (EgNum::Sustain, 0i16)
            } else if !eg_off && s.eg_inc != 0 {
                (EgNum::Decay, spec_decay_inc(s.eg_inc, ssg))
            } else {
                (EgNum::Decay, 0i16)
            },
            _ => if !eg_off && s.eg_inc != 0 { (state, spec_decay_inc(s.eg_inc, ssg)) } else { (state, 0i16) },
        };
        (if nkon == 0 { EgNum::Release } else { st }, level, inc)
    };
    let level2 = if s.eg_kon_csm[slot] != 0 {
        level1 | vstd::wrapping::i16_specs::wrapping_shl(s.eg_tl[1] as i16, 3)
    } else {
        level1
    };
    let stop = !kon_event && s.eg_ssg_hold_up_latch[slot] == 0 && state != EgNum::Attack && eg_off;
    let state3 = if stop { EgNum::Release } else { state1 };
    let level3 = if stop { 0x3ffi16 } else { level2 };
    let next = vstd::wrapping::i16_specs::wrapping_add(level3, inc);
    YM3438View {
        eg_read: s.eg_read.update(0, s.eg_read_inc as u32),
        eg_read_inc: if s.eg_inc > 0 { 1u8 } else { 0u8 },
        pg_reset: s.pg_reset.update(slot, pgrst),
        eg_kon: s.eg_kon.update(slot, nkon),
        eg_level: s.eg_level.update(slot, (next & 0x3ff) as u16),
        eg_state: s.eg_state.update(slot, state3),
        ..s
    }
}

/// The sample output stage of a slot cycle: at the first cycle of each
/// channel's group of four the channel's output and pans are latched (the
/// DAC takes channel 6's place where enabled), then the YM2612 outputs the
/// latched level, offset by one away from the negative side and tripled,
/// at the last cycle of the group (its sign level at the others), while the
/// YM3438 outputs it at three cycles of four and 0 at the fourth.
pub open spec fn spec_ch_output(s: YM3438View) -> YM3438View {
    let cycles = s.cycles;
    let channel = if cycles < 12 { (s.channel + 1) as int } else { s.channel as int };
    let test_dac = s.mode_test_2c[5];
    let latch = cycles & 3 == 0;
    let ch_lock = if latch && test_dac == 0 { s.ch_out[channel] } else { s.ch_lock };
    let lock_l = if latch { s.pan_l[channel] } else { s.ch_lock_l };
    let lock_r = if latch { s.pan_r[channel] } else { s.ch_lock_r };
    let out0: i16 = if ((cycles >> 2usize) == 1 && s.dacen != 0) || test_dac != 0 {
        vstd::wrapping::i16_specs::wrapping_shl(s.dacdata, 7) >> 7i16
    } else {
        ch_lock
    };
    let (mol, mor) = if s.chip_type == YM3438Mode::YM2612 {
        let out_en = cycles & 3 == 3 || test_dac != 0;
        let out = if out0 >= 0 { vstd::wrapping::i16_specs::wrapping_add(out0, 1) } else { out0 };
        let sign = if out0 >= 0 { vstd::wrapping::i16_specs::wrapping_add(out0 >> 8i16, 1) } else { out0 >> 8i16 };
        (
            vstd::wrapping::i16_specs::wrapping_mul(if lock_l != 0 && out_en { out } else { sign }, 3),
            vstd::wrapping::i16_specs::wrapping_mul(if lock_r != 0 && out_en { out } else { sign }, 3),
        )
    } else {
        let out_en = cycles & 3 != 0 || test_dac != 0;
        (if lock_l != 0 && out_en { out0 } else { 0i16 }, if lock_r != 0 && out_en { out0 } else { 0i16 })
    };
    YM3438View { ch_read: s.ch_lock, ch_lock: ch_lock, ch_lock_l: lock_l, ch_lock_r: lock_r, mol: mol, mor: mor, ..s }
}

/// The output pair of the cycle that a state starts.
pub open spec fn spec_cycle_output(s: YM3438View) -> (i16, i16) {
    (spec_ch_output(s).mol, spec_ch_output(s).mor)
}

/// The state that the output stage reads.
pub open spec fn ym3438_output_inputs_frame(a: YM3438View, b: YM3438View) -> bool {
    &&& a.ch_out == b.ch_out
    &&& a.ch_lock == b.ch_lock
    &&& a.ch_lock_l == b.ch_lock_l
    &&& a.ch_lock_r == b.ch_lock_r
    &&& a.pan_l == b.pan_l
    &&& a.pan_r == b.pan_r
    &&& a.dacen == b.dacen
    &&& a.dacdata == b.dacdata
    &&& a.mode_test_2c == b.mode_test_2c
    &&& a.channel == b.channel
}

/// The output pair, left alone by the work after the output stage.
pub open spec fn ym3438_output_frame(a: YM3438View, b: YM3438View) -> bool {
    a.mol == b.mol && a.mor == b.mor
}

/// The bus step of a cycle: a strobe that has just risen enables its
/// write, the strobe shift registers advance, and the busy flag follows the
/// busy counter (32 cycles from a data write).
pub open spec fn spec_do_io(s: YM3438View) -> YM3438View {
    let a_en: u8 = if s.write_a & 0x03 == 0x01 { 1 } else { 0 };
    let d_en: u8 = if s.write_d & 0x03 == 0x01 { 1 } else { 0 };
    let cnt = vstd::wrapping::u8_specs::wrapping_add(s.write_busy_cnt, s.write_busy);
    YM3438View {
        write_a_en: a_en,
        write_d_en: d_en,
        write_a: vstd::wrapping::u8_specs::wrapping_shl(s.write_a, 1),
        write_d: vstd::wrapping::u8_specs::wrapping_shl(s.write_d, 1),
        busy: s.write_busy,
        write_busy: if (s.write_busy != 0 && (cnt >> 5u8) == 0) || d_en != 0 { 1u8 } else { 0u8 },
        write_busy_cnt: cnt & 0x1f,
        ..s
    }
}

/// Timer A's step: at cycle 2 a rising load bit (or an overflow) reloads
/// it and, in CSM mode, keys channel 3; at cycle 1 a loaded timer counts
/// (every cycle in test mode); the overflow sets the flag where enabled, a
/// reset clears it.
pub open spec fn spec_timer_a(s: YM3438View) -> YM3438View {
    let load: u8 = if s.cycles == 2 {
        s.timer_a_overflow | if s.timer_a_load_lock == 0 && s.timer_a_load != 0 { 1u8 } else { 0u8 }
    } else {
        s.timer_a_overflow
    };
    let lock = if s.cycles == 2 { s.timer_a_load } else { s.timer_a_load_lock };
    let time0 = if s.timer_a_load_latch != 0 { s.timer_a_reg } else { s.timer_a_cnt };
    let time = if (s.cycles == 1 && lock != 0) || s.mode_test_21[2] != 0 {
        vstd::wrapping::u16_specs::wrapping_add(time0, 1)
    } else {
        time0
    };
    YM3438View {
        timer_a_load_lock: lock,
        mode_kon_csm: if s.cycles == 2 { if s.mode_csm != 0 { load } else { 0u8 } } else { s.mode_kon_csm },
        timer_a_load_latch: load,
        timer_a_reset: 0,
        timer_a_overflow_flag: if s.timer_a_reset != 0 { 0u8 } else { s.timer_a_overflow_flag | (s.timer_a_overflow & s.timer_a_enable) },
        timer_a_overflow: (time >> 10u16) as u8,
        timer_a_cnt: time & 0x3ff,
        ..s
    }
}

/// Timer B's step: as timer A, counting once every sixteen passes of cycle
/// 1, over eight bits.
pub open spec fn spec_timer_b(s: YM3438View) -> YM3438View {
    let load: u8 = if s.cycles == 2 {
        s.timer_b_overflow | if s.timer_b_load_lock == 0 && s.timer_b_load != 0 { 1u8 } else { 0u8 }
    } else {
        s.timer_b_overflow
    };
    let lock = if s.cycles == 2 { s.timer_b_load } else { s.timer_b_load_lock };
    let time0 = if s.timer_b_load_latch != 0 { s.timer_b_reg } else { s.timer_b_cnt };
    let sub = if s.cycles == 1 { vstd::wrapping::u8_specs::wrapping_add(s.timer_b_subcnt, 1) } else { s.timer_b_subcnt };
    let time = if (sub == 0x10 && lock != 0) || s.mode_test_21[2] != 0 {
        vstd::wrapping::u16_specs::wrapping_add(time0, 1)
    } else {
        time0
    };
    YM3438View {
        timer_b_load_lock: lock,
        timer_b_load_latch: load,
        timer_b_subcnt: sub & 0x0f,
        timer_b_reset: 0,
        timer_b_overflow_flag: if s.timer_b_reset != 0 { 0u8 } else { s.timer_b_overflow_flag | (s.timer_b_overflow & s.timer_b_enable) },
        timer_b_overflow: (time >> 8u16) as u8,
        timer_b_cnt: time & 0xff,
        ..s
    }
}

/// The key-on step: the current slot latches its key (channel 3 in CSM
/// mode is keyed by timer A), and at the cycle of the channel named by a
/// key-on write the four operators take their key bits.
pub open spec fn spec_key_on(s: YM3438View) -> YM3438View {
    let slot = s.cycles as int;
    let chan = s.channel as int;
    let csm = s.channel == 2 && s.mode_kon_csm != 0;
    YM3438View {
        eg_kon_latch: s.eg_kon_latch.update(slot, if csm { 1u8 } else { s.mode_kon[slot] }),
        eg_kon_csm: s.eg_kon_csm.update(slot, if csm { 1u8 } else { 0u8 }),
        mode_kon: if s.cycles == s.mode_kon_channel as usize {
            s.mode_kon.update(chan, s.mode_kon_operator[0]).update(chan + 12, s.mode_kon_operator[1])
                .update(chan + 6, s.mode_kon_operator[2]).update(chan + 18, s.mode_kon_operator[3])
        } else {
            s.mode_kon
        },
        ..s
    }
}

/// The LFO step: the divider counts to the period of the selected rate,
/// then the LFO counter advances; a disabled LFO holds at 0.
pub open spec fn spec_update_lfo(s: YM3438View) -> YM3438View {
    let cyc = LFO_CYCLES@[s.lfo_freq as int] as u8;
    if s.lfo_quotient & cyc == cyc {
        YM3438View { lfo_quotient: 0, lfo_cnt: vstd::wrapping::u8_specs::wrapping_add(s.lfo_cnt, 1) & s.lfo_en, ..s }
    } else {
        YM3438View { lfo_quotient: vstd::wrapping::u8_specs::wrapping_add(s.lfo_quotient, s.lfo_inc), lfo_cnt: s.lfo_cnt & s.lfo_en, ..s }
    }
}

/// What the bus strobes latch: an address write clears a pending data
/// write and, where the value is at or above 0x10, selects an FM register
/// (below, a mode register); a data write after an FM address makes a data
/// write pending, and a data write to the lower bank writes the selected
/// mode register. A pending write takes the bus byte.
pub open spec fn spec_latch_bus(s: YM3438View) -> YM3438View {
    let wd = s.write_data;
    let s1 = if s.write_a_en != 0 || s.write_d_en != 0 {
        let fm_data = if s.write_fm_address != 0 && s.write_d_en != 0 {
            1u8
        } else if s.write_a_en != 0 {
            0u8
        } else {
            s.write_fm_data
        };
        let t = if s.write_a_en != 0 {
            if wd & 0xf0 != 0 {
                YM3438View { write_fm_data: fm_data, address: wd, write_fm_address: 1, ..s }
            } else {
                YM3438View { write_fm_data: fm_data, write_fm_address: 0, ..s }
            }
        } else {
            YM3438View { write_fm_data: fm_data, ..s }
        };
        let t2 = if s.write_d_en != 0 && wd & 0x100 == 0 { spec_mode_reg(t) } else { t };
        if s.write_a_en != 0 { YM3438View { write_fm_mode_a: (wd & 0x1ff) as u8, ..t2 } } else { t2 }
    } else {
        s
    };
    if s1.write_fm_data != 0 { YM3438View { data: (s1.write_data & 0xff) as u8, ..s1 } } else { s1 }
}

/// A pending data write, at the slot cycle of the operator (bit 3 of the
/// address picks operators 13-24) or of the channel that the latched
/// address names; at other cycles it waits.
pub open spec fn spec_take_pending(s: YM3438View) -> YM3438View {
    if s.write_fm_data == 0 {
        s
    } else {
        let slot = (s.cycles % 12) as int;
        let a = s.address as u32;
        let s1 = if OP_OFFSET@[slot] == a & 0x107 {
            spec_slot_reg(s, if s.address & 0x08 != 0 { slot + 12 } else { slot }, a & 0xf0, s.data)
        } else {
            s
        };
        if CH_OFFSET@[s.channel as int] == a & 0x103 {
            spec_channel_reg(s1, s.channel as int, a & 0xfc, s.data)
        } else {
            s1
        }
    }
}

/// The state that the slot cycle leaves alone: the write buffer, the
/// resampler, the mute mask, the rates and the chip variant.
pub open spec fn ym3438_host_frame(a: YM3438View, b: YM3438View) -> bool {
    &&& a.writebuf == b.writebuf
    &&& a.writebuf_cur == b.writebuf_cur
    &&& a.writebuf_last == b.writebuf_last
    &&& a.writebuf_lasttime == b.writebuf_lasttime
    &&& a.writebuf_samplecnt == b.writebuf_samplecnt
    &&& a.rateratio == b.rateratio
    &&& a.samplecnt == b.samplecnt
    &&& a.samples == b.samples
    &&& a.oldsamples == b.oldsamples
    &&& a.mute == b.mute
    &&& a.clock == b.clock
    &&& a.sample_rate == b.sample_rate
    &&& a.chip_type == b.chip_type
}

/// The port, data and strobe latch after a bus write: bit 1 of the port
/// selects the upper register bank (bit 8 of the written value), bit 0
/// selects a data write over an address write.
pub open spec fn spec_opn2_write(s: YM3438View, port: u32, data: u8) -> YM3438View {
    YM3438View {
        write_data: ((if port & 2 != 0 { 0x100int } else { 0 }) + data) as u16,
        write_d: if port & 1 != 0 { s.write_d | 1 } else { s.write_d },
        write_a: if port & 1 != 0 { s.write_a } else { s.write_a | 1 },
        ..s
    }
}

/// Whether a status read on `port` refreshes the status latch: port 0, or
/// any port on a chip in read mode.
pub open spec fn spec_status_port(s: YM3438View, port: u32) -> bool {
    port & 3 == 0 || s.chip_type == YM3438Mode::ReadMode
}

impl YM3438 {
    pub closed spec fn wf(&self) -> bool {
        ym3438_wf(self@)
    }

    /// Latch a bus write; the chip takes it in over the next cycles.
    pub fn opn2_write(&mut self, port: u32, data: u8)
        requires
            old(self).wf(),
        ensures
            final(self).wf(),
            final(self)@ == spec_opn2_write(old(self)@, port, data),
    {
        proof {
            crate::bits::lemma_port_bits(port, data);
        }
        let port = port & 3;
        self.write_data = (((port << 7) & 0x100) | data as u32) as u16;
        if port & 1 != 0 {
            self.write_d = self.write_d | 1;
        } else {
            self.write_a = self.write_a | 1;
        }
    }

    /// Set the test pin input (its low bit).
    pub fn opn2_set_test_pin(&mut self, value: u8)
        requires
            old(self).wf(),
        ensures
            final(self).wf(),
            final(self)@ == (YM3438View { pin_test_in: value & 1, ..old(self)@ }),
    {
        self.pin_test_in = value & 1;
    }

    /// The test pin output: high at the last slot cycle where test
    /// register 0x2c bit 7 is set.
    pub fn opn2_read_test_pin(&mut self) -> (r: u32)
        requires
            old(self).wf(),
        ensures
            *final(self) == *old(self),
            r == if old(self)@.mode_test_2c[7] == 0 { 0u32 } else if old(self)@.cycles == 23 { 1u32 } else { 0u32 },
    {
        if self.mode_test_2c[7] == 0 {
            return 0;
        }
        if self.cycles == 23 { 1 } else { 0 }
    }

    /// The interrupt pin: either timer's overflow flag.
    pub fn opn2_read_irq_pin(&mut self) -> (r: u32)
        requires
            old(self).wf(),
        ensures
            *final(self) == *old(self),
            r == (old(self)@.timer_a_overflow_flag | old(self)@.timer_b_overflow_flag) as u32,
    {
        (self.timer_a_overflow_flag | self.timer_b_overflow_flag) as u32
    }

    /// Choose the emulated variant.
    pub fn opn2_set_chip_type(&mut self, chip_type: YM3438Mode)
        requires
            old(self).wf(),
        ensures
            final(self).wf(),
            final(self)@ == (YM3438View { chip_type: chip_type, ..old(self)@ }),
    {
        self.chip_type = chip_type;
    }
}

impl YM3438 {
    /// Take in latched bus writes and run the busy counter.
    fn opn2_do_io(&mut self)
        requires
            old(self).wf(),
        ensures
            final(self).wf(),
            final(self)@ == spec_do_io(old(self)@),
            final(self)@.cycles == old(self)@.cycles,
            final(self)@.status_time == old(self)@.status_time,
            ym3438_host_frame(old(self)@, final(self)@),
            ym3438_output_inputs_frame(old(self)@, final(self)@),
    {
        self.write_a_en = if self.write_a & 0x03 == 0x01 { 1 } else { 0 };
        self.write_d_en = if self.write_d & 0x03 == 0x01 { 1 } else { 0 };
        self.write_a = self.write_a.wrapping_shl(1);
        self.write_d = self.write_d.wrapping_shl(1);
        self.busy = self.write_busy;
        self.write_busy_cnt = self.write_busy_cnt.wrapping_add(self.write_busy);
        self.write_busy = if (self.write_busy != 0 && (self.write_busy_cnt >> 5) == 0) || self.write_d_en != 0 { 1 } else { 0 };
        self.write_busy_cnt = self.write_busy_cnt & 0x1f;
    }

    /// Timer A: load, count at the first slot cycle, and flag overflow.
    fn opn2_do_timer_a(&mut self)
        requires
            old(self).wf(),
        ensures
            final(self).wf(),
            final(self)@ == spec_timer_a(old(self)@),
            final(self)@.cycles == old(self)@.cycles,
            final(self)@.status_time == old(self)@.status_time,
            ym3438_host_frame(old(self)@, final(self)@),
            ym3438_output_inputs_frame(old(self)@, final(self)@),
    {
        let mut load: u8 = self.timer_a_overflow;
        if self.cycles == 2 {
            load = load | if self.timer_a_load_lock == 0 && self.timer_a_load != 0 { 1 } else { 0 };
            self.timer_a_load_lock = self.timer_a_load;
            if self.mode_csm != 0 {
                self.mode_kon_csm = load;
            } else {
                self.mode_kon_csm = 0;
            }
        }
        let mut time: u16 = if self.timer_a_load_latch != 0 { self.timer_a_reg } else { self.timer_a_cnt };
        self.timer_a_load_latch = load;
        if (self.cycles == 1 && self.timer_a_load_lock != 0) || self.mode_test_21[2] != 0 {
            time = time.wrapping_add(1);
        }
        if self.timer_a_reset != 0 {
            self.timer_a_reset = 0;
            self.timer_a_overflow_flag = 0;
        } else {
            self.timer_a_overflow_flag = self.timer_a_overflow_flag | (self.timer_a_overflow & self.timer_a_enable);
        }
        self.timer_a_overflow = (time >> 10) as u8;
        self.timer_a_cnt = time & 0x3ff;
    }

    /// Timer B: as timer A, counting every sixteenth pass.
    fn opn2_do_timer_b(&mut self)
        requires
            old(self).wf(),
        ensures
            final(self).wf(),
            final(self)@ == spec_timer_b(old(self)@),
            final(self)@.cycles == old(self)@.cycles,
            final(self)@.status_time == old(self)@.status_time,
            ym3438_host_frame(old(self)@, final(self)@),
            ym3438_output_inputs_frame(old(self)@, final(self)@),
    {
        let mut load: u8 = self.timer_b_overflow;
        if self.cycles == 2 {
            load = load | if self.timer_b_load_lock == 0 && self.timer_b_load != 0 { 1 } else { 0 };
            self.timer_b_load_lock = self.timer_b_load;
        }
        let mut time: u16 = if self.timer_b_load_latch != 0 { self.timer_b_reg } else { self.timer_b_cnt };
        self.timer_b_load_latch = load;
        if self.cycles == 1 {
            self.timer_b_subcnt = self.timer_b_subcnt.wrapping_add(1);
        }
        if (self.timer_b_subcnt == 0x10 && self.timer_b_load_lock != 0) || self.mode_test_21[2] != 0 {
            time = time.wrapping_add(1);
        }
        self.timer_b_subcnt = self.timer_b_subcnt & 0x0f;
        if self.timer_b_reset != 0 {
            self.timer_b_reset = 0;
            self.timer_b_overflow_flag = 0;
        } else {
            self.timer_b_overflow_flag = self.timer_b_overflow_flag | (self.timer_b_overflow & self.timer_b_enable);
        }
        self.timer_b_overflow = (time >> 8) as u8;
        self.timer_b_cnt = time & 0xff;
    }

    /// Latch key-on for the current slot (CSM key-on on channel 3), and take
    /// a pending key-on register write at its channel's cycle.
    fn opn2_key_on(&mut self)
        requires
            old(self).wf(),
        ensures
            final(self).wf(),
            final(self)@ == spec_key_on(old(self)@),
            final(self)@.cycles == old(self)@.cycles,
            final(self)@.status_time == old(self)@.status_time,
            ym3438_host_frame(old(self)@, final(self)@),
            ym3438_output_inputs_frame(old(self)@, final(self)@),
    {
        let slot: usize = self.cycles;
        let chan: usize = self.channel;
        let csm: bool = self.channel == 2 && self.mode_kon_csm != 0;
        let k: u8 = if csm { 1 } else { self.mode_kon[slot] };
        self.eg_kon_latch.set(slot, k);
        self.eg_kon_csm.set(slot, if csm { 1 } else { 0 });
        if self.cycles == self.mode_kon_channel as usize {
            let o0 = self.mode_kon_operator[0];
            let o1 = self.mode_kon_operator[1];
            let o2 = self.mode_kon_operator[2];
            let o3 = self.mode_kon_operator[3];
            self.mode_kon.set(chan, o0);
            self.mode_kon.set(chan + 12, o1);
            self.mode_kon.set(chan + 6, o2);
            self.mode_kon.set(chan + 18, o3);
        }
    }

    /// Advance the LFO divider and counter.
    fn opn2_update_lfo(&mut self)
        requires
            old(self).wf(),
        ensures
            final(self).wf(),
            final(self)@ == spec_update_lfo(old(self)@),
            final(self)@.cycles == old(self)@.cycles,
            final(self)@.status_time == old(self)@.status_time,
            ym3438_host_frame(old(self)@, final(self)@),
            ym3438_output_frame(old(self)@, final(self)@),
    {
        let cyc: u8 = LFO_CYCLES[self.lfo_freq as usize] as u8;
        if (self.lfo_quotient & cyc) == cyc {
            self.lfo_quotient = 0;
            self.lfo_cnt = self.lfo_cnt.wrapping_add(1);
        } else {
            self.lfo_quotient = self.lfo_quotient.wrapping_add(self.lfo_inc);
        }
        self.lfo_cnt = self.lfo_cnt & self.lfo_en;
    }

    /// Mask the increment of a slot being reset, and step the phase of the
    /// slot whose turn it is.
    fn opn2_phase_generate(&mut self)
        requires
            old(self).wf(),
        ensures
            final(self).wf(),
            final(self)@ == spec_phase_generate(old(self)@),
            final(self)@.cycles == old(self)@.cycles,
            final(self)@.status_time == old(self)@.status_time,
            ym3438_host_frame(old(self)@, final(self)@),
            ym3438_output_frame(old(self)@, final(self)@),
    {
        let slot: usize = (self.cycles + 20) % 24;
        if self.pg_reset[slot] != 0 {
            self.pg_inc.set(slot, 0);
        }
        let slot: usize = (self.cycles + 19) % 24;
        let ph: u32 = if self.pg_reset[slot] != 0 || self.mode_test_21[3] != 0 {
            0
        } else {
            self.pg_phase[slot].wrapping_add(self.pg_inc[slot]) & 0xfffff
        };
        self.pg_phase.set(slot, ph);
    }
}

impl YM3438 {
    /// The current slot's F-number (doubled) with vibrato applied, in 12 bits.
    fn pg_fnum_lfo(&self) -> (r: u32)
        requires
            self.wf(),
        ensures
            r <= 0xfff,
            r == spec_fnum_lfo(self@),
    {
        let chan: usize = self.channel;
        let mut fnum: u32 = self.pg_fnum as u32;
        let fnum_h: u32 = fnum >> 4;
        let lfo: u8 = self.lfo_pm;
        let mut lfo_l: u8 = lfo & 0x0f;
        let pms: u8 = self.pms[chan];
        fnum = fnum.wrapping_shl(1);
        proof {
            crate::bits::lemma_u8_small(lfo);
        }
        if (lfo_l & 0x08) != 0 {
            lfo_l = lfo_l ^ 0x0f;
        }
        let t: usize = pms as usize * 8 + lfo_l as usize;
        let mut fm: u32 = fnum_h.wrapping_shr(PG_LFO_SH1[t]).wrapping_add(fnum_h.wrapping_shr(PG_LFO_SH2[t]));
        if pms > 5 {
            fm = fm.wrapping_shl((pms - 5) as u32);
        }
        fm = fm >> 2;
        if (lfo & 0x10) != 0 {
            fnum = fnum.wrapping_sub(fm);
        } else {
            fnum = fnum.wrapping_add(fm);
        }
        proof {
            crate::bits::lemma_u32_bytes(fnum);
        }
        fnum & 0xfff
    }

    /// The detune of a key code for a detune setting.
    fn pg_detune(kcode: u8, dt_l: u8) -> (r: u8)
        requires
            1 <= dt_l <= 3,
        ensures
            r == spec_detune(kcode, dt_l),
    {
        let mut kcode: u8 = kcode;
        if kcode > 0x1c {
            kcode = 0x1c;
        }
        proof {
            crate::bits::lemma_u8_small(kcode);
            crate::bits::lemma_u8_small(dt_l);
            crate::bits::lemma_u8_bits(kcode);
        }
        let block: u8 = kcode >> 2;
        let note: u8 = kcode & 0x03;
        let sum: u8 = block + 9 + ((if dt_l == 3 { 1u8 } else { 0u8 }) | (dt_l & 0x02));
        proof {
            crate::bits::lemma_u8_bits(sum);
            crate::bits::lemma_u8_small(sum);
        }
        let sum_h: u8 = sum >> 1;
        let sum_l: u8 = sum & 0x01;
        proof {
            crate::bits::lemma_u8_pack(sum_l, note);
        }
        let di: usize = ((sum_l << 2) | note) as usize;
        (PG_DETUNE[di] >> ((9 - sum_h) as u32)) as u8
    }

    /// The phase increment of the current slot: F-number with vibrato,
    /// shifted by the block, plus detune, times the multiplier.
    fn opn2_phase_calc_increment(&mut self)
        requires
            old(self).wf(),
        ensures
            final(self).wf(),
            final(self)@ == spec_phase_calc_increment(old(self)@),
            final(self)@.cycles == old(self)@.cycles,
            final(self)@.status_time == old(self)@.status_time,
            ym3438_host_frame(old(self)@, final(self)@),
            ym3438_output_frame(old(self)@, final(self)@),
    {
        let slot: usize = self.cycles;
        let dt: u8 = self.dt[slot];
        let dt_l: u8 = dt & 0x03;
        let mut detune: u8 = 0;
        let fnum: u32 = self.pg_fnum_lfo();
        let mut basefreq: i32 = #[verifier::truncate] ((fnum.wrapping_shl(self.pg_block as u32) >> 2) as i32);
        if dt_l != 0 {
            proof {
                crate::bits::lemma_u8_bits(dt);
            }
            detune = Self::pg_detune(self.pg_kcode, dt_l);
        }
        if (dt & 0x04) != 0 {
            basefreq = basefreq.wrapping_sub(detune as i32);
        } else {
            basefreq = basefreq.wrapping_add(detune as i32);
        }
        basefreq = basefreq & 0x1ffff;
        let inc: u32 = ((#[verifier::truncate] (basefreq as u32)).wrapping_mul(self.multi[slot] as u32) >> 1) & 0xfffff;
        self.pg_inc.set(slot, inc);
    }

    /// The SSG-EG latches of the current slot.
    fn opn2_envelope_ssg_eg(&mut self)
        requires
            old(self).wf(),
        ensures
            final(self).wf(),
            final(self)@ == spec_envelope_ssg_eg(old(self)@),
            final(self)@.cycles == old(self)@.cycles,
            final(self)@.status_time == old(self)@.status_time,
            ym3438_host_frame(old(self)@, final(self)@),
            ym3438_output_frame(old(self)@, final(self)@),
    {
        let slot: usize = self.cycles;
        let ssg: u8 = self.ssg_eg[slot];
        let on: bool = (ssg & 0x08) != 0;
        let high: bool = (self.eg_level[slot] & 0x200) != 0;
        let dir0: u8 = self.eg_ssg_dir[slot];
        let kon: u8 = self.eg_kon[slot];
        let pgrst: u8 = if on && high && (ssg & 0x03) == 0x00 { 1 } else { 0 };
        let repeat: u8 = if on && high && (ssg & 0x01) == 0x00 { 1 } else { 0 };
        let hold: u8 = if on && self.eg_kon_latch[slot] != 0 && ((ssg & 0x07) == 0x05 || (ssg & 0x07) == 0x03) { 1 } else { 0 };
        let dir1: u8 = if high && (ssg & 0x03) == 0x02 {
            dir0 ^ 1
        } else if high && (ssg & 0x03) == 0x03 {
            1
        } else {
            dir0
        };
        let direction: u8 = if on { dir1 & kon } else { 0 };
        let inv: u8 = if on { (dir0 ^ ((ssg >> 2) & 0x01)) & kon } else { 0 };
        self.eg_ssg_pgrst_latch.set(slot, pgrst);
        self.eg_ssg_repeat_latch.set(slot, repeat);
        self.eg_ssg_hold_up_latch.set(slot, hold);
        self.eg_ssg_inv.set(slot, inv);
        self.eg_ssg_dir.set(slot, direction);
        self.eg_ssg_enable.set(slot, (ssg >> 3) & 0x01);
    }

    /// The envelope state machine of the slot two cycles back: key on/off
    /// events, attack/decay/sustain/release steps, SSG-EG inversion and the
    /// envelope-off check.
    #[verifier::rlimit(100)]
    fn opn2_envelope_adsr(&mut self)
        requires
            old(self).wf(),
        ensures
            final(self).wf(),
            final(self)@ == spec_envelope_adsr(old(self)@),
            final(self)@.cycles == old(self)@.cycles,
            final(self)@.status_time == old(self)@.status_time,
            ym3438_host_frame(old(self)@, final(self)@),
            ym3438_output_frame(old(self)@, final(self)@),
    {
        let slot: usize = (self.cycles + 22) % 24;
        let nkon: u8 = self.eg_kon_latch[slot];
        let okon: u8 = self.eg_kon[slot];
        let mut nextstate: EgNum = self.eg_state[slot];
        let mut inc: i16 = 0;
        self.eg_read.set(0, self.eg_read_inc as u32);
        self.eg_read_inc = if self.eg_inc > 0 { 1 } else { 0 };

        let pgrst: u8 = if (nkon != 0 && okon == 0) || self.eg_ssg_pgrst_latch[slot] != 0 { 1 } else { 0 };
        self.pg_reset.set(slot, pgrst);

        let kon_event: bool = (nkon != 0 && okon == 0) || (okon != 0 && self.eg_ssg_repeat_latch[slot] != 0);
        let koff_event: bool = okon != 0 && nkon == 0;

        let mut level: i16 = #[verifier::truncate] (self.eg_level[slot] as i16);
        let mut ssg_level: i16 = level;
        if self.eg_ssg_inv[slot] != 0 {
            ssg_level = 512i16.wrapping_sub(level);
            ssg_level = ssg_level & 0x3ff;
        }
        if koff_event {
            level = ssg_level;
        }
        let eg_off: bool = if self.eg_ssg_enable[slot] != 0 {
            (level >> 9) as u8 != 0
        } else {
            (level & 0x3f0) == 0x3f0
        };
        let mut nextlevel: i16 = level;
        let eg_inc: u32 = self.eg_inc as u32;
        if kon_event {
            nextstate = EgNum::Attack;
            if self.eg_ratemax != 0 {
                nextlevel = 0;
            } else if self.eg_state[slot] == EgNum::Attack && level != 0 && self.eg_inc != 0 && nkon != 0 {
                inc = (!level).wrapping_shl(eg_inc) >> 5;
            }
        } else {
            match self.eg_state[slot] {
                EgNum::Attack => {
                    if level == 0 {
                        nextstate = EgNum::Decay;
                    } else if self.eg_inc != 0 && self.eg_ratemax == 0 && nkon != 0 {
                        inc = (!level).wrapping_shl(eg_inc) >> 5;
                    }
                },
                EgNum::Decay => {
                    if (level >> 5) == self.eg_sl[1] as i16 {
                        nextstate = EgNum::Sustain;
                    } else if !eg_off && self.eg_inc != 0 {
                        inc = 1i16.wrapping_shl(eg_inc.wrapping_sub(1));
                        if self.eg_ssg_enable[slot] != 0 {
                            inc = inc.wrapping_shl(2);
                        }
                    }
                },
                _ => {
                    if !eg_off && self.eg_inc != 0 {
                        inc = 1i16.wrapping_shl(eg_inc.wrapping_sub(1));
                        if self.eg_ssg_enable[slot] != 0 {
                            inc = inc.wrapping_shl(2);
                        }
                    }
                },
            }
            if nkon == 0 {
                nextstate = EgNum::Release;
            }
        }
        if self.eg_kon_csm[slot] != 0 {
            nextlevel = nextlevel | (self.eg_tl[1] as i16).wrapping_shl(3);
        }
        if !kon_event && self.eg_ssg_hold_up_latch[slot] == 0 && self.eg_state[slot] != EgNum::Attack && eg_off {
            nextstate = EgNum::Release;
            nextlevel = 0x3ff;
        }
        nextlevel = nextlevel.wrapping_add(inc);
        self.eg_kon.set(slot, nkon);
        self.eg_level.set(slot, #[verifier::truncate] ((nextlevel & 0x3ff) as u16));
        self.eg_state.set(slot, nextstate);
    }

    /// The envelope step size of a rate (see `spec_eg_inc`).
    fn eg_step(&self, rate: u8) -> (r: u8)
        requires
            self.wf(),
            rate <= 0x3f,
        ensures
            r == spec_eg_inc(self@, rate),
    {
        let sum: u8 = ((rate >> 2).wrapping_add(self.eg_shift_lock)) & 0x0f;
        proof {
            crate::bits::lemma_u8_bits(rate);
        }
        if self.eg_rate != 0 && self.eg_quotient == 2 {
            if rate < 48 {
                if sum == 12 {
                    1
                } else if sum == 13 {
                    (rate >> 1) & 0x01
                } else if sum == 14 {
                    rate & 0x01
                } else {
                    0
                }
            } else {
                let hi: u8 = EG_STEPHI[(rate & 0x03) as usize * 4 + self.eg_timer_low_lock as usize] as u8;
                let inc: u8 = hi.wrapping_add(rate >> 2).wrapping_sub(11);
                if inc > 4 { 4 } else { inc }
            }
        } else {
            0
        }
    }

    /// The envelope rate and increment for the current slot, and the delayed
    /// TL and SL values.
    fn opn2_envelope_prepare(&mut self)
        requires
            old(self).wf(),
        ensures
            final(self).wf(),
            final(self)@ == spec_envelope_prepare(old(self)@),
            final(self)@.cycles == old(self)@.cycles,
            final(self)@.status_time == old(self)@.status_time,
            ym3438_host_frame(old(self)@, final(self)@),
            ym3438_output_frame(old(self)@, final(self)@),
    {
        let slot: usize = self.cycles;
        let mut rate: u8 = (self.eg_rate.wrapping_shl(1)).wrapping_add(self.eg_ksv);
        if rate > 0x3f {
            rate = 0x3f;
        }
        let inc: u8 = self.eg_step(rate);
        self.eg_inc = inc;
        self.eg_ratemax = if (rate >> 1) == 0x1f { 1 } else { 0 };

        let mut rate_sel: EgNum = self.eg_state[slot];
        if (self.eg_kon[slot] != 0 && self.eg_ssg_repeat_latch[slot] != 0)
            || (self.eg_kon[slot] == 0 && self.eg_kon_latch[slot] != 0) {
            rate_sel = EgNum::Attack;
        }
        match rate_sel {
            EgNum::Attack => {
                self.eg_rate = self.ar[slot];
            },
            EgNum::Decay => {
                self.eg_rate = self.dr[slot];
            },
            EgNum::Sustain => {
                self.eg_rate = self.sr[slot];
            },
            EgNum::Release => {
                self.eg_rate = (self.rr[slot].wrapping_shl(1)) | 0x01;
            },
        }
        self.eg_ksv = self.pg_kcode.wrapping_shr((self.ks[slot] ^ 0x03) as u32);
        if self.am[slot] != 0 {
            let sh = EG_AM_SHIFT[self.ams[self.channel] as usize];
            self.eg_lfo_am = self.lfo_am.wrapping_shr(sh as u32);
        } else {
            self.eg_lfo_am = 0;
        }
        let tl0 = self.eg_tl[0];
        self.eg_tl.set(1, tl0);
        let tl = self.tl[slot];
        self.eg_tl.set(0, tl);
        let sl0 = self.eg_sl[0];
        self.eg_sl.set(1, sl0);
        let sl = self.sl[slot];
        self.eg_sl.set(0, sl);
    }

    /// The envelope output of the slot one cycle behind: level (inverted for
    /// SSG-EG), plus AM and TL, capped at 0x3ff.
    fn opn2_envelope_generate(&mut self)
        requires
            old(self).wf(),
        ensures
            final(self).wf(),
            final(self)@ == spec_envelope_generate(old(self)@),
            final(self)@.cycles == old(self)@.cycles,
            final(self)@.status_time == old(self)@.status_time,
            ym3438_host_frame(old(self)@, final(self)@),
            ym3438_output_frame(old(self)@, final(self)@),
    {
        let slot: usize = (self.cycles + 23) % 24;
        let mut level: u16 = self.eg_level[slot];
        if self.eg_ssg_inv[slot] != 0 {
            level = 512u16.wrapping_sub(level);
        }
        if self.mode_test_21[5] != 0 {
            level = 0;
        }
        level = level & 0x3ff;
        level = level.wrapping_add(self.eg_lfo_am as u16);
        if !(self.mode_csm != 0 && self.channel == 2 + 1) {
            level = level.wrapping_add((self.eg_tl[0] as u16).wrapping_shl(3));
        }
        if level > 0x3ff {
            level = 0x3ff;
        }
        self.eg_out.set(slot, level);
    }
}

impl YM3438 {
    /// The modulation input of the slot six cycles ahead, by the channel's
    /// algorithm, and the operator outputs latched for it.
    fn opn2_fm_prepare(&mut self)
        requires
            old(self).wf(),
        ensures
            final(self).wf(),
            final(self)@ == spec_fm_prepare(old(self)@),
            final(self)@.cycles == old(self)@.cycles,
            final(self)@.status_time == old(self)@.status_time,
            ym3438_host_frame(old(self)@, final(self)@),
            ym3438_output_frame(old(self)@, final(self)@),
    {
        let slot: usize = (self.cycles + 6) % 24;
        let channel: usize = self.channel;
        let modulation: i16 = self.fm_modulation();
        self.fm_mod.set(slot, #[verifier::truncate] (modulation as u16));
        let prev: usize = (self.cycles + 18) % 24;
        if prev / 6 == 0 {
            let o = self.fm_op1[channel * 2];
            let f = self.fm_out[prev];
            self.fm_op1.set(channel * 2 + 1, o);
            self.fm_op1.set(channel * 2, f);
        }
        if prev / 6 == 2 {
            let f = self.fm_out[prev];
            self.fm_op2.set(channel, f);
        }
    }

    /// The modulation of the slot six cycles ahead.
    fn fm_modulation(&self) -> (r: i16)
        requires
            self.wf(),
        ensures
            r == spec_fm_modulation(self@),
    {
        let slot: usize = (self.cycles + 6) % 24;
        let channel: usize = self.channel;
        let op: usize = slot / 6;
        let prev: usize = (self.cycles + 18) % 24;
        let base: usize = op * 48 + self.connect[channel] as usize;
        let m2a: i16 = if FM_ALGORITHM[base] != 0 { 0i16 | self.fm_op1[channel * 2] } else { 0 };
        let m1a: i16 = if FM_ALGORITHM[base + 8] != 0 { 0i16 | self.fm_op1[channel * 2 + 1] } else { 0 };
        let m1b: i16 = if FM_ALGORITHM[base + 16] != 0 { m1a | self.fm_op2[channel] } else { m1a };
        let m2: i16 = if FM_ALGORITHM[base + 24] != 0 { m2a | self.fm_out[prev] } else { m2a };
        let m1: i16 = if FM_ALGORITHM[base + 32] != 0 { m1b | self.fm_out[prev] } else { m1b };
        let sum: i16 = m1.wrapping_add(m2);
        if op == 0 {
            if self.fb[channel] == 0 { 0 } else { sum.wrapping_shr((10 - self.fb[channel]) as u32) }
        } else {
            sum >> 1
        }
    }

    /// The operator output of the slot nineteen cycles behind: phase plus
    /// modulation through the log-sine and exponent tables, attenuated by
    /// the envelope.
    fn opn2_fm_generate(&mut self)
        requires
            old(self).wf(),
        ensures
            final(self).wf(),
            final(self)@ == spec_fm_generate(old(self)@),
            final(self)@.cycles == old(self)@.cycles,
            final(self)@.status_time == old(self)@.status_time,
            ym3438_host_frame(old(self)@, final(self)@),
            ym3438_output_frame(old(self)@, final(self)@),
    {
        let slot: usize = (self.cycles + 19) % 24;
        let phase: u16 = #[verifier::truncate] (((self.fm_mod[slot] as u32).wrapping_add(self.pg_phase[slot] >> 10) & 0x3ff) as u16);
        let quarter: usize = if phase & 0x100 != 0 { ((phase ^ 0xff) & 0xff) as usize } else { (phase & 0xff) as usize };
        proof {
            crate::bits::lemma_u16_bits(phase);
            crate::bits::lemma_u16_bits(phase ^ 0xff);
        }
        let mut level: u16 = LOGSINROM[quarter];
        level = level.wrapping_add(self.eg_out[slot].wrapping_shl(2));
        if level > 0x1fff {
            level = 0x1fff;
        }
        proof {
            crate::bits::lemma_u16_bits(level);
        }
        let e: u32 = EXPROM[((level & 0xff) ^ 0xff) as usize] as u32;
        let mut output: i16 = #[verifier::truncate] ((((e | 0x400) << 2) >> ((level >> 8) as u32)) as i16);
        let t: i16 = #[verifier::truncate] ((self.mode_test_21[4] as u16).wrapping_shl(13) as i16);
        if phase & 0x200 != 0 {
            output = ((!output) ^ t).wrapping_add(1);
        } else {
            output = output ^ t;
        }
        output = output.wrapping_shl(2) >> 2;
        self.fm_out.set(slot, output);
    }

    /// Accumulate the channel output of the slot eighteen cycles behind,
    /// clamped to nine bits.
    fn opn2_ch_generate(&mut self)
        requires
            old(self).wf(),
        ensures
            final(self).wf(),
            final(self)@ == spec_ch_generate(old(self)@),
            final(self)@.cycles == old(self)@.cycles,
            final(self)@.status_time == old(self)@.status_time,
            ym3438_host_frame(old(self)@, final(self)@),
            ym3438_output_frame(old(self)@, final(self)@),
    {
        let slot: usize = (self.cycles + 18) % 24;
        let channel: usize = self.channel;
        let op: usize = slot / 6;
        let test_dac: u32 = self.mode_test_2c[5] as u32;
        let mut acc: i16 = self.ch_acc[channel];
        let mut add: i16 = #[verifier::truncate] (test_dac as i16);
        if op == 0 && test_dac == 0 {
            acc = 0;
        }
        if FM_ALGORITHM[op * 48 + 40 + self.connect[channel] as usize] != 0 && test_dac == 0 {
            add = add.wrapping_add(self.fm_out[slot] >> 5);
        }
        let mut sum: i16 = acc.wrapping_add(add);
        if sum > 255 {
            sum = 255;
        } else if sum < -256 {
            sum = -256;
        }
        if op == 0 || test_dac != 0 {
            let o = self.ch_acc[channel];
            self.ch_out.set(channel, o);
        }
        self.ch_acc.set(channel, sum);
    }

    /// The output latch and DAC: lock a channel output and its panning every
    /// fourth cycle, and drive the left and right outputs (the YM2612's DAC
    /// adds its offset and gain).
    #[verifier::rlimit(80)]
    fn opn2_ch_output(&mut self)
        requires
            old(self).wf(),
        ensures
            final(self).wf(),
            final(self)@ == spec_ch_output(old(self)@),
            final(self)@.cycles == old(self)@.cycles,
            final(self)@.status_time == old(self)@.status_time,
            ym3438_host_frame(old(self)@, final(self)@),
    {
        let cycles: usize = self.cycles;
        let slot: usize = self.cycles;
        let mut channel: usize = self.channel;
        let test_dac: u32 = self.mode_test_2c[5] as u32;
        self.ch_read = self.ch_lock;
        if slot < 12 {
            channel = channel + 1;
        }
        proof {
            crate::bits::lemma_usize_bits(cycles);
        }
        if cycles & 3 == 0 {
            if test_dac == 0 {
                self.ch_lock = self.ch_out[channel];
            }
            self.ch_lock_l = self.pan_l[channel];
            self.ch_lock_r = self.pan_r[channel];
        }
        let mut out: i16 = if ((cycles >> 2) == 1 && self.dacen != 0) || test_dac != 0 {
            self.dacdata.wrapping_shl(7) >> 7
        } else {
            self.ch_lock
        };
        self.mol = 0;
        self.mor = 0;
        if self.chip_type == YM3438Mode::YM2612 {
            let out_en: bool = cycles & 3 == 3 || test_dac != 0;
            let mut sign: i16 = out >> 8;
            if out >= 0 {
                out = out.wrapping_add(1);
                sign = sign.wrapping_add(1);
            }
            self.mol = if self.ch_lock_l != 0 && out_en { out } else { sign };
            self.mor = if self.ch_lock_r != 0 && out_en { out } else { sign };
            self.mol = self.mol.wrapping_mul(3);
            self.mor = self.mor.wrapping_mul(3);
        } else {
            let out_en: bool = (cycles & 3) != 0 || test_dac != 0;
            if self.ch_lock_l != 0 && out_en {
                self.mol = out;
            }
            if self.ch_lock_r != 0 && out_en {
                self.mor = out;
            }
        }
    }
}

impl YM3438 {
    /// Write an operator register (0x30-0x90 ranges) of slot `slot`.
    fn write_slot_reg(&mut self, slot: usize, address: u32, data: u8)
        requires
            old(self).wf(),
            slot < 24,
        ensures
            final(self).wf(),
            final(self)@ == spec_slot_reg(old(self)@, slot as int, address, data),
    {
        proof {
            crate::bits::lemma_u8_bits(data);
            crate::bits::lemma_u8_bits(data >> 4u8);
        }
        if address == 0x30 {
            let m: u8 = data & 0x0f;
            if m == 0 {
                self.multi.set(slot, 1);
            } else {
                self.multi.set(slot, m * 2);
            }
            self.dt.set(slot, (data >> 4) & 0x07);
        } else if address == 0x40 {
            self.tl.set(slot, data & 0x7f);
        } else if address == 0x50 {
            self.ar.set(slot, data & 0x1f);
            self.ks.set(slot, (data >> 6) & 0x03);
        } else if address == 0x60 {
            self.dr.set(slot, data & 0x1f);
            self.am.set(slot, (data >> 7) & 0x01);
        } else if address == 0x70 {
            self.sr.set(slot, data & 0x1f);
        } else if address == 0x80 {
            self.rr.set(slot, data & 0x0f);
            let sl: u8 = (data >> 4) & 0x0f;
            self.sl.set(slot, sl | ((sl + 1) & 0x10));
        } else if address == 0x90 {
            self.ssg_eg.set(slot, data & 0x0f);
        }
    }

    /// Write a channel register (0xa0-0xb4 ranges) of channel `channel`.
    fn write_channel_reg(&mut self, channel: usize, address: u32, data: u8)
        requires
            old(self).wf(),
            channel < 6,
        ensures
            final(self).wf(),
            final(self)@ == spec_channel_reg(old(self)@, channel as int, address, data),
    {
        proof {
            crate::bits::lemma_u8_bits(data);
            crate::bits::lemma_u8_bits(data >> 3u8);
            crate::bits::lemma_u8_bits(data >> 4u8);
            crate::bits::lemma_u8_shifts(self.reg_a4, data);
            crate::bits::lemma_u8_shifts(self.reg_ac, data);
            crate::bits::lemma_u8_bits(self.reg_a4 >> 3u8);
            crate::bits::lemma_u8_bits(self.reg_ac >> 3u8);
        }
        if address == 0xa0 {
            let fnum: u16 = (data as u16 & 0xff) | ((self.reg_a4 as u16 & 0x07) << 8);
            self.fnum.set(channel, fnum);
            let block: u8 = (self.reg_a4 >> 3) & 0x07;
            self.block.set(channel, block);
            let kc: u8 = #[verifier::truncate] (((block * 4) as u32 | FN_NOTE[(fnum >> 7) as usize]) as u8);
            self.kcode.set(channel, kc);
        } else if address == 0xa4 {
            self.reg_a4 = data;
        } else if address == 0xa8 {
            let fnum: u16 = (data as u16 & 0xff) | ((self.reg_ac as u16 & 0x07) << 8);
            self.fnum_3ch.set(channel, fnum);
            let block: u8 = (self.reg_ac >> 3) & 0x07;
            self.block_3ch.set(channel, block);
            let kc: u8 = #[verifier::truncate] (((block * 4) as u32 | FN_NOTE[(fnum >> 7) as usize]) as u8);
            self.kcode_3ch.set(channel, kc);
        } else if address == 0xac {
            self.reg_ac = data;
        } else if address == 0xb0 {
            self.connect.set(channel, data & 0x07);
            self.fb.set(channel, (data >> 3) & 0x07);
        } else if address == 0xb4 {
            self.pms.set(channel, data & 0x07);
            self.ams.set(channel, (data >> 4) & 0x03);
            self.pan_l.set(channel, (data >> 7) & 0x01);
            self.pan_r.set(channel, (data >> 6) & 0x01);
        }
    }

    /// The bits of a test register value, lowest first.
    fn register_bits(wd: u16, n: usize, first: usize) -> (r: Vec<u8>)
        requires
            first + n <= 16,
        ensures
            r@ == Seq::new(n as nat, |i: int| ((wd >> ((first + i) as u16)) & 0x01) as u8),
    {
        let mut r: Vec<u8> = Vec::new();
        let mut i: usize = 0;
        while i < n
            invariant
                i <= n,
                first + n <= 16,
                r@ == Seq::new(i as nat, |k: int| ((wd >> ((first + k) as u16)) & 0x01) as u8),
            decreases n - i,
        {
            let b: u8 = #[verifier::truncate] (((wd >> ((first + i) as u16)) & 0x01) as u8);
            r.push(b);
            i = i + 1;
            assert(r@ =~= Seq::new(i as nat, |k: int| ((wd >> ((first + k) as u16)) & 0x01) as u8));
        }
        r
    }

    /// Write a mode register (0x21-0x2c) with the latched bus value.
    fn write_mode_reg(&mut self)
        requires
            old(self).wf(),
            old(self)@.write_data & 0x100 == 0,
        ensures
            final(self).wf(),
            final(self)@ == spec_mode_reg(old(self)@),
    {
        let wd: u16 = self.write_data;
        proof {
            crate::bits::lemma_u16_bits(wd);
            crate::bits::lemma_u16_bits(wd >> 2u16);
        }
        let mode: u8 = self.write_fm_mode_a;
        if mode == 0x21 {
            let bits = Self::register_bits(wd, 8, 0);
            proof {
                assert forall|i: int| 0 <= i < 8 implies #[trigger] bits@[i] <= 1 by {
                    crate::bits::lemma_u16_bits(wd >> (i as u16));
                }
            }
            self.mode_test_21 = bits;
        } else if mode == 0x22 {
            if ((wd >> 3) & 0x01) != 0 {
                self.lfo_en = 0x7f;
            } else {
                self.lfo_en = 0;
            }
            self.lfo_freq = (wd & 0x07) as u8;
        } else if mode == 0x24 {
            self.timer_a_reg = (self.timer_a_reg & 0x03) | ((wd & 0xff) * 4);
        } else if mode == 0x25 {
            self.timer_a_reg = (self.timer_a_reg & 0x3fc) | (wd & 0x03);
        } else if mode == 0x26 {
            self.timer_b_reg = wd & 0xff;
        } else if mode == 0x27 {
            self.mode_ch3 = #[verifier::truncate] (((wd & 0xc0) >> 6) as u8);
            self.mode_csm = if self.mode_ch3 == 2 { 1 } else { 0 };
            self.timer_a_load = (wd & 0x01) as u8;
            self.timer_a_enable = #[verifier::truncate] (((wd >> 2) & 0x01) as u8);
            self.timer_a_reset = #[verifier::truncate] (((wd >> 4) & 0x01) as u8);
            self.timer_b_load = #[verifier::truncate] (((wd >> 1) & 0x01) as u8);
            self.timer_b_enable = #[verifier::truncate] (((wd >> 3) & 0x01) as u8);
            self.timer_b_reset = #[verifier::truncate] (((wd >> 5) & 0x01) as u8);
        } else if mode == 0x28 {
            self.mode_kon_operator = Self::register_bits(wd, 4, 4);
            if (wd & 0x03) == 0x03 {
                self.mode_kon_channel = 0xff;
            } else {
                self.mode_kon_channel = #[verifier::truncate] (((wd & 0x03) + ((wd >> 2) & 1) * 3) as u8);
            }
        } else if mode == 0x2a {
            self.dacdata = (self.dacdata & 0x01) | #[verifier::truncate] (((wd ^ 0x80).wrapping_shl(1)) as i16);
        } else if mode == 0x2b {
            self.dacen = (wd >> 7) as u8;
        } else if mode == 0x2c {
            let bits = Self::register_bits(wd, 8, 0);
            self.dacdata = (self.dacdata & 0x1fe) | bits[3] as i16;
            self.eg_custom_timer = if bits[7] == 0 && bits[6] != 0 { 1 } else { 0 };
            self.mode_test_2c = bits;
        }
    }

    /// A pending data write goes to the operator register of the current
    /// slot and the channel register of the current channel, where the
    /// latched address names them.
    fn take_pending_data(&mut self)
        requires
            old(self).wf(),
        ensures
            final(self).wf(),
            final(self)@ == spec_take_pending(old(self)@),
            final(self)@.cycles == old(self)@.cycles,
            final(self)@.status_time == old(self)@.status_time,
            ym3438_host_frame(old(self)@, final(self)@),
    {
        let mut slot: usize = self.cycles % 12;
        let channel: usize = self.channel;
        if self.write_fm_data != 0 {
            if OP_OFFSET[slot] == self.address as u32 & 0x107 {
                if self.address & 0x08 != 0 {
                    slot = slot + 12;
                }
                let address: u32 = self.address as u32 & 0xf0;
                let data = self.data;
                self.write_slot_reg(slot, address, data);
            }
            if CH_OFFSET[channel] == self.address as u32 & 0x103 {
                let address: u32 = self.address as u32 & 0xfc;
                let data = self.data;
                self.write_channel_reg(channel, address, data);
            }
        }
    }

    /// Latch what the bus strobes bring: a new register address, a mode
    /// register value, or data for the next write.
    #[verifier::rlimit(40)]
    fn latch_bus(&mut self)
        requires
            old(self).wf(),
        ensures
            final(self).wf(),
            final(self)@ == spec_latch_bus(old(self)@),
            final(self)@.cycles == old(self)@.cycles,
            final(self)@.status_time == old(self)@.status_time,
            ym3438_host_frame(old(self)@, final(self)@),
    {
        if self.write_a_en != 0 || self.write_d_en != 0 {
            if self.write_a_en != 0 {
                self.write_fm_data = 0;
            }
            if self.write_fm_address != 0 && self.write_d_en != 0 {
                self.write_fm_data = 1;
            }
            if self.write_a_en != 0 {
                if (self.write_data & 0xf0) != 0x00 {
                    self.address = self.write_data;
                    self.write_fm_address = 1;
                } else {
                    self.write_fm_address = 0;
                }
            }
            if self.write_d_en != 0 && (self.write_data & 0x100) == 0 {
                self.write_mode_reg();
            }
            if self.write_a_en != 0 {
                self.write_fm_mode_a = #[verifier::truncate] ((self.write_data & 0x1ff) as u8);
            }
        }
        if self.write_fm_data != 0 {
            self.data = #[verifier::truncate] ((self.write_data & 0xff) as u8);
        }
    }

    /// Take in the register writes: first a pending data write, then what
    /// the bus strobes latch.
    fn opn2_do_reg_write(&mut self)
        requires
            old(self).wf(),
        ensures
            final(self).wf(),
            final(self)@ == spec_latch_bus(spec_take_pending(old(self)@)),
            final(self)@.cycles == old(self)@.cycles,
            final(self)@.status_time == old(self)@.status_time,
            ym3438_host_frame(old(self)@, final(self)@),
            ym3438_output_frame(old(self)@, final(self)@),
    {
        self.take_pending_data();
        self.latch_bus();
    }
}

impl YM3438 {
    /// The envelope timer and LFO work of the cycle, before the slot units.
    fn clock_timers(&mut self)
        requires
            old(self).wf(),
        ensures
            final(self).wf(),
            final(self)@ == spec_clock_timers(old(self)@),
            final(self)@.cycles == old(self)@.cycles,
            final(self)@.status_time == old(self)@.status_time,
            ym3438_host_frame(old(self)@, final(self)@),
            ym3438_output_inputs_frame(old(self)@, final(self)@),
    {
        self.lfo_inc = self.mode_test_21[1];
        self.pg_read = self.pg_read >> 1;
        let r1: u32 = if self.cycles == 2 { self.eg_out[0] as u32 } else { self.eg_read[1] >> 1 };
        self.eg_read.set(1, r1);
        self.eg_cycle = self.eg_cycle.wrapping_add(1);
        if self.cycles == 1 && self.eg_quotient == 2 {
            if self.eg_cycle_stop != 0 {
                self.eg_shift_lock = 0;
            } else {
                self.eg_shift_lock = self.eg_shift.wrapping_add(1);
            }
            proof {
                crate::bits::lemma_u16_bits(self.eg_timer);
            }
            self.eg_timer_low_lock = (self.eg_timer & 0x03) as u8;
        }
        if self.cycles == 0 {
            self.lfo_pm = self.lfo_cnt >> 2;
            if self.lfo_cnt & 0x40 != 0 {
                self.lfo_am = self.lfo_cnt & 0x3f;
            } else {
                self.lfo_am = self.lfo_cnt ^ 0x3f;
            }
            self.lfo_am = self.lfo_am.wrapping_shl(1);
        } else if self.cycles == 1 {
            self.eg_quotient = self.eg_quotient.wrapping_add(1) % 3;
            self.eg_cycle = 0;
            self.eg_cycle_stop = 1;
            self.eg_shift = 0;
            self.eg_timer_inc = self.eg_timer_inc | #[verifier::truncate] ((self.eg_quotient >> 1) as u8);
            self.eg_timer = self.eg_timer.wrapping_add(self.eg_timer_inc as u16);
            self.eg_timer_inc = #[verifier::truncate] ((self.eg_timer >> 12) as u8);
            self.eg_timer = self.eg_timer & 0xfff;
        } else if self.cycles == 2 {
            self.pg_read = self.pg_phase[21] & 0x3ff;
        } else if self.cycles == 13 {
            self.eg_cycle = 0;
            self.eg_cycle_stop = 1;
            self.eg_shift = 0;
            self.eg_timer = self.eg_timer.wrapping_add(self.eg_timer_inc as u16);
            self.eg_timer_inc = #[verifier::truncate] ((self.eg_timer >> 12) as u8);
            self.eg_timer = self.eg_timer & 0xfff;
        } else if self.cycles == 23 {
            self.lfo_inc = self.lfo_inc | 1;
        }
        self.eg_timer = self.eg_timer & !((self.mode_test_21[5] as u16).wrapping_shl(self.eg_cycle as u32));
        if ((self.eg_timer.wrapping_shr(self.eg_cycle as u32)) | ((self.pin_test_in & self.eg_custom_timer) as u16))
            & (self.eg_cycle_stop as u16) != 0 {
            self.eg_shift = self.eg_cycle;
            self.eg_cycle_stop = 0;
        }
    }

    /// Select the F-number, block and key code for the next slot (channel 3
    /// special mode gives each of its operators its own).
    fn prepare_fnum(&mut self, slot: usize)
        requires
            old(self).wf(),
        ensures
            final(self).wf(),
            final(self)@ == spec_prepare_fnum(old(self)@, slot),
            final(self)@.cycles == old(self)@.cycles,
            final(self)@.status_time == old(self)@.status_time,
            ym3438_host_frame(old(self)@, final(self)@),
            ym3438_output_frame(old(self)@, final(self)@),
    {
        let next: usize = (self.channel + 1) % 6;
        if self.mode_ch3 != 0 && slot == 1 {
            self.pg_fnum = self.fnum_3ch[1];
            self.pg_block = self.block_3ch[1];
            self.pg_kcode = self.kcode_3ch[1];
        } else if self.mode_ch3 != 0 && slot == 7 {
            self.pg_fnum = self.fnum_3ch[0];
            self.pg_block = self.block_3ch[0];
            self.pg_kcode = self.kcode_3ch[0];
        } else if self.mode_ch3 != 0 && slot == 13 {
            self.pg_fnum = self.fnum_3ch[2];
            self.pg_block = self.block_3ch[2];
            self.pg_kcode = self.kcode_3ch[2];
        } else {
            self.pg_fnum = self.fnum[next];
            self.pg_block = self.block[next];
            self.pg_kcode = self.kcode[next];
        }
    }

    /// Run the chip for one slot cycle: timers, bus, key-on, output,
    /// operators, phase and envelope units, then register writes; the slot
    /// cycle advances (24 per sample). Returns the (left, right) output of
    /// the cycle, which the output stage computes from the state the cycle
    /// starts in (see `spec_ch_output`).
    #[verifier::rlimit(60)]
    pub fn opn2_clock(&mut self) -> (r: (i16, i16))
        requires
            old(self).wf(),
        ensures
            final(self).wf(),
            final(self)@.cycles == (old(self)@.cycles + 1) % 24,
            final(self)@.channel == final(self)@.cycles % 6,
            r == (final(self)@.mol, final(self)@.mor),
            r == spec_cycle_output(old(self)@),
            final(self)@ == spec_opn2_cycle(old(self)@),
            ym3438_host_frame(old(self)@, final(self)@),
            final(self)@.status_time == if old(self)@.status_time != 0 { (old(self)@.status_time - 1) as u32 } else { 0u32 },
    {
        let slot: usize = self.cycles;
        self.clock_timers();
        self.opn2_do_io();
        self.opn2_do_timer_a();
        self.opn2_do_timer_b();
        self.opn2_key_on();
        self.opn2_ch_output();
        self.opn2_ch_generate();
        self.opn2_fm_prepare();
        self.opn2_fm_generate();
        self.opn2_phase_generate();
        self.opn2_phase_calc_increment();
        self.opn2_envelope_adsr();
        self.opn2_envelope_generate();
        self.opn2_envelope_ssg_eg();
        self.opn2_envelope_prepare();
        self.prepare_fnum(slot);
        self.opn2_update_lfo();
        self.opn2_do_reg_write();
        self.cycles = (self.cycles + 1) % 24;
        self.channel = self.cycles % 6;
        if self.status_time != 0 {
            self.status_time = self.status_time - 1;
        }
        proof {
            reveal(spec_opn2_cycle);
        }
        (self.mol, self.mor)
    }
}


/// The byte that a status read latches: test data (the phase and envelope
/// read bits over the channel or operator output, high or low byte as
/// register 0x21 bit 7 selects) where register 0x21 bit 6 is set, else busy
/// and the two timer overflow flags.
pub open spec fn spec_opn2_status(s: YM3438View) -> u8 {
    if s.mode_test_21[6] != 0 {
        let slot = (s.cycles + 18) % 24;
        let high: u16 = (((s.pg_read & 0x01) << 15u32) | ((s.eg_read[s.mode_test_21[0] as int] & 0x01) << 14u32)) as u16;
        let testdata: u16 = high | if s.mode_test_2c[4] != 0 {
            (s.ch_read & 0x1ff) as u16
        } else {
            (s.fm_out[slot] & 0x3fff) as u16
        };
        if s.mode_test_21[7] != 0 { (testdata & 0xff) as u8 } else { (testdata >> 8u16) as u8 }
    } else {
        (s.busy << 7u8) | (s.timer_b_overflow_flag << 1u8) | s.timer_a_overflow_flag
    }
}

/// How long a latched status stays readable, in slot cycles.
pub open spec fn spec_status_hold(chip_type: YM3438Mode) -> u32 {
    if chip_type == YM3438Mode::YM2612 { 300_000 } else { 40_000_000 }
}

/// The state after a status read of `port`.
pub open spec fn spec_opn2_read(s: YM3438View, port: u32) -> YM3438View {
    if spec_status_port(s, port) {
        YM3438View { status: spec_opn2_status(s), status_time: spec_status_hold(s.chip_type), ..s }
    } else {
        s
    }
}

/// The resampling ratio for a clock and an output rate: output samples of
/// 144 clocks each, with `RSM_FRAC` fraction bits (kept in 32 bits).
pub open spec fn spec_rateratio(clock: u32, sample_rate: u32) -> i32 {
    ((144 * sample_rate * 1024) / (clock as int)) as i32
}

/// The state after a reset: envelopes silent and in attack, multipliers 1,
/// both pans on, YM2612 mode, and the ratio set from the rates (kept where
/// the rate is 0). Everything else is left as it was.
pub open spec fn spec_opn2_reset(s: YM3438View, clock: u32, sample_rate: u32) -> YM3438View {
    YM3438View {
        clock: clock,
        sample_rate: sample_rate,
        eg_out: Seq::new(24, |i: int| 0x3ffu16),
        eg_level: Seq::new(24, |i: int| 0x3ffu16),
        eg_state: Seq::new(24, |i: int| EgNum::Attack),
        multi: Seq::new(24, |i: int| 1u8),
        pan_l: Seq::new(6, |i: int| 1u8),
        pan_r: Seq::new(6, |i: int| 1u8),
        chip_type: YM3438Mode::YM2612,
        rateratio: if sample_rate != 0 { spec_rateratio(clock, sample_rate) } else { s.rateratio },
        ..s
    }
}

impl YM3438 {
    /// Read the status on `port`: a read of port 0 (or of any port in read
    /// mode) latches the status byte and holds it for a while; the byte is
    /// returned while it is held, else 0.
    pub fn opn2_read(&mut self, port: u32) -> (r: u8)
        requires
            old(self).wf(),
        ensures
            final(self).wf(),
            final(self)@ == spec_opn2_read(old(self)@, port),
            r == if final(self)@.status_time != 0 { final(self)@.status } else { 0u8 },
    {
        if (port & 3) == 0 || self.chip_type == YM3438Mode::ReadMode {
            if self.mode_test_21[6] != 0 {
                let slot: usize = (self.cycles + 18) % 24;
                let sel: usize = self.mode_test_21[0] as usize;
                let mut testdata: u16 = (((self.pg_read & 0x01) << 15) | ((self.eg_read[sel] & 0x01) << 14)) as u16;
                if self.mode_test_2c[4] != 0 {
                    testdata = testdata | (self.ch_read & 0x1ff) as u16;
                } else {
                    testdata = testdata | (self.fm_out[slot] & 0x3fff) as u16;
                }
                if self.mode_test_21[7] != 0 {
                    self.status = (testdata & 0xff) as u8;
                } else {
                    self.status = (testdata >> 8) as u8;
                }
            } else {
                self.status = (self.busy << 7) | (self.timer_b_overflow_flag << 1) | self.timer_a_overflow_flag;
            }
            if self.chip_type == YM3438Mode::YM2612 {
                self.status_time = 300_000;
            } else {
                self.status_time = 40_000_000;
            }
        }
        if self.status_time != 0 {
            return self.status;
        }
        0
    }

    /// Reset for a clock and an output rate (see `spec_opn2_reset`).
    pub fn reset(&mut self, clock: u32, sample_rate: u32)
        requires
            old(self).wf(),
            sample_rate != 0 ==> clock != 0,
            144 * sample_rate <= u32::MAX,
        ensures
            final(self).wf(),
            final(self)@ == spec_opn2_reset(old(self)@, clock, sample_rate),
    {
        self.clock = clock;
        self.sample_rate = sample_rate;
        self.eg_out = filled(24, 0x3ff);
        self.eg_level = filled(24, 0x3ff);
        self.eg_state = filled(24, EgNum::Attack);
        self.multi = filled(24, 1);
        self.pan_l = filled(6, 1);
        self.pan_r = filled(6, 1);
        self.chip_type = YM3438Mode::YM2612;
        if sample_rate != 0 {
            let scaled: u64 = (144 * sample_rate) as u64 * 1024;
            let ratio: u64 = scaled / (clock as u64);
            self.rateratio = #[verifier::truncate] (ratio as i32);
        }
    }
}

/// Whether the buffer entry is a write still waiting to be applied.
pub open spec fn spec_pending(e: Opn2WriteBuf) -> bool {
    e.port & 4 != 0
}

/// What a buffered write needs: where the entry about to be reused still
/// waits, its time has not passed, and the next write time fits.
pub open spec fn spec_write_bufferd_ok(s: YM3438View) -> bool {
    &&& spec_pending(s.writebuf[s.writebuf_last as int]) ==> s.writebuf[s.writebuf_last as int].time >= s.writebuf_samplecnt
    &&& s.writebuf_lasttime + OPN_WRITEBUF_DELAY <= usize::MAX
}

/// The time at which a write buffered at sample count `samplecnt` is
/// applied: the delay after the last buffered write, and not before now.
pub open spec fn spec_write_time(lasttime: usize, samplecnt: u64) -> u64 {
    let t = lasttime + OPN_WRITEBUF_DELAY;
    if t < samplecnt { samplecnt } else { t as u64 }
}

impl YM3438 {
    /// Run `n` slot cycles, discarding their output.
    #[verifier::rlimit(60)]
    fn run_cycles(&mut self, n: u64)
        requires
            old(self).wf(),
        ensures
            final(self).wf(),
            final(self)@.cycles == (old(self)@.cycles + n) % 24,
            ym3438_host_frame(old(self)@, final(self)@),
    {
        let mut k: u64 = n;
        while k > 0
            invariant
                ym3438_wf(self@),
                k <= n,
                self@.cycles == (old(self)@.cycles + (n - k)) % 24,
                ym3438_host_frame(old(self)@, self@),
            decreases k,
        {
            self.opn2_clock();
            k = k - 1;
        }
    }

    /// Whether `opn2_write_bufferd` may be called on this state.
    pub fn write_bufferd_ok(&self) -> (r: bool)
        requires
            self.wf(),
        ensures
            r == spec_write_bufferd_ok(self@),
    {
        let e: Opn2WriteBuf = self.writebuf[self.writebuf_last];
        (e.port & 4 == 0 || e.time >= self.writebuf_samplecnt) && self.writebuf_lasttime <= usize::MAX - 15
    }

    /// Buffer a write, to be applied `OPN_WRITEBUF_DELAY` samples after the
    /// previous one. Where the ring is full (the entry to reuse still waits),
    /// that write is applied at once and the chip is run up to its time.
    pub fn opn2_write_bufferd(&mut self, port: u32, data: u8)
        requires
            old(self).wf(),
            spec_write_bufferd_ok(old(self)@),
        ensures
            final(self).wf(),
            ({
                let o = old(self)@;
                let f = final(self)@;
                let last = o.writebuf_last;
                let e = o.writebuf[last as int];
                let now: u64 = if spec_pending(e) { e.time } else { o.writebuf_samplecnt };
                let t = spec_write_time(o.writebuf_lasttime, now);
                &&& f.writebuf_samplecnt == now
                &&& f.writebuf_cur == if spec_pending(e) { ((last + 1) % (OPN_WRITEBUF_SIZE as int)) as usize } else { o.writebuf_cur }
                &&& f.writebuf == o.writebuf.update(last as int, Opn2WriteBuf { time: t, port: ((port & 3) | 4) as u8, data: data })
                &&& f.writebuf_lasttime == t as usize
                &&& f.writebuf_last == ((last + 1) % (OPN_WRITEBUF_SIZE as int)) as usize
                &&& f.cycles == (o.cycles + (now - o.writebuf_samplecnt)) % 24
                &&& f.rateratio == o.rateratio
                &&& f.samplecnt == o.samplecnt
                &&& f.samples == o.samples
                &&& f.oldsamples == o.oldsamples
                &&& f.chip_type == o.chip_type
                &&& !spec_pending(e) ==> f == (YM3438View {
                    writebuf: f.writebuf,
                    writebuf_lasttime: f.writebuf_lasttime,
                    writebuf_last: f.writebuf_last,
                    ..o
                })
            }),
    {
        let last: usize = self.writebuf_last;
        let e: Opn2WriteBuf = self.writebuf[last];
        if (e.port & 0x04) != 0 {
            self.opn2_write((e.port & 0x03) as u32, e.data);
            self.writebuf_cur = (last + 1) % OPN_WRITEBUF_SIZE;
            let skip: u64 = e.time - self.writebuf_samplecnt;
            self.writebuf_samplecnt = e.time;
            self.run_cycles(skip);
        }
        let t0: usize = self.writebuf_lasttime + OPN_WRITEBUF_DELAY as usize;
        let now: u64 = self.writebuf_samplecnt;
        let t: u64 = if (t0 as u64) < now { now } else { t0 as u64 };
        self.writebuf.set(last, Opn2WriteBuf { time: t, port: ((port & 0x03) | 0x04) as u8, data: data });
        self.writebuf_lasttime = #[verifier::truncate] (t as usize);
        self.writebuf_last = (last + 1) % OPN_WRITEBUF_SIZE;
    }
}

/// The resampler state that the chip's own work leaves alone.
pub open spec fn ym3438_rsm_frame(a: YM3438View, b: YM3438View) -> bool {
    &&& a.rateratio == b.rateratio
    &&& a.samplecnt == b.samplecnt
    &&& a.samples == b.samples
    &&& a.oldsamples == b.oldsamples
    &&& a.chip_type == b.chip_type
    &&& a.mute == b.mute
}

/// A sample sum of 24 slot outputs.
pub open spec fn spec_cycle_sum_ok(v: i32) -> bool {
    -24 * 0x8000 <= v <= 24 * 0x7fff
}

/// Division rounding toward zero, as the machine divides.
pub open spec fn spec_trunc_div(a: int, b: int) -> int {
    if a >= 0 { a / b } else { -((-a) / b) }
}

/// Linear interpolation between the previous and the current sample at
/// position `pos` of `ratio`, in 32-bit arithmetic that wraps.
pub open spec fn spec_interpolate(prev: i32, cur: i32, ratio: i32, pos: i32) -> i32 {
    let a = vstd::wrapping::i32_specs::wrapping_mul(prev, (ratio - pos) as i32);
    let b = vstd::wrapping::i32_specs::wrapping_mul(cur, pos);
    spec_trunc_div(vstd::wrapping::i32_specs::wrapping_add(a, b) as int, ratio as int) as i32
}

/// What a resampled read needs: a positive ratio whose position still
/// fits after the step, and a write clock that does not run over.
pub open spec fn spec_generate_ok(s: YM3438View) -> bool {
    &&& 0 < s.rateratio <= i32::MAX - 1024
    &&& s.writebuf_samplecnt + 24 * (s.samplecnt / s.rateratio) <= u64::MAX
}

impl YM3438 {
    /// The mute flag of the channel whose output the current slot cycle
    /// carries (the DAC shares channel 6's slot).
    fn cycle_mute(&self) -> (r: u32)
        requires
            self.wf(),
    {
        let group: usize = self.cycles / 4;
        if group == 0 {
            self.mute[1]
        } else if group == 1 {
            self.mute[5 + self.dacen as usize]
        } else if group == 2 {
            self.mute[3]
        } else if group == 3 {
            self.mute[0]
        } else if group == 4 {
            self.mute[4]
        } else {
            self.mute[2]
        }
    }

    /// Apply, in order, the buffered writes whose time has come, up to the
    /// first entry that does not wait. The ring holds `OPN_WRITEBUF_SIZE`
    /// entries, so no more than that many can be due at once.
    #[verifier::rlimit(60)]
    fn flush_due_writes(&mut self)
        requires
            old(self).wf(),
        ensures
            final(self).wf(),
            final(self)@.cycles == old(self)@.cycles,
            final(self)@.status_time == old(self)@.status_time,
            final(self)@.writebuf_samplecnt == old(self)@.writebuf_samplecnt,
            final(self)@.writebuf_last == old(self)@.writebuf_last,
            final(self)@.writebuf_lasttime == old(self)@.writebuf_lasttime,
            ym3438_rsm_frame(old(self)@, final(self)@),
    {
        let mut n: usize = 0;
        while n < OPN_WRITEBUF_SIZE
            invariant
                ym3438_wf(self@),
                self@.cycles == old(self)@.cycles,
                self@.status_time == old(self)@.status_time,
                self@.writebuf_samplecnt == old(self)@.writebuf_samplecnt,
                self@.writebuf_last == old(self)@.writebuf_last,
                self@.writebuf_lasttime == old(self)@.writebuf_lasttime,
                ym3438_rsm_frame(old(self)@, self@),
            decreases OPN_WRITEBUF_SIZE - n,
        {
            let cur: usize = self.writebuf_cur;
            let e: Opn2WriteBuf = self.writebuf[cur];
            if e.time > self.writebuf_samplecnt || e.port & 0x04 == 0 {
                break;
            }
            let p: u8 = e.port & 0x03;
            self.writebuf.set(cur, Opn2WriteBuf { time: e.time, port: p, data: e.data });
            self.opn2_write(p as u32, e.data);
            self.writebuf_cur = (cur + 1) % OPN_WRITEBUF_SIZE;
            n = n + 1;
        }
    }

    /// Run the 24 slot cycles of one chip sample, applying the buffered
    /// writes that come due after each, and return the summed output of the
    /// cycles that are not muted.
    #[verifier::rlimit(60)]
    fn generate_sample(&mut self) -> (r: (i32, i32))
        requires
            old(self).wf(),
            old(self)@.writebuf_samplecnt + 24 <= u64::MAX,
        ensures
            final(self).wf(),
            final(self)@.writebuf_samplecnt == old(self)@.writebuf_samplecnt + 24,
            ym3438_rsm_frame(old(self)@, final(self)@),
            spec_cycle_sum_ok(r.0),
            spec_cycle_sum_ok(r.1),
    {
        let mut l: i32 = 0;
        let mut r: i32 = 0;
        let mut k: usize = 0;
        while k < 24
            invariant
                k <= 24,
                ym3438_wf(self@),
                self@.writebuf_samplecnt == old(self)@.writebuf_samplecnt + k,
                old(self)@.writebuf_samplecnt + 24 <= u64::MAX,
                ym3438_rsm_frame(old(self)@, self@),
                -0x8000 * k <= l <= 0x7fff * k,
                -0x8000 * k <= r <= 0x7fff * k,
            decreases 24 - k,
        {
            let mute: u32 = self.cycle_mute();
            let out: (i16, i16) = self.opn2_clock();
            if mute == 0 {
                l = l + out.0 as i32;
                r = r + out.1 as i32;
            }
            self.flush_due_writes();
            self.writebuf_samplecnt = self.writebuf_samplecnt + 1;
            k = k + 1;
        }
        (l, r)
    }

    /// Generate the next chip sample: the current one becomes the previous
    /// one, and the position moves back by the ratio.
    fn resample_step(&mut self)
        requires
            old(self).wf(),
            0 < old(self)@.rateratio <= old(self)@.samplecnt,
            old(self)@.writebuf_samplecnt + 24 <= u64::MAX,
        ensures
            final(self).wf(),
            final(self)@.rateratio == old(self)@.rateratio,
            final(self)@.samplecnt == old(self)@.samplecnt - old(self)@.rateratio,
            final(self)@.writebuf_samplecnt == old(self)@.writebuf_samplecnt + 24,
            final(self)@.oldsamples == old(self)@.samples,
            final(self)@.samples.len() == 2,
            final(self)@.chip_type == old(self)@.chip_type,
    {
        let s0: i32 = self.samples[0];
        let s1: i32 = self.samples[1];
        self.oldsamples.set(0, s0);
        self.oldsamples.set(1, s1);
        proof {
            assert(self@.oldsamples =~= old(self)@.samples);
        }
        let sum: (i32, i32) = self.generate_sample();
        self.samples.set(0, sum.0 * 11);
        self.samples.set(1, sum.1 * 11);
        self.samplecnt = self.samplecnt - self.rateratio;
    }

    /// Whether `opn2_generate_resampled` may be called on this state.
    pub fn generate_ok(&self) -> (r: bool)
        requires
            self.wf(),
        ensures
            r == spec_generate_ok(self@),
    {
        if self.rateratio <= 0 || self.rateratio > i32::MAX - 1024 {
            return false;
        }
        let steps: i32 = self.samplecnt / self.rateratio;
        assert(0 <= steps <= self.samplecnt) by {
            vstd::arithmetic::div_mod::lemma_div_is_ordered_by_denominator(self.samplecnt as int, 1, self.rateratio as int);
            vstd::arithmetic::div_mod::lemma_div_pos_is_pos(self.samplecnt as int, self.rateratio as int);
        }
        self.writebuf_samplecnt <= u64::MAX - 24 * (steps as u64)
    }

    /// One output sample, resampled from the chip's rate: chip samples are
    /// generated (each kept as 11 times the sum of its cycles) while the
    /// position has reached the ratio, then the last two are interpolated at
    /// the position, which advances by one output step.
    #[verifier::rlimit(40)]
    pub fn opn2_generate_resampled(&mut self) -> (r: (i32, i32))
        requires
            old(self).wf(),
            spec_generate_ok(old(self)@),
        ensures
            final(self).wf(),
            ({
                let o = old(self)@;
                let f = final(self)@;
                let pos = (o.samplecnt % o.rateratio) as i32;
                &&& f.rateratio == o.rateratio
                &&& f.samplecnt == pos + 1024
                &&& f.writebuf_samplecnt == o.writebuf_samplecnt + 24 * (o.samplecnt / o.rateratio)
                &&& o.samplecnt < o.rateratio ==> f.samples == o.samples && f.oldsamples == o.oldsamples
                &&& o.rateratio <= o.samplecnt < 2 * o.rateratio ==> f.oldsamples == o.samples
                &&& r == (spec_interpolate(f.oldsamples[0], f.samples[0], o.rateratio, pos),
                    spec_interpolate(f.oldsamples[1], f.samples[1], o.rateratio, pos))
            }),
    {
        let ratio: i32 = self.rateratio;
        let ghost sc0: int = self@.samplecnt as int;
        let ghost w0: int = self@.writebuf_samplecnt as int;
        while self.samplecnt >= self.rateratio
            invariant
                ym3438_wf(self@),
                self@.rateratio == ratio,
                0 < ratio <= i32::MAX - 1024,
                (self@.samplecnt as int) % (ratio as int) == sc0 % (ratio as int),
                self@.writebuf_samplecnt + 24 * ((self@.samplecnt as int) / (ratio as int)) == w0 + 24 * (sc0 / (ratio as int)),
                w0 + 24 * (sc0 / (ratio as int)) <= u64::MAX,
                self@.samplecnt <= sc0,
                sc0 < ratio ==> self@.samples == old(self)@.samples && self@.oldsamples == old(self)@.oldsamples,
                self@.samplecnt == sc0 || self@.samplecnt <= sc0 - ratio,
                ratio <= sc0 < 2 * ratio ==> (self@.samplecnt == sc0 || self@.oldsamples == old(self)@.samples),
                self@.samplecnt == sc0 ==> self@.samples == old(self)@.samples,
                self@.chip_type == old(self)@.chip_type,
            decreases self.samplecnt,
        {
            let sc: i32 = self.samplecnt;
            proof {
                vstd::arithmetic::div_mod::lemma_div_plus_one((sc - ratio) as int, ratio as int);
                vstd::arithmetic::div_mod::lemma_mod_multiples_vanish(1, (sc - ratio) as int, ratio as int);
                assert((sc as int) / (ratio as int) >= 1) by {
                    vstd::arithmetic::div_mod::lemma_div_plus_one((sc - ratio) as int, ratio as int);
                    vstd::arithmetic::div_mod::lemma_div_pos_is_pos((sc - ratio) as int, ratio as int);
                }
            }
            self.resample_step();
        }
        let pos: i32 = self.samplecnt;
        proof {
            vstd::arithmetic::div_mod::lemma_small_mod(pos as nat, ratio as nat);
            vstd::arithmetic::div_mod::lemma_basic_div(pos as int, ratio as int);
        }
        let old0: i32 = self.oldsamples[0];
        let old1: i32 = self.oldsamples[1];
        let cur0: i32 = self.samples[0];
        let cur1: i32 = self.samples[1];
        let l: i32 = old0.wrapping_mul(ratio - pos).wrapping_add(cur0.wrapping_mul(pos)) / ratio;
        let r: i32 = old1.wrapping_mul(ratio - pos).wrapping_add(cur1.wrapping_mul(pos)) / ratio;
        self.samplecnt = pos + 1024;
        assert(l == spec_interpolate(old0, cur0, ratio, pos));
        assert(r == spec_interpolate(old1, cur1, ratio, pos));
        assert(pos == (old(self)@.samplecnt % ratio) as i32);
        (l, r)
    }
}

impl YM3438 {
    /// Start the device for an output rate and a chip clock.
    pub fn init(&mut self, sample_rate: u32, clock: u32)
        requires
            old(self).wf(),
            sample_rate != 0 ==> clock != 0,
            144 * sample_rate <= u32::MAX,
        ensures
            final(self).wf(),
            final(self)@ == spec_opn2_reset(old(self)@, clock, sample_rate),
    {
        self.reset(clock, sample_rate);
    }

    /// A register write from the sound stream: buffered, see
    /// `opn2_write_bufferd`.
    pub fn write(&mut self, port: u32, data: u8)
        requires
            old(self).wf(),
            spec_write_bufferd_ok(old(self)@),
        ensures
            final(self).wf(),
            final(self)@.writebuf_last == (old(self)@.writebuf_last + 1) % (OPN_WRITEBUF_SIZE as int),
            final(self)@.writebuf[old(self)@.writebuf_last as int].port == ((port & 3) | 4) as u8,
            final(self)@.writebuf[old(self)@.writebuf_last as int].data == data,
    {
        self.opn2_write_bufferd(port, data);
    }
}

/// A status read gives the same byte when it is read again at once, on any
/// port: the first read of port 0 latches it and holds it, and a second
/// read either keeps the latch or latches the same byte again.
pub proof fn lemma_opn2_status_read_stable(s: YM3438View, port: u32)
    requires
        ym3438_wf(s),
    ensures
        ({
            let s1 = spec_opn2_read(s, 0);
            let s2 = spec_opn2_read(s1, port);
            &&& s1.status_time != 0
            &&& s2.status_time != 0
            &&& s2.status == s1.status
            &&& s1.status == spec_opn2_status(s)
        }),
{
    assert(0u32 & 3 == 0) by (bit_vector);
}

/// Resetting twice with the same clock and rate is resetting once.
pub proof fn lemma_opn2_reset_idempotent(s: YM3438View, clock: u32, sample_rate: u32)
    ensures
        spec_opn2_reset(spec_opn2_reset(s, clock, sample_rate), clock, sample_rate) == spec_opn2_reset(s, clock, sample_rate),
{
}

/// Buffered writes keep their order and spacing: each is applied no
/// earlier than the delay after the one before it, and never in the past.
pub proof fn lemma_write_time_spacing(lasttime: usize, samplecnt: u64)
    requires
        lasttime + OPN_WRITEBUF_DELAY <= usize::MAX,
    ensures
        spec_write_time(lasttime, samplecnt) >= lasttime + OPN_WRITEBUF_DELAY,
        spec_write_time(lasttime, samplecnt) >= samplecnt,
{
}

/// The envelope step of a slot keeps its level within ten bits, takes the
/// latched key, and on a key-on (a key newly latched) starts the attack and
/// resets the phase; every other slot's level and state stay as they were.
pub proof fn lemma_envelope_adsr_step(s: YM3438View)
    requires
        ym3438_wf(s),
    ensures
        ({
            let slot = (s.cycles + 22) % 24;
            let t = spec_envelope_adsr(s);
            &&& t.eg_level[slot] <= 0x3ff
            &&& t.eg_kon[slot] == s.eg_kon_latch[slot]
            &&& s.eg_kon_latch[slot] != 0 && s.eg_kon[slot] == 0 ==> t.eg_state[slot] == EgNum::Attack && t.pg_reset[slot] == 1
            &&& forall|j: int| 0 <= j < 24 && j != slot ==> #[trigger] t.eg_level[j] == s.eg_level[j] && t.eg_state[j] == s.eg_state[j]
        }),
{
    assert forall|x: i16| ((x & 0x3ff) as u16) <= 0x3ff by {
        crate::bits::lemma_i16_low10(x);
    }
}

/// A bus write latches `data`, with 0x100 added where port bit 1 (the
/// upper register bank) is set; an odd port raises the data strobe (bit 0
/// of `write_d`), an even one the address strobe (bit 0 of `write_a`), and
/// nothing else changes.
pub proof fn lemma_opn2_write_latch(s: YM3438View, port: u32, data: u8)
    ensures
        ({
            let t = spec_opn2_write(s, port, data);
            &&& t.write_data == (if (port / 2) % 2 == 1 { 0x100int } else { 0 }) + data
            &&& port % 2 == 1 ==> t.write_d % 2 == 1 && t.write_d / 2 == s.write_d / 2 && t.write_a == s.write_a
            &&& port % 2 == 0 ==> t.write_a % 2 == 1 && t.write_a / 2 == s.write_a / 2 && t.write_d == s.write_d
            &&& t == (YM3438View { write_data: t.write_data, write_d: t.write_d, write_a: t.write_a, ..s })
        }),
{
    crate::bits::lemma_u32_port_fields(port);
    crate::bits::lemma_u8_flag_byte(s.write_d, 0, 0, 0);
    crate::bits::lemma_u8_flag_byte(s.write_a, 0, 0, 0);
}

/// Outside test mode, a status read of port 0 (or of any port on a chip in
/// read mode) latches the busy flag in bit 7 and the timer B and timer A
/// overflow flags in bits 1 and 0, and holds the byte for 300000 slot
/// cycles on a YM2612, 40000000 on the other variants; a read of another
/// port leaves the chip as it is.
pub proof fn lemma_opn2_read_status(s: YM3438View, port: u32)
    requires
        s.mode_test_21.len() == 8,
        s.mode_test_21[6] == 0,
        s.busy <= 1,
        s.timer_a_overflow_flag <= 1,
        s.timer_b_overflow_flag <= 1,
    ensures
        ({
            let t = spec_opn2_read(s, port);
            let latch = port % 4 == 0 || s.chip_type == YM3438Mode::ReadMode;
            &&& latch ==> t == (YM3438View {
                status: (s.busy * 128 + s.timer_b_overflow_flag * 2 + s.timer_a_overflow_flag) as u8,
                status_time: if s.chip_type == YM3438Mode::YM2612 { 300000u32 } else { 40000000u32 },
                ..s
            })
            &&& !latch ==> t == s
        }),
{
    crate::bits::lemma_u32_port_fields(port);
    crate::bits::lemma_u8_flag_byte(0, s.busy, s.timer_b_overflow_flag, s.timer_a_overflow_flag);
}

} // verus!
