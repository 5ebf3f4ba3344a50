//! Sound chip cores, ROM sets and the decisions of the sound slot.
pub mod rom;
pub mod adpcm;
pub mod chip_okim6295;
pub mod chip_okim6258;
pub mod stream;
pub mod chip_c140;
pub mod chip_segapcm;
pub mod sound_chip;
pub mod chip_sn76489;
pub mod chip_pwm;
pub mod chip_ymfm;
pub mod interface;
pub mod data_stream;
pub mod device;
pub mod slot;
pub mod ym3438;
