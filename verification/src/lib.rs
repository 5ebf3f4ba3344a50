//! Sound chip cores and music sequence drivers (VGM / XGM) with their
//! contracts proved by Verus.
pub mod bits;
pub mod sound;
pub mod driver;
