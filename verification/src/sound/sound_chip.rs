use vstd::prelude::*;

verus! {

/// The kinds of sound chip that a sound slot can hold.
#[allow(non_camel_case_types)]
#[derive(PartialEq, Eq, Hash, Clone, Copy, Debug, Structural)]
pub enum SoundChipType {
    YM2149,
    YM2151,
    YM2203,
    YM2413,
    YM2608,
    YM2610,
    YM2612,
    YM3526,
    Y8950,
    YM3812,
    YMF262,
    YMF278B,
    SEGAPSG,
    SN76489,
    PWM,
    SEGAPCM,
    OKIM6258,
    C140,
}

} // verus!
