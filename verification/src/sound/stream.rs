use vstd::prelude::*;

verus! {

/// Which speakers a sound stream sends a chip's output to.
#[derive(PartialEq, Eq, Clone, Copy, Debug, Structural)]
pub enum OutputChannel {
    Stereo,
    Left,
    Right,
    Mute,
}

/// How a linear up-sampling stream spaces its output positions.
#[derive(PartialEq, Eq, Clone, Copy, Debug, Structural)]
pub enum Resolution {
    RangeAll,
    RangePerTick,
}

/// What a sound stream asks of its chip before the next output sample.
#[derive(PartialEq, Eq, Clone, Copy, Debug, Structural)]
pub enum Tick {
    One,
    More,
    No,
}

} // verus!
