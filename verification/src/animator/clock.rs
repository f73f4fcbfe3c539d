use vstd::prelude::*;

verus! {

/// The wave shapes of the LFO signal generator.
#[derive(Clone, Copy, Debug, PartialEq, Eq, Structural)]
pub enum WaveType {
    Sine,
    Sawtooth,
}

/// Whether an envelope rises to its maximum or falls to its minimum.
#[derive(Clone, Copy, Debug, PartialEq, Eq, Structural)]
pub enum EnvelopeMode {
    Up,
    Down,
}

} // verus!
