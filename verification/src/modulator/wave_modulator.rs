use vstd::prelude::*;

verus! {

/// The wave shapes of the beat-synced LFO.
#[derive(Clone, Copy, Debug, PartialEq, Eq, Structural)]
pub enum LfoWave {
    Sine,
    /// A triangle that the skew setting can lean; shown as "Pyramid".
    Pyramid,
    Square,
    RampUp,
    RampDown,
}

impl LfoWave {
    /// The label of the wave in the user interface.
    pub fn as_str(&self) -> (s: &'static str)
        ensures
            s@ == (match self {
                LfoWave::Sine => "Sine"@,
                LfoWave::Pyramid => "Pyramid"@,
                LfoWave::Square => "Square"@,
                LfoWave::RampUp => "Ramp Up"@,
                LfoWave::RampDown => "Ramp Down"@,
            }),
    {
        match self {
            LfoWave::Sine => "Sine",
            LfoWave::Pyramid => "Pyramid",
            LfoWave::Square => "Square",
            LfoWave::RampUp => "Ramp Up",
            LfoWave::RampDown => "Ramp Down",
        }
    }
}

impl Default for LfoWave {
    fn default() -> (w: Self)
        ensures
            w == LfoWave::Sine,
    {
        LfoWave::Sine
    }
}

} // verus!
