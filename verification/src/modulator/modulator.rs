use vstd::prelude::*;

verus! {

/// Which side of the base value a modulation swings to.
#[derive(Clone, Copy, Debug, PartialEq, Eq, Structural)]
pub enum AmountType {
    Plus,
    Minus,
    PlusMinus,
}

impl AmountType {
    /// The label of the direction in the user interface.
    pub fn as_str(&self) -> (s: &'static str)
        ensures
            s@ == (match self {
                AmountType::Plus => "+"@,
                AmountType::Minus => "-"@,
                AmountType::PlusMinus => "+-"@,
            }),
    {
        match self {
            AmountType::Plus => "+",
            AmountType::Minus => "-",
            AmountType::PlusMinus => "+-",
        }
    }
}

/// The wave shapes a modulation source produces.
#[derive(Clone, Copy, Debug, PartialEq, Eq, Structural)]
pub enum ModSourceEngine {
    Sine,
    Triangle,
    Square,
    RampUp,
    RampDown,
}

impl ModSourceEngine {
    /// The label of the wave in the user interface.
    pub fn as_str(&self) -> (s: &'static str)
        ensures
            s@ == (match self {
                ModSourceEngine::Sine => "Sine"@,
                ModSourceEngine::Triangle => "Triangle"@,
                ModSourceEngine::Square => "Square"@,
                ModSourceEngine::RampUp => "RampUp"@,
                ModSourceEngine::RampDown => "RampDown"@,
            }),
    {
        match self {
            ModSourceEngine::Sine => "Sine",
            ModSourceEngine::Triangle => "Triangle",
            ModSourceEngine::Square => "Square",
            ModSourceEngine::RampUp => "RampUp",
            ModSourceEngine::RampDown => "RampDown",
        }
    }
}

impl Default for ModSourceEngine {
    fn default() -> (w: Self)
        ensures
            w == ModSourceEngine::Sine,
    {
        ModSourceEngine::Sine
    }
}

} // verus!
