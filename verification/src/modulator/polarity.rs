use vstd::prelude::*;

verus! {

/// Which side of the base value a modulation swings to.
#[derive(Clone, Copy, Debug, PartialEq, Eq, Structural)]
pub enum Polarity {
    Plus,
    Minus,
    PlusMinus,
}

impl Polarity {
    /// The label of the polarity in the user interface.
    pub fn as_str(&self) -> (s: &'static str)
        ensures
            s@ == (match self {
                Polarity::Plus => "+"@,
                Polarity::Minus => "-"@,
                Polarity::PlusMinus => "+-"@,
            }),
    {
        match self {
            Polarity::Plus => "+",
            Polarity::Minus => "-",
            Polarity::PlusMinus => "+-",
        }
    }
}

} // verus!
