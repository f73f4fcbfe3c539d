use vstd::prelude::*;

verus! {

/// The object kinds of the single-layer animator.
#[derive(Clone, Copy, Debug, PartialEq, Eq, Structural)]
pub enum AnimationType {
    BouncingBalls,
    GravityFountain,
    ScanLine,
}

impl AnimationType {
    /// The label of the kind in the user interface.
    pub open spec fn label(self) -> Seq<char> {
        match self {
            AnimationType::BouncingBalls => "Bouncing Balls"@,
            AnimationType::GravityFountain => "Gravity Fountain"@,
            AnimationType::ScanLine => "Scan Line"@,
        }
    }

    /// Every kind, in the order the user interface lists them.
    pub fn iterator() -> (v: Vec<AnimationType>)
        ensures
            v@ == seq![AnimationType::BouncingBalls, AnimationType::GravityFountain, AnimationType::ScanLine],
    {
        vec![AnimationType::BouncingBalls, AnimationType::GravityFountain, AnimationType::ScanLine]
    }

    /// The label of the kind in the user interface.
    pub fn as_str(&self) -> (s: &'static str)
        ensures
            s@ == self.label(),
    {
        match self {
            AnimationType::BouncingBalls => "Bouncing Balls",
            AnimationType::GravityFountain => "Gravity Fountain",
            AnimationType::ScanLine => "Scan Line",
        }
    }
}

} // verus!
