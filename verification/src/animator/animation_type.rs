use vstd::prelude::*;
use vstd::std_specs::convert::FromSpecImpl;

verus! {

/// What the animator has to do after a setting of an effect changed.
#[derive(Clone, Copy, Debug, PartialEq, Eq, Structural)]
pub enum UpdateBehaviour {
    /// Nothing.
    NoChange,
    /// Rebuild the effect and its objects (used when switching effects).
    NeedsReset,
    /// Apply the change to the running objects in the next frames.
    HotUpdate,
    LoadPreset,
    SavePresets,
}

/// The effects the animator offers, numbered 0 to 5 in this order.
#[derive(Clone, Copy, Debug, PartialEq, Eq, Structural)]
pub enum AnimationType {
    BouncingBalls,
    PulseBackground,
    ScanLine,
    WaveLines,
    MeteorShower,
    Strobe,
}

impl AnimationType {
    /// The number of the effect.
    pub open spec fn spec_index(self) -> nat {
        match self {
            AnimationType::BouncingBalls => 0,
            AnimationType::PulseBackground => 1,
            AnimationType::ScanLine => 2,
            AnimationType::WaveLines => 3,
            AnimationType::MeteorShower => 4,
            AnimationType::Strobe => 5,
        }
    }

    /// The effect numbered `value`; numbers past the last effect give
    /// the first one.
    pub open spec fn spec_from_index(value: int) -> AnimationType {
        if value == 1 {
            AnimationType::PulseBackground
        } else if value == 2 {
            AnimationType::ScanLine
        } else if value == 3 {
            AnimationType::WaveLines
        } else if value == 4 {
            AnimationType::MeteorShower
        } else if value == 5 {
            AnimationType::Strobe
        } else {
            AnimationType::BouncingBalls
        }
    }

    /// The name of the effect in the user interface and on disk.
    pub open spec fn spec_name(self) -> Seq<char> {
        match self {
            AnimationType::BouncingBalls => "Gravity Balls"@,
            AnimationType::PulseBackground => "Radial Burst"@,
            AnimationType::ScanLine => "Particle Sweep"@,
            AnimationType::WaveLines => "Lissajous Grid"@,
            AnimationType::MeteorShower => "Meteor Shower"@,
            AnimationType::Strobe => "Strobe"@,
        }
    }

    /// Every effect, in numbering order.
    pub open spec fn all() -> Seq<AnimationType> {
        seq![
            AnimationType::BouncingBalls,
            AnimationType::PulseBackground,
            AnimationType::ScanLine,
            AnimationType::WaveLines,
            AnimationType::MeteorShower,
            AnimationType::Strobe,
        ]
    }

    /// The number of the effect.
    pub fn index(&self) -> (i: usize)
        ensures
            i == self.spec_index(),
    {
        match self {
            AnimationType::BouncingBalls => 0,
            AnimationType::PulseBackground => 1,
            AnimationType::ScanLine => 2,
            AnimationType::WaveLines => 3,
            AnimationType::MeteorShower => 4,
            AnimationType::Strobe => 5,
        }
    }

    /// The name of the effect in the user interface and on disk.
    pub fn as_str(&self) -> (s: &'static str)
        ensures
            s@ == self.spec_name(),
    {
        match self {
            AnimationType::BouncingBalls => "Gravity Balls",
            AnimationType::PulseBackground => "Radial Burst",
            AnimationType::ScanLine => "Particle Sweep",
            AnimationType::WaveLines => "Lissajous Grid",
            AnimationType::MeteorShower => "Meteor Shower",
            AnimationType::Strobe => "Strobe",
        }
    }

    /// Every effect, in numbering order.
    pub fn iter_all() -> (v: Vec<AnimationType>)
        ensures
            v@ == Self::all(),
    {
        vec![
            AnimationType::BouncingBalls,
            AnimationType::PulseBackground,
            AnimationType::ScanLine,
            AnimationType::WaveLines,
            AnimationType::MeteorShower,
            AnimationType::Strobe,
        ]
    }
}

impl Default for AnimationType {
    fn default() -> (t: Self)
        ensures
            t == AnimationType::BouncingBalls,
    {
        AnimationType::BouncingBalls
    }
}

impl From<usize> for AnimationType {
    fn from(value: usize) -> (t: Self) {
        if value == 0 {
            AnimationType::BouncingBalls
        } else if value == 1 {
            AnimationType::PulseBackground
        } else if value == 2 {
            AnimationType::ScanLine
        } else if value == 3 {
            AnimationType::WaveLines
        } else if value == 4 {
            AnimationType::MeteorShower
        } else if value == 5 {
            AnimationType::Strobe
        } else {
            AnimationType::BouncingBalls
        }
    }
}

impl FromSpecImpl<usize> for AnimationType {
    open spec fn obeys_from_spec() -> bool {
        true
    }

    open spec fn from_spec(v: usize) -> Self {
        AnimationType::spec_from_index(v as int)
    }
}

/// Numbering an effect and converting the number back gives the effect
/// again, and every effect is listed once, at its own number.
pub proof fn lemma_index_round_trip(t: AnimationType)
    ensures
        AnimationType::spec_from_index(t.spec_index() as int) == t,
        t.spec_index() < AnimationType::all().len(),
        AnimationType::all()[t.spec_index() as int] == t,
{
}

/// How the particle sweep behaves at the window's edges.
#[derive(Clone, Copy, Debug, PartialEq, Eq, Structural)]
pub enum ScanLineModes {
    PingPong,
    WrapAround,
}

impl ScanLineModes {
    /// The label of the mode in the user interface.
    pub fn as_str(&self) -> (s: &'static str)
        ensures
            s@ == (match self {
                ScanLineModes::PingPong => "Ping Pong"@,
                ScanLineModes::WrapAround => "Wrap Around"@,
            }),
    {
        match self {
            ScanLineModes::PingPong => "Ping Pong",
            ScanLineModes::WrapAround => "Wrap Around",
        }
    }
}

impl Default for ScanLineModes {
    fn default() -> (m: Self)
        ensures
            m == ScanLineModes::PingPong,
    {
        ScanLineModes::PingPong
    }
}

/// How the radial burst grows with the beat.
#[derive(Clone, Copy, Debug, PartialEq, Eq, Structural)]
pub enum PulseModes {
    Smooth,
    Elastic,
}

impl PulseModes {
    /// The label of the mode in the user interface.
    pub fn as_str(&self) -> (s: &'static str)
        ensures
            s@ == (match self {
                PulseModes::Smooth => "Smooth"@,
                PulseModes::Elastic => "Elastic"@,
            }),
    {
        match self {
            PulseModes::Smooth => "Smooth",
            PulseModes::Elastic => "Elastic",
        }
    }
}

impl Default for PulseModes {
    fn default() -> (m: Self)
        ensures
            m == PulseModes::Smooth,
    {
        PulseModes::Smooth
    }
}

/// The outline the radial burst draws.
#[derive(Clone, Copy, Debug, PartialEq, Eq, Structural)]
pub enum PulseShape {
    Square,
    Circle,
    Diamond,
}

impl PulseShape {
    /// The label of the shape in the user interface.
    pub fn as_str(&self) -> (s: &'static str)
        ensures
            s@ == (match self {
                PulseShape::Square => "Square"@,
                PulseShape::Circle => "Circle"@,
                PulseShape::Diamond => "Diamond"@,
            }),
    {
        match self {
            PulseShape::Square => "Square",
            PulseShape::Circle => "Circle",
            PulseShape::Diamond => "Diamond",
        }
    }
}

impl Default for PulseShape {
    fn default() -> (s: Self)
        ensures
            s == PulseShape::Square,
    {
        PulseShape::Square
    }
}

} // verus!
