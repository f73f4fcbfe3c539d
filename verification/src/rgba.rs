use vstd::prelude::*;

verus! {

/// An 8-bit RGBA colour, as sent to the LEDs and shown on screen.
#[derive(Clone, Copy, Debug, PartialEq, Eq, Structural)]
pub struct Rgba8 {
    pub red: u8,
    pub green: u8,
    pub blue: u8,
    pub alpha: u8,
}

impl Rgba8 {
    /// Builds a colour from its four channels.
    pub fn new(red: u8, green: u8, blue: u8, alpha: u8) -> (c: Rgba8)
        ensures
            c == (Rgba8 { red, green, blue, alpha }),
    {
        Rgba8 { red, green, blue, alpha }
    }
}

/// The colour made of the four channels, as a spec value.
pub open spec fn rgba(red: u8, green: u8, blue: u8, alpha: u8) -> Rgba8 {
    Rgba8 { red, green, blue, alpha }
}

} // verus!
