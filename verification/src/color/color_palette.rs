use vstd::prelude::*;
use crate::rgba::{Rgba8, rgba};

verus! {

/// The colour palettes an effect can draw its colours from.
#[derive(Clone, Copy, Debug, PartialEq, Eq, Structural)]
pub enum ColorPalette {
    Breeze,
    Dolphin,
    Sunset,
    Forest,
    Neon,
    Ember,
    Ice,
    PastelHorizon,
}

impl ColorPalette {
    /// The colours of the palette, in order.
    pub open spec fn colors(self) -> Seq<Rgba8> {
        match self {
            ColorPalette::Breeze => seq![rgba(2, 82, 89, 255), rgba(0, 112, 114, 255), rgba(242, 147, 36, 255), rgba(216, 79, 4, 255), rgba(244, 226, 221, 255)],
            ColorPalette::Dolphin => seq![rgba(242, 121, 222, 255), rgba(191, 132, 216, 255), rgba(132, 119, 216, 255), rgba(181, 179, 242, 255), rgba(186, 194, 242, 255)],
            ColorPalette::Sunset => seq![rgba(255, 94, 77, 255), rgba(255, 149, 128, 255), rgba(255, 196, 107, 255), rgba(255, 112, 67, 255), rgba(128, 39, 108, 255)],
            ColorPalette::Forest => seq![rgba(20, 68, 41, 255), rgba(45, 115, 76, 255), rgba(92, 148, 87, 255), rgba(164, 186, 102, 255), rgba(232, 217, 164, 255)],
            ColorPalette::Neon => seq![rgba(57, 255, 20, 255), rgba(0, 245, 255, 255), rgba(255, 0, 204, 255), rgba(255, 251, 0, 255), rgba(255, 84, 0, 255)],
            ColorPalette::Ember => seq![rgba(43, 9, 6, 255), rgba(103, 20, 17, 255), rgba(176, 58, 46, 255), rgba(224, 120, 44, 255), rgba(251, 210, 120, 255)],
            ColorPalette::Ice => seq![rgba(10, 36, 99, 255), rgba(38, 84, 124, 255), rgba(84, 145, 178, 255), rgba(152, 210, 232, 255), rgba(228, 246, 255, 255)],
            ColorPalette::PastelHorizon => seq![rgba(47, 37, 86, 255), rgba(88, 76, 132, 255), rgba(130, 124, 175, 255), rgba(174, 171, 211, 255), rgba(206, 207, 240, 255), rgba(255, 255, 255, 255), rgba(201, 255, 191, 255), rgba(120, 216, 183, 255), rgba(52, 173, 161, 255), rgba(37, 125, 155, 255), rgba(37, 188, 198, 255), rgba(160, 255, 240, 255), rgba(132, 165, 148, 255), rgba(207, 211, 175, 255), rgba(255, 242, 209, 255), rgba(255, 217, 174, 255), rgba(255, 165, 130, 255), rgba(255, 128, 126, 255), rgba(255, 84, 112, 255), rgba(152, 88, 104, 255), rgba(183, 132, 130, 255), rgba(221, 164, 159, 255), rgba(224, 189, 193, 255), rgba(119, 137, 239, 255), rgba(94, 193, 255, 255), rgba(186, 230, 255, 255), rgba(226, 211, 255, 255), rgba(190, 155, 255, 255), rgba(153, 104, 226, 255), rgba(255, 155, 182, 255), rgba(255, 204, 220, 255), rgba(255, 234, 246, 255)],
        }
    }

    /// The colours of the palette, in order.
    pub fn as_slice(&self) -> (v: Vec<Rgba8>)
        ensures
            v@ == self.colors(),
    {
        match self {
            ColorPalette::Breeze => vec![
                Rgba8::new(2, 82, 89, 255),
                Rgba8::new(0, 112, 114, 255),
                Rgba8::new(242, 147, 36, 255),
                Rgba8::new(216, 79, 4, 255),
                Rgba8::new(244, 226, 221, 255),
            ],
            ColorPalette::Dolphin => vec![
                Rgba8::new(242, 121, 222, 255),
                Rgba8::new(191, 132, 216, 255),
                Rgba8::new(132, 119, 216, 255),
                Rgba8::new(181, 179, 242, 255),
                Rgba8::new(186, 194, 242, 255),
            ],
            ColorPalette::Sunset => vec![
                Rgba8::new(255, 94, 77, 255),
                Rgba8::new(255, 149, 128, 255),
                Rgba8::new(255, 196, 107, 255),
                Rgba8::new(255, 112, 67, 255),
                Rgba8::new(128, 39, 108, 255),
            ],
            ColorPalette::Forest => vec![
                Rgba8::new(20, 68, 41, 255),
                Rgba8::new(45, 115, 76, 255),
                Rgba8::new(92, 148, 87, 255),
                Rgba8::new(164, 186, 102, 255),
                Rgba8::new(232, 217, 164, 255),
            ],
            ColorPalette::Neon => vec![
                Rgba8::new(57, 255, 20, 255),
                Rgba8::new(0, 245, 255, 255),
                Rgba8::new(255, 0, 204, 255),
                Rgba8::new(255, 251, 0, 255),
                Rgba8::new(255, 84, 0, 255),
            ],
            ColorPalette::Ember => vec![
                Rgba8::new(43, 9, 6, 255),
                Rgba8::new(103, 20, 17, 255),
                Rgba8::new(176, 58, 46, 255),
                Rgba8::new(224, 120, 44, 255),
                Rgba8::new(251, 210, 120, 255),
            ],
            ColorPalette::Ice => vec![
                Rgba8::new(10, 36, 99, 255),
                Rgba8::new(38, 84, 124, 255),
                Rgba8::new(84, 145, 178, 255),
                Rgba8::new(152, 210, 232, 255),
                Rgba8::new(228, 246, 255, 255),
            ],
            ColorPalette::PastelHorizon => vec![
                Rgba8::new(47, 37, 86, 255),
                Rgba8::new(88, 76, 132, 255),
                Rgba8::new(130, 124, 175, 255),
                Rgba8::new(174, 171, 211, 255),
                Rgba8::new(206, 207, 240, 255),
                Rgba8::new(255, 255, 255, 255),
                Rgba8::new(201, 255, 191, 255),
                Rgba8::new(120, 216, 183, 255),
                Rgba8::new(52, 173, 161, 255),
                Rgba8::new(37, 125, 155, 255),
                Rgba8::new(37, 188, 198, 255),
                Rgba8::new(160, 255, 240, 255),
                Rgba8::new(132, 165, 148, 255),
                Rgba8::new(207, 211, 175, 255),
                Rgba8::new(255, 242, 209, 255),
                Rgba8::new(255, 217, 174, 255),
                Rgba8::new(255, 165, 130, 255),
                Rgba8::new(255, 128, 126, 255),
                Rgba8::new(255, 84, 112, 255),
                Rgba8::new(152, 88, 104, 255),
                Rgba8::new(183, 132, 130, 255),
                Rgba8::new(221, 164, 159, 255),
                Rgba8::new(224, 189, 193, 255),
                Rgba8::new(119, 137, 239, 255),
                Rgba8::new(94, 193, 255, 255),
                Rgba8::new(186, 230, 255, 255),
                Rgba8::new(226, 211, 255, 255),
                Rgba8::new(190, 155, 255, 255),
                Rgba8::new(153, 104, 226, 255),
                Rgba8::new(255, 155, 182, 255),
                Rgba8::new(255, 204, 220, 255),
                Rgba8::new(255, 234, 246, 255),
            ],
        }
    }
    /// The name shown for the palette in the user interface.
    pub open spec fn spec_name(self) -> Seq<char> {
        match self {
            ColorPalette::Breeze => "Breeze"@,
            ColorPalette::Dolphin => "Dolphin"@,
            ColorPalette::Sunset => "Sunset"@,
            ColorPalette::Forest => "Forest"@,
            ColorPalette::Neon => "Neon"@,
            ColorPalette::Ember => "Ember"@,
            ColorPalette::Ice => "Ice"@,
            ColorPalette::PastelHorizon => "Horizon"@,
        }
    }

    /// The name shown for the palette in the user interface.
    pub fn as_str(&self) -> (s: &'static str)
        ensures
            s@ == self.spec_name(),
    {
        match self {
            ColorPalette::Breeze => "Breeze",
            ColorPalette::Dolphin => "Dolphin",
            ColorPalette::Sunset => "Sunset",
            ColorPalette::Forest => "Forest",
            ColorPalette::Neon => "Neon",
            ColorPalette::Ember => "Ember",
            ColorPalette::Ice => "Ice",
            ColorPalette::PastelHorizon => "Horizon",
        }
    }
}

impl Default for ColorPalette {
    /// Breeze is the palette an effect starts with.
    fn default() -> (p: ColorPalette)
        ensures
            p == ColorPalette::Breeze,
    {
        ColorPalette::Breeze
    }
}

} // verus!
