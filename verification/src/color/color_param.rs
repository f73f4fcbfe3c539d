use vstd::prelude::*;
use crate::rgba::{Rgba8, rgba};

verus! {

/// The two palettes a colour parameter can pick from.
#[derive(Clone, Copy, Debug, PartialEq, Eq, Structural)]
pub enum ColorPalette {
    Breeze,
    Dolphin,
}

/// The colours of the Breeze palette.
pub open spec fn breeze_colors() -> Seq<Rgba8> {
    seq![
        rgba(2, 82, 89, 255),
        rgba(0, 112, 114, 255),
        rgba(242, 147, 36, 255),
        rgba(216, 79, 4, 255),
        rgba(244, 226, 221, 255),
    ]
}

/// The colours of the Dolphin palette.
pub open spec fn dolphin_colors() -> Seq<Rgba8> {
    seq![
        rgba(242, 121, 222, 255),
        rgba(191, 132, 216, 255),
        rgba(132, 119, 216, 255),
        rgba(181, 179, 242, 255),
        rgba(186, 194, 242, 255),
    ]
}

impl ColorPalette {
    /// The colours of the palette, in order.
    pub open spec fn colors(self) -> Seq<Rgba8> {
        match self {
            ColorPalette::Breeze => breeze_colors(),
            ColorPalette::Dolphin => dolphin_colors(),
        }
    }

    /// The name shown for the palette in the user interface.
    pub open spec fn spec_name(self) -> Seq<char> {
        match self {
            ColorPalette::Breeze => "Breeze"@,
            ColorPalette::Dolphin => "Dolphin"@,
        }
    }

    pub fn breeze_palette() -> (v: Vec<Rgba8>)
        ensures
            v@ == breeze_colors(),
    {
        vec![
            Rgba8::new(2, 82, 89, 255),
            Rgba8::new(0, 112, 114, 255),
            Rgba8::new(242, 147, 36, 255),
            Rgba8::new(216, 79, 4, 255),
            Rgba8::new(244, 226, 221, 255),
        ]
    }

    pub fn dolphin_palette() -> (v: Vec<Rgba8>)
        ensures
            v@ == dolphin_colors(),
    {
        vec![
            Rgba8::new(242, 121, 222, 255),
            Rgba8::new(191, 132, 216, 255),
            Rgba8::new(132, 119, 216, 255),
            Rgba8::new(181, 179, 242, 255),
            Rgba8::new(186, 194, 242, 255),
        ]
    }

    /// The colours of the palette, in order.
    pub fn as_vec(&self) -> (v: Vec<Rgba8>)
        ensures
            v@ == self.colors(),
    {
        match self {
            ColorPalette::Breeze => Self::breeze_palette(),
            ColorPalette::Dolphin => Self::dolphin_palette(),
        }
    }

    /// The name shown for the palette in the user interface.
    pub fn as_str(&self) -> (s: &'static str)
        ensures
            s@ == self.spec_name(),
    {
        match self {
            ColorPalette::Breeze => "Breeze",
            ColorPalette::Dolphin => "Dolphin",
        }
    }
}

impl Default for ColorPalette {
    fn default() -> (p: ColorPalette)
        ensures
            p == ColorPalette::Breeze,
    {
        ColorPalette::Breeze
    }
}

/// Whether a parameter uses one fixed colour or cycles through a palette.
#[derive(Clone, Copy, Debug, PartialEq, Eq, Structural)]
pub enum ColorMode {
    Solid,
    Palette,
}

/// The colour setting of an effect.
#[derive(Clone, Copy, Debug, PartialEq, Eq, Structural)]
pub struct ColorParam {
    pub single_color: Rgba8,
    pub mode: ColorMode,
    pub palette: ColorPalette,
}

impl ColorParam {
    /// The colour that object number `index` of an effect is drawn with:
    /// the single colour in solid mode, otherwise the palette entry at
    /// `index` taken modulo the palette's length.
    pub open spec fn spec_value_mapped(self, index: int) -> Rgba8 {
        match self.mode {
            ColorMode::Solid => self.single_color,
            ColorMode::Palette => self.palette.colors()[index % self.palette.colors().len() as int],
        }
    }

    /// The colour that object number `index` of an effect is drawn with.
    pub fn value_mapped(self, index: usize) -> (c: Rgba8)
        ensures
            c == self.spec_value_mapped(index as int),
            self.mode == ColorMode::Solid ==> c == self.single_color,
            self.mode == ColorMode::Palette ==> c == self.palette.colors()[index as int % self.palette.colors().len() as int],
    {
        if self.mode == ColorMode::Solid {
            return self.single_color;
        }
        let other = self.palette.as_vec();
        let mapped_index = index % other.len();
        other[mapped_index]
    }
}

impl Default for ColorParam {
    /// Solid opaque red, with the Breeze palette selected.
    fn default() -> (p: ColorParam)
        ensures
            p == (ColorParam {
                single_color: rgba(255, 0, 0, 255),
                mode: ColorMode::Solid,
                palette: ColorPalette::Breeze,
            }),
    {
        ColorParam {
            single_color: Rgba8::new(255, 0, 0, 255),
            mode: ColorMode::Solid,
            palette: ColorPalette::default(),
        }
    }
}

/// Colours repeat with the palette's period: objects `index` and
/// `index + n`, with `n` the palette's length, get the same colour.
pub proof fn lemma_value_mapped_periodic(p: ColorParam, index: nat)
    ensures
        p.spec_value_mapped(index + p.palette.colors().len() as int) == p.spec_value_mapped(index as int),
{
    let n = p.palette.colors().len() as int;
    assert(n == 5);
    vstd::arithmetic::div_mod::lemma_mod_add_multiples_vanish(index as int, n);
}

/// In palette mode object `index` is drawn with an entry of the palette
/// the parameter selects: entry `index` modulo the palette's length, so
/// objects run through that palette in order (entry 0, 1, ... and back
/// to 0); in solid mode every object gets the single colour.
pub proof fn lemma_value_mapped_walks_selected_palette(p: ColorParam, index: nat)
    ensures
        p.mode == ColorMode::Solid ==> p.spec_value_mapped(index as int) == p.single_color,
        p.mode == ColorMode::Palette ==> {
            &&& p.palette.colors().len() == 5
            &&& p.spec_value_mapped(index as int) == p.palette.colors()[(index % 5) as int]
            &&& p.palette.colors().contains(p.spec_value_mapped(index as int))
            &&& (index % 5 < 4 ==> p.spec_value_mapped(index + 1int) == p.palette.colors()[(index % 5) as int + 1])
            &&& (index % 5 == 4 ==> p.spec_value_mapped(index + 1int) == p.palette.colors()[0])
        },
        p.mode == ColorMode::Palette && p.palette == ColorPalette::Breeze ==> p.spec_value_mapped(index as int) == breeze_colors()[(index % 5) as int],
        p.mode == ColorMode::Palette && p.palette == ColorPalette::Dolphin ==> p.spec_value_mapped(index as int) == dolphin_colors()[(index % 5) as int],
{
    if p.mode == ColorMode::Palette {
        let cs = p.palette.colors();
        assert(cs.len() == 5);
        let k = (index % 5) as int;
        assert(0 <= k < 5);
        assert(cs[k] == p.spec_value_mapped(index as int));
    }
}

} // verus!
