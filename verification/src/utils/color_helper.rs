use vstd::prelude::*;
use crate::rgba::{Rgba8, rgba};
use rand::Rng;

verus! {

/// The palettes offered by the colour helper.
#[derive(Clone, Copy, Debug, PartialEq, Eq, Structural)]
pub enum ColorPalette {
    Breeze,
    Dolphin,
}

/// The colours of the Breeze palette.
pub open spec fn breeze_colors() -> Seq<Rgba8> {
    seq![
        rgba(15, 194, 192, 255),
        rgba(12, 171, 168, 255),
        rgba(0, 143, 140, 255),
        rgba(1, 89, 88, 255),
        rgba(2, 53, 53, 255),
    ]
}

/// The colours of the Dolphin palette.
pub open spec fn dolphin_colors() -> Seq<Rgba8> {
    seq![
        rgba(242, 121, 222, 255),
        rgba(191, 132, 216, 255),
        rgba(132, 119, 216, 255),
        rgba(181, 179, 242, 255),
        rgba(186, 194, 242, 255),
    ]
}

impl ColorPalette {
    /// The colours of the palette, in order.
    pub open spec fn colors(self) -> Seq<Rgba8> {
        match self {
            ColorPalette::Breeze => breeze_colors(),
            ColorPalette::Dolphin => dolphin_colors(),
        }
    }

    /// The label of the palette in the user interface.
    pub open spec fn label(self) -> Seq<char> {
        match self {
            ColorPalette::Breeze => "Breeze"@,
            ColorPalette::Dolphin => "Warm"@,
        }
    }

    pub fn breeze_palette() -> (v: Vec<Rgba8>)
        ensures
            v@ == breeze_colors(),
    {
        vec![
            Rgba8::new(15, 194, 192, 255),
            Rgba8::new(12, 171, 168, 255),
            Rgba8::new(0, 143, 140, 255),
            Rgba8::new(1, 89, 88, 255),
            Rgba8::new(2, 53, 53, 255),
        ]
    }

    pub fn dolphin_palette() -> (v: Vec<Rgba8>)
        ensures
            v@ == dolphin_colors(),
    {
        vec![
            Rgba8::new(242, 121, 222, 255),
            Rgba8::new(191, 132, 216, 255),
            Rgba8::new(132, 119, 216, 255),
            Rgba8::new(181, 179, 242, 255),
            Rgba8::new(186, 194, 242, 255),
        ]
    }

    /// The colours of the palette, in order.
    pub fn as_vec(&self) -> (v: Vec<Rgba8>)
        ensures
            v@ == self.colors(),
    {
        match self {
            ColorPalette::Breeze => Self::breeze_palette(),
            ColorPalette::Dolphin => Self::dolphin_palette(),
        }
    }

    /// Every palette, in the order the user interface lists them.
    pub fn iterator() -> (v: Vec<ColorPalette>)
        ensures
            v@ == seq![ColorPalette::Breeze, ColorPalette::Dolphin],
    {
        vec![ColorPalette::Breeze, ColorPalette::Dolphin]
    }

    /// The label of the palette in the user interface.
    pub fn as_str(&self) -> (s: &'static str)
        ensures
            s@ == self.label(),
    {
        match self {
            ColorPalette::Breeze => "Breeze",
            ColorPalette::Dolphin => "Warm",
        }
    }
}

impl Default for ColorPalette {
    fn default() -> (p: ColorPalette)
        ensures
            p == ColorPalette::Breeze,
    {
        ColorPalette::Breeze
    }
}

/// Where the colours of an effect come from.
#[derive(Clone, Copy, Debug, PartialEq, Eq, Structural)]
pub enum ColorMode {
    Solid,
    Palette,
    Random,
}

/// The colour setting of an effect, with a set of random colours drawn
/// when it is made.
#[derive(Clone, Debug)]
pub struct ColorParam {
    pub single_color: Rgba8,
    pub mode: ColorMode,
    pub random: Vec<Rgba8>,
    pub palette: ColorPalette,
}

/// How many random colours a colour parameter draws.
pub open spec fn random_color_count() -> nat {
    8
}

/// `v` could be a fresh draw of random colours: as many as a colour
/// parameter draws, each of the four channels below 255.
pub open spec fn is_random_draw(v: Seq<Rgba8>) -> bool {
    &&& v.len() == random_color_count()
    &&& forall|i: int|
        0 <= i < v.len() ==> {
            &&& #[trigger] v[i].red < 255
            &&& v[i].green < 255
            &&& v[i].blue < 255
            &&& v[i].alpha < 255
        }
}

/// Calls `rand::Rng::gen_range(low..high)` on `rand::thread_rng()`.
/// The crate documents that the value lies in the half-open range; which
/// value comes back is left to chance and not stated.
#[verifier::external_body]
fn random_range(low: u8, high: u8) -> (r: u8)
    requires
        low < high,
    ensures
        low <= r < high,
{
    rand::thread_rng().gen_range(low..high)
}

impl ColorParam {
    /// The colour that object number `index` is drawn with. In solid
    /// mode it is the single colour; in palette mode the random colours
    /// are cycled, in random mode the palette is cycled (each by `index`
    /// modulo the length).
    pub open spec fn spec_value_mapped(self, index: int) -> Rgba8 {
        match self.mode {
            ColorMode::Solid => self.single_color,
            ColorMode::Palette => self.random@[index % self.random@.len() as int],
            ColorMode::Random => self.palette.colors()[index % self.palette.colors().len() as int],
        }
    }

    /// A colour parameter in the given mode: opaque red, the Breeze
    /// palette, and freshly drawn random colours.
    pub fn new(mode: ColorMode) -> (p: Self)
        ensures
            p.single_color == rgba(255, 0, 0, 255),
            p.mode == mode,
            p.palette == ColorPalette::Breeze,
            is_random_draw(p.random@),
    {
        Self {
            single_color: Rgba8::new(255, 0, 0, 255),
            mode,
            random: Self::random(),
            palette: ColorPalette::default(),
        }
    }

    /// The colour that object number `index` is drawn with.
    pub fn value_mapped(self, index: usize) -> (c: Rgba8)
        requires
            self.mode == ColorMode::Palette ==> self.random@.len() > 0,
        ensures
            c == self.spec_value_mapped(index as int),
    {
        if self.mode == ColorMode::Solid {
            return self.single_color;
        }
        let other = match self.mode {
            ColorMode::Palette => self.random,
            _ => self.palette.as_vec(),
        };
        let mapped_index = index % other.len();
        other[mapped_index]
    }

    /// Eight colours whose four channels are each drawn from `0..255`.
    pub fn random() -> (v: Vec<Rgba8>)
        ensures
            is_random_draw(v@),
    {
        let mut temp: Vec<Rgba8> = Vec::new();
        let mut k: usize = 0;
        while k < 8
            invariant
                k <= 8,
                temp@.len() == k,
                forall|i: int|
                    0 <= i < temp@.len() ==> {
                        &&& #[trigger] temp@[i].red < 255
                        &&& temp@[i].green < 255
                        &&& temp@[i].blue < 255
                        &&& temp@[i].alpha < 255
                    },
            decreases 8 - k,
        {
            let r = random_range(0, 255);
            let g = random_range(0, 255);
            let b = random_range(0, 255);
            let a = random_range(0, 255);
            temp.push(Rgba8::new(r, g, b, a));
            k = k + 1;
        }
        temp
    }
}

impl Default for ColorParam {
    /// Solid opaque red with the Breeze palette and fresh random colours.
    fn default() -> (p: Self)
        ensures
            p.single_color == rgba(255, 0, 0, 255),
            p.mode == ColorMode::Solid,
            p.palette == ColorPalette::Breeze,
            is_random_draw(p.random@),
    {
        Self::new(ColorMode::Solid)
    }
}

} // verus!
