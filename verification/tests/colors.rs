use welosa::color::color_palette::ColorPalette as Palette;
use welosa::color::color_param::{ColorMode, ColorPalette, ColorParam};
use welosa::rgba::Rgba8;
use welosa::utils::color_helper;
use welosa::utils::color_helper::ColorPalette as P;

#[test]
fn palettes_have_their_colors() {
    let breeze = Palette::Breeze.as_slice();
    assert_eq!(breeze.len(), 5);
    assert_eq!(breeze[0], Rgba8::new(2, 82, 89, 255));
    assert_eq!(breeze[4], Rgba8::new(244, 226, 221, 255));
    for p in [Palette::Dolphin, Palette::Sunset, Palette::Forest, Palette::Neon, Palette::Ember, Palette::Ice] {
        assert_eq!(p.as_slice().len(), 5);
    }
    let horizon = Palette::PastelHorizon.as_slice();
    assert_eq!(horizon.len(), 32);
    assert_eq!(horizon[5], Rgba8::new(255, 255, 255, 255));
    assert_eq!(horizon[31], Rgba8::new(255, 234, 246, 255));
    assert_eq!(Palette::Neon.as_slice()[2], Rgba8::new(255, 0, 204, 255));
    assert_eq!(Palette::PastelHorizon.as_str(), "Horizon");
    assert_eq!(Palette::Ember.as_str(), "Ember");
    assert!(Palette::default() == Palette::Breeze);
}

#[test]
fn solid_color_ignores_index() {
    let param = ColorParam::default();
    assert_eq!(param.value_mapped(0), Rgba8::new(255, 0, 0, 255));
    assert_eq!(param.value_mapped(123), Rgba8::new(255, 0, 0, 255));
}

#[test]
fn palette_colors_repeat() {
    let param = ColorParam {
        single_color: Rgba8::new(1, 1, 1, 1),
        mode: ColorMode::Palette,
        palette: ColorPalette::Dolphin,
    };
    assert_eq!(param.value_mapped(0), Rgba8::new(242, 121, 222, 255));
    assert_eq!(param.value_mapped(4), Rgba8::new(186, 194, 242, 255));
    assert_eq!(param.value_mapped(5), param.value_mapped(0));
    assert_eq!(param.value_mapped(7), param.value_mapped(2));
    assert_eq!(ColorPalette::Breeze.as_vec()[3], Rgba8::new(216, 79, 4, 255));
    assert_eq!(ColorPalette::breeze_palette(), ColorPalette::Breeze.as_vec());
    assert_eq!(ColorPalette::dolphin_palette(), ColorPalette::Dolphin.as_vec());
    assert_eq!(ColorPalette::Dolphin.as_str(), "Dolphin");
}

#[test]
fn helper_palette_mode_cycles_random_colors() {
    let mut param = color_helper::ColorParam::new(color_helper::ColorMode::Palette);
    assert_eq!(param.random.len(), 8);
    param.random = vec![Rgba8::new(1, 0, 0, 0), Rgba8::new(2, 0, 0, 0), Rgba8::new(3, 0, 0, 0)];
    assert_eq!(param.clone().value_mapped(4), Rgba8::new(2, 0, 0, 0));
    param.mode = color_helper::ColorMode::Random;
    assert_eq!(param.clone().value_mapped(6), Rgba8::new(12, 171, 168, 255));
    param.mode = color_helper::ColorMode::Solid;
    assert_eq!(param.value_mapped(6), Rgba8::new(255, 0, 0, 255));
}

#[test]
fn helper_random_colors_stay_below_255() {
    for _ in 0..20 {
        let colors = color_helper::ColorParam::random();
        assert_eq!(colors.len(), 8);
        for c in colors {
            assert!(c.red < 255 && c.green < 255 && c.blue < 255 && c.alpha < 255);
        }
        let made = [
            color_helper::ColorParam::new(color_helper::ColorMode::Palette),
            color_helper::ColorParam::default(),
        ];
        for p in made {
            assert_eq!(p.random.len(), 8);
            assert!(p.random.iter().all(|c| c.red < 255 && c.green < 255 && c.blue < 255 && c.alpha < 255));
        }
    }
}

#[test]
fn helper_palettes_and_labels() {
    assert_eq!(P::iterator(), vec![P::Breeze, P::Dolphin]);
    assert_eq!(P::Breeze.as_str(), "Breeze");
    assert_eq!(P::Dolphin.as_str(), "Warm");
    assert_eq!(P::Breeze.as_vec()[0], Rgba8::new(15, 194, 192, 255));
    let d = color_helper::ColorParam::default();
    assert!(d.mode == color_helper::ColorMode::Solid);
    assert!(d.palette == P::Breeze);
    assert_eq!(d.single_color, Rgba8::new(255, 0, 0, 255));
}
