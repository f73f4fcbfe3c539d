pub mod color_palette;
pub mod color_param;
