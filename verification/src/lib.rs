//! Core logic of the WelosaII LED animation tool: colour palettes and
//! colour parameters, the LED receiver grid (cell layout, indexing, LED
//! buffer), parameter holders, preset bookkeeping and the small textual
//! formats the application shows.

pub mod rgba;
pub mod color;
pub mod utils;
pub mod text;
pub mod receiver;

pub mod reciver_device;
pub mod animator;
pub mod modulator;
pub mod presets;
pub mod timecode;
