pub mod modulator;
pub mod noise_modulator;
pub mod polarity;
pub mod wave_modulator;
