pub mod color_helper;
pub mod global_settings;
pub mod path_manager;
