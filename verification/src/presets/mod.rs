pub mod presets_manager;
