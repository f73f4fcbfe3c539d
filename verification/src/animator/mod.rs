pub mod animation_type;
pub mod layer_kind;
pub mod layers;
pub mod animator_param;
pub mod clock;
pub mod objects;
pub mod presets_manager;
