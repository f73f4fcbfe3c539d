pub mod receiver_device;
pub mod receiver_grid;
