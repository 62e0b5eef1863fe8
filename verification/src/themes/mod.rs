pub mod structs;
pub mod defaults;
pub mod manager;
pub mod color;
