pub mod legacy;
pub mod components;
