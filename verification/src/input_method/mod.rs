pub mod debug;
pub mod keyboard;
pub mod laws;
pub mod state;
pub mod wayland;
