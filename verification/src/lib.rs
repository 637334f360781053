//! Core logic of the Mimi Vietnamese input method: input modes and their
//! text transformers, the application settings, the key-event engine that
//! decides what to pre-edit, commit or forward, and the tray menu model.

pub mod config;
pub mod input_method;
pub mod systray;
pub mod text;
