use vstd::prelude::*;

pub mod input_mode;
pub mod logging;
pub mod paths;
pub mod settings;
pub mod state;

pub use input_mode::InputMode;
pub use state::{GlobalAppState, ThemeMode};

verus! {

/// The program's name, used for its directories, its tray entry and its lock file.
pub const APP_NAME: &'static str = "mimi-ime";

} // verus!
