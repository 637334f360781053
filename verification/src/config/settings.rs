//! The settings file: the document that it holds, the application state
//! read from it, and the text written back when a setting changes.
//! Reading and writing the file, and the TOML syntax, are left to the
//! caller; this module holds what the settings mean.

use vstd::prelude::*;

use super::input_mode::InputMode;
use super::state::{GlobalAppState, ThemeMode, enabled_mode_list, lemma_enabled_modes_shape};
use crate::text::{opt_string_view, str_eq};

verus! {

/// The whole settings document.
pub struct AppConfig {
    pub input: InputConfig,
    pub ui: Option<UiConfig>,
}

/// The `[input]` table.
pub struct InputConfig {
    pub mode: String,
    pub enable_vni: Option<bool>,
    pub enable_telex: Option<bool>,
}

/// The `[ui]` table.
pub struct UiConfig {
    pub theme: Option<String>,
    pub hotkey: Option<String>,
}

pub struct AppConfigView {
    pub input: InputConfigView,
    pub ui: Option<UiConfigView>,
}

pub struct InputConfigView {
    pub mode: Seq<char>,
    pub enable_vni: Option<bool>,
    pub enable_telex: Option<bool>,
}

pub struct UiConfigView {
    pub theme: Option<Seq<char>>,
    pub hotkey: Option<Seq<char>>,
}

impl View for InputConfig {
    type V = InputConfigView;

    open spec fn view(&self) -> InputConfigView {
        InputConfigView { mode: self.mode@, enable_vni: self.enable_vni, enable_telex: self.enable_telex }
    }
}

impl View for UiConfig {
    type V = UiConfigView;

    open spec fn view(&self) -> UiConfigView {
        UiConfigView { theme: opt_string_view(self.theme), hotkey: opt_string_view(self.hotkey) }
    }
}

impl View for AppConfig {
    type V = AppConfigView;

    open spec fn view(&self) -> AppConfigView {
        AppConfigView {
            input: self.input@,
            ui: match self.ui {
                Some(u) => Some(u@),
                None => None,
            },
        }
    }
}

/// The application state with its hotkey taken by its characters.
pub struct GlobalAppStateView {
    pub current_mode: InputMode,
    pub is_running: bool,
    pub theme: ThemeMode,
    pub hotkey: Seq<char>,
    pub enable_telex: bool,
    pub enable_vni: bool,
}

impl View for GlobalAppState {
    type V = GlobalAppStateView;

    open spec fn view(&self) -> GlobalAppStateView {
        GlobalAppStateView {
            current_mode: self.current_mode,
            is_running: self.is_running,
            theme: self.theme,
            hotkey: self.hotkey@,
            enable_telex: self.enable_telex,
            enable_vni: self.enable_vni,
        }
    }
}

/// The hotkey used when the settings name none.
pub open spec fn default_hotkey() -> Seq<char> {
    "ctrl+space"@
}

/// The mode that a settings name selects: "Vni" and "Telex" select those
/// methods, anything else English.
pub open spec fn mode_from_name(name: Seq<char>) -> InputMode {
    if name == "Vni"@ {
        InputMode::Vni
    } else if name == "Telex"@ {
        InputMode::Telex
    } else {
        InputMode::English
    }
}

/// The theme that a settings name selects: "Light" and "Dark" select those,
/// anything else (or nothing) the system theme.
pub open spec fn theme_from_name(name: Option<Seq<char>>) -> ThemeMode {
    if name == Some("Light"@) {
        ThemeMode::Light
    } else if name == Some("Dark"@) {
        ThemeMode::Dark
    } else {
        ThemeMode::System
    }
}

/// A selected mode whose typing method is disabled falls back to English.
pub open spec fn effective_mode(mode: InputMode, enable_vni: bool, enable_telex: bool) -> InputMode {
    if (mode == InputMode::Vni && !enable_vni) || (mode == InputMode::Telex && !enable_telex) {
        InputMode::English
    } else {
        mode
    }
}

pub open spec fn flag_or_true(flag: Option<bool>) -> bool {
    match flag {
        Some(b) => b,
        None => true,
    }
}

/// The application state that a settings document describes.
pub open spec fn state_from_config(c: AppConfigView) -> GlobalAppStateView {
    let enable_vni = flag_or_true(c.input.enable_vni);
    let enable_telex = flag_or_true(c.input.enable_telex);
    GlobalAppStateView {
        current_mode: effective_mode(mode_from_name(c.input.mode), enable_vni, enable_telex),
        is_running: true,
        theme: theme_from_name(
            match c.ui {
                Some(u) => u.theme,
                None => None,
            },
        ),
        hotkey: match c.ui {
            Some(u) => match u.hotkey {
                Some(h) => h,
                None => default_hotkey(),
            },
            None => default_hotkey(),
        },
        enable_telex,
        enable_vni,
    }
}

/// The application state described by a settings document: the selected
/// mode (English when it names none that is known, or when its method is
/// disabled), the theme, the hotkey (ctrl+space by default), and which
/// methods are enabled (both by default).
pub fn app_state_from_config(config: AppConfig) -> (state: GlobalAppState)
    ensures
        state@ == state_from_config(config@),
{
    let mode = if str_eq(config.input.mode.as_str(), "Vni") {
        InputMode::Vni
    } else if str_eq(config.input.mode.as_str(), "Telex") {
        InputMode::Telex
    } else {
        InputMode::English
    };
    let theme = match &config.ui {
        Some(u) => match &u.theme {
            Some(t) => {
                if str_eq(t.as_str(), "Light") {
                    ThemeMode::Light
                } else if str_eq(t.as_str(), "Dark") {
                    ThemeMode::Dark
                } else {
                    ThemeMode::System
                }
            },
            None => ThemeMode::System,
        },
        None => ThemeMode::System,
    };
    let hotkey = match config.ui {
        Some(u) => match u.hotkey {
            Some(h) => h,
            None => String::from_str("ctrl+space"),
        },
        None => String::from_str("ctrl+space"),
    };
    let enable_vni = match config.input.enable_vni {
        Some(b) => b,
        None => true,
    };
    let enable_telex = match config.input.enable_telex {
        Some(b) => b,
        None => true,
    };
    let mode = if (mode == InputMode::Vni && !enable_vni) || (mode == InputMode::Telex
        && !enable_telex) {
        InputMode::English
    } else {
        mode
    };
    GlobalAppState { current_mode: mode, is_running: true, theme, hotkey, enable_telex, enable_vni }
}

/// The name under which the settings file stores a mode.
pub open spec fn mode_name_spec(mode: InputMode) -> Seq<char> {
    match mode {
        InputMode::English => "English"@,
        InputMode::Vni => "Vni"@,
        InputMode::Telex => "Telex"@,
    }
}

/// The name under which the settings file stores a theme.
pub open spec fn theme_name_spec(theme: ThemeMode) -> Seq<char> {
    match theme {
        ThemeMode::Light => "Light"@,
        ThemeMode::Dark => "Dark"@,
        ThemeMode::System => "System"@,
    }
}

pub open spec fn bool_text(b: bool) -> Seq<char> {
    if b { "true"@ } else { "false"@ }
}

pub fn mode_name(mode: InputMode) -> (name: &'static str)
    ensures
        name@ == mode_name_spec(mode),
{
    match mode {
        InputMode::English => "English",
        InputMode::Vni => "Vni",
        InputMode::Telex => "Telex",
    }
}

pub fn theme_name(theme: ThemeMode) -> (name: &'static str)
    ensures
        name@ == theme_name_spec(theme),
{
    match theme {
        ThemeMode::Light => "Light",
        ThemeMode::Dark => "Dark",
        ThemeMode::System => "System",
    }
}

fn bool_name(b: bool) -> (name: &'static str)
    ensures
        name@ == bool_text(b),
{
    if b { "true" } else { "false" }
}

/// The settings text written when the user changes a setting.
pub open spec fn config_text_spec(
    mode: InputMode,
    theme: ThemeMode,
    hotkey: Seq<char>,
    enable_telex: bool,
    enable_vni: bool,
) -> Seq<char> {
    "[input]\nmode = \""@ + mode_name_spec(mode) + "\"\nenable_vni = "@ + bool_text(enable_vni)
        + "\nenable_telex = "@ + bool_text(enable_telex) + "\n\n[ui]\ntheme = \""@
        + theme_name_spec(theme) + "\"\nhotkey = \""@ + hotkey + "\"\n"@
}

/// The settings document that `config_text_spec` spells out.
pub open spec fn written_config(
    mode: InputMode,
    theme: ThemeMode,
    hotkey: Seq<char>,
    enable_telex: bool,
    enable_vni: bool,
) -> AppConfigView {
    AppConfigView {
        input: InputConfigView {
            mode: mode_name_spec(mode),
            enable_vni: Some(enable_vni),
            enable_telex: Some(enable_telex),
        },
        ui: Some(UiConfigView { theme: Some(theme_name_spec(theme)), hotkey: Some(hotkey) }),
    }
}

/// The text of the settings file that records the given settings.
pub fn config_text(
    mode: InputMode,
    theme: ThemeMode,
    hotkey: &str,
    enable_telex: bool,
    enable_vni: bool,
) -> (text: String)
    ensures
        text@ == config_text_spec(mode, theme, hotkey@, enable_telex, enable_vni),
{
    let mut text = String::from_str("[input]\nmode = \"");
    text.append(mode_name(mode));
    text.append("\"\nenable_vni = ");
    text.append(bool_name(enable_vni));
    text.append("\nenable_telex = ");
    text.append(bool_name(enable_telex));
    text.append("\n\n[ui]\ntheme = \"");
    text.append(theme_name(theme));
    text.append("\"\nhotkey = \"");
    text.append(hotkey);
    text.append("\"\n");
    text
}

/// The settings file written on first start.
pub const DEFAULT_CONFIG: &'static str = "[input]\nmode = \"English\" # Options: English, Vni, Telex\nenable_vni = true\nenable_telex = true\n\n[ui]\ntheme = \"System\"\nhotkey = \"ctrl+space\"\n";

/// Reading a stored mode name gives back the stored mode.
pub proof fn lemma_mode_name_round_trip(mode: InputMode)
    ensures
        mode_from_name(mode_name_spec(mode)) == mode,
{
    reveal_strlit("English");
    reveal_strlit("Vni");
    reveal_strlit("Telex");
    assert("English"@.len() == 7);
    assert("Vni"@.len() == 3);
    assert("Telex"@.len() == 5);
}

/// Reading a stored theme name gives back the stored theme.
pub proof fn lemma_theme_name_round_trip(theme: ThemeMode)
    ensures
        theme_from_name(Some(theme_name_spec(theme))) == theme,
{
    reveal_strlit("Light");
    reveal_strlit("Dark");
    reveal_strlit("System");
    assert("Light"@.len() == 5);
    assert("Dark"@.len() == 4);
    assert("System"@.len() == 6);
}

/// What the settings record is what is read back: the state described by
/// the document written for given settings has those settings, with the
/// mode falling back to English when its method is disabled, and is running.
pub proof fn lemma_written_config_read_back(
    mode: InputMode,
    theme: ThemeMode,
    hotkey: Seq<char>,
    enable_telex: bool,
    enable_vni: bool,
)
    ensures
        state_from_config(written_config(mode, theme, hotkey, enable_telex, enable_vni))
            == (GlobalAppStateView {
            current_mode: effective_mode(mode, enable_vni, enable_telex),
            is_running: true,
            theme,
            hotkey,
            enable_telex,
            enable_vni,
        }),
{
    lemma_mode_name_round_trip(mode);
    lemma_theme_name_round_trip(theme);
}

/// The mode read from any settings document is one of its enabled modes.
pub proof fn lemma_config_mode_is_enabled(c: AppConfigView)
    ensures
        ({
            let s = state_from_config(c);
            enabled_mode_list(s.enable_vni, s.enable_telex).contains(s.current_mode)
        }),
{
    let s = state_from_config(c);
    lemma_enabled_modes_shape(s.enable_vni, s.enable_telex);
}


/// The settings text names the mode right after `[input]\nmode = "`, so that
/// reading the name there gives the mode back, and ends with the line
/// `hotkey = "<hotkey>"` holding the whole hotkey.
pub proof fn lemma_config_text_fields(
    mode: InputMode,
    theme: ThemeMode,
    hotkey: Seq<char>,
    enable_telex: bool,
    enable_vni: bool,
)
    ensures
        ({
            let t = config_text_spec(mode, theme, hotkey, enable_telex, enable_vni);
            let head = "[input]\nmode = \""@;
            let tail = "hotkey = \""@ + hotkey + "\"\n"@;
            &&& t.len() >= head.len() + tail.len()
            &&& t.subrange(0, head.len() as int) == head
            &&& mode_from_name(t.subrange(head.len() as int, (head.len() + mode_name_spec(mode).len()) as int)) == mode
            &&& t.subrange(t.len() - tail.len(), t.len() as int) == tail
        }),
{
    let t = config_text_spec(mode, theme, hotkey, enable_telex, enable_vni);
    let head = "[input]\nmode = \""@;
    let name = mode_name_spec(mode);
    let tail = "hotkey = \""@ + hotkey + "\"\n"@;
    let rest = "\"\nenable_vni = "@ + bool_text(enable_vni) + "\nenable_telex = "@ + bool_text(
        enable_telex,
    ) + "\n\n[ui]\ntheme = \""@ + theme_name_spec(theme) + "\"\n"@;
    reveal_strlit("\"\nhotkey = \"");
    reveal_strlit("\"\n");
    reveal_strlit("hotkey = \"");
    assert("\"\nhotkey = \""@ =~= "\"\n"@ + "hotkey = \""@);
    broadcast use vstd::seq_lib::group_seq_properties;
    assert(t =~= head + name + rest + tail);
    assert((head + name + rest + tail).subrange(0, head.len() as int) =~= head);
    assert((head + name + rest + tail).subrange(head.len() as int, (head.len() + name.len()) as int) =~= name);
    assert((head + name + rest + tail).subrange(t.len() - tail.len(), t.len() as int) =~= tail);
    lemma_mode_name_round_trip(mode);
}

} // verus!
