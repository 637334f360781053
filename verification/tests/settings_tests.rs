use mimi_ime::config::input_mode::InputMode;
use mimi_ime::config::settings::{
    AppConfig, DEFAULT_CONFIG, InputConfig, UiConfig, app_state_from_config, config_text, mode_name,
    theme_name,
};
use mimi_ime::config::state::ThemeMode;

fn cfg(mode: &str, vni: Option<bool>, telex: Option<bool>, ui: Option<(Option<&str>, Option<&str>)>) -> AppConfig {
    AppConfig {
        input: InputConfig { mode: mode.to_string(), enable_vni: vni, enable_telex: telex },
        ui: ui.map(|(t, h)| UiConfig { theme: t.map(|s| s.to_string()), hotkey: h.map(|s| s.to_string()) }),
    }
}

/// Reads the settings text the way the program's TOML parser would, field by field.
fn parse(text: &str) -> AppConfig {
    let t: toml::Table = text.parse().unwrap();
    let input = t["input"].as_table().unwrap();
    let ui = t.get("ui").map(|u| u.as_table().unwrap());
    AppConfig {
        input: InputConfig {
            mode: input["mode"].as_str().unwrap().to_string(),
            enable_vni: input.get("enable_vni").map(|v| v.as_bool().unwrap()),
            enable_telex: input.get("enable_telex").map(|v| v.as_bool().unwrap()),
        },
        ui: ui.map(|u| UiConfig {
            theme: u.get("theme").map(|v| v.as_str().unwrap().to_string()),
            hotkey: u.get("hotkey").map(|v| v.as_str().unwrap().to_string()),
        }),
    }
}

#[test]
fn defaults_when_optional_settings_are_missing() {
    let s = app_state_from_config(cfg("Vni", None, None, None));
    assert_eq!(s.current_mode, InputMode::Vni);
    assert_eq!(s.theme, ThemeMode::System);
    assert_eq!(s.hotkey, "ctrl+space");
    assert!(s.enable_vni && s.enable_telex && s.is_running);
}

#[test]
fn unknown_names_fall_back() {
    let s = app_state_from_config(cfg("vni", Some(true), Some(true), Some((Some("Blue"), None))));
    assert_eq!(s.current_mode, InputMode::English);
    assert_eq!(s.theme, ThemeMode::System);
    assert_eq!(s.hotkey, "ctrl+space");
}

#[test]
fn disabled_method_falls_back_to_english() {
    let s = app_state_from_config(cfg("Telex", Some(true), Some(false), None));
    assert_eq!(s.current_mode, InputMode::English);
    assert!(!s.enable_telex);
    let s = app_state_from_config(cfg("Vni", Some(false), None, None));
    assert_eq!(s.current_mode, InputMode::English);
    let s = app_state_from_config(cfg("Vni", Some(true), Some(false), None));
    assert_eq!(s.current_mode, InputMode::Vni);
}

#[test]
fn themes_and_hotkey_are_read() {
    let s = app_state_from_config(cfg("Telex", None, None, Some((Some("Light"), Some("alt+shift")))));
    assert_eq!(s.current_mode, InputMode::Telex);
    assert_eq!(s.theme, ThemeMode::Light);
    assert_eq!(s.hotkey, "alt+shift");
    let s = app_state_from_config(cfg("English", None, None, Some((Some("Dark"), None))));
    assert_eq!(s.theme, ThemeMode::Dark);
}

#[test]
fn config_text_has_the_settings_file_layout() {
    let t = config_text(InputMode::Vni, ThemeMode::Dark, "ctrl+space", false, true);
    assert_eq!(
        t,
        "[input]\nmode = \"Vni\"\nenable_vni = true\nenable_telex = false\n\n[ui]\ntheme = \"Dark\"\nhotkey = \"ctrl+space\"\n"
    );
}

#[test]
fn names_of_modes_and_themes() {
    assert_eq!(mode_name(InputMode::English), "English");
    assert_eq!(mode_name(InputMode::Vni), "Vni");
    assert_eq!(mode_name(InputMode::Telex), "Telex");
    assert_eq!(theme_name(ThemeMode::System), "System");
    assert_eq!(theme_name(ThemeMode::Light), "Light");
    assert_eq!(theme_name(ThemeMode::Dark), "Dark");
}

#[test]
fn written_settings_read_back() {
    for mode in [InputMode::English, InputMode::Vni, InputMode::Telex] {
        for theme in [ThemeMode::System, ThemeMode::Light, ThemeMode::Dark] {
            for (vni, telex) in [(true, true), (true, false), (false, true), (false, false)] {
                let text = config_text(mode, theme, "super+space", telex, vni);
                let s = app_state_from_config(parse(&text));
                let enabled = match mode {
                    InputMode::English => true,
                    InputMode::Vni => vni,
                    InputMode::Telex => telex,
                };
                assert_eq!(s.current_mode, if enabled { mode } else { InputMode::English });
                assert_eq!(s.theme, theme);
                assert_eq!(s.hotkey, "super+space");
                assert_eq!((s.enable_vni, s.enable_telex), (vni, telex));
            }
        }
    }
}

#[test]
fn default_config_reads_as_english_with_both_methods() {
    let s = app_state_from_config(parse(DEFAULT_CONFIG));
    assert_eq!(s.current_mode, InputMode::English);
    assert_eq!(s.theme, ThemeMode::System);
    assert_eq!(s.hotkey, "ctrl+space");
    assert!(s.enable_vni && s.enable_telex);
}
