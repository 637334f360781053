use mimi_ime::config::input_mode::InputMode;
use mimi_ime::config::state::{GlobalAppState, ThemeMode};

fn state(mode: InputMode, vni: bool, telex: bool) -> GlobalAppState {
    GlobalAppState {
        current_mode: mode,
        is_running: true,
        theme: ThemeMode::Dark,
        hotkey: "alt+shift".to_string(),
        enable_telex: telex,
        enable_vni: vni,
    }
}

#[test]
fn enabled_modes_lists_english_then_enabled_methods() {
    assert_eq!(state(InputMode::English, true, true).enabled_modes(), vec![InputMode::English, InputMode::Vni, InputMode::Telex]);
    assert_eq!(state(InputMode::English, false, true).enabled_modes(), vec![InputMode::English, InputMode::Telex]);
    assert_eq!(state(InputMode::English, true, false).enabled_modes(), vec![InputMode::English, InputMode::Vni]);
    assert_eq!(state(InputMode::English, false, false).enabled_modes(), vec![InputMode::English]);
}

#[test]
fn toggle_cycles_through_enabled_modes() {
    let mut s = state(InputMode::English, true, true);
    s.toggle_mode();
    assert_eq!(s.current_mode, InputMode::Vni);
    s.toggle_mode();
    assert_eq!(s.current_mode, InputMode::Telex);
    s.toggle_mode();
    assert_eq!(s.current_mode, InputMode::English);
}

#[test]
fn toggle_skips_disabled_methods() {
    let mut s = state(InputMode::English, false, true);
    s.toggle_mode();
    assert_eq!(s.current_mode, InputMode::Telex);
    s.toggle_mode();
    assert_eq!(s.current_mode, InputMode::English);
}

#[test]
fn toggle_with_only_english_stays_english() {
    let mut s = state(InputMode::English, false, false);
    s.toggle_mode();
    assert_eq!(s.current_mode, InputMode::English);
}

#[test]
fn toggle_from_disabled_mode_goes_after_english() {
    let mut s = state(InputMode::Telex, true, false);
    s.toggle_mode();
    assert_eq!(s.current_mode, InputMode::Vni);
    let mut s = state(InputMode::Vni, false, false);
    s.toggle_mode();
    assert_eq!(s.current_mode, InputMode::English);
}

#[test]
fn toggle_keeps_other_settings() {
    let mut s = state(InputMode::Vni, true, true);
    s.toggle_mode();
    assert!(s.is_running);
    assert_eq!(s.theme, ThemeMode::Dark);
    assert_eq!(s.hotkey, "alt+shift");
    assert!(s.enable_vni && s.enable_telex);
}

#[test]
fn toggling_len_times_returns_to_start() {
    for (vni, telex) in [(true, true), (true, false), (false, true), (false, false)] {
        let start = state(InputMode::English, vni, telex);
        let n = start.enabled_modes().len();
        for m in start.enabled_modes() {
            let mut s = state(m, vni, telex);
            for k in 1..=n {
                s.toggle_mode();
                assert_eq!(s.current_mode == m, k == n);
            }
        }
    }
}
