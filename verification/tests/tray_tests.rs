use mimi_ime::config::input_mode::InputMode;
use mimi_ime::systray::tray::{TrayMessage, menu_modes, mode_at, mode_label, selected_index, status_label, status_tooltip};

#[test]
fn menu_offers_enabled_modes() {
    assert_eq!(menu_modes(true, true), vec![InputMode::English, InputMode::Vni, InputMode::Telex]);
    assert_eq!(menu_modes(false, true), vec![InputMode::English, InputMode::Telex]);
    assert_eq!(menu_modes(false, false), vec![InputMode::English]);
}

#[test]
fn selected_item_is_the_current_mode() {
    assert_eq!(selected_index(true, true, InputMode::Telex), 2);
    assert_eq!(selected_index(false, true, InputMode::Telex), 1);
    assert_eq!(selected_index(false, true, InputMode::Vni), 0);
    for (vni, telex) in [(true, true), (false, true), (true, false)] {
        for m in menu_modes(vni, telex) {
            assert_eq!(mode_at(vni, telex, selected_index(vni, telex, m)), m);
        }
    }
}

#[test]
fn labels() {
    assert_eq!(mode_label(InputMode::English), "English");
    assert_eq!(mode_label(InputMode::Vni), "VNI");
    assert_eq!(mode_label(InputMode::Telex), "Telex");
    assert_eq!(status_tooltip(true), "mimi-ime - Running");
    assert_eq!(status_tooltip(false), "mimi-ime - Stopped");
    assert_eq!(status_label(true), "Status: Running ✓");
    assert_eq!(status_label(false), "Status: Stopped ✗");
}

#[test]
fn mode_changed_message_carries_the_mode() {
    let m = TrayMessage::ModeChanged(mode_at(true, true, 1));
    assert!(matches!(m, TrayMessage::ModeChanged(InputMode::Vni)));
}
