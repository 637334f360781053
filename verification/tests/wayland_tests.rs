use mimi_ime::config::input_mode::InputMode;
use mimi_ime::input_method::state::{ContentPurpose, ImeAction, InputMethodState};
use mimi_ime::input_method::wayland::{GlobalInterface, InputMethodEvent, global_binding, handle_input_method_event};

#[test]
fn activate_grabs_and_clears() {
    let mut s = InputMethodState::new();
    s.pending_chars = vec!['a'];
    let acts = handle_input_method_event(&mut s, InputMethodEvent::Activate, InputMode::Vni);
    assert_eq!(acts, vec![ImeAction::GrabKeyboard]);
    assert!(s.pending_chars.is_empty());
}

#[test]
fn deactivate_commits_pending_text() {
    let mut s = InputMethodState::new();
    s.serial = 9;
    s.pending_chars = "a8".chars().collect();
    let acts = handle_input_method_event(&mut s, InputMethodEvent::Deactivate, InputMode::Vni);
    assert_eq!(
        acts,
        vec![
            ImeAction::ReleaseKeyboardGrab,
            ImeAction::SetPreedit { text: String::new(), cursor_begin: 0, cursor_end: 0 },
            ImeAction::CommitString { text: "ă".to_string() },
            ImeAction::Commit { serial: 9 },
        ]
    );
    assert!(s.pending_chars.is_empty());
    let acts = handle_input_method_event(&mut s, InputMethodEvent::Deactivate, InputMode::Vni);
    assert_eq!(acts, vec![ImeAction::ReleaseKeyboardGrab]);
}

#[test]
fn new_state_starts_empty() {
    let s = InputMethodState::new();
    assert_eq!(s.serial, 0);
    assert!(s.pending_chars.is_empty() && !s.suppress_until_modifiers_sync);
    assert_eq!((s.repeat_rate, s.repeat_delay, s.repeat_key), (0, 600, 0));
    assert_eq!((s.surrounding_cursor, s.surrounding_anchor), (-1, -1));
    assert!(s.surrounding_text.is_empty() && !s.surrounding_initialized);
    assert_eq!(s.content_hint, 0);
    assert_eq!(s.content_purpose, ContentPurpose::Normal);
    assert_eq!(s.pending_text_change_cause, None);
    assert_eq!((s.pending_own_commits, s.pending_commit), (0, false));
    assert!(s.pending_forward_keys.is_empty());
}

#[test]
fn done_advances_serial() {
    let mut s = InputMethodState::new();
    handle_input_method_event(&mut s, InputMethodEvent::Done, InputMode::English);
    handle_input_method_event(&mut s, InputMethodEvent::Done, InputMode::English);
    assert_eq!(s.serial, 2);
}

#[test]
fn globals_to_bind() {
    assert_eq!(global_binding("wl_seat", 9), Some((GlobalInterface::Seat, 7)));
    assert_eq!(global_binding("wl_seat", 5), Some((GlobalInterface::Seat, 5)));
    assert_eq!(global_binding("zwp_input_method_manager_v2", 3), Some((GlobalInterface::InputMethodManager, 1)));
    assert_eq!(global_binding("zwp_virtual_keyboard_manager_v1", 1), Some((GlobalInterface::VirtualKeyboardManager, 1)));
    assert_eq!(global_binding("wl_compositor", 4), None);
}

#[test]
fn commits_wait_for_first_done() {
    let mut s = InputMethodState::new();
    assert_eq!(s.im_commit(true), None);
    assert!(s.pending_commit);
    s.serial = 3;
    assert_eq!(s.im_commit(true), Some(ImeAction::Commit { serial: 3 }));
    assert_eq!(s.pending_own_commits, 1);
    s.pending_own_commits = u32::MAX;
    assert_eq!(s.commit_now(false), None);
    assert_eq!(s.pending_own_commits, u32::MAX);
}

#[test]
fn clear_pending_reports_dropped_text() {
    let mut s = InputMethodState::new();
    assert!(!s.clear_pending());
    s.pending_chars = vec!['x'];
    assert!(s.clear_pending());
    assert!(s.pending_chars.is_empty());
}
