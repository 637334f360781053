use mimi_ime::config::input_mode::InputMode;
use mimi_ime::input_method::keyboard::{
    KEY_BACKSPACE, KEY_LEFT, KEY_RETURN, KeyPress, KeyboardEvent, commit_actions, handle_keyboard_event,
    line_break_actions, preedit_actions, space_actions,
};
use mimi_ime::input_method::state::{ImeAction, InputMethodState};

fn key(text: &str, pressed: bool) -> KeyPress {
    KeyPress { key: 30, pressed, ctrl_active: false, alt_active: false, keysym: 0x61, utf8: text.to_string() }
}

fn sym(keysym: u32, pressed: bool) -> KeyPress {
    KeyPress { key: 14, pressed, ctrl_active: false, alt_active: false, keysym, utf8: String::new() }
}

fn press(s: &mut InputMethodState, k: KeyPress, mode: InputMode) -> Vec<ImeAction> {
    handle_keyboard_event(s, KeyboardEvent::Key(k), mode, true)
}

fn type_str(s: &mut InputMethodState, text: &str, mode: InputMode) -> Vec<ImeAction> {
    let mut last = Vec::new();
    for c in text.chars() {
        last = press(s, key(&c.to_string(), true), mode);
    }
    last
}

fn preedit(t: &str) -> ImeAction {
    ImeAction::SetPreedit { text: t.to_string(), cursor_begin: -1, cursor_end: -1 }
}

fn cleared() -> ImeAction {
    ImeAction::SetPreedit { text: String::new(), cursor_begin: 0, cursor_end: 0 }
}

#[test]
fn typing_shows_the_composed_preedit() {
    let mut s = InputMethodState::new();
    s.serial = 4;
    let acts = type_str(&mut s, "viet65", InputMode::Vni);
    assert_eq!(acts, vec![preedit("việt"), ImeAction::Commit { serial: 4 }]);
    assert_eq!(s.pending_chars, "viet65".chars().collect::<Vec<_>>());
}

#[test]
fn space_commits_composed_text_and_space() {
    let mut s = InputMethodState::new();
    s.serial = 2;
    type_str(&mut s, "vieetj", InputMode::Telex);
    let acts = press(&mut s, key(" ", true), InputMode::Telex);
    assert_eq!(
        acts,
        vec![cleared(), ImeAction::CommitString { text: "việt ".to_string() }, ImeAction::Commit { serial: 2 }]
    );
    assert!(s.pending_chars.is_empty());
}

#[test]
fn backspace_removes_last_pending_char() {
    let mut s = InputMethodState::new();
    type_str(&mut s, "viet6", InputMode::Vni);
    let acts = press(&mut s, sym(KEY_BACKSPACE, true), InputMode::Vni);
    assert_eq!(acts, vec![preedit("viet"), ImeAction::Commit { serial: 0 }]);
    assert_eq!(s.pending_chars.len(), 4);
}

#[test]
fn backspace_with_nothing_pending_is_forwarded() {
    let mut s = InputMethodState::new();
    let acts = press(&mut s, sym(KEY_BACKSPACE, true), InputMode::Vni);
    assert_eq!(acts, vec![ImeAction::ForwardKey { key: 14, state: 1 }]);
}

#[test]
fn navigation_key_commits_then_forwards() {
    let mut s = InputMethodState::new();
    type_str(&mut s, "a6", InputMode::Vni);
    let acts = press(&mut s, sym(KEY_LEFT, true), InputMode::Vni);
    assert_eq!(
        acts,
        vec![
            cleared(),
            ImeAction::CommitString { text: "â".to_string() },
            ImeAction::Commit { serial: 0 },
            ImeAction::ForwardKey { key: 14, state: 1 },
        ]
    );
    assert!(s.pending_chars.is_empty());
    let acts = press(&mut s, sym(KEY_RETURN, false), InputMode::Vni);
    assert_eq!(acts, vec![ImeAction::ForwardKey { key: 14, state: 0 }]);
}

#[test]
fn ctrl_drops_pending_and_suppresses_until_modifiers() {
    let mut s = InputMethodState::new();
    type_str(&mut s, "abc", InputMode::Telex);
    let mut k = key("c", true);
    k.ctrl_active = true;
    let acts = press(&mut s, k, InputMode::Telex);
    assert_eq!(
        acts,
        vec![cleared(), ImeAction::Commit { serial: 0 }, ImeAction::RegrabKeyboard, ImeAction::ForwardKey { key: 30, state: 1 }]
    );
    assert!(s.pending_chars.is_empty());
    assert!(s.suppress_until_modifiers_sync);
    assert!(press(&mut s, key("x", true), InputMode::Telex).is_empty());
    assert!(handle_keyboard_event(&mut s, KeyboardEvent::Modifiers, InputMode::Telex, true).is_empty());
    assert!(!s.suppress_until_modifiers_sync);
    assert_eq!(press(&mut s, key("x", true), InputMode::Telex).len(), 2);
}

#[test]
fn release_is_forwarded_unchanged() {
    let mut s = InputMethodState::new();
    type_str(&mut s, "ab", InputMode::Vni);
    let acts = press(&mut s, key("a", false), InputMode::Vni);
    assert_eq!(acts, vec![ImeAction::ForwardKey { key: 30, state: 0 }]);
    assert_eq!(s.pending_chars.len(), 2);
}

#[test]
fn english_forwards_characters() {
    let mut s = InputMethodState::new();
    let acts = press(&mut s, key("a", true), InputMode::English);
    assert_eq!(acts, vec![ImeAction::ForwardKey { key: 30, state: 1 }]);
    assert!(s.pending_chars.is_empty());
}

#[test]
fn return_with_nothing_pending_does_nothing() {
    let mut s = InputMethodState::new();
    assert!(press(&mut s, key("\r", true), InputMode::Vni).is_empty());
    type_str(&mut s, "o7", InputMode::Vni);
    let acts = press(&mut s, key("\n", true), InputMode::Vni);
    assert_eq!(acts[1], ImeAction::CommitString { text: "ơ".to_string() });
    assert!(s.pending_chars.is_empty());
}

#[test]
fn without_input_method_characters_are_dropped() {
    let mut s = InputMethodState::new();
    let acts = handle_keyboard_event(&mut s, KeyboardEvent::Key(key("a", true)), InputMode::Vni, false);
    assert!(acts.is_empty());
    assert!(s.pending_chars.is_empty());
}

#[test]
fn action_builders() {
    assert_eq!(preedit_actions("ơ".to_string(), 3), vec![preedit("ơ"), ImeAction::Commit { serial: 3 }]);
    assert_eq!(
        commit_actions("a".to_string(), 1),
        vec![cleared(), ImeAction::CommitString { text: "a".to_string() }, ImeAction::Commit { serial: 1 }]
    );
    assert_eq!(
        space_actions("việt".to_string(), 2),
        vec![cleared(), ImeAction::CommitString { text: "việt ".to_string() }, ImeAction::Commit { serial: 2 }]
    );
    assert_eq!(line_break_actions(String::new(), 2), vec![]);
    assert_eq!(line_break_actions("x".to_string(), 2).len(), 3);
}

#[test]
fn backspace_right_after_a_char_restores_state() {
    let mut s = InputMethodState::new();
    type_str(&mut s, "ti", InputMode::Telex);
    let before = s.pending_chars.clone();
    press(&mut s, key("s", true), InputMode::Telex);
    let acts = press(&mut s, sym(KEY_BACKSPACE, true), InputMode::Telex);
    assert_eq!(s.pending_chars, before);
    assert_eq!(acts, vec![preedit("ti"), ImeAction::Commit { serial: 0 }]);
}

#[test]
fn every_request_is_followed_by_a_commit() {
    let mut s = InputMethodState::new();
    let mut keys: Vec<KeyPress> = "tieengs vieetj".chars().map(|c| key(&c.to_string(), true)).collect();
    keys.push(sym(KEY_BACKSPACE, true));
    keys.push(sym(KEY_LEFT, true));
    for k in keys {
        let acts = press(&mut s, k, InputMode::Telex);
        if let Some(i) = acts.iter().position(|a| matches!(a, ImeAction::SetPreedit { .. } | ImeAction::CommitString { .. })) {
            assert!(acts[i..].iter().any(|a| matches!(a, ImeAction::Commit { .. })));
        }
    }
}
