//! What a key press or release does while the keyboard is grabbed: keys
//! with Ctrl or Alt, Backspace and the navigation keys, and the characters
//! that are composed into Vietnamese text.

use vstd::prelude::*;

use crate::config::input_mode::{InputMode, mode_output};
use crate::input_method::state::{
    ImeAction,
    ImeActionView,
    ImeStateView,
    InputMethodState,
    actions_view,
    clear_preedit_action,
    show_preedit_action,
};
use crate::text::str_chars;

verus! {

/// X keysym of Backspace.
pub const KEY_BACKSPACE: u32 = 0xff08;
pub const KEY_TAB: u32 = 0xff09;
pub const KEY_RETURN: u32 = 0xff0d;
pub const KEY_ESCAPE: u32 = 0xff1b;
pub const KEY_DELETE: u32 = 0xffff;
pub const KEY_HOME: u32 = 0xff50;
pub const KEY_LEFT: u32 = 0xff51;
pub const KEY_UP: u32 = 0xff52;
pub const KEY_RIGHT: u32 = 0xff53;
pub const KEY_DOWN: u32 = 0xff54;
pub const KEY_END: u32 = 0xff57;

/// A key event as read from the keyboard state: the key code, whether it was
/// pressed, whether Ctrl or Alt is in effect, the key's symbol and the text
/// that it types.
pub struct KeyPress {
    pub key: u32,
    pub pressed: bool,
    pub ctrl_active: bool,
    pub alt_active: bool,
    pub keysym: u32,
    pub utf8: String,
}

pub struct KeyPressView {
    pub key: u32,
    pub pressed: bool,
    pub ctrl_active: bool,
    pub alt_active: bool,
    pub keysym: u32,
    pub utf8: Seq<char>,
}

impl View for KeyPress {
    type V = KeyPressView;

    open spec fn view(&self) -> KeyPressView {
        KeyPressView {
            key: self.key,
            pressed: self.pressed,
            ctrl_active: self.ctrl_active,
            alt_active: self.alt_active,
            keysym: self.keysym,
            utf8: self.utf8@,
        }
    }
}

/// The events of the keyboard grab that the engine decides on. (The keymap
/// event only loads a keymap.)
pub enum KeyboardEvent {
    /// The modifier state changed.
    Modifiers,
    /// A key was pressed or released.
    Key(KeyPress),
}

/// Keys that commit the pending text and then go on to the application:
/// the arrows, Home, End, Delete, Return, Tab and Escape.
pub open spec fn is_passthrough_keysym(k: u32) -> bool {
    k == KEY_LEFT || k == KEY_RIGHT || k == KEY_UP || k == KEY_DOWN || k == KEY_HOME || k
        == KEY_END || k == KEY_DELETE || k == KEY_RETURN || k == KEY_TAB || k == KEY_ESCAPE
}

/// Hands the key on to the application as it came.
pub open spec fn forward_action(ev: KeyPressView) -> ImeActionView {
    ImeActionView::ForwardKey { key: ev.key, state: if ev.pressed { 1 } else { 0 } }
}

pub open spec fn commit_action(s: ImeStateView) -> ImeActionView {
    ImeActionView::Commit { serial: s.serial }
}

/// Commits `text` in place of the pre-edit text.
pub open spec fn commit_text_actions(s: ImeStateView, text: Seq<char>) -> Seq<ImeActionView> {
    seq![clear_preedit_action(), ImeActionView::CommitString { text }, commit_action(s)]
}

pub open spec fn with_pending(s: ImeStateView, pending: Seq<char>) -> ImeStateView {
    ImeStateView { pending, ..s }
}

/// A key with Ctrl or Alt: on press, drops the pending text (emptying the
/// pre-edit text), grabs the keyboard anew and ignores keys until the next
/// modifiers event; the key goes on to the application either way.
pub open spec fn modifier_key_step(s: ImeStateView, ev: KeyPressView, has_im: bool) -> (
    ImeStateView,
    Seq<ImeActionView>,
) {
    if ev.pressed {
        let flush = s.pending.len() > 0 && has_im;
        let acts = if flush {
            seq![clear_preedit_action(), commit_action(s)]
        } else {
            Seq::empty()
        };
        (
            ImeStateView {
                pending: if flush { Seq::empty() } else { s.pending },
                suppress: true,
                ..s
            },
            acts + seq![ImeActionView::RegrabKeyboard, forward_action(ev)],
        )
    } else {
        (s, seq![forward_action(ev)])
    }
}

/// Backspace: removes the last pending character and shows the rest, or,
/// with nothing pending (or on release), goes on to the application.
pub open spec fn backspace_step(s: ImeStateView, ev: KeyPressView, mode: InputMode, has_im: bool) -> (
    ImeStateView,
    Seq<ImeActionView>,
) {
    if ev.pressed && s.pending.len() > 0 {
        if has_im {
            let p = s.pending.drop_last();
            (with_pending(s, p), seq![show_preedit_action(mode_output(mode, p)), commit_action(s)])
        } else {
            (s, Seq::empty())
        }
    } else {
        (s, seq![forward_action(ev)])
    }
}

/// A navigation key: a press commits the pending text first; the key goes on
/// to the application either way.
pub open spec fn passthrough_step(s: ImeStateView, ev: KeyPressView, mode: InputMode, has_im: bool) -> (
    ImeStateView,
    Seq<ImeActionView>,
) {
    if ev.pressed && s.pending.len() > 0 && has_im {
        (
            with_pending(s, Seq::empty()),
            commit_text_actions(s, mode_output(mode, s.pending)) + seq![forward_action(ev)],
        )
    } else {
        (s, seq![forward_action(ev)])
    }
}

/// A typed character (in VNI or Telex): a space commits the composed text
/// followed by the space; Return commits the composed text when there is
/// any; anything else joins the pending text, which is shown composed.
pub open spec fn char_step(s: ImeStateView, text: Seq<char>, mode: InputMode, has_im: bool) -> (
    ImeStateView,
    Seq<ImeActionView>,
) {
    if !has_im {
        (s, Seq::empty())
    } else if text[0] == ' ' {
        (with_pending(s, Seq::empty()), commit_text_actions(s, mode_output(mode, s.pending).push(' ')))
    } else if text[0] == '\n' || text[0] == '\r' {
        let t = mode_output(mode, s.pending);
        if t.len() > 0 {
            (with_pending(s, Seq::empty()), commit_text_actions(s, t))
        } else {
            (s, Seq::empty())
        }
    } else {
        let p = s.pending + text;
        (with_pending(s, p), seq![show_preedit_action(mode_output(mode, p)), commit_action(s)])
    }
}

/// What a key event does, given the current mode and whether the
/// compositor gave an input method object.
pub open spec fn key_step(s: ImeStateView, ev: KeyPressView, mode: InputMode, has_im: bool) -> (
    ImeStateView,
    Seq<ImeActionView>,
) {
    if ev.ctrl_active || ev.alt_active {
        modifier_key_step(s, ev, has_im)
    } else if ev.keysym == KEY_BACKSPACE {
        backspace_step(s, ev, mode, has_im)
    } else if is_passthrough_keysym(ev.keysym) {
        passthrough_step(s, ev, mode, has_im)
    } else if !ev.pressed || ev.utf8.len() == 0 || mode == InputMode::English {
        (s, seq![forward_action(ev)])
    } else {
        char_step(s, ev.utf8, mode, has_im)
    }
}

/// What an event of the keyboard grab does: a modifiers event ends the
/// suppression of keys; a key is ignored while suppressed and otherwise
/// handled by `key_step`.
pub open spec fn keyboard_event_step(s: ImeStateView, ev: KeyboardEvent, mode: InputMode, has_im: bool) -> (
    ImeStateView,
    Seq<ImeActionView>,
) {
    match ev {
        KeyboardEvent::Modifiers => (ImeStateView { suppress: false, ..s }, Seq::empty()),
        KeyboardEvent::Key(k) => if s.suppress {
            (s, Seq::empty())
        } else {
            key_step(s, k@, mode, has_im)
        },
    }
}

pub fn is_passthrough_key(k: u32) -> (r: bool)
    ensures
        r == is_passthrough_keysym(k),
{
    k == KEY_LEFT || k == KEY_RIGHT || k == KEY_UP || k == KEY_DOWN || k == KEY_HOME || k
        == KEY_END || k == KEY_DELETE || k == KEY_RETURN || k == KEY_TAB || k == KEY_ESCAPE
}

fn forward_key(ev: &KeyPress) -> (a: ImeAction)
    ensures
        a@ == forward_action(ev@),
{
    let state: u32 = if ev.pressed { 1 } else { 0 };
    ImeAction::ForwardKey { key: ev.key, state }
}

fn clear_preedit() -> (a: ImeAction)
    ensures
        a@ == clear_preedit_action(),
{
    ImeAction::SetPreedit { text: String::new(), cursor_begin: 0, cursor_end: 0 }
}

fn show_preedit(text: String) -> (a: ImeAction)
    ensures
        a@ == show_preedit_action(text@),
{
    ImeAction::SetPreedit { text, cursor_begin: -1, cursor_end: -1 }
}

/// The actions that show `preedit` (the composed pending text) and apply it.
pub fn preedit_actions(preedit: String, serial: u32) -> (actions: Vec<ImeAction>)
    ensures
        actions_view(actions@) == seq![
            show_preedit_action(preedit@),
            ImeActionView::Commit { serial },
        ],
{
    let mut actions: Vec<ImeAction> = Vec::new();
    actions.push(show_preedit(preedit));
    actions.push(ImeAction::Commit { serial });
    assert(actions_view(actions@) =~= seq![
        show_preedit_action(preedit@),
        ImeActionView::Commit { serial },
    ]);
    actions
}

/// The actions that replace the pre-edit text by the committed `text`.
pub fn commit_actions(text: String, serial: u32) -> (actions: Vec<ImeAction>)
    ensures
        actions_view(actions@) == seq![
            clear_preedit_action(),
            ImeActionView::CommitString { text: text@ },
            ImeActionView::Commit { serial },
        ],
{
    let mut actions: Vec<ImeAction> = Vec::new();
    actions.push(clear_preedit());
    actions.push(ImeAction::CommitString { text });
    actions.push(ImeAction::Commit { serial });
    assert(actions_view(actions@) =~= seq![
        clear_preedit_action(),
        ImeActionView::CommitString { text: text@ },
        ImeActionView::Commit { serial },
    ]);
    actions
}

/// What a space does with the composed pending text: commits it followed by
/// the space.
pub fn space_actions(preedit: String, serial: u32) -> (actions: Vec<ImeAction>)
    ensures
        actions_view(actions@) == seq![
            clear_preedit_action(),
            ImeActionView::CommitString { text: preedit@.push(' ') },
            ImeActionView::Commit { serial },
        ],
{
    let mut text = preedit;
    crate::text::push_char(&mut text, ' ');
    commit_actions(text, serial)
}

/// What Return does with the composed pending text: commits it when there
/// is any, and does nothing otherwise.
pub fn line_break_actions(preedit: String, serial: u32) -> (actions: Vec<ImeAction>)
    ensures
        preedit@.len() > 0 ==> actions_view(actions@) == seq![
            clear_preedit_action(),
            ImeActionView::CommitString { text: preedit@ },
            ImeActionView::Commit { serial },
        ],
        preedit@.len() == 0 ==> actions@.len() == 0,
{
    if preedit.as_str().unicode_len() > 0 {
        commit_actions(preedit, serial)
    } else {
        Vec::new()
    }
}

/// Handles an event of the keyboard grab. `mode` is the current input mode;
/// `has_input_method` tells whether the compositor gave an input method
/// object. The caller handles the keymap event, and handles key events only
/// once a keymap is loaded.
pub fn handle_keyboard_event(
    state: &mut InputMethodState,
    event: KeyboardEvent,
    mode: InputMode,
    has_input_method: bool,
) -> (actions: Vec<ImeAction>)
    ensures
        (final(state)@, actions_view(actions@)) == keyboard_event_step(
            old(state)@,
            event,
            mode,
            has_input_method,
        ),
{
    match event {
        KeyboardEvent::Modifiers => {
            state.suppress_until_modifiers_sync = false;
            let actions: Vec<ImeAction> = Vec::new();
            assert(actions_view(actions@) =~= Seq::<ImeActionView>::empty());
            actions
        },
        KeyboardEvent::Key(k) => {
            if state.suppress_until_modifiers_sync {
                let actions: Vec<ImeAction> = Vec::new();
                assert(actions_view(actions@) =~= Seq::<ImeActionView>::empty());
                return actions;
            }
            handle_key(state, &k, mode, has_input_method)
        },
    }
}

fn handle_key(state: &mut InputMethodState, ev: &KeyPress, mode: InputMode, has_im: bool) -> (actions:
    Vec<ImeAction>)
    ensures
        (final(state)@, actions_view(actions@)) == key_step(old(state)@, ev@, mode, has_im),
{
    let ghost s0 = state@;
    let mut actions: Vec<ImeAction> = Vec::new();
    if ev.ctrl_active || ev.alt_active {
        if ev.pressed {
            if state.pending_chars.len() > 0 && has_im {
                actions.push(clear_preedit());
                actions.push(ImeAction::Commit { serial: state.serial });
                state.pending_chars.clear();
            }
            state.suppress_until_modifiers_sync = true;
            actions.push(ImeAction::RegrabKeyboard);
            actions.push(forward_key(ev));
        } else {
            actions.push(forward_key(ev));
        }
        assert(actions_view(actions@) =~= key_step(s0, ev@, mode, has_im).1);
        return actions;
    }
    if ev.keysym == KEY_BACKSPACE {
        if ev.pressed && state.pending_chars.len() > 0 {
            if has_im {
                return handle_backspace(state, mode);
            }
        } else {
            actions.push(forward_key(ev));
        }
        assert(actions_view(actions@) =~= key_step(s0, ev@, mode, has_im).1);
        return actions;
    }
    if is_passthrough_key(ev.keysym) {
        if ev.pressed && state.pending_chars.len() > 0 && has_im {
            let text = state.get_preedit(mode);
            actions = commit_actions(text, state.serial);
            state.pending_chars.clear();
        }
        actions.push(forward_key(ev));
        assert(actions_view(actions@) =~= key_step(s0, ev@, mode, has_im).1);
        return actions;
    }
    if !ev.pressed || ev.utf8.as_str().unicode_len() == 0 {
        actions.push(forward_key(ev));
        assert(actions_view(actions@) =~= key_step(s0, ev@, mode, has_im).1);
        return actions;
    }
    if mode == InputMode::English {
        actions.push(forward_key(ev));
        assert(actions_view(actions@) =~= key_step(s0, ev@, mode, has_im).1);
        return actions;
    }
    if has_im {
        return handle_char(state, ev.utf8.as_str(), mode);
    }
    assert(actions_view(actions@) =~= key_step(s0, ev@, mode, has_im).1);
    actions
}

fn handle_backspace(state: &mut InputMethodState, mode: InputMode) -> (actions: Vec<ImeAction>)
    requires
        old(state).pending_chars@.len() > 0,
    ensures
        final(state)@ == with_pending(old(state)@, old(state)@.pending.drop_last()),
        actions_view(actions@) == seq![
            show_preedit_action(mode_output(mode, old(state)@.pending.drop_last())),
            commit_action(old(state)@),
        ],
{
    state.pending_chars.pop();
    let preedit = state.get_preedit(mode);
    preedit_actions(preedit, state.serial)
}

fn handle_char(state: &mut InputMethodState, ch: &str, mode: InputMode) -> (actions: Vec<ImeAction>)
    requires
        ch@.len() > 0,
    ensures
        final(state)@ == char_step(old(state)@, ch@, mode, true).0,
        actions_view(actions@) == char_step(old(state)@, ch@, mode, true).1,
{
    let ghost s0 = state@;
    let first_char = ch.get_char(0);
    if first_char == ' ' {
        let preedit = state.get_preedit(mode);
        state.pending_chars.clear();
        space_actions(preedit, state.serial)
    } else if first_char == '\n' || first_char == '\r' {
        let preedit = state.get_preedit(mode);
        if preedit.as_str().unicode_len() > 0 {
            state.pending_chars.clear();
        }
        let actions = line_break_actions(preedit, state.serial);
        assert(actions_view(actions@) =~= char_step(s0, ch@, mode, true).1);
        actions
    } else {
        let chars = str_chars(ch);
        let ghost before = state.pending_chars@;
        let mut i: usize = 0;
        while i < chars.len()
            invariant
                i <= chars.len(),
                chars@ == ch@,
                state.pending_chars@ == before + chars@.subrange(0, i as int),
                state@ == with_pending(s0, state.pending_chars@),
            decreases chars.len() - i,
        {
            state.pending_chars.push(chars[i]);
            i = i + 1;
            assert(chars@.subrange(0, i as int) == chars@.subrange(0, i - 1 as int).push(chars@[i - 1]));
        }
        assert(chars@.subrange(0, chars.len() as int) == chars@);
        let preedit = state.get_preedit(mode);
        preedit_actions(preedit, state.serial)
    }
}

} // verus!
