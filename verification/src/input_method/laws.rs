//! Properties of the key handling that span events: what is typed is what
//! is committed, Backspace undoes a character, releases pass through,
//! suppressed keys are ignored, and every commit carries the current serial.

use vstd::prelude::*;

use crate::config::input_mode::{InputMode, mode_output};
use crate::input_method::keyboard::{
    KEY_BACKSPACE,
    KEY_DELETE,
    KEY_DOWN,
    KEY_END,
    KEY_ESCAPE,
    KEY_HOME,
    KEY_LEFT,
    KEY_RETURN,
    KEY_RIGHT,
    KEY_TAB,
    KEY_UP,
    KeyPress,
    KeyPressView,
    KeyboardEvent,
    commit_action,
    commit_text_actions,
    forward_action,
    is_passthrough_keysym,
    key_step,
    keyboard_event_step,
};
use crate::input_method::state::{ImeActionView, ImeStateView, show_preedit_action};
use crate::input_method::wayland::{InputMethodEvent, input_method_event_step};

verus! {

/// A key that is not a modifier combination, not Backspace and not a
/// navigation key.
pub open spec fn ordinary_key(ev: KeyPressView) -> bool {
    &&& !ev.ctrl_active
    &&& !ev.alt_active
    &&& ev.keysym != KEY_BACKSPACE
    &&& !is_passthrough_keysym(ev.keysym)
}

/// The press of an ordinary key that types text other than a space or a
/// line break.
pub open spec fn plain_char_press(ev: KeyPressView) -> bool {
    &&& ordinary_key(ev)
    &&& ev.pressed
    &&& ev.utf8.len() > 0
    &&& ev.utf8[0] != ' '
    &&& ev.utf8[0] != '\n'
    &&& ev.utf8[0] != '\r'
}

/// The press of the space bar.
pub open spec fn space_press(ev: KeyPressView) -> bool {
    &&& ordinary_key(ev)
    &&& ev.pressed
    &&& ev.utf8.len() > 0
    &&& ev.utf8[0] == ' '
}

/// The press of Backspace without Ctrl or Alt.
pub open spec fn backspace_press(ev: KeyPressView) -> bool {
    &&& !ev.ctrl_active
    &&& !ev.alt_active
    &&& ev.keysym == KEY_BACKSPACE
    &&& ev.pressed
}

/// A key event as the grab delivers it: ignored while keys are suppressed.
pub open spec fn press_step(s: ImeStateView, ev: KeyPressView, mode: InputMode, has_im: bool) -> (
    ImeStateView,
    Seq<ImeActionView>,
) {
    if s.suppress {
        (s, Seq::empty())
    } else {
        key_step(s, ev, mode, has_im)
    }
}

/// The state after a sequence of key events, and the actions of the last one.
pub open spec fn run_keys(s: ImeStateView, keys: Seq<KeyPressView>, mode: InputMode, has_im: bool) -> (
    ImeStateView,
    Seq<ImeActionView>,
)
    decreases keys.len(),
{
    if keys.len() == 0 {
        (s, Seq::empty())
    } else {
        press_step(run_keys(s, keys.drop_last(), mode, has_im).0, keys.last(), mode, has_im)
    }
}

/// The text typed by a sequence of keys.
pub open spec fn typed_text(keys: Seq<KeyPressView>) -> Seq<char>
    decreases keys.len(),
{
    if keys.len() == 0 {
        Seq::empty()
    } else {
        typed_text(keys.drop_last()) + keys.last().utf8
    }
}

/// Typing characters in VNI or Telex adds exactly what they type to the
/// pending text, and after each key the pre-edit shows the pending text as
/// the mode composes it, followed by a commit.
pub proof fn lemma_typing_accumulates(
    s: ImeStateView,
    keys: Seq<KeyPressView>,
    mode: InputMode,
)
    requires
        !s.suppress,
        mode != InputMode::English,
        forall|i: int| 0 <= i < keys.len() ==> plain_char_press(#[trigger] keys[i]),
    ensures
        run_keys(s, keys, mode, true).0 == (ImeStateView { pending: s.pending + typed_text(keys), ..s }),
        keys.len() > 0 ==> run_keys(s, keys, mode, true).1 == seq![
            show_preedit_action(mode_output(mode, s.pending + typed_text(keys))),
            ImeActionView::Commit { serial: s.serial },
        ],
    decreases keys.len(),
{
    if keys.len() == 0 {
        assert(s.pending + typed_text(keys) =~= s.pending);
    } else {
        let prefix = keys.drop_last();
        assert forall|i: int| 0 <= i < prefix.len() implies plain_char_press(#[trigger] prefix[i]) by {
            assert(prefix[i] == keys[i]);
        }
        lemma_typing_accumulates(s, prefix, mode);
        assert(plain_char_press(keys[keys.len() - 1]));
        assert(s.pending + typed_text(prefix) + keys.last().utf8 =~= s.pending + typed_text(keys));
    }
}

/// A space commits the composed pending text followed by the space, and
/// leaves nothing pending.
pub proof fn lemma_space_commits(s: ImeStateView, ev: KeyPressView, mode: InputMode)
    requires
        !s.suppress,
        mode != InputMode::English,
        space_press(ev),
    ensures
        press_step(s, ev, mode, true) == (
            ImeStateView { pending: Seq::empty(), ..s },
            commit_text_actions(s, mode_output(mode, s.pending).push(' ')),
        ),
{
}

/// What is committed is what was typed: starting with nothing pending,
/// typing characters and then a space commits the mode's composition of
/// the typed characters followed by a space, and leaves nothing pending.
pub proof fn lemma_typed_text_is_committed(
    s: ImeStateView,
    keys: Seq<KeyPressView>,
    space: KeyPressView,
    mode: InputMode,
)
    requires
        !s.suppress,
        s.pending.len() == 0,
        mode != InputMode::English,
        forall|i: int| 0 <= i < keys.len() ==> plain_char_press(#[trigger] keys[i]),
        space_press(space),
    ensures
        run_keys(s, keys.push(space), mode, true) == (
            ImeStateView { pending: Seq::empty(), ..s },
            commit_text_actions(s, mode_output(mode, typed_text(keys)).push(' ')),
        ),
{
    lemma_typing_accumulates(s, keys, mode);
    assert(keys.push(space).drop_last() =~= keys);
    assert(s.pending + typed_text(keys) =~= typed_text(keys));
    let mid = run_keys(s, keys, mode, true).0;
    lemma_space_commits(mid, space, mode);
}

/// Backspace right after a key that typed one character takes that
/// character back: the pending text, and the pre-edit shown, are as before.
pub proof fn lemma_backspace_undoes_char(
    s: ImeStateView,
    ch: KeyPressView,
    bs: KeyPressView,
    mode: InputMode,
)
    requires
        !s.suppress,
        mode != InputMode::English,
        plain_char_press(ch),
        ch.utf8.len() == 1,
        backspace_press(bs),
    ensures
        press_step(press_step(s, ch, mode, true).0, bs, mode, true) == (
            s,
            seq![
                show_preedit_action(mode_output(mode, s.pending)),
                ImeActionView::Commit { serial: s.serial },
            ],
        ),
{
    assert((s.pending + ch.utf8).drop_last() =~= s.pending);
}

/// A key release (outside suppression) changes nothing and goes on to the
/// application unchanged.
pub proof fn lemma_release_passes_through(s: ImeStateView, ev: KeyPressView, mode: InputMode, has_im: bool)
    requires
        !s.suppress,
        !ev.pressed,
    ensures
        press_step(s, ev, mode, has_im) == (s, seq![forward_action(ev)]),
{
}

/// In English mode an ordinary key goes on to the application and the
/// pending text stays as it is.
pub proof fn lemma_english_passes_through(s: ImeStateView, ev: KeyPressView, has_im: bool)
    requires
        !s.suppress,
        ordinary_key(ev),
    ensures
        press_step(s, ev, InputMode::English, has_im) == (s, seq![forward_action(ev)]),
{
}

/// A press with Ctrl or Alt drops the pending text without committing any
/// of it, and suppresses keys; while suppressed every key is ignored; the
/// next modifiers event ends the suppression.
pub proof fn lemma_modifier_press_suppresses(
    s: ImeStateView,
    ev: KeyPressView,
    later: KeyPress,
    mode: InputMode,
    has_im: bool,
)
    requires
        !s.suppress,
        ev.pressed,
        ev.ctrl_active || ev.alt_active,
    ensures
        ({
            let (s1, acts) = press_step(s, ev, mode, has_im);
            &&& s1.suppress
            &&& has_im ==> s1.pending.len() == 0
            &&& forall|i: int| 0 <= i < acts.len() ==> !(#[trigger] acts[i] is CommitString)
            &&& keyboard_event_step(s1, KeyboardEvent::Key(later), mode, has_im) == (s1, Seq::<ImeActionView>::empty())
            &&& keyboard_event_step(s1, KeyboardEvent::Modifiers, mode, has_im).0 == (ImeStateView { suppress: false, ..s1 })
        }),
{
    let (s1, acts) = press_step(s, ev, mode, has_im);
    assert forall|i: int| 0 <= i < acts.len() implies !(#[trigger] acts[i] is CommitString) by {
        if s.pending.len() > 0 && has_im {
            assert(acts =~= seq![
                crate::input_method::state::clear_preedit_action(),
                commit_action(s),
                ImeActionView::RegrabKeyboard,
                forward_action(ev),
            ]);
        } else {
            assert(acts =~= seq![ImeActionView::RegrabKeyboard, forward_action(ev)]);
        }
    }
}

/// A key event never changes the serial or the commit bookkeeping, and every
/// commit that it sends carries the current serial.
pub proof fn lemma_key_commits_carry_serial(s: ImeStateView, ev: KeyPressView, mode: InputMode, has_im: bool)
    ensures
        ({
            let (s1, acts) = press_step(s, ev, mode, has_im);
            &&& s1.serial == s.serial
            &&& s1.own_commits == s.own_commits
            &&& s1.pending_commit == s.pending_commit
            &&& forall|i: int| 0 <= i < acts.len() && (#[trigger] acts[i] is Commit) ==> acts[i]->Commit_serial == s.serial
        }),
{
    let (s1, acts) = press_step(s, ev, mode, has_im);
    assert forall|i: int| 0 <= i < acts.len() && (#[trigger] acts[i] is Commit) implies acts[i]->Commit_serial == s.serial by {
        if !s.suppress {
            if ev.ctrl_active || ev.alt_active {
                if ev.pressed && s.pending.len() > 0 && has_im {
                    assert(acts =~= seq![
                        crate::input_method::state::clear_preedit_action(),
                        commit_action(s),
                        ImeActionView::RegrabKeyboard,
                        forward_action(ev),
                    ]);
                }
            } else if ev.keysym == KEY_BACKSPACE {
            } else if is_passthrough_keysym(ev.keysym) {
                if ev.pressed && s.pending.len() > 0 && has_im {
                    assert(acts =~= commit_text_actions(s, mode_output(mode, s.pending)) + seq![forward_action(ev)]);
                    assert(acts[2] == commit_action(s));
                }
            }
        }
    }
}

/// Losing focus commits the pre-edit text, if there is any, and leaves
/// nothing pending; the serial stays.
pub proof fn lemma_deactivate_flushes(s: ImeStateView, mode: InputMode)
    ensures
        ({
            let (s1, acts) = input_method_event_step(s, InputMethodEvent::Deactivate, mode);
            &&& s1 == ImeStateView { pending: Seq::empty(), ..s }
            &&& s.pending.len() > 0 ==> acts.contains(ImeActionView::CommitString { text: mode_output(mode, s.pending) })
        }),
{
    let (s1, acts) = input_method_event_step(s, InputMethodEvent::Deactivate, mode);
    if s.pending.len() > 0 {
        assert(acts[2] == ImeActionView::CommitString { text: mode_output(mode, s.pending) });
    } else {
        assert(s.pending =~= Seq::<char>::empty());
    }
}


/// Every pre-edit or commit-string request in `acts` is applied by a later
/// `commit`.
pub open spec fn requests_are_committed(acts: Seq<ImeActionView>) -> bool {
    forall|i: int|
        0 <= i < acts.len() && (#[trigger] acts[i] is SetPreedit || acts[i] is CommitString) ==> exists|j: int|
            i < j < acts.len() && #[trigger] acts[j] is Commit
}

/// The engine only ever changes the text field through the pre-edit and
/// commit-string requests, and every such request that a key or an input
/// method event sends is applied by a `commit` sent after it in the same
/// batch.
pub proof fn lemma_requests_are_committed(s: ImeStateView, ev: KeyPressView, ime_ev: InputMethodEvent, mode: InputMode, has_im: bool)
    ensures
        requests_are_committed(press_step(s, ev, mode, has_im).1),
        requests_are_committed(input_method_event_step(s, ime_ev, mode).1),
{
    let acts = press_step(s, ev, mode, has_im).1;
    let c = commit_action(s);
    if !s.suppress {
        if ev.ctrl_active || ev.alt_active {
            if ev.pressed && s.pending.len() > 0 && has_im {
                assert(acts =~= seq![
                    crate::input_method::state::clear_preedit_action(),
                    c,
                    ImeActionView::RegrabKeyboard,
                    forward_action(ev),
                ]);
                assert(acts[1] is Commit);
            } else if ev.pressed {
                assert(acts =~= seq![ImeActionView::RegrabKeyboard, forward_action(ev)]);
            }
        } else if ev.keysym == KEY_BACKSPACE {
            if ev.pressed && s.pending.len() > 0 && has_im {
                assert(acts[1] is Commit);
            }
        } else if is_passthrough_keysym(ev.keysym) {
            if ev.pressed && s.pending.len() > 0 && has_im {
                assert(acts =~= commit_text_actions(s, mode_output(mode, s.pending)) + seq![forward_action(ev)]);
                assert(acts[2] is Commit);
            }
        } else if !ev.pressed || ev.utf8.len() == 0 || mode == InputMode::English {
        } else if has_im {
            if ev.utf8[0] == ' ' {
                assert(acts[2] is Commit);
            } else if ev.utf8[0] == '\n' || ev.utf8[0] == '\r' {
                if mode_output(mode, s.pending).len() > 0 {
                    assert(acts[2] is Commit);
                }
            } else {
                assert(acts[1] is Commit);
            }
        }
    }
    let acts2 = input_method_event_step(s, ime_ev, mode).1;
    if ime_ev is Deactivate && s.pending.len() > 0 {
        assert(acts2[3] is Commit);
    }
}


/// The keys that move or edit in the application: the arrows, Home, End,
/// Delete, Return, Tab and Escape.
pub open spec fn navigation_keysym(k: u32) -> bool {
    ||| k == KEY_LEFT
    ||| k == KEY_RIGHT
    ||| k == KEY_UP
    ||| k == KEY_DOWN
    ||| k == KEY_HOME
    ||| k == KEY_END
    ||| k == KEY_DELETE
    ||| k == KEY_RETURN
    ||| k == KEY_TAB
    ||| k == KEY_ESCAPE
}

/// A navigation or editing key (without Ctrl or Alt) always reaches the
/// application: its last action hands the key on, press or release. With
/// nothing pending it changes nothing and does only that; on a press with
/// pending text (and an input method object) the composed text is committed
/// first and nothing stays pending.
pub proof fn lemma_navigation_key_reaches_application(
    s: ImeStateView,
    k: KeyPress,
    mode: InputMode,
    has_im: bool,
)
    requires
        !s.suppress,
        !k@.ctrl_active,
        !k@.alt_active,
        navigation_keysym(k@.keysym),
    ensures
        ({
            let (s1, acts) = keyboard_event_step(s, KeyboardEvent::Key(k), mode, has_im);
            let fwd = ImeActionView::ForwardKey { key: k@.key, state: if k@.pressed { 1u32 } else { 0u32 } };
            &&& acts.len() > 0
            &&& acts.last() == fwd
            &&& s.pending.len() == 0 ==> s1 == s && acts == seq![fwd]
            &&& (k@.pressed && s.pending.len() > 0 && has_im) ==> {
                &&& s1.pending.len() == 0
                &&& acts.contains(ImeActionView::CommitString { text: mode_output(mode, s.pending) })
            }
        }),
{
    let ev = k@;
    let (s1, acts) = keyboard_event_step(s, KeyboardEvent::Key(k), mode, has_im);
    assert(ev.keysym != KEY_BACKSPACE);
    assert(is_passthrough_keysym(ev.keysym));
    if ev.pressed && s.pending.len() > 0 && has_im {
        assert(acts =~= commit_text_actions(s, mode_output(mode, s.pending)) + seq![forward_action(ev)]);
        assert(acts[1] == ImeActionView::CommitString { text: mode_output(mode, s.pending) });
    }
}

/// In every mode, a pressed key without Ctrl or Alt that is neither
/// Backspace nor a navigation key and types no text (F-keys, Page Up/Down,
/// Shift...) changes nothing and reaches the application unchanged.
pub proof fn lemma_textless_key_reaches_application(
    s: ImeStateView,
    k: KeyPress,
    mode: InputMode,
    has_im: bool,
)
    requires
        !s.suppress,
        !k@.ctrl_active,
        !k@.alt_active,
        k@.pressed,
        k@.keysym != KEY_BACKSPACE,
        !navigation_keysym(k@.keysym),
        k@.utf8.len() == 0,
    ensures
        keyboard_event_step(s, KeyboardEvent::Key(k), mode, has_im) == (
            s,
            seq![ImeActionView::ForwardKey { key: k@.key, state: 1u32 }],
        ),
{
}

/// A `done` event changes nothing but the serial, which goes up by one; the
/// pending text is kept and nothing is sent.
pub proof fn lemma_done_only_advances_serial(s: ImeStateView, mode: InputMode)
    requires
        s.serial < u32::MAX,
    ensures
        ({
            let (s1, acts) = input_method_event_step(s, InputMethodEvent::Done, mode);
            &&& s1.serial == s.serial + 1
            &&& s1.pending == s.pending
            &&& s1 == ImeStateView { serial: s1.serial, ..s }
            &&& acts.len() == 0
        }),
{
}

} // verus!
