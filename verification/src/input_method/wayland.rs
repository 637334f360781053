//! The input method's protocol events that the engine decides on:
//! activation, deactivation and `done`, and which advertised globals are
//! bound, at which version.

use vstd::prelude::*;

use crate::config::input_mode::InputMode;
use crate::input_method::keyboard::{commit_actions, commit_text_actions};
use crate::input_method::state::{
    ImeAction,
    ImeActionView,
    ImeStateView,
    InputMethodState,
    actions_view,
    preedit_of,
};
use crate::text::str_eq;

verus! {

/// Events of the input method object.
pub enum InputMethodEvent {
    /// A text field gained focus.
    Activate,
    /// The text field lost focus.
    Deactivate,
    /// The compositor finished a batch of state changes.
    Done,
}

/// Activation grabs the keyboard and starts with nothing pending;
/// deactivation releases the grab and commits whatever is pending; `done`
/// moves the serial on by one.
pub open spec fn input_method_event_step(s: ImeStateView, ev: InputMethodEvent, mode: InputMode) -> (
    ImeStateView,
    Seq<ImeActionView>,
) {
    match ev {
        InputMethodEvent::Activate => (
            ImeStateView { pending: Seq::empty(), ..s },
            seq![ImeActionView::GrabKeyboard],
        ),
        InputMethodEvent::Deactivate => if s.pending.len() > 0 {
            (
                ImeStateView { pending: Seq::empty(), ..s },
                seq![ImeActionView::ReleaseKeyboardGrab] + commit_text_actions(s, preedit_of(s, mode)),
            )
        } else {
            (s, seq![ImeActionView::ReleaseKeyboardGrab])
        },
        InputMethodEvent::Done => (ImeStateView { serial: (s.serial + 1) as u32, ..s }, Seq::empty()),
    }
}

/// Handles an event of the input method object. A `done` at serial
/// `u32::MAX` would overflow the serial, which the program treats as a
/// fatal error; it is left out.
pub fn handle_input_method_event(state: &mut InputMethodState, event: InputMethodEvent, mode: InputMode) -> (actions: Vec<ImeAction>)
    requires
        event is Done ==> old(state).serial < u32::MAX,
    ensures
        (final(state)@, actions_view(actions@)) == input_method_event_step(old(state)@, event, mode),
{
    let ghost s0 = state@;
    let mut actions: Vec<ImeAction> = Vec::new();
    match event {
        InputMethodEvent::Activate => {
            actions.push(ImeAction::GrabKeyboard);
            state.pending_chars.clear();
        },
        InputMethodEvent::Deactivate => {
            actions.push(ImeAction::ReleaseKeyboardGrab);
            if state.pending_chars.len() > 0 {
                let text = state.get_preedit(mode);
                let mut commit = commit_actions(text, state.serial);
                actions.append(&mut commit);
                state.pending_chars.clear();
            }
        },
        InputMethodEvent::Done => {
            state.serial = state.serial + 1;
        },
    }
    assert(actions_view(actions@) =~= input_method_event_step(s0, event, mode).1);
    actions
}

/// The globals of the compositor that the input method binds.
#[derive(Debug, Clone, Copy, PartialEq, Eq, Structural)]
pub enum GlobalInterface {
    Seat,
    InputMethodManager,
    VirtualKeyboardManager,
}

/// `wl_seat` is bound at the advertised version but at most 7; the input
/// method manager and the virtual keyboard manager at version 1; other
/// globals are not bound.
pub open spec fn global_binding_spec(interface: Seq<char>, version: u32) -> Option<(GlobalInterface, u32)> {
    if interface == "wl_seat"@ {
        Some((GlobalInterface::Seat, if version < 7 { version } else { 7 }))
    } else if interface == "zwp_input_method_manager_v2"@ {
        Some((GlobalInterface::InputMethodManager, 1))
    } else if interface == "zwp_virtual_keyboard_manager_v1"@ {
        Some((GlobalInterface::VirtualKeyboardManager, 1))
    } else {
        None
    }
}

/// Which global an advertised interface is, and the version to bind it at.
pub fn global_binding(interface: &str, version: u32) -> (r: Option<(GlobalInterface, u32)>)
    ensures
        r == global_binding_spec(interface@, version),
{
    if str_eq(interface, "wl_seat") {
        Some((GlobalInterface::Seat, if version < 7 { version } else { 7 }))
    } else if str_eq(interface, "zwp_input_method_manager_v2") {
        Some((GlobalInterface::InputMethodManager, 1))
    } else if str_eq(interface, "zwp_virtual_keyboard_manager_v1") {
        Some((GlobalInterface::VirtualKeyboardManager, 1))
    } else {
        None
    }
}


/// Whether a global is bound depends on its interface name alone: for every
/// advertised version, the input method manager and the virtual keyboard
/// manager are bound at version 1, the seat at the advertised version but at
/// most 7, and any other interface is bound at no version.
pub proof fn lemma_binding_depends_on_name(interface: Seq<char>, v: u32, w: u32)
    ensures
        global_binding_spec("zwp_input_method_manager_v2"@, v) == Some((GlobalInterface::InputMethodManager, 1u32)),
        global_binding_spec("zwp_virtual_keyboard_manager_v1"@, v) == Some((GlobalInterface::VirtualKeyboardManager, 1u32)),
        global_binding_spec("wl_seat"@, v) == Some((GlobalInterface::Seat, if v <= 7 { v } else { 7u32 })),
        global_binding_spec(interface, v) is Some <==> global_binding_spec(interface, w) is Some,
        global_binding_spec(interface, v) is Some ==> global_binding_spec(interface, v).unwrap().0
            == global_binding_spec(interface, w).unwrap().0,
{
    reveal_strlit("wl_seat");
    reveal_strlit("zwp_input_method_manager_v2");
    reveal_strlit("zwp_virtual_keyboard_manager_v1");
    assert("wl_seat"@.len() == 7);
    assert("zwp_input_method_manager_v2"@.len() == 27);
    assert("zwp_virtual_keyboard_manager_v1"@.len() == 31);
}

} // verus!
