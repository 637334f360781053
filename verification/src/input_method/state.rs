//! The input method's own state: the characters typed but not yet
//! committed, the serial of the last `done` from the compositor, and the
//! bookkeeping of commits. What the compositor is asked to do is returned
//! as a list of actions; performing them is left to the caller.

use vstd::prelude::*;

use crate::config::input_mode::{InputMode, Transformer, mode_output};

verus! {

/// One request to the compositor, or one key handed on to the application.
#[derive(Debug, Clone, PartialEq, Eq)]
pub enum ImeAction {
    /// `set_preedit_string(text, cursor_begin, cursor_end)`
    SetPreedit { text: String, cursor_begin: i32, cursor_end: i32 },
    /// `commit_string(text)`
    CommitString { text: String },
    /// `commit(serial)`: applies the requests sent before it.
    Commit { serial: u32 },
    /// Grab the keyboard.
    GrabKeyboard,
    /// Release the keyboard grab, if there is one.
    ReleaseKeyboardGrab,
    /// Release the keyboard grab, if there is one, and grab it anew.
    RegrabKeyboard,
    /// Send the key through the virtual keyboard (state 1 pressed, 0 released).
    ForwardKey { key: u32, state: u32 },
}

pub enum ImeActionView {
    SetPreedit { text: Seq<char>, cursor_begin: i32, cursor_end: i32 },
    CommitString { text: Seq<char> },
    Commit { serial: u32 },
    GrabKeyboard,
    ReleaseKeyboardGrab,
    RegrabKeyboard,
    ForwardKey { key: u32, state: u32 },
}

impl View for ImeAction {
    type V = ImeActionView;

    open spec fn view(&self) -> ImeActionView {
        match self {
            ImeAction::SetPreedit { text, cursor_begin, cursor_end } => ImeActionView::SetPreedit {
                text: text@,
                cursor_begin: *cursor_begin,
                cursor_end: *cursor_end,
            },
            ImeAction::CommitString { text } => ImeActionView::CommitString { text: text@ },
            ImeAction::Commit { serial } => ImeActionView::Commit { serial: *serial },
            ImeAction::GrabKeyboard => ImeActionView::GrabKeyboard,
            ImeAction::ReleaseKeyboardGrab => ImeActionView::ReleaseKeyboardGrab,
            ImeAction::RegrabKeyboard => ImeActionView::RegrabKeyboard,
            ImeAction::ForwardKey { key, state } => ImeActionView::ForwardKey { key: *key, state: *state },
        }
    }
}

pub open spec fn actions_view(actions: Seq<ImeAction>) -> Seq<ImeActionView> {
    actions.map_values(|a: ImeAction| a@)
}

/// Empties the pre-edit text.
pub open spec fn clear_preedit_action() -> ImeActionView {
    ImeActionView::SetPreedit { text: Seq::empty(), cursor_begin: 0, cursor_end: 0 }
}

/// Shows `text` as pre-edit text, with the cursor hidden.
pub open spec fn show_preedit_action(text: Seq<char>) -> ImeActionView {
    ImeActionView::SetPreedit { text, cursor_begin: -1i32, cursor_end: -1i32 }
}

/// What a text field is for, as the text-input protocol describes it.
#[derive(Debug, Clone, Copy, PartialEq, Eq, Structural)]
pub enum ContentPurpose {
    Normal,
    Alpha,
    Digits,
    Number,
    Phone,
    Url,
    Email,
    Name,
    Password,
    Pin,
    Date,
    Time,
    Datetime,
    Terminal,
}

/// Who changed the surrounding text last, as the text-input protocol reports it.
#[derive(Debug, Clone, Copy, PartialEq, Eq, Structural)]
pub enum ChangeCause {
    InputMethod,
    Other,
}

pub struct InputMethodState {
    /// The number of `done` events received; sent with every commit.
    pub serial: u32,
    /// The characters typed since the last commit.
    pub pending_chars: Vec<char>,
    /// Set after a key with Ctrl or Alt: keys are ignored until the next
    /// modifiers event.
    pub suppress_until_modifiers_sync: bool,
    /// Key repeats per second (0: no repeat).
    pub repeat_rate: i32,
    /// Delay before a held key repeats, in milliseconds.
    pub repeat_delay: i32,
    /// The key that repeats.
    pub repeat_key: u32,
    /// The text around the cursor of the focused field.
    pub surrounding_text: String,
    /// The cursor's byte offset in the surrounding text (-1: unknown).
    pub surrounding_cursor: i32,
    /// The selection anchor's byte offset in the surrounding text (-1: unknown).
    pub surrounding_anchor: i32,
    /// The content hint flags of the focused field (bits of the protocol's
    /// `content_hint`; 0 is none).
    pub content_hint: u32,
    /// The content purpose of the focused field.
    pub content_purpose: ContentPurpose,
    /// The cause of the last change of the surrounding text, once one is reported.
    pub pending_text_change_cause: Option<ChangeCause>,
    /// Commits sent by this input method, counted up to `u32::MAX`.
    pub pending_own_commits: u32,
    /// A commit was asked for before the first `done`.
    pub pending_commit: bool,
    /// The surrounding text has been reported at least once.
    pub surrounding_initialized: bool,
    /// Keys waiting to be forwarded: key code and raw key state.
    pub pending_forward_keys: Vec<(u32, u32)>,
}

pub struct ImeStateView {
    pub serial: u32,
    pub pending: Seq<char>,
    pub suppress: bool,
    pub repeat_rate: i32,
    pub repeat_delay: i32,
    pub repeat_key: u32,
    pub surrounding_text: Seq<char>,
    pub surrounding_cursor: i32,
    pub surrounding_anchor: i32,
    pub content_hint: u32,
    pub content_purpose: ContentPurpose,
    pub pending_text_change_cause: Option<ChangeCause>,
    pub own_commits: u32,
    pub pending_commit: bool,
    pub surrounding_initialized: bool,
    pub pending_forward_keys: Seq<(u32, u32)>,
}

impl View for InputMethodState {
    type V = ImeStateView;

    open spec fn view(&self) -> ImeStateView {
        ImeStateView {
            serial: self.serial,
            pending: self.pending_chars@,
            suppress: self.suppress_until_modifiers_sync,
            repeat_rate: self.repeat_rate,
            repeat_delay: self.repeat_delay,
            repeat_key: self.repeat_key,
            surrounding_text: self.surrounding_text@,
            surrounding_cursor: self.surrounding_cursor,
            surrounding_anchor: self.surrounding_anchor,
            content_hint: self.content_hint,
            content_purpose: self.content_purpose,
            pending_text_change_cause: self.pending_text_change_cause,
            own_commits: self.pending_own_commits,
            pending_commit: self.pending_commit,
            surrounding_initialized: self.surrounding_initialized,
            pending_forward_keys: self.pending_forward_keys@,
        }
    }
}

/// The state before any event: serial 0, nothing typed, nothing suppressed,
/// no key repeat (600 ms delay), no surrounding text (cursor and anchor
/// unknown), no content hint, normal purpose, no change cause, no commits,
/// no keys waiting.
pub open spec fn initial_state() -> ImeStateView {
    ImeStateView {
        serial: 0,
        pending: Seq::empty(),
        suppress: false,
        repeat_rate: 0,
        repeat_delay: 600,
        repeat_key: 0,
        surrounding_text: Seq::empty(),
        surrounding_cursor: -1i32,
        surrounding_anchor: -1i32,
        content_hint: 0,
        content_purpose: ContentPurpose::Normal,
        pending_text_change_cause: None,
        own_commits: 0,
        pending_commit: false,
        surrounding_initialized: false,
        pending_forward_keys: Seq::empty(),
    }
}

/// The pre-edit text of a state: the pending characters composed by the mode.
pub open spec fn preedit_of(s: ImeStateView, mode: InputMode) -> Seq<char> {
    mode_output(mode, s.pending)
}

impl InputMethodState {
    /// The state before any event (see `initial_state`).
    pub fn new() -> (s: Self)
        ensures
            s@ == initial_state(),
    {
        InputMethodState {
            serial: 0,
            pending_chars: Vec::new(),
            suppress_until_modifiers_sync: false,
            repeat_rate: 0,
            repeat_delay: 600,
            repeat_key: 0,
            surrounding_text: String::new(),
            surrounding_cursor: -1,
            surrounding_anchor: -1,
            content_hint: 0,
            content_purpose: ContentPurpose::Normal,
            pending_text_change_cause: None,
            pending_own_commits: 0,
            pending_commit: false,
            surrounding_initialized: false,
            pending_forward_keys: Vec::new(),
        }
    }

    /// The text to show for what has been typed so far in `mode`.
    pub fn get_preedit(&self, mode: InputMode) -> (text: String)
        ensures
            text@ == preedit_of(self@, mode),
    {
        let mut input: Vec<char> = Vec::new();
        let mut i: usize = 0;
        while i < self.pending_chars.len()
            invariant
                i <= self.pending_chars.len(),
                input@ == self.pending_chars@.subrange(0, i as int),
            decreases self.pending_chars.len() - i,
        {
            input.push(self.pending_chars[i]);
            i = i + 1;
        }
        assert(input@ =~= self.pending_chars@);
        let mut result = String::new();
        let transformer = mode.get_transformer();
        transformer.transform(input, &mut result);
        assert(result@ =~= mode_output(mode, self.pending_chars@));
        result
    }

    /// Sends a commit now, or, before the first `done` (serial 0), remembers
    /// that one is owed and sends nothing.
    pub fn im_commit(&mut self, has_input_method: bool) -> (action: Option<ImeAction>)
        ensures
            old(self).serial == 0 ==> action is None && final(self)@ == (ImeStateView {
                pending_commit: true,
                ..old(self)@
            }),
            old(self).serial != 0 ==> commit_now_post(old(self)@, final(self)@, has_input_method, action),
    {
        if self.serial == 0 {
            self.pending_commit = true;
            return None;
        }
        self.commit_now(has_input_method)
    }

    /// Sends `commit(serial)` when there is an input method object, and
    /// counts the commit (the count stops at `u32::MAX`).
    pub fn commit_now(&mut self, has_input_method: bool) -> (action: Option<ImeAction>)
        ensures
            commit_now_post(old(self)@, final(self)@, has_input_method, action),
    {
        let serial = self.serial;
        self.pending_own_commits = self.pending_own_commits.saturating_add(1);
        if has_input_method {
            Some(ImeAction::Commit { serial })
        } else {
            None
        }
    }

    /// Drops the pending characters; tells whether there were any.
    pub fn clear_pending(&mut self) -> (dropped: bool)
        ensures
            dropped == (old(self).pending_chars@.len() > 0),
            final(self)@ == (ImeStateView { pending: Seq::empty(), ..old(self)@ }),
    {
        let dropped = self.pending_chars.len() > 0;
        self.pending_chars.clear();
        dropped
    }
}

/// What `commit_now` does: a commit with the current serial when there is an
/// input method object, and one more counted commit.
pub open spec fn commit_now_post(
    before: ImeStateView,
    after: ImeStateView,
    has_input_method: bool,
    action: Option<ImeAction>,
) -> bool {
    &&& after == ImeStateView {
        own_commits: if before.own_commits == u32::MAX {
            u32::MAX
        } else {
            (before.own_commits + 1) as u32
        },
        ..before
    }
    &&& has_input_method ==> (action matches Some(a) && a@ == (ImeActionView::Commit {
        serial: before.serial,
    }))
    &&& !has_input_method ==> action is None
}

} // verus!
