//! The application state shared by the tray, the settings and the input
//! method: the current mode, the enabled typing methods and the toggle
//! between them.

use vstd::prelude::*;

use super::input_mode::InputMode;

verus! {

/// The colour theme of the settings window.
#[derive(Debug, Clone, Copy, PartialEq, Eq, Structural)]
pub enum ThemeMode {
    System,
    Light,
    Dark,
}

#[derive(Debug, Clone)]
pub struct GlobalAppState {
    pub current_mode: InputMode,
    pub is_running: bool,
    pub theme: ThemeMode,
    pub hotkey: String,
    pub enable_telex: bool,
    pub enable_vni: bool,
}

/// The modes that can be selected, in menu and toggle order: English always,
/// then VNI when enabled, then Telex when enabled.
pub open spec fn enabled_mode_list(enable_vni: bool, enable_telex: bool) -> Seq<InputMode> {
    let english = seq![InputMode::English];
    let with_vni = if enable_vni { english.push(InputMode::Vni) } else { english };
    if enable_telex { with_vni.push(InputMode::Telex) } else { with_vni }
}

/// Where `mode` stands in the enabled mode list, or 0 (English's place)
/// when it is not enabled.
pub open spec fn mode_position(enable_vni: bool, enable_telex: bool, mode: InputMode) -> int {
    match mode {
        InputMode::English => 0,
        InputMode::Vni => if enable_vni { 1 } else { 0 },
        InputMode::Telex => if enable_telex {
            if enable_vni { 2 } else { 1 }
        } else {
            0
        },
    }
}

/// The mode that follows `mode` when the user toggles: the next enabled mode
/// after it, wrapping round to English; from a mode that is not enabled, the
/// one after English.
pub open spec fn next_mode(enable_vni: bool, enable_telex: bool, mode: InputMode) -> InputMode {
    let modes = enabled_mode_list(enable_vni, enable_telex);
    modes[(mode_position(enable_vni, enable_telex, mode) + 1) % (modes.len() as int)]
}

/// `mode` after `n` toggles.
pub open spec fn toggled_times(enable_vni: bool, enable_telex: bool, mode: InputMode, n: nat) -> InputMode
    decreases n,
{
    if n == 0 {
        mode
    } else {
        next_mode(enable_vni, enable_telex, toggled_times(enable_vni, enable_telex, mode, (n - 1) as nat))
    }
}

/// The enabled mode list is English first, holds each mode at most once,
/// and holds VNI and Telex exactly when they are enabled.
pub proof fn lemma_enabled_modes_shape(enable_vni: bool, enable_telex: bool)
    ensures
        ({
            let modes = enabled_mode_list(enable_vni, enable_telex);
            &&& 1 <= modes.len() <= 3
            &&& modes[0] == InputMode::English
            &&& modes.no_duplicates()
            &&& modes.contains(InputMode::English)
            &&& modes.contains(InputMode::Vni) == enable_vni
            &&& modes.contains(InputMode::Telex) == enable_telex
        }),
{
    let modes = enabled_mode_list(enable_vni, enable_telex);
    if enable_vni && enable_telex {
        assert(modes[1] == InputMode::Vni);
        assert(modes[2] == InputMode::Telex);
    } else if enable_vni {
        assert(modes[1] == InputMode::Vni);
        assert(!modes.contains(InputMode::Telex));
    } else if enable_telex {
        assert(modes[1] == InputMode::Telex);
        assert(!modes.contains(InputMode::Vni));
    } else {
        assert(!modes.contains(InputMode::Vni));
        assert(!modes.contains(InputMode::Telex));
    }
    assert(modes.contains(InputMode::English)) by { assert(modes[0] == InputMode::English); }
}

/// `mode_position` is the index at which an enabled mode stands in the
/// enabled mode list, and the only such index.
pub proof fn lemma_mode_position(enable_vni: bool, enable_telex: bool, mode: InputMode)
    ensures
        ({
            let modes = enabled_mode_list(enable_vni, enable_telex);
            let p = mode_position(enable_vni, enable_telex, mode);
            &&& 0 <= p < modes.len()
            &&& modes.contains(mode) ==> modes[p] == mode
            &&& forall|i: int| 0 <= i < modes.len() && modes[i] == mode ==> i == p
            &&& !modes.contains(mode) ==> p == 0
        }),
{
    lemma_enabled_modes_shape(enable_vni, enable_telex);
}

/// The enabled modes, in order: English, then VNI and Telex where enabled.
pub fn enabled_mode_vec(enable_vni: bool, enable_telex: bool) -> (modes: Vec<InputMode>)
    ensures
        modes@ == enabled_mode_list(enable_vni, enable_telex),
{
    let mut modes: Vec<InputMode> = Vec::new();
    modes.push(InputMode::English);
    if enable_vni {
        modes.push(InputMode::Vni);
    }
    if enable_telex {
        modes.push(InputMode::Telex);
    }
    modes
}

/// Where `mode` stands among the enabled modes, or 0 when it is not enabled.
pub fn mode_index(enable_vni: bool, enable_telex: bool, mode: InputMode) -> (idx: usize)
    ensures
        idx == mode_position(enable_vni, enable_telex, mode),
{
    let modes = enabled_mode_vec(enable_vni, enable_telex);
    proof {
        lemma_mode_position(enable_vni, enable_telex, mode);
    }
    let mut i: usize = 0;
    while i < modes.len() && modes[i] != mode
        invariant
            modes@ == enabled_mode_list(enable_vni, enable_telex),
            i <= modes.len(),
            forall|j: int| 0 <= j < i ==> modes@[j] != mode,
        decreases modes.len() - i,
    {
        i = i + 1;
    }
    if i < modes.len() {
        i
    } else {
        assert(!modes@.contains(mode));
        0
    }
}

impl GlobalAppState {
    /// The modes that can be selected: English, then VNI and Telex where enabled.
    pub fn enabled_modes(&self) -> (modes: Vec<InputMode>)
        ensures
            modes@ == enabled_mode_list(self.enable_vni, self.enable_telex),
    {
        enabled_mode_vec(self.enable_vni, self.enable_telex)
    }

    /// Moves the current mode to the next enabled one; nothing else changes.
    pub fn toggle_mode(&mut self)
        ensures
            final(self).current_mode == next_mode(
                old(self).enable_vni,
                old(self).enable_telex,
                old(self).current_mode,
            ),
            final(self).is_running == old(self).is_running,
            final(self).theme == old(self).theme,
            final(self).hotkey@ == old(self).hotkey@,
            final(self).enable_telex == old(self).enable_telex,
            final(self).enable_vni == old(self).enable_vni,
    {
        let modes = self.enabled_modes();
        let pos = mode_index(self.enable_vni, self.enable_telex, self.current_mode);
        proof {
            lemma_mode_position(self.enable_vni, self.enable_telex, self.current_mode);
        }
        self.current_mode = modes[(pos + 1) % modes.len()];
    }
}

/// Toggling always lands on an enabled mode.
pub proof fn lemma_toggle_lands_on_enabled_mode(enable_vni: bool, enable_telex: bool, mode: InputMode)
    ensures
        enabled_mode_list(enable_vni, enable_telex).contains(next_mode(enable_vni, enable_telex, mode)),
{
    lemma_mode_position(enable_vni, enable_telex, mode);
    let modes = enabled_mode_list(enable_vni, enable_telex);
    let p = mode_position(enable_vni, enable_telex, mode);
    assert(0 <= (p + 1) % (modes.len() as int) < modes.len());
    assert(modes.contains(modes[(p + 1) % (modes.len() as int)]));
}

/// The toggle visits the enabled modes in list order: from the mode at
/// position `i` it goes to the one at position `i + 1`, and from the last
/// back to English.
pub proof fn lemma_toggle_steps_through_list(enable_vni: bool, enable_telex: bool, i: int)
    requires
        0 <= i < enabled_mode_list(enable_vni, enable_telex).len(),
    ensures
        ({
            let modes = enabled_mode_list(enable_vni, enable_telex);
            next_mode(enable_vni, enable_telex, modes[i]) == modes[(i + 1) % (modes.len() as int)]
        }),
{
    let modes = enabled_mode_list(enable_vni, enable_telex);
    lemma_mode_position(enable_vni, enable_telex, modes[i]);
}

/// Toggling as many times as there are enabled modes comes back to an
/// enabled starting mode, and toggling fewer times than that (but at least
/// once) never does: the toggle cycles through all enabled modes.
pub proof fn lemma_toggle_cycles(enable_vni: bool, enable_telex: bool, mode: InputMode, n: nat)
    requires
        enabled_mode_list(enable_vni, enable_telex).contains(mode),
        n <= enabled_mode_list(enable_vni, enable_telex).len(),
    ensures
        ({
            let modes = enabled_mode_list(enable_vni, enable_telex);
            &&& toggled_times(enable_vni, enable_telex, mode, n)
                == modes[(mode_position(enable_vni, enable_telex, mode) + n) % (modes.len() as int)]
            &&& (toggled_times(enable_vni, enable_telex, mode, n) == mode <==> (n == 0 || n == modes.len()))
        }),
    decreases n,
{
    lemma_enabled_modes_shape(enable_vni, enable_telex);
    let modes = enabled_mode_list(enable_vni, enable_telex);
    let len = modes.len() as int;
    let p = mode_position(enable_vni, enable_telex, mode);
    lemma_mode_position(enable_vni, enable_telex, mode);
    if n > 0 {
        lemma_toggle_cycles(enable_vni, enable_telex, mode, (n - 1) as nat);
        let k = (p + n - 1) % len;
        assert(0 <= k < len);
        lemma_toggle_steps_through_list(enable_vni, enable_telex, k);
        assert((k + 1) % len == (p + n) % len) by {
            vstd::arithmetic::div_mod::lemma_add_mod_noop_right(1, p + n - 1, len);
        }
    } else {
        vstd::arithmetic::div_mod::lemma_small_mod(p as nat, len as nat);
    }
    let q = (p + n) % len;
    assert(0 <= q < len);
    if n == len {
        assert(q == p) by {
            vstd::arithmetic::div_mod::lemma_add_mod_noop(p, len, len);
            vstd::arithmetic::div_mod::lemma_mod_self_0(len);
            vstd::arithmetic::div_mod::lemma_small_mod(p as nat, len as nat);
        }
    } else if 0 < n {
        assert(q != p) by {
            vstd::arithmetic::div_mod::lemma_small_mod(p as nat, len as nat);
            if p + n < len {
                vstd::arithmetic::div_mod::lemma_small_mod((p + n) as nat, len as nat);
            } else {
                vstd::arithmetic::div_mod::lemma_mod_sub_multiples_vanish(p + n, len);
                vstd::arithmetic::div_mod::lemma_small_mod((p + n - len) as nat, len as nat);
            }
        }
    }
    if modes[q] == mode {
        assert(q == p);
    }
}

} // verus!
