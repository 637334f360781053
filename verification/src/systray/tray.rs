//! The tray menu: a radio group of the enabled modes with the current one
//! selected, and the message sent when the user picks one.

use vstd::prelude::*;

use crate::config::APP_NAME;
use crate::config::input_mode::InputMode;
use crate::config::state::{
    enabled_mode_list,
    enabled_mode_vec,
    lemma_mode_position,
    mode_index,
    mode_position,
};

verus! {

/// Sent from the tray to the rest of the program.
pub enum TrayMessage {
    ModeChanged(InputMode),
}

/// The modes offered in the tray menu, in order: English, then VNI and
/// Telex where enabled.
pub fn menu_modes(enable_vni: bool, enable_telex: bool) -> (modes: Vec<InputMode>)
    ensures
        modes@ == enabled_mode_list(enable_vni, enable_telex),
{
    enabled_mode_vec(enable_vni, enable_telex)
}

/// The index of the selected radio item: that of the current mode, or of
/// English when the current mode is not offered.
pub fn selected_index(enable_vni: bool, enable_telex: bool, current: InputMode) -> (idx: usize)
    ensures
        idx == mode_position(enable_vni, enable_telex, current),
{
    mode_index(enable_vni, enable_telex, current)
}

/// The label of a mode's radio item.
pub fn mode_label(mode: InputMode) -> (label: &'static str)
    ensures
        label@ == (match mode {
            InputMode::English => "English"@,
            InputMode::Vni => "VNI"@,
            InputMode::Telex => "Telex"@,
        }),
{
    match mode {
        InputMode::English => "English",
        InputMode::Vni => "VNI",
        InputMode::Telex => "Telex",
    }
}

/// The mode of the radio item at `idx`, which the menu only offers for its
/// own items.
pub fn mode_at(enable_vni: bool, enable_telex: bool, idx: usize) -> (mode: InputMode)
    requires
        idx < enabled_mode_list(enable_vni, enable_telex).len(),
    ensures
        mode == enabled_mode_list(enable_vni, enable_telex)[idx as int],
{
    let modes = menu_modes(enable_vni, enable_telex);
    modes[idx]
}

/// The title of the status tray's tooltip.
pub fn status_tooltip(is_running: bool) -> (title: String)
    ensures
        title@ == APP_NAME@ + " - "@ + (if is_running { "Running"@ } else { "Stopped"@ }),
{
    let mut title = String::from_str(APP_NAME);
    title.append(" - ");
    title.append(if is_running { "Running" } else { "Stopped" });
    title
}

/// The label of the status tray's disabled status item.
pub fn status_label(is_running: bool) -> (label: &'static str)
    ensures
        label@ == (if is_running { "Status: Running ✓"@ } else { "Status: Stopped ✗"@ }),
{
    if is_running { "Status: Running ✓" } else { "Status: Stopped ✗" }
}

/// Picking the selected item of the menu gives back the current mode when it
/// is enabled, and English otherwise.
pub proof fn lemma_selected_item_is_current_mode(enable_vni: bool, enable_telex: bool, current: InputMode)
    ensures
        ({
            let modes = enabled_mode_list(enable_vni, enable_telex);
            let idx = mode_position(enable_vni, enable_telex, current);
            &&& 0 <= idx < modes.len()
            &&& modes.contains(current) ==> modes[idx] == current
            &&& !modes.contains(current) ==> modes[idx] == InputMode::English
        }),
{
    lemma_mode_position(enable_vni, enable_telex, current);
    crate::config::state::lemma_enabled_modes_shape(enable_vni, enable_telex);
}

} // verus!
