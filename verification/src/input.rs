//! What a modifier+click on the image asks for.

use vstd::prelude::*;

verus! {

/// The request a modifier+click makes.
#[derive(Clone, Copy, Debug, PartialEq, Eq, Structural)]
pub enum ClickAction {
    /// Shift+click: report the clicked point (continuous image coordinates) to the host.
    EmitClick,
    /// Cmd/Ctrl+Shift+click: make the clicked pixel the rotation pivot.
    SetPivot,
    /// Cmd/Ctrl+click: center the view on the clicked pixel.
    CenterOnPoint,
}

/// The action for a click with the given modifiers held, if any: shift
/// alone reports the point, command or control centers the view, and
/// command or control together with shift sets the pivot.
pub open spec fn click_action_for(shift: bool, command: bool, ctrl: bool) -> Option<ClickAction> {
    if command || ctrl {
        if shift {
            Some(ClickAction::SetPivot)
        } else {
            Some(ClickAction::CenterOnPoint)
        }
    } else if shift {
        Some(ClickAction::EmitClick)
    } else {
        None
    }
}

/// Decide what a click on the image does from the modifiers held.
pub fn click_action(shift: bool, command: bool, ctrl: bool) -> (r: Option<ClickAction>)
    ensures
        r == click_action_for(shift, command, ctrl),
{
    let has_cmd_or_ctrl = command || ctrl;
    if shift && !has_cmd_or_ctrl {
        Some(ClickAction::EmitClick)
    } else if has_cmd_or_ctrl {
        if shift {
            Some(ClickAction::SetPivot)
        } else {
            Some(ClickAction::CenterOnPoint)
        }
    } else {
        None
    }
}

} // verus!
