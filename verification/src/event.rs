use crate::widget::{ButtonActionId, WidgetId};
use vstd::prelude::*;

verus! {

/// What a page is told about the user's input.
#[derive(Debug, Clone, Copy, PartialEq, Eq, Structural)]
pub enum UiEvent {
    Up,
    Down,
    Left,
    Right,
    /// The joystick was pressed while the button `focused` had the focus.
    Press { focused: WidgetId, action: Option<ButtonActionId> },
    K1,
    K2,
    K3,
}

} // verus!
