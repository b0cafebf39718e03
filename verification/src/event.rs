//! Pointer and keyboard events, and the consumption signal a widget answers
//! the dispatcher with.

use vstd::prelude::*;
use crate::geometry::Point;

verus! {

/// A button of the pointing device.
#[derive(Clone, Copy, Debug, PartialEq, Eq, Structural)]
pub enum Button {
    Left,
    Right,
    Middle,
}

/// A pointer event, as delivered by the event dispatcher.
#[derive(Clone, Copy, Debug, PartialEq, Eq, Structural)]
pub enum MouseEvent {
    ButtonPressed(Button),
    ButtonReleased(Button),
    CursorMoved(Point),
}

/// A keyboard event. The toggle widget never reacts to these; the variants
/// exist so that dispatch can hand it every kind of input.
#[derive(Clone, Copy, Debug, PartialEq, Eq, Structural)]
pub enum KeyboardEvent {
    KeyPressed,
    KeyReleased,
}

/// An input event routed to a widget.
#[derive(Clone, Copy, Debug, PartialEq, Eq, Structural)]
pub enum Event {
    Mouse(MouseEvent),
    Keyboard(KeyboardEvent),
}

impl Event {
    /// Whether this event is a press of the left pointer button — the only
    /// kind of event that can activate a toggle.
    pub open spec fn is_left_press(self) -> bool {
        self == Event::Mouse(MouseEvent::ButtonPressed(Button::Left))
    }
}

/// A widget's answer to a routed event: whether it consumed the event
/// (stopping propagation to siblings and ancestors) or let it pass.
#[derive(Clone, Copy, Debug, PartialEq, Eq, Structural)]
pub enum Status {
    /// The event was consumed and must not propagate further.
    Captured,
    /// The event was not acted on and may propagate.
    Ignored,
}

} // verus!
