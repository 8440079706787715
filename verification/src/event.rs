//! The input events the widgets decide on.
//!
//! The windowing shell translates the toolkit's pointer and keyboard events
//! into this plain form before handing them to a widget.  A widget's `event`
//! method returns `None` when it consumed the event and `Some` with the same
//! event when it passes it on to be dispatched elsewhere.

use vstd::prelude::*;

verus! {

#[derive(Clone, Copy, Debug, PartialEq, Eq, Structural)]
pub enum Event {
    /// The pointer moved over the widget.
    MouseMove,
    /// A pointer button went down over the widget.
    MouseButtonPress,
    /// A pointer button was released over the widget.
    MouseButtonRelease,
    /// A key carrying a character went down while the widget had focus.
    KeyPress(char),
    /// A key carrying a character was released while the widget had focus.
    KeyRelease(char),
    /// Any event the widgets never act on (scroll, expose, focus, ...).
    Other,
}

} // verus!
