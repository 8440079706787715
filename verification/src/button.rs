//! A labelled button, optionally carrying a toggle state.
//!
//! A plain button only reports clicks; a toggle button additionally flips a
//! boolean on every pointer-button release.  The controller polls `clicked`
//! and `toggle_state` once per idle tick.

use vstd::prelude::*;

use crate::event::Event;

verus! {

pub struct Button {
    /// The label drawn on the button face.
    pub label: String,
    /// Set by a pointer-button release, cleared by `clicked`.
    pub clicked: bool,
    /// `None` for a plain button; `Some(state)` for a toggle button.
    pub toggle_state: Option<bool>,
    /// Set whenever the visible state changed and the face must be redrawn.
    pub needs_repaint: bool,
}

/// The toggle state after one pointer-button release: a toggle button flips,
/// a plain button stays stateless.
pub open spec fn toggle_after_release(s: Option<bool>) -> Option<bool> {
    match s {
        Some(t) => Some(!t),
        None => None,
    }
}

/// Releasing the pointer button twice leaves any toggle state as it began:
/// each release flips it exactly once.
pub proof fn lemma_toggle_release_involutive(s: Option<bool>)
    ensures
        toggle_after_release(toggle_after_release(s)) == s,
{
}

impl Button {
    /// A plain button with the given label and no toggle state.
    pub fn new(text: &str) -> (b: Box<Button>)
        ensures
            b.label@ == text@,
            !b.clicked,
            b.toggle_state is None,
            !b.needs_repaint,
    {
        Box::new(Button {
            label: text.to_string(),
            clicked: false,
            toggle_state: None,
            needs_repaint: false,
        })
    }

    /// A toggle button with the given label and initial state.
    pub fn new_toggle_button(text: &str, toggle_state: bool) -> (b: Box<Button>)
        ensures
            b.label@ == text@,
            !b.clicked,
            b.toggle_state == Some(toggle_state),
            !b.needs_repaint,
    {
        let mut btn = Self::new(text);
        btn.toggle_state = Some(toggle_state);
        btn
    }

    /// Decides one input event.
    ///
    /// Pointer motion and a space-key release are consumed without effect.
    /// A pointer-button release records a click, flips a toggle state if one
    /// is present, and then asks for a repaint.  Everything else is passed on.
    pub fn event(&mut self, ev: Event) -> (passed: Option<Event>)
        ensures
            match ev {
                Event::MouseMove => passed is None && *final(self) == *old(self),
                Event::MouseButtonRelease => {
                    &&& passed is None
                    &&& final(self).clicked
                    &&& final(self).toggle_state == toggle_after_release(old(self).toggle_state)
                    &&& final(self).needs_repaint == (old(self).needs_repaint
                        || old(self).toggle_state is Some)
                    &&& final(self).label == old(self).label
                },
                Event::KeyRelease(c) => {
                    &&& *final(self) == *old(self)
                    &&& passed == (if c == ' ' {
                        None::<Event>
                    } else {
                        Some(ev)
                    })
                },
                _ => passed == Some(ev) && *final(self) == *old(self),
            },
    {
        match ev {
            Event::MouseMove => None,
            Event::MouseButtonRelease => {
                self.clicked = true;
                match self.toggle_state {
                    Some(ts) => {
                        self.needs_repaint = true;
                        self.toggle_state = Some(!ts);
                    },
                    None => {},
                }
                None
            },
            Event::KeyRelease(c) => {
                if c == ' ' {
                    None
                } else {
                    Some(ev)
                }
            },
            _ => Some(ev),
        }
    }

    /// Whether a click happened since the last poll; polling clears it.
    pub fn clicked(&mut self) -> (r: bool)
        ensures
            r == old(self).clicked,
            !final(self).clicked,
            final(self).label == old(self).label,
            final(self).toggle_state == old(self).toggle_state,
            final(self).needs_repaint == old(self).needs_repaint,
    {
        let clicked = self.clicked;
        self.clicked = false;
        clicked
    }

    /// The toggle state, `None` for a plain button.
    pub fn toggle_state(&self) -> (r: Option<bool>)
        ensures
            r == self.toggle_state,
    {
        self.toggle_state
    }

    /// Overwrites the toggle state; a plain button stays stateless.
    pub fn set_toggle_state(&mut self, new_state: bool)
        ensures
            final(self).toggle_state == (if old(self).toggle_state is Some {
                Some(new_state)
            } else {
                None::<bool>
            }),
            final(self).label == old(self).label,
            final(self).clicked == old(self).clicked,
            final(self).needs_repaint == old(self).needs_repaint,
    {
        if self.toggle_state.is_some() {
            self.toggle_state = Some(new_state)
        }
    }
}

} // verus!
