use crate::input::{ButtonState, ElementState};
use vstd::prelude::*;

verus! {

/// A mouse button identifier as reported by the platform. Only `Left`,
/// `Right` and `Middle` are tracked; any other button is ignored.
#[derive(Clone, Copy, Debug, PartialEq, Eq, Structural)]
pub enum MouseButton {
    Left,
    Right,
    Middle,
    Other(u8),
}

/// The button states of the mouse. The pointer position is kept by the
/// windowing layer, which owns the display scale.
#[derive(Clone, Copy, Debug, PartialEq, Eq, Structural)]
pub struct Mouse {
    pub left: ButtonState,
    pub right: ButtonState,
    pub middle: ButtonState,
}

impl Mouse {
    /// The tracked state of `button`, or `None` for a button that is not
    /// tracked.
    pub open spec fn button(self, button: MouseButton) -> Option<ButtonState> {
        match button {
            MouseButton::Left => Some(self.left),
            MouseButton::Right => Some(self.right),
            MouseButton::Middle => Some(self.middle),
            MouseButton::Other(_) => None,
        }
    }

    /// The mouse after one raw event: the event's button takes the state that
    /// the event sets; an untracked button changes nothing.
    pub open spec fn on_event(self, state: ElementState, button: MouseButton) -> Mouse {
        match button {
            MouseButton::Left => Mouse { left: state.target(), ..self },
            MouseButton::Right => Mouse { right: state.target(), ..self },
            MouseButton::Middle => Mouse { middle: state.target(), ..self },
            MouseButton::Other(_) => self,
        }
    }

    /// The mouse at the start of the next frame: every button collapsed.
    pub open spec fn collapsed(self) -> Mouse {
        Mouse {
            left: self.left.collapsed(),
            right: self.right.collapsed(),
            middle: self.middle.collapsed(),
        }
    }

    /// The mouse at startup: every button up.
    pub open spec fn initial() -> Mouse {
        Mouse {
            left: ButtonState::NotPressed,
            right: ButtonState::NotPressed,
            middle: ButtonState::NotPressed,
        }
    }

    /// A mouse with every button up.
    pub fn new() -> (m: Mouse)
        ensures
            m == Mouse::initial(),
    {
        Mouse {
            left: ButtonState::NotPressed,
            right: ButtonState::NotPressed,
            middle: ButtonState::NotPressed,
        }
    }

    /// Apply one raw button event. Buttons other than left, right and middle
    /// are ignored.
    pub fn process_button(&mut self, state: ElementState, button: MouseButton)
        ensures
            *final(self) == old(self).on_event(state, button),
            button is Other ==> *final(self) == *old(self),
    {
        let value = state.to_button_state();
        match button {
            MouseButton::Left => self.left = value,
            MouseButton::Right => self.right = value,
            MouseButton::Middle => self.middle = value,
            MouseButton::Other(_) => {},
        }
    }

    /// Advance to the next frame: every edge state becomes its steady state.
    pub fn clear_temporary_states(&mut self)
        ensures
            *final(self) == old(self).collapsed(),
    {
        self.left = self.left.clear_temporary();
        self.right = self.right.clear_temporary();
        self.middle = self.middle.clear_temporary();
    }

    /// The current state of `button`, or `None` for a button that is not
    /// tracked.
    pub fn state(&self, button: MouseButton) -> (r: Option<ButtonState>)
        ensures
            r == self.button(button),
    {
        match button {
            MouseButton::Left => Some(self.left),
            MouseButton::Right => Some(self.right),
            MouseButton::Middle => Some(self.middle),
            MouseButton::Other(_) => None,
        }
    }
}

/// Events for untracked buttons leave every tracked button as it was.
pub proof fn lemma_untracked_ignored(m: Mouse, state: ElementState, id: u8)
    ensures
        m.on_event(state, MouseButton::Other(id)) == m,
{
}

/// Collapsing the whole mouse twice is the same as collapsing it once.
pub proof fn lemma_mouse_collapse_idempotent(m: Mouse)
    ensures
        m.collapsed().collapsed() == m.collapsed(),
{
}

} // verus!
