use vstd::prelude::*;

verus! {

/// The state of one binary input (a key, a mouse button, a gamepad button)
/// as seen across a frame boundary.
///
/// `Pressed` and `Released` are edge states: they are visible only in the
/// frame in which the transition happened. `Held` and `NotPressed` are steady
/// states: they persist across frames while no new event arrives.
#[derive(Clone, Copy, Debug, PartialEq, Eq, Structural)]
pub enum ButtonState {
    /// The button went down during this frame.
    Pressed,
    /// The button is down and was down in the previous frame.
    Held,
    /// The button went up during this frame.
    Released,
    /// The button is up and was up in the previous frame.
    NotPressed,
}

/// The direction of a raw button event, as reported by the platform.
#[derive(Clone, Copy, Debug, PartialEq, Eq, Structural)]
pub enum ElementState {
    Pressed,
    Released,
}

impl ButtonState {
    /// The state that the next frame starts from: edges become steady.
    pub open spec fn collapsed(self) -> ButtonState {
        match self {
            ButtonState::Pressed => ButtonState::Held,
            ButtonState::Released => ButtonState::NotPressed,
            ButtonState::Held => ButtonState::Held,
            ButtonState::NotPressed => ButtonState::NotPressed,
        }
    }

    pub open spec fn is_edge(self) -> bool {
        self is Pressed || self is Released
    }

    pub open spec fn is_steady(self) -> bool {
        self is Held || self is NotPressed
    }

    pub open spec fn spec_is_down(self) -> bool {
        self is Pressed || self is Held
    }

    /// The state after one raw event: the event's direction overwrites
    /// whatever state the button was in.
    pub open spec fn on_event(self, e: ElementState) -> ButtonState {
        e.target()
    }

    /// The state after a sequence of raw events within one frame, applied in
    /// the order of delivery.
    pub open spec fn after_events(self, events: Seq<ElementState>) -> ButtonState
        decreases events.len(),
    {
        if events.len() == 0 {
            self
        } else {
            self.after_events(events.drop_last()).on_event(events.last())
        }
    }

    /// Advance to the next frame: `Pressed` becomes `Held`, `Released`
    /// becomes `NotPressed`, steady states stay as they are.
    pub fn clear_temporary(self) -> (r: ButtonState)
        ensures
            r == self.collapsed(),
    {
        match self {
            ButtonState::Pressed => ButtonState::Held,
            ButtonState::Released => ButtonState::NotPressed,
            ButtonState::Held => ButtonState::Held,
            ButtonState::NotPressed => ButtonState::NotPressed,
        }
    }

    /// Whether the button is currently down.
    pub fn is_down(self) -> (r: bool)
        ensures
            r == self.spec_is_down(),
    {
        match self {
            ButtonState::Pressed | ButtonState::Held => true,
            ButtonState::Released | ButtonState::NotPressed => false,
        }
    }
}

impl ElementState {
    /// The button state that a raw event of this direction sets, whatever the
    /// state before it.
    pub open spec fn target(self) -> ButtonState {
        match self {
            ElementState::Pressed => ButtonState::Pressed,
            ElementState::Released => ButtonState::Released,
        }
    }

    pub fn to_button_state(self) -> (r: ButtonState)
        ensures
            r == self.target(),
    {
        match self {
            ElementState::Pressed => ButtonState::Pressed,
            ElementState::Released => ButtonState::Released,
        }
    }
}

/// Within one frame only the last raw event decides a button's state: every
/// nonempty sequence of events, from any state, ends in the state that its
/// last event sets.
pub proof fn lemma_last_event_wins(s: ButtonState, events: Seq<ElementState>)
    requires
        events.len() > 0,
    ensures
        s.after_events(events) == events.last().target(),
        forall|t: ButtonState| #[trigger] t.after_events(events) == s.after_events(events),
{
}

/// Collapsing twice with no event in between is the same as collapsing once.
pub proof fn lemma_collapse_idempotent(s: ButtonState)
    ensures
        s.collapsed().collapsed() == s.collapsed(),
{
}

/// The four states form a closed cycle: a raw event always leads to an edge
/// state (`Pressed` or `Released`), and a collapse always leads to a steady
/// state (`NotPressed` or `Held`).
pub proof fn lemma_cycle_closed(s: ButtonState, e: ElementState)
    ensures
        e.target() is Pressed || e.target() is Released,
        e.target().is_edge(),
        s.collapsed() is NotPressed || s.collapsed() is Held,
        s.collapsed().is_steady(),
{
}

} // verus!
