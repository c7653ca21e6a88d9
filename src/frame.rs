use crate::input::{ButtonState, ElementState};
use crate::keyboard::{keys_collapsed, keys_on_event, Keyboard};
use crate::mouse::{Mouse, MouseButton};
use vstd::prelude::*;

verus! {

/// A raw button event from the platform, for one of the devices.
#[derive(Clone, Copy, Debug, PartialEq, Eq, Structural)]
pub enum InputEvent {
    MouseButton(ElementState, MouseButton),
    Key(ElementState, usize),
}

/// The input devices of one application, advanced frame by frame: events
/// are applied as they arrive, the application reads the resulting states,
/// and `end_frame` collapses the edge states before the next frame.
pub struct Input {
    pub mouse: Mouse,
    pub keyboard: Keyboard,
}

/// What an `Input` holds: the mouse and the states of the keys.
pub type InputModel = (Mouse, Seq<ButtonState>);

/// The devices after one raw event, dispatched to the device it concerns.
pub open spec fn model_on_event(m: InputModel, e: InputEvent) -> InputModel {
    match e {
        InputEvent::MouseButton(state, button) => (m.0.on_event(state, button), m.1),
        InputEvent::Key(state, key) => (m.0, keys_on_event(m.1, state, key)),
    }
}

/// The devices after a sequence of raw events, applied in delivery order.
pub open spec fn model_after_events(m: InputModel, events: Seq<InputEvent>) -> InputModel
    decreases events.len(),
{
    if events.len() == 0 {
        m
    } else {
        model_on_event(model_after_events(m, events.drop_last()), events.last())
    }
}

/// The devices at the start of the next frame: every button collapsed.
pub open spec fn model_collapsed(m: InputModel) -> InputModel {
    (m.0.collapsed(), keys_collapsed(m.1))
}

impl View for Input {
    type V = InputModel;

    open spec fn view(&self) -> InputModel {
        (self.mouse, self.keyboard@)
    }
}

impl Input {
    /// Devices with every button up, and `key_count` keys.
    pub fn new(key_count: usize) -> (r: Input)
        ensures
            r.mouse == Mouse::initial(),
            r.keyboard@ == Seq::new(key_count as nat, |_i: int| ButtonState::NotPressed),
    {
        Input { mouse: Mouse::new(), keyboard: Keyboard::new(key_count) }
    }

    /// Dispatch one raw event to the device it concerns.
    pub fn process_event(&mut self, event: InputEvent)
        ensures
            final(self)@ == model_on_event(old(self)@, event),
    {
        match event {
            InputEvent::MouseButton(state, button) => self.mouse.process_button(state, button),
            InputEvent::Key(state, key) => self.keyboard.process_key(state, key),
        }
    }

    /// Apply every event gathered since the last frame, in delivery order.
    pub fn process_events(&mut self, events: &Vec<InputEvent>)
        ensures
            final(self)@ == model_after_events(old(self)@, events@),
    {
        let ghost start = self@;
        let n = events.len();
        let mut i: usize = 0;
        while i < n
            invariant
                n == events@.len(),
                i <= n,
                self@ == model_after_events(start, events@.take(i as int)),
            decreases n - i,
        {
            proof {
                let next = events@.take(i as int + 1);
                assert(next.drop_last() == events@.take(i as int));
                assert(next.last() == events@[i as int]);
            }
            self.process_event(events[i]);
            i = i + 1;
        }
        proof {
            assert(events@.take(n as int) == events@);
        }
    }

    /// End the frame: every edge state of every device becomes steady.
    pub fn end_frame(&mut self)
        ensures
            final(self)@ == model_collapsed(old(self)@),
    {
        self.mouse.clear_temporary_states();
        self.keyboard.clear_temporary_states();
    }
}

/// The last event in `events` for `key`, if any.
pub open spec fn last_key_event(events: Seq<InputEvent>, key: usize) -> Option<ElementState>
    decreases events.len(),
{
    if events.len() == 0 {
        None
    } else {
        match events.last() {
            InputEvent::Key(state, id) => if id == key {
                Some(state)
            } else {
                last_key_event(events.drop_last(), key)
            },
            _ => last_key_event(events.drop_last(), key),
        }
    }
}

/// The last event in `events` for the mouse button `button`, if any.
pub open spec fn last_mouse_event(events: Seq<InputEvent>, button: MouseButton) -> Option<
    ElementState,
>
    decreases events.len(),
{
    if events.len() == 0 {
        None
    } else {
        match events.last() {
            InputEvent::MouseButton(state, id) => if id == button {
                Some(state)
            } else {
                last_mouse_event(events.drop_last(), button)
            },
            _ => last_mouse_event(events.drop_last(), button),
        }
    }
}

/// Within one frame, every tracked key and mouse button ends in the state
/// set by the last event that concerns it, whatever came before; one that no
/// event concerns keeps its state, and the set of keys does not change.
pub proof fn lemma_frame_last_event_wins(
    m: InputModel,
    events: Seq<InputEvent>,
    key: usize,
    button: MouseButton,
)
    ensures
        model_after_events(m, events).1.len() == m.1.len(),
        key < m.1.len() ==> model_after_events(m, events).1[key as int] == match last_key_event(
            events,
            key,
        ) {
            Some(e) => e.target(),
            None => m.1[key as int],
        },
        button !is Other ==> model_after_events(m, events).0.button(button) == match last_mouse_event(
            events,
            button,
        ) {
            Some(e) => Some(e.target()),
            None => m.0.button(button),
        },
    decreases events.len(),
{
    if events.len() > 0 {
        lemma_frame_last_event_wins(m, events.drop_last(), key, button);
    }
}

/// Ending a frame twice with no event in between is the same as ending it
/// once.
pub proof fn lemma_end_frame_idempotent(m: InputModel)
    ensures
        model_collapsed(model_collapsed(m)) == model_collapsed(m),
{
    crate::keyboard::lemma_keys_collapse_idempotent(m.1);
}

} // verus!
