use quicksilver::input::{ButtonState, ElementState};
use quicksilver::frame::{Input, InputEvent};
use quicksilver::keyboard::Keyboard;
use quicksilver::mouse::{Mouse, MouseButton};

#[test]
fn new_mouse_has_every_button_up() {
    let m = Mouse::new();
    assert_eq!(m.left, ButtonState::NotPressed);
    assert_eq!(m.right, ButtonState::NotPressed);
    assert_eq!(m.middle, ButtonState::NotPressed);
}

#[test]
fn clear_temporary_collapses_edges() {
    assert_eq!(ButtonState::Pressed.clear_temporary(), ButtonState::Held);
    assert_eq!(ButtonState::Released.clear_temporary(), ButtonState::NotPressed);
    assert_eq!(ButtonState::Held.clear_temporary(), ButtonState::Held);
    assert_eq!(ButtonState::NotPressed.clear_temporary(), ButtonState::NotPressed);
}

#[test]
fn is_down_for_pressed_and_held() {
    assert!(ButtonState::Pressed.is_down());
    assert!(ButtonState::Held.is_down());
    assert!(!ButtonState::Released.is_down());
    assert!(!ButtonState::NotPressed.is_down());
}

#[test]
fn press_then_hold_across_frames() {
    let mut m = Mouse::new();
    m.process_button(ElementState::Pressed, MouseButton::Left);
    assert_eq!(m.left, ButtonState::Pressed);
    assert_eq!(m.state(MouseButton::Left), Some(ButtonState::Pressed));
    m.clear_temporary_states();
    assert_eq!(m.left, ButtonState::Held);
    m.clear_temporary_states();
    assert_eq!(m.left, ButtonState::Held);
}

#[test]
fn release_from_held() {
    let mut m = Mouse::new();
    m.right = ButtonState::Held;
    m.process_button(ElementState::Released, MouseButton::Right);
    assert_eq!(m.right, ButtonState::Released);
    m.clear_temporary_states();
    assert_eq!(m.right, ButtonState::NotPressed);
}

#[test]
fn press_and_release_in_one_frame() {
    let mut m = Mouse::new();
    m.process_button(ElementState::Pressed, MouseButton::Middle);
    m.process_button(ElementState::Released, MouseButton::Middle);
    assert_eq!(m.middle, ButtonState::Released);
    m.clear_temporary_states();
    assert_eq!(m.middle, ButtonState::NotPressed);
}

#[test]
fn last_event_decides_each_button() {
    let mut input = Input::new(4);
    input.mouse.left = ButtonState::Held;
    let events = vec![
        InputEvent::MouseButton(ElementState::Released, MouseButton::Left),
        InputEvent::MouseButton(ElementState::Pressed, MouseButton::Right),
        InputEvent::Key(ElementState::Pressed, 2),
        InputEvent::MouseButton(ElementState::Pressed, MouseButton::Left),
        InputEvent::MouseButton(ElementState::Released, MouseButton::Right),
        InputEvent::MouseButton(ElementState::Pressed, MouseButton::Other(7)),
        InputEvent::Key(ElementState::Released, 2),
        InputEvent::Key(ElementState::Pressed, 9),
    ];
    input.process_events(&events);
    assert_eq!(input.mouse.left, ButtonState::Pressed);
    assert_eq!(input.mouse.right, ButtonState::Released);
    assert_eq!(input.mouse.middle, ButtonState::NotPressed);
    assert_eq!(input.keyboard.state(2), Some(ButtonState::Released));
    assert_eq!(input.keyboard.state(1), Some(ButtonState::NotPressed));
    assert_eq!(input.keyboard.state(9), None);
    assert_eq!(input.keyboard.len(), 4);
}

#[test]
fn no_events_change_nothing() {
    let mut input = Input::new(3);
    input.mouse.left = ButtonState::Pressed;
    input.keyboard.process_key(ElementState::Pressed, 0);
    let before = input.mouse;
    input.process_events(&Vec::new());
    assert_eq!(input.mouse, before);
    assert_eq!(input.keyboard.state(0), Some(ButtonState::Pressed));
}

#[test]
fn clear_twice_equals_once() {
    let mut once = Mouse::new();
    once.left = ButtonState::Pressed;
    once.right = ButtonState::Released;
    once.middle = ButtonState::Held;
    once.clear_temporary_states();
    let mut twice = once;
    twice.clear_temporary_states();
    assert_eq!(once, twice);
}

#[test]
fn every_event_gives_an_edge_and_every_collapse_a_steady_state() {
    let all = [
        ButtonState::Pressed,
        ButtonState::Held,
        ButtonState::Released,
        ButtonState::NotPressed,
    ];
    for s in all {
        let c = s.clear_temporary();
        assert!(c == ButtonState::Held || c == ButtonState::NotPressed);
        for e in [ElementState::Pressed, ElementState::Released] {
            let mut m = Mouse::new();
            m.left = s;
            m.process_button(e, MouseButton::Left);
            assert_eq!(m.left, e.to_button_state());
            assert!(m.left == ButtonState::Pressed || m.left == ButtonState::Released);
        }
    }
}

#[test]
fn unknown_button_is_ignored() {
    let mut m = Mouse::new();
    m.left = ButtonState::Held;
    m.middle = ButtonState::Pressed;
    let before = m;
    m.process_button(ElementState::Pressed, MouseButton::Other(4));
    m.process_button(ElementState::Released, MouseButton::Other(9));
    assert_eq!(m, before);
    assert_eq!(m.state(MouseButton::Other(4)), None);
}

#[test]
fn end_frame_collapses_every_device() {
    let mut input = Input::new(2);
    input.process_event(InputEvent::Key(ElementState::Pressed, 0));
    input.process_event(InputEvent::Key(ElementState::Released, 1));
    input.process_event(InputEvent::MouseButton(ElementState::Pressed, MouseButton::Right));
    input.end_frame();
    assert_eq!(input.keyboard.state(0), Some(ButtonState::Held));
    assert_eq!(input.keyboard.state(1), Some(ButtonState::NotPressed));
    assert_eq!(input.mouse.right, ButtonState::Held);
    input.end_frame();
    assert_eq!(input.keyboard.state(0), Some(ButtonState::Held));
    assert_eq!(input.keyboard.state(1), Some(ButtonState::NotPressed));
    assert_eq!(input.mouse.right, ButtonState::Held);
}

#[test]
fn keyboard_ignores_out_of_range_keys() {
    let mut k = Keyboard::new(3);
    k.process_key(ElementState::Pressed, 3);
    k.process_key(ElementState::Pressed, 100);
    for i in 0..3 {
        assert_eq!(k.state(i), Some(ButtonState::NotPressed));
    }
    k.process_key(ElementState::Pressed, 1);
    k.clear_temporary_states();
    k.clear_temporary_states();
    assert_eq!(k.state(1), Some(ButtonState::Held));
}
