use mygui::{MouseButton, MouseButtonState, MouseClickEvent};
use orbclient::ButtonEvent;

#[test]
fn test_from_left_click() {
    let orb_mouse_event = ButtonEvent {
        left: true,
        middle: false,
        right: false,
    };

    let mygui_mouse_event = MouseClickEvent::from(orb_mouse_event);

    assert_eq!(mygui_mouse_event.button, MouseButton::Left);
    assert_eq!(mygui_mouse_event.state, MouseButtonState::Pressed);
}

#[test]
fn test_from_release() {
    let orb_mouse_event = ButtonEvent {
        left: false,
        middle: false,
        right: false,
    };

    let mygui_mouse_event = MouseClickEvent::from(orb_mouse_event);

    assert_eq!(mygui_mouse_event.button, MouseButton::NoButton);
    assert_eq!(mygui_mouse_event.state, MouseButtonState::Released);
}

#[test]
fn click_prefers_left_then_middle_then_right() {
    let middle = MouseClickEvent::from(ButtonEvent { left: false, middle: true, right: true });
    assert_eq!(middle.button, MouseButton::Middle);
    assert_eq!(middle.state, MouseButtonState::Pressed);
    let right = MouseClickEvent::from(ButtonEvent { left: false, middle: false, right: true });
    assert_eq!(right.button, MouseButton::Right);
    let all = MouseClickEvent::from(ButtonEvent { left: true, middle: true, right: true });
    assert_eq!(all.button, MouseButton::Left);
}
