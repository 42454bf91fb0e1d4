use liwin::mouse::{
    handle_mouse_event, RawMouse, BUTTON_4, BUTTON_5, MOUSE_MOVE_ABSOLUTE, MOUSE_MOVE_RELATIVE,
    RI_MOUSE_BUTTON_4_DOWN, RI_MOUSE_BUTTON_4_UP, RI_MOUSE_BUTTON_5_DOWN, RI_MOUSE_BUTTON_5_UP,
    RI_MOUSE_HWHEEL, RI_MOUSE_LEFT_BUTTON_DOWN, RI_MOUSE_LEFT_BUTTON_UP,
    RI_MOUSE_MIDDLE_BUTTON_DOWN, RI_MOUSE_MIDDLE_BUTTON_UP, RI_MOUSE_RIGHT_BUTTON_DOWN,
    RI_MOUSE_RIGHT_BUTTON_UP, RI_MOUSE_WHEEL,
};
use liwin::state::State;
use liwin::{Device, Event, MouseButton, WHEEL_DELTA};

fn still() -> RawMouse {
    RawMouse { flags: MOUSE_MOVE_RELATIVE, button_flags: 0, button_data: 0, last_x: 0, last_y: 0 }
}

fn decode(device: Device, mouse: &RawMouse) -> Vec<Event> {
    let mut state: State<&str> = State::new();
    state.set_handler("handler");
    let mut out = Vec::new();
    handle_mouse_event(device, mouse, &state, &mut out);
    out
}

fn button(device: Device, ordinal: u8, pressed: bool) -> Event {
    Event::MouseButton { device, button: MouseButton(ordinal), pressed }
}

#[test]
fn still_mouse_makes_no_event() {
    assert_eq!(decode(Device(1), &still()), vec![]);
}

#[test]
fn relative_motion() {
    let mouse = RawMouse { last_x: 5, last_y: -3, ..still() };
    assert_eq!(decode(Device(9), &mouse), vec![Event::MouseMoved { device: Device(9), dx: 5, dy: -3 }]);
    let mouse = RawMouse { last_x: 0, last_y: 1, ..still() };
    assert_eq!(decode(Device(9), &mouse), vec![Event::MouseMoved { device: Device(9), dx: 0, dy: 1 }]);
    let mouse = RawMouse { last_x: i32::MIN, last_y: i32::MAX, ..still() };
    assert_eq!(
        decode(Device(-2), &mouse),
        vec![Event::MouseMoved { device: Device(-2), dx: i32::MIN, dy: i32::MAX }]
    );
}

#[test]
fn absolute_motion_makes_no_event() {
    let mouse = RawMouse { flags: MOUSE_MOVE_ABSOLUTE, last_x: 100, last_y: 200, ..still() };
    assert_eq!(decode(Device(9), &mouse), vec![]);
    // Other state bits do not make a motion absolute.
    let mouse = RawMouse { flags: 0x0002, last_x: 100, last_y: 200, ..still() };
    assert_eq!(decode(Device(9), &mouse), vec![Event::MouseMoved { device: Device(9), dx: 100, dy: 200 }]);
}

#[test]
fn left_down_and_right_up_in_one_sample() {
    let mouse = RawMouse {
        button_flags: RI_MOUSE_LEFT_BUTTON_DOWN | RI_MOUSE_RIGHT_BUTTON_UP,
        ..still()
    };
    let device = Device(0x1234);
    assert_eq!(
        decode(device, &mouse),
        vec![button(device, MouseButton::LEFT, true), button(device, MouseButton::RIGHT, false)]
    );
}

#[test]
fn every_transition_in_ordinal_order() {
    let mouse = RawMouse { button_flags: 0x03FF, ..still() };
    let d = Device(4);
    assert_eq!(
        decode(d, &mouse),
        vec![
            button(d, 0, true),
            button(d, 0, false),
            button(d, 1, true),
            button(d, 1, false),
            button(d, 2, true),
            button(d, 2, false),
            button(d, 4, true),
            button(d, 4, false),
            button(d, 5, true),
            button(d, 5, false),
        ]
    );
}

#[test]
fn each_transition_alone() {
    let d = Device(4);
    let table = [
        (RI_MOUSE_LEFT_BUTTON_DOWN, MouseButton::LEFT, true),
        (RI_MOUSE_LEFT_BUTTON_UP, MouseButton::LEFT, false),
        (RI_MOUSE_MIDDLE_BUTTON_DOWN, MouseButton::MIDDLE, true),
        (RI_MOUSE_MIDDLE_BUTTON_UP, MouseButton::MIDDLE, false),
        (RI_MOUSE_RIGHT_BUTTON_DOWN, MouseButton::RIGHT, true),
        (RI_MOUSE_RIGHT_BUTTON_UP, MouseButton::RIGHT, false),
        (RI_MOUSE_BUTTON_4_DOWN, BUTTON_4, true),
        (RI_MOUSE_BUTTON_4_UP, BUTTON_4, false),
        (RI_MOUSE_BUTTON_5_DOWN, BUTTON_5, true),
        (RI_MOUSE_BUTTON_5_UP, BUTTON_5, false),
    ];
    for (flag, ordinal, pressed) in table {
        let mouse = RawMouse { button_flags: flag, ..still() };
        assert_eq!(decode(d, &mouse), vec![button(d, ordinal, pressed)]);
    }
}

#[test]
fn one_notch_of_the_wheel() {
    let mouse = RawMouse {
        button_flags: RI_MOUSE_WHEEL,
        button_data: WHEEL_DELTA as u16,
        ..still()
    };
    let events = decode(Device(1), &mouse);
    assert_eq!(events, vec![Event::MouseWheel { device: Device(1), dx: 0, dy: 120 }]);
    match events[0] {
        Event::MouseWheel { dx, dy, .. } => {
            assert_eq!(dy as f64 / WHEEL_DELTA as f64, 1.0);
            assert_eq!(dx as f64 / WHEEL_DELTA as f64, 0.0);
        }
        _ => unreachable!(),
    }
}

#[test]
fn wheel_rotation_is_signed() {
    let mouse = RawMouse { button_flags: RI_MOUSE_WHEEL, button_data: 0xFF88, ..still() };
    assert_eq!(decode(Device(1), &mouse), vec![Event::MouseWheel { device: Device(1), dx: 0, dy: -120 }]);
    let mouse = RawMouse { button_flags: RI_MOUSE_WHEEL, button_data: 0x8000, ..still() };
    assert_eq!(
        decode(Device(1), &mouse),
        vec![Event::MouseWheel { device: Device(1), dx: 0, dy: i16::MIN }]
    );
    let mouse = RawMouse { button_flags: RI_MOUSE_WHEEL, button_data: 0x7FFF, ..still() };
    assert_eq!(
        decode(Device(1), &mouse),
        vec![Event::MouseWheel { device: Device(1), dx: 0, dy: i16::MAX }]
    );
}

#[test]
fn horizontal_wheel() {
    let mouse = RawMouse { button_flags: RI_MOUSE_HWHEEL, button_data: 240, ..still() };
    assert_eq!(decode(Device(1), &mouse), vec![Event::MouseWheel { device: Device(1), dx: 240, dy: 0 }]);
}

#[test]
fn both_wheels_vertical_first() {
    let mouse = RawMouse {
        button_flags: RI_MOUSE_WHEEL | RI_MOUSE_HWHEEL,
        button_data: 60,
        ..still()
    };
    assert_eq!(
        decode(Device(1), &mouse),
        vec![
            Event::MouseWheel { device: Device(1), dx: 0, dy: 60 },
            Event::MouseWheel { device: Device(1), dx: 60, dy: 0 },
        ]
    );
}

#[test]
fn motion_then_buttons_then_wheel() {
    let mouse = RawMouse {
        flags: MOUSE_MOVE_RELATIVE,
        button_flags: RI_MOUSE_WHEEL | RI_MOUSE_MIDDLE_BUTTON_DOWN,
        button_data: 120,
        last_x: -1,
        last_y: 0,
    };
    let d = Device(77);
    assert_eq!(
        decode(d, &mouse),
        vec![
            Event::MouseMoved { device: d, dx: -1, dy: 0 },
            button(d, MouseButton::MIDDLE, true),
            Event::MouseWheel { device: d, dx: 0, dy: 120 },
        ]
    );
}

#[test]
fn mouse_events_are_appended() {
    let mut state: State<u8> = State::new();
    state.set_handler(1);
    let mut out = vec![Event::CloseRequested];
    let mouse = RawMouse { button_flags: RI_MOUSE_LEFT_BUTTON_DOWN, ..still() };
    handle_mouse_event(Device(1), &mouse, &state, &mut out);
    assert_eq!(out, vec![Event::CloseRequested, button(Device(1), 0, true)]);
}

#[test]
fn mouse_event_without_handler_goes_nowhere() {
    let state: State<u8> = State::new();
    let mut out = Vec::new();
    let mouse = RawMouse { button_flags: 0x0FFF, button_data: 120, last_x: 3, ..still() };
    handle_mouse_event(Device(1), &mouse, &state, &mut out);
    assert!(out.is_empty());
}

#[test]
fn button_names() {
    assert_eq!(MouseButton(MouseButton::LEFT).name(), Some("LEFT"));
    assert_eq!(MouseButton(MouseButton::MIDDLE).name(), Some("MIDDLE"));
    assert_eq!(MouseButton(MouseButton::RIGHT).name(), Some("RIGHT"));
    assert_eq!(MouseButton(3).name(), None);
    assert_eq!(MouseButton(BUTTON_4).name(), None);
    assert_eq!(MouseButton(255).name(), None);
}
