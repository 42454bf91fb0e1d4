use liwin::keyboard::{RawKeyboard, RI_KEY_E0};
use liwin::mouse::{RawMouse, RI_MOUSE_LEFT_BUTTON_DOWN};
use liwin::state::State;
use liwin::vkey;
use liwin::wndproc::{
    default_wndproc, handle_raw_input, wndproc, RawInput, Reply, WM_CHAR, WM_CLOSE, WM_INPUT,
    WM_MOUSEMOVE, WM_MOVE, WM_SIZE,
};
use liwin::word::{high_word, low_word, low_word_unsigned, to_signed};
use liwin::{Device, Event, Key, KeyCode, MouseButton};

fn installed() -> State<u32> {
    let mut state = State::new();
    state.set_handler(1);
    state
}

fn message(state: &mut State<u32>, msg: u32, wparam: usize, lparam: isize) -> (Reply, Vec<Event>) {
    let mut out = Vec::new();
    let reply = wndproc(state, msg, wparam, lparam, None, &mut out);
    (reply, out)
}

fn pack(low: u16, high: u16) -> isize {
    (((high as u32) << 16) | low as u32) as i32 as isize
}

#[test]
fn words_of_a_parameter() {
    assert_eq!(low_word(0x1234_5678), 0x5678);
    assert_eq!(high_word(0x1234_5678), 0x1234);
    assert_eq!(low_word(-1), 0xFFFF);
    assert_eq!(high_word(-1), 0xFFFF);
    assert_eq!(low_word(-65536), 0);
    assert_eq!(high_word(-65536), 0xFFFF);
    assert_eq!(low_word(0), 0);
    assert_eq!(high_word(0xFFFF), 0);
    assert_eq!(low_word_unsigned(0x0001_D83D), 0xD83D);
    assert_eq!(low_word_unsigned(usize::MAX), 0xFFFF);
    assert_eq!(to_signed(0), 0);
    assert_eq!(to_signed(0x7FFF), i16::MAX);
    assert_eq!(to_signed(0x8000), i16::MIN);
    assert_eq!(to_signed(0xFFFF), -1);
}

#[test]
fn close_is_answered_here() {
    assert_eq!(default_wndproc(WM_CLOSE), Reply::Done(0));
    assert_eq!(default_wndproc(WM_SIZE), Reply::System);
    assert_eq!(default_wndproc(WM_CHAR), Reply::System);
    assert_eq!(default_wndproc(0), Reply::System);
    assert_eq!(default_wndproc(u32::MAX), Reply::System);
}

#[test]
fn close_requested() {
    let mut state = installed();
    assert_eq!(
        message(&mut state, WM_CLOSE, 0, 0),
        (Reply::Done(0), vec![Event::CloseRequested])
    );
}

#[test]
fn resized() {
    let mut state = installed();
    assert_eq!(
        message(&mut state, WM_SIZE, 0, pack(800, 600)),
        (Reply::System, vec![Event::Resized { width: 800, height: 600 }])
    );
    assert_eq!(
        message(&mut state, WM_SIZE, 1, 0),
        (Reply::System, vec![Event::Resized { width: 0, height: 0 }])
    );
    assert_eq!(
        message(&mut state, WM_SIZE, 0, pack(0xFFFF, 0x8000)),
        (Reply::System, vec![Event::Resized { width: 65535, height: 32768 }])
    );
}

#[test]
fn moved() {
    let mut state = installed();
    assert_eq!(
        message(&mut state, WM_MOVE, 0, pack(100, 200)),
        (Reply::System, vec![Event::Moved { x: 100, y: 200 }])
    );
    assert_eq!(
        message(&mut state, WM_MOVE, 0, pack(0xFFF6, 0x8300)),
        (Reply::System, vec![Event::Moved { x: -10, y: -32000 }])
    );
}

#[test]
fn cursor_moved() {
    let mut state = installed();
    assert_eq!(
        message(&mut state, WM_MOUSEMOVE, 0, pack(15, 0xFFFF)),
        (Reply::System, vec![Event::CursorMoved { x: 15, y: -1 }])
    );
}

#[test]
fn text_through_messages() {
    let mut state = installed();
    assert_eq!(message(&mut state, WM_CHAR, 0x41, 0), (Reply::System, vec![Event::Text('A')]));
    assert_eq!(message(&mut state, WM_CHAR, 0xDE00, 0), (Reply::System, vec![]));
    assert_eq!(state.pending_surrogate(), Some(0xDE00));
    // A message that carries no text leaves the pending unit alone.
    assert_eq!(
        message(&mut state, WM_SIZE, 0, pack(1, 1)),
        (Reply::System, vec![Event::Resized { width: 1, height: 1 }])
    );
    assert_eq!(state.pending_surrogate(), Some(0xDE00));
    assert_eq!(
        message(&mut state, WM_CHAR, 0xD83D, 0),
        (Reply::System, vec![Event::Text('\u{1F600}')])
    );
    // Only the low word of the parameter is the code unit.
    assert_eq!(
        message(&mut state, WM_CHAR, 0x0007_0042, 0),
        (Reply::System, vec![Event::Text('B')])
    );
}

#[test]
fn other_messages_make_no_event() {
    let mut state = installed();
    for msg in [0u32, 1, 2, 4, 6, 0x000F, 0x0100, 0x0101, 0x0201, 0xFFFF, u32::MAX] {
        assert_eq!(message(&mut state, msg, 0x41, pack(3, 4)), (Reply::System, vec![]));
    }
}

#[test]
fn raw_keyboard_through_messages() {
    let mut state = installed();
    let mut out = Vec::new();
    let input = RawInput::Keyboard {
        device: Device(42),
        keyboard: RawKeyboard { make_code: 0x52, flags: RI_KEY_E0, vkey: vkey::VK_INSERT },
    };
    let reply = wndproc(&mut state, WM_INPUT, 0, 0x77, Some(input), &mut out);
    assert_eq!(reply, Reply::System);
    assert_eq!(
        out,
        vec![Event::KeyboardKey {
            device: Device(42),
            key: Some(Key::Insert),
            code: KeyCode { code: 0x52, extended_flags: 1 },
            pressed: true,
        }]
    );
}

#[test]
fn raw_mouse_through_messages() {
    let mut state = installed();
    let mut out = Vec::new();
    let input = RawInput::Mouse {
        device: Device(43),
        mouse: RawMouse {
            flags: 0,
            button_flags: RI_MOUSE_LEFT_BUTTON_DOWN,
            button_data: 0,
            last_x: 2,
            last_y: 0,
        },
    };
    wndproc(&mut state, WM_INPUT, 0, 0, Some(input), &mut out);
    assert_eq!(
        out,
        vec![
            Event::MouseMoved { device: Device(43), dx: 2, dy: 0 },
            Event::MouseButton { device: Device(43), button: MouseButton(0), pressed: true },
        ]
    );
}

#[test]
fn raw_input_that_is_not_there() {
    let mut state = installed();
    let mut out = Vec::new();
    wndproc(&mut state, WM_INPUT, 0, 0, None, &mut out);
    wndproc(&mut state, WM_INPUT, 0, 0, Some(RawInput::Other), &mut out);
    handle_raw_input(None, &state, &mut out);
    handle_raw_input(Some(RawInput::Other), &state, &mut out);
    assert!(out.is_empty());
}

#[test]
fn sample_is_only_looked_at_for_raw_input() {
    let mut state = installed();
    let mut out = Vec::new();
    let input = RawInput::Keyboard {
        device: Device(42),
        keyboard: RawKeyboard { make_code: 0x1E, flags: 0, vkey: vkey::VK_A },
    };
    wndproc(&mut state, WM_SIZE, 0, pack(2, 3), Some(input), &mut out);
    assert_eq!(out, vec![Event::Resized { width: 2, height: 3 }]);
}

#[test]
fn messages_without_handler() {
    let mut state: State<u32> = State::new();
    assert_eq!(message(&mut state, WM_CLOSE, 0, 0), (Reply::Done(0), vec![]));
    assert_eq!(message(&mut state, WM_SIZE, 0, pack(1, 2)), (Reply::System, vec![]));
    assert_eq!(message(&mut state, WM_CHAR, 0x41, 0), (Reply::System, vec![]));
    assert_eq!(message(&mut state, WM_CHAR, 0xDC00, 0), (Reply::System, vec![]));
    assert_eq!(state.pending_surrogate(), Some(0xDC00));
    assert_eq!(state.installed_handler(), None);
}

#[test]
fn events_are_appended_in_order() {
    let mut state = installed();
    let mut out = Vec::new();
    wndproc(&mut state, WM_MOVE, 0, pack(1, 2), None, &mut out);
    wndproc(&mut state, WM_CHAR, 0x61, 0, None, &mut out);
    wndproc(&mut state, WM_CLOSE, 0, 0, None, &mut out);
    assert_eq!(
        out,
        vec![Event::Moved { x: 1, y: 2 }, Event::Text('a'), Event::CloseRequested]
    );
}
