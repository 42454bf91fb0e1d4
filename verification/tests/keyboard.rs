use liwin::keyboard::{
    compute_key, handle_keyboard_event, make_keycode, RawKeyboard, RIGHT_SHIFT_MAKE_CODE,
    RI_KEY_BREAK, RI_KEY_E0, RI_KEY_E1, RI_KEY_MAKE,
};
use liwin::state::State;
use liwin::vkey;
use liwin::{Device, Event, Key, KeyCode};

fn sample(vkey: u16, flags: u16, make_code: u16) -> RawKeyboard {
    RawKeyboard { make_code, flags, vkey }
}

fn installed() -> State<u32> {
    let mut state = State::new();
    state.set_handler(7);
    state
}

#[test]
fn key_code_from_code_has_no_prefix() {
    let code = KeyCode::from_code(0x1E);
    assert_eq!(code.code, 0x1E);
    assert_eq!(code.extended_flags, 0);
    assert_eq!(KeyCode::from_code(255), KeyCode { code: 255, extended_flags: 0 });
}

#[test]
fn fake_key_makes_no_event() {
    let state = installed();
    for flags in [0u16, RI_KEY_BREAK, RI_KEY_E0, RI_KEY_E1, 0xFFFF] {
        for make_code in [0u16, 0x2A, 0x36, 0xFFFF] {
            let mut out = Vec::new();
            handle_keyboard_event(Device(3), &sample(vkey::VK_NONE, flags, make_code), &state, &mut out);
            assert!(out.is_empty());
        }
    }
}

#[test]
fn key_press_and_release() {
    let state = installed();
    let mut out = Vec::new();
    handle_keyboard_event(Device(11), &sample(vkey::VK_A, RI_KEY_MAKE, 0x1E), &state, &mut out);
    handle_keyboard_event(Device(11), &sample(vkey::VK_A, RI_KEY_BREAK, 0x1E), &state, &mut out);
    assert_eq!(
        out,
        vec![
            Event::KeyboardKey {
                device: Device(11),
                key: Some(Key::A),
                code: KeyCode { code: 0x1E, extended_flags: 0 },
                pressed: true,
            },
            Event::KeyboardKey {
                device: Device(11),
                key: Some(Key::A),
                code: KeyCode { code: 0x1E, extended_flags: 0 },
                pressed: false,
            },
        ]
    );
}

#[test]
fn unmapped_key_still_makes_an_event() {
    let state = installed();
    let mut out = Vec::new();
    handle_keyboard_event(Device(1), &sample(0xE8, RI_KEY_MAKE, 0x70), &state, &mut out);
    assert_eq!(
        out,
        vec![Event::KeyboardKey {
            device: Device(1),
            key: None,
            code: KeyCode { code: 0x70, extended_flags: 0 },
            pressed: true,
        }]
    );
}

#[test]
fn keyboard_event_without_handler_goes_nowhere() {
    let state: State<u32> = State::new();
    let mut out = Vec::new();
    handle_keyboard_event(Device(1), &sample(vkey::VK_A, RI_KEY_MAKE, 0x1E), &state, &mut out);
    assert!(out.is_empty());
}

#[test]
fn keycode_has_a_bit_for_each_prefix() {
    assert_eq!(make_keycode(&sample(vkey::VK_A, 0, 0x1E)), KeyCode { code: 0x1E, extended_flags: 0 });
    assert_eq!(
        make_keycode(&sample(vkey::VK_RCONTROL, RI_KEY_E0, 0x1D)),
        KeyCode { code: 0x1D, extended_flags: KeyCode::E0 }
    );
    assert_eq!(
        make_keycode(&sample(vkey::VK_PAUSE, RI_KEY_E1, 0x1D)),
        KeyCode { code: 0x1D, extended_flags: KeyCode::E1 }
    );
    assert_eq!(
        make_keycode(&sample(vkey::VK_PAUSE, RI_KEY_E0 | RI_KEY_E1 | RI_KEY_BREAK, 0x45)),
        KeyCode { code: 0x45, extended_flags: 0x03 }
    );
    assert_eq!(KeyCode::E0, 0x01);
    assert_eq!(KeyCode::E1, 0x02);
}

#[test]
fn navigation_keys_are_told_apart_by_e0() {
    let table = [
        (vkey::VK_RETURN, Key::NumpadEnter, Key::Enter),
        (vkey::VK_PRIOR, Key::PageUp, Key::Numpad9),
        (vkey::VK_NEXT, Key::PageDown, Key::Numpad3),
        (vkey::VK_END, Key::End, Key::Numpad1),
        (vkey::VK_HOME, Key::Home, Key::Numpad7),
        (vkey::VK_LEFT, Key::Left, Key::Numpad4),
        (vkey::VK_UP, Key::Up, Key::Numpad8),
        (vkey::VK_RIGHT, Key::Right, Key::Numpad6),
        (vkey::VK_DOWN, Key::Down, Key::Numpad2),
        (vkey::VK_INSERT, Key::Insert, Key::Numpad0),
        (vkey::VK_DELETE, Key::Delete, Key::NumpadDecimal),
        (vkey::VK_CONTROL, Key::RightControl, Key::LeftControl),
        (vkey::VK_MENU, Key::RightAlt, Key::LeftAlt),
    ];
    for (vk, extended, plain) in table {
        for other_flags in [0u16, RI_KEY_BREAK, RI_KEY_E1, RI_KEY_BREAK | RI_KEY_E1] {
            for make_code in [0u16, 0x36, 0x52, 0xFFFF] {
                assert_eq!(
                    compute_key(&sample(vk, RI_KEY_E0 | other_flags, make_code)),
                    Some(extended)
                );
                assert_eq!(compute_key(&sample(vk, other_flags, make_code)), Some(plain));
            }
        }
    }
}

#[test]
fn insert_or_numpad0() {
    assert_eq!(compute_key(&sample(vkey::VK_INSERT, RI_KEY_E0, 0x52)), Some(Key::Insert));
    assert_eq!(compute_key(&sample(vkey::VK_INSERT, 0, 0x52)), Some(Key::Numpad0));
}

#[test]
fn shift_is_told_apart_by_make_code() {
    assert_eq!(RIGHT_SHIFT_MAKE_CODE, 0x36);
    assert_eq!(compute_key(&sample(vkey::VK_SHIFT, 0, 0x36)), Some(Key::RightShift));
    assert_eq!(compute_key(&sample(vkey::VK_SHIFT, 0, 0x2A)), Some(Key::LeftShift));
    assert_eq!(compute_key(&sample(vkey::VK_SHIFT, RI_KEY_E0, 0x2A)), Some(Key::LeftShift));
    assert_eq!(compute_key(&sample(vkey::VK_SHIFT, RI_KEY_E0, 0x36)), Some(Key::RightShift));
    assert_eq!(compute_key(&sample(vkey::VK_LSHIFT, 0, 0x36)), Some(Key::LeftShift));
    assert_eq!(compute_key(&sample(vkey::VK_RSHIFT, 0, 0x2A)), Some(Key::RightShift));
}

#[test]
fn sided_modifiers() {
    assert_eq!(compute_key(&sample(vkey::VK_LCONTROL, RI_KEY_E0, 0)), Some(Key::LeftControl));
    assert_eq!(compute_key(&sample(vkey::VK_RCONTROL, 0, 0)), Some(Key::RightControl));
    assert_eq!(compute_key(&sample(vkey::VK_LMENU, RI_KEY_E0, 0)), Some(Key::LeftAlt));
    assert_eq!(compute_key(&sample(vkey::VK_RMENU, 0, 0)), Some(Key::RightAlt));
    assert_eq!(compute_key(&sample(vkey::VK_LWIN, 0, 0)), Some(Key::LeftMeta));
    assert_eq!(compute_key(&sample(vkey::VK_RWIN, 0, 0)), Some(Key::RightMeta));
}

#[test]
fn every_single_key() {
    let table = [
        (vkey::VK_BACK, Key::Backspace),
        (vkey::VK_TAB, Key::Tab),
        (vkey::VK_ESCAPE, Key::Escape),
        (vkey::VK_SPACE, Key::Space),
        (vkey::VK_0, Key::Zero),
        (vkey::VK_1, Key::One),
        (vkey::VK_2, Key::Two),
        (vkey::VK_3, Key::Three),
        (vkey::VK_4, Key::Four),
        (vkey::VK_5, Key::Five),
        (vkey::VK_6, Key::Six),
        (vkey::VK_7, Key::Seven),
        (vkey::VK_8, Key::Eight),
        (vkey::VK_9, Key::Nine),
        (vkey::VK_A, Key::A),
        (vkey::VK_B, Key::B),
        (vkey::VK_C, Key::C),
        (vkey::VK_D, Key::D),
        (vkey::VK_E, Key::E),
        (vkey::VK_F, Key::F),
        (vkey::VK_G, Key::G),
        (vkey::VK_H, Key::H),
        (vkey::VK_I, Key::I),
        (vkey::VK_J, Key::J),
        (vkey::VK_K, Key::K),
        (vkey::VK_L, Key::L),
        (vkey::VK_M, Key::M),
        (vkey::VK_N, Key::N),
        (vkey::VK_O, Key::O),
        (vkey::VK_P, Key::P),
        (vkey::VK_Q, Key::Q),
        (vkey::VK_R, Key::R),
        (vkey::VK_S, Key::S),
        (vkey::VK_T, Key::T),
        (vkey::VK_U, Key::U),
        (vkey::VK_V, Key::V),
        (vkey::VK_W, Key::W),
        (vkey::VK_X, Key::X),
        (vkey::VK_Y, Key::Y),
        (vkey::VK_Z, Key::Z),
        (vkey::VK_F1, Key::F1),
        (vkey::VK_F2, Key::F2),
        (vkey::VK_F3, Key::F3),
        (vkey::VK_F4, Key::F4),
        (vkey::VK_F5, Key::F5),
        (vkey::VK_F6, Key::F6),
        (vkey::VK_F7, Key::F7),
        (vkey::VK_F8, Key::F8),
        (vkey::VK_F9, Key::F9),
        (vkey::VK_F10, Key::F10),
        (vkey::VK_F11, Key::F11),
        (vkey::VK_F12, Key::F12),
        (vkey::VK_F13, Key::F13),
        (vkey::VK_F14, Key::F14),
        (vkey::VK_F15, Key::F15),
        (vkey::VK_F16, Key::F16),
        (vkey::VK_F17, Key::F17),
        (vkey::VK_F18, Key::F18),
        (vkey::VK_F19, Key::F19),
        (vkey::VK_F20, Key::F20),
        (vkey::VK_F21, Key::F21),
        (vkey::VK_F22, Key::F22),
        (vkey::VK_F23, Key::F23),
        (vkey::VK_F24, Key::F24),
        (vkey::VK_NUMLOCK, Key::NumLock),
        (vkey::VK_SCROLL, Key::ScrollLock),
        (vkey::VK_LSHIFT, Key::LeftShift),
        (vkey::VK_RSHIFT, Key::RightShift),
        (vkey::VK_LCONTROL, Key::LeftControl),
        (vkey::VK_RCONTROL, Key::RightControl),
        (vkey::VK_LMENU, Key::LeftAlt),
        (vkey::VK_RMENU, Key::RightAlt),
        (vkey::VK_LWIN, Key::LeftMeta),
        (vkey::VK_RWIN, Key::RightMeta),
        (vkey::VK_APPS, Key::Menu),
        (vkey::VK_SNAPSHOT, Key::PrintScreen),
        (vkey::VK_PAUSE, Key::Pause),
        (vkey::VK_CAPITAL, Key::CapsLock),
        (vkey::VK_VOLUME_UP, Key::VolumeUp),
        (vkey::VK_VOLUME_DOWN, Key::VolumeDown),
        (vkey::VK_VOLUME_MUTE, Key::VolumeMute),
        (vkey::VK_MEDIA_NEXT_TRACK, Key::MediaNext),
        (vkey::VK_MEDIA_PREV_TRACK, Key::MediaPrevious),
        (vkey::VK_MEDIA_STOP, Key::MediaStop),
        (vkey::VK_MEDIA_PLAY_PAUSE, Key::MediaPlayPause),
        (vkey::VK_NUMPAD0, Key::Numpad0),
        (vkey::VK_NUMPAD1, Key::Numpad1),
        (vkey::VK_NUMPAD2, Key::Numpad2),
        (vkey::VK_NUMPAD3, Key::Numpad3),
        (vkey::VK_NUMPAD4, Key::Numpad4),
        (vkey::VK_NUMPAD5, Key::Numpad5),
        (vkey::VK_NUMPAD6, Key::Numpad6),
        (vkey::VK_NUMPAD7, Key::Numpad7),
        (vkey::VK_NUMPAD8, Key::Numpad8),
        (vkey::VK_NUMPAD9, Key::Numpad9),
        (vkey::VK_MULTIPLY, Key::NumpadMultiply),
        (vkey::VK_ADD, Key::NumpadAdd),
        (vkey::VK_SUBTRACT, Key::NumpadSubtract),
        (vkey::VK_DECIMAL, Key::NumpadDecimal),
        (vkey::VK_DIVIDE, Key::NumpadDivide),
    ];
    assert_eq!(table.len(), 100);
    for (vk, key) in table {
        assert_eq!(compute_key(&sample(vk, 0, 0)), Some(key));
        assert_eq!(compute_key(&sample(vk, RI_KEY_E0 | RI_KEY_BREAK, 0x36)), Some(key));
    }
}

#[test]
fn keys_without_a_meaning() {
    let known: Vec<u16> = (0u16..=0xFF)
        .filter(|vk| compute_key(&sample(*vk, 0, 0)).is_some())
        .collect();
    assert_eq!(known.len(), 114);
    for vk in [0u16, 1, 7, 0x0C, 0x15, 0x3A, 0x40, 0x5E, 0x5F, 0x88, 0xA6, 0xE8, 0xFF, 0x100, 0xFFFF] {
        assert_eq!(compute_key(&sample(vk, 0, 0)), None);
        assert_eq!(compute_key(&sample(vk, RI_KEY_E0, 0x36)), None);
    }
}
