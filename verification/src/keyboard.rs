//! The decoder of raw keyboard samples.

use vstd::prelude::*;
use crate::event::{Device, Event, Key, KeyCode};
use crate::state::State;
use crate::vkey::{
    VK_0, VK_1, VK_2, VK_3, VK_4, VK_5, VK_6, VK_7, VK_8, VK_9, VK_A, VK_ADD, VK_APPS, VK_B,
    VK_BACK, VK_C, VK_CAPITAL, VK_CONTROL, VK_D, VK_DECIMAL, VK_DELETE, VK_DIVIDE, VK_DOWN,
    VK_E, VK_END, VK_ESCAPE, VK_F, VK_F1, VK_F10, VK_F11, VK_F12, VK_F13, VK_F14, VK_F15,
    VK_F16, VK_F17, VK_F18, VK_F19, VK_F2, VK_F20, VK_F21, VK_F22, VK_F23, VK_F24, VK_F3,
    VK_F4, VK_F5, VK_F6, VK_F7, VK_F8, VK_F9, VK_G, VK_H, VK_HOME, VK_I, VK_INSERT, VK_J, VK_K,
    VK_L, VK_LCONTROL, VK_LEFT, VK_LMENU, VK_LSHIFT, VK_LWIN, VK_M, VK_MEDIA_NEXT_TRACK,
    VK_MEDIA_PLAY_PAUSE, VK_MEDIA_PREV_TRACK, VK_MEDIA_STOP, VK_MENU, VK_MULTIPLY, VK_N,
    VK_NEXT, VK_NONE, VK_NUMLOCK, VK_NUMPAD0, VK_NUMPAD1, VK_NUMPAD2, VK_NUMPAD3, VK_NUMPAD4,
    VK_NUMPAD5, VK_NUMPAD6, VK_NUMPAD7, VK_NUMPAD8, VK_NUMPAD9, VK_O, VK_P, VK_PAUSE, VK_PRIOR,
    VK_Q, VK_R, VK_RCONTROL, VK_RETURN, VK_RIGHT, VK_RMENU, VK_RSHIFT, VK_RWIN, VK_S,
    VK_SCROLL, VK_SHIFT, VK_SNAPSHOT, VK_SPACE, VK_SUBTRACT, VK_T, VK_TAB, VK_U, VK_UP, VK_V,
    VK_VOLUME_DOWN, VK_VOLUME_MUTE, VK_VOLUME_UP, VK_W, VK_X, VK_Y, VK_Z,
};

verus! {

/// In [`RawKeyboard::flags`]: the key went down. This is the absence of [`RI_KEY_BREAK`].
pub const RI_KEY_MAKE: u16 = 0;

/// In [`RawKeyboard::flags`]: the key was released.
pub const RI_KEY_BREAK: u16 = 1;

/// In [`RawKeyboard::flags`]: the scan code has the E0 prefix.
pub const RI_KEY_E0: u16 = 2;

/// In [`RawKeyboard::flags`]: the scan code has the E1 prefix.
pub const RI_KEY_E1: u16 = 4;

/// The make-code of the right **SHIFT** key.
pub const RIGHT_SHIFT_MAKE_CODE: u16 = 0x36;

/// One raw sample of a keyboard, as the raw input interface of the system delivers it.
#[derive(Debug, Clone, Copy, PartialEq, Eq)]
pub struct RawKeyboard {
    /// The scan code of the key.
    pub make_code: u16,
    /// Flags on the scan code: [`RI_KEY_BREAK`], [`RI_KEY_E0`], [`RI_KEY_E1`].
    pub flags: u16,
    /// The virtual key that the system made of the scan code.
    pub vkey: u16,
}

impl RawKeyboard {
    /// Whether the scan code has the E0 prefix.
    pub open spec fn e0(self) -> bool {
        self.flags & RI_KEY_E0 != 0
    }

    /// Whether the scan code has the E1 prefix.
    pub open spec fn e1(self) -> bool {
        self.flags & RI_KEY_E1 != 0
    }

    /// Whether the key went down, rather than up.
    pub open spec fn pressed(self) -> bool {
        self.flags & RI_KEY_BREAK == RI_KEY_MAKE
    }
}

/// The virtual keys that stand for one logical key, each with that key.
pub open spec fn single_key(vkey: u16) -> Option<Key> {
    match vkey {
        VK_BACK => Some(Key::Backspace),
        VK_TAB => Some(Key::Tab),
        VK_ESCAPE => Some(Key::Escape),
        VK_SPACE => Some(Key::Space),
        VK_0 => Some(Key::Zero),
        VK_1 => Some(Key::One),
        VK_2 => Some(Key::Two),
        VK_3 => Some(Key::Three),
        VK_4 => Some(Key::Four),
        VK_5 => Some(Key::Five),
        VK_6 => Some(Key::Six),
        VK_7 => Some(Key::Seven),
        VK_8 => Some(Key::Eight),
        VK_9 => Some(Key::Nine),
        VK_A => Some(Key::A),
        VK_B => Some(Key::B),
        VK_C => Some(Key::C),
        VK_D => Some(Key::D),
        VK_E => Some(Key::E),
        VK_F => Some(Key::F),
        VK_G => Some(Key::G),
        VK_H => Some(Key::H),
        VK_I => Some(Key::I),
        VK_J => Some(Key::J),
        VK_K => Some(Key::K),
        VK_L => Some(Key::L),
        VK_M => Some(Key::M),
        VK_N => Some(Key::N),
        VK_O => Some(Key::O),
        VK_P => Some(Key::P),
        VK_Q => Some(Key::Q),
        VK_R => Some(Key::R),
        VK_S => Some(Key::S),
        VK_T => Some(Key::T),
        VK_U => Some(Key::U),
        VK_V => Some(Key::V),
        VK_W => Some(Key::W),
        VK_X => Some(Key::X),
        VK_Y => Some(Key::Y),
        VK_Z => Some(Key::Z),
        VK_F1 => Some(Key::F1),
        VK_F2 => Some(Key::F2),
        VK_F3 => Some(Key::F3),
        VK_F4 => Some(Key::F4),
        VK_F5 => Some(Key::F5),
        VK_F6 => Some(Key::F6),
        VK_F7 => Some(Key::F7),
        VK_F8 => Some(Key::F8),
        VK_F9 => Some(Key::F9),
        VK_F10 => Some(Key::F10),
        VK_F11 => Some(Key::F11),
        VK_F12 => Some(Key::F12),
        VK_F13 => Some(Key::F13),
        VK_F14 => Some(Key::F14),
        VK_F15 => Some(Key::F15),
        VK_F16 => Some(Key::F16),
        VK_F17 => Some(Key::F17),
        VK_F18 => Some(Key::F18),
        VK_F19 => Some(Key::F19),
        VK_F20 => Some(Key::F20),
        VK_F21 => Some(Key::F21),
        VK_F22 => Some(Key::F22),
        VK_F23 => Some(Key::F23),
        VK_F24 => Some(Key::F24),
        VK_NUMLOCK => Some(Key::NumLock),
        VK_SCROLL => Some(Key::ScrollLock),
        VK_LSHIFT => Some(Key::LeftShift),
        VK_RSHIFT => Some(Key::RightShift),
        VK_LCONTROL => Some(Key::LeftControl),
        VK_RCONTROL => Some(Key::RightControl),
        VK_LMENU => Some(Key::LeftAlt),
        VK_RMENU => Some(Key::RightAlt),
        VK_LWIN => Some(Key::LeftMeta),
        VK_RWIN => Some(Key::RightMeta),
        VK_APPS => Some(Key::Menu),
        VK_SNAPSHOT => Some(Key::PrintScreen),
        VK_PAUSE => Some(Key::Pause),
        VK_CAPITAL => Some(Key::CapsLock),
        VK_VOLUME_UP => Some(Key::VolumeUp),
        VK_VOLUME_DOWN => Some(Key::VolumeDown),
        VK_VOLUME_MUTE => Some(Key::VolumeMute),
        VK_MEDIA_NEXT_TRACK => Some(Key::MediaNext),
        VK_MEDIA_PREV_TRACK => Some(Key::MediaPrevious),
        VK_MEDIA_STOP => Some(Key::MediaStop),
        VK_MEDIA_PLAY_PAUSE => Some(Key::MediaPlayPause),
        VK_NUMPAD0 => Some(Key::Numpad0),
        VK_NUMPAD1 => Some(Key::Numpad1),
        VK_NUMPAD2 => Some(Key::Numpad2),
        VK_NUMPAD3 => Some(Key::Numpad3),
        VK_NUMPAD4 => Some(Key::Numpad4),
        VK_NUMPAD5 => Some(Key::Numpad5),
        VK_NUMPAD6 => Some(Key::Numpad6),
        VK_NUMPAD7 => Some(Key::Numpad7),
        VK_NUMPAD8 => Some(Key::Numpad8),
        VK_NUMPAD9 => Some(Key::Numpad9),
        VK_MULTIPLY => Some(Key::NumpadMultiply),
        VK_ADD => Some(Key::NumpadAdd),
        VK_SUBTRACT => Some(Key::NumpadSubtract),
        VK_DECIMAL => Some(Key::NumpadDecimal),
        VK_DIVIDE => Some(Key::NumpadDivide),
        _ => None,
    }
}

/// The virtual keys that the keyboard sends for two physical keys, each with the logical key
/// of the sample that has the E0 prefix, and then that of the sample without it.
///
/// These are the keys of the navigation cluster, which the numeric keypad sends too, the
/// **ENTER** key, and the **CONTROL** and **ALT** keys where the system did not say which side.
pub open spec fn extended_pair(vkey: u16) -> Option<(Key, Key)> {
    match vkey {
        VK_RETURN => Some((Key::NumpadEnter, Key::Enter)),
        VK_PRIOR => Some((Key::PageUp, Key::Numpad9)),
        VK_NEXT => Some((Key::PageDown, Key::Numpad3)),
        VK_END => Some((Key::End, Key::Numpad1)),
        VK_HOME => Some((Key::Home, Key::Numpad7)),
        VK_LEFT => Some((Key::Left, Key::Numpad4)),
        VK_UP => Some((Key::Up, Key::Numpad8)),
        VK_RIGHT => Some((Key::Right, Key::Numpad6)),
        VK_DOWN => Some((Key::Down, Key::Numpad2)),
        VK_INSERT => Some((Key::Insert, Key::Numpad0)),
        VK_DELETE => Some((Key::Delete, Key::NumpadDecimal)),
        VK_CONTROL => Some((Key::RightControl, Key::LeftControl)),
        VK_MENU => Some((Key::RightAlt, Key::LeftAlt)),
        _ => None,
    }
}

/// The logical key of a raw keyboard sample.
///
/// The generic **SHIFT** key is told apart by its scan code, the keys of [`extended_pair`] by
/// the E0 prefix, and every other key has the meaning that [`single_key`] gives it, or none.
pub open spec fn spec_compute_key(keyboard: RawKeyboard) -> Option<Key> {
    if keyboard.vkey == VK_SHIFT {
        if keyboard.make_code == RIGHT_SHIFT_MAKE_CODE {
            Some(Key::RightShift)
        } else {
            Some(Key::LeftShift)
        }
    } else {
        match extended_pair(keyboard.vkey) {
            Some((extended, plain)) => Some(
                if keyboard.e0() {
                    extended
                } else {
                    plain
                },
            ),
            None => single_key(keyboard.vkey),
        }
    }
}

/// Computes the [`Key`] associated with the provided sample.
pub fn compute_key(keyboard: &RawKeyboard) -> (key: Option<Key>)
    ensures
        key == spec_compute_key(*keyboard),
{
    let e0 = (keyboard.flags & RI_KEY_E0) != 0;

    match keyboard.vkey {
        VK_BACK => Some(Key::Backspace),
        VK_TAB => Some(Key::Tab),
        VK_RETURN => {
            if e0 {
                Some(Key::NumpadEnter)
            } else {
                Some(Key::Enter)
            }
        },
        VK_ESCAPE => Some(Key::Escape),
        VK_SPACE => Some(Key::Space),
        VK_PRIOR => {
            if e0 {
                Some(Key::PageUp)
            } else {
                Some(Key::Numpad9)
            }
        },
        VK_NEXT => {
            if e0 {
                Some(Key::PageDown)
            } else {
                Some(Key::Numpad3)
            }
        },
        VK_END => {
            if e0 {
                Some(Key::End)
            } else {
                Some(Key::Numpad1)
            }
        },
        VK_HOME => {
            if e0 {
                Some(Key::Home)
            } else {
                Some(Key::Numpad7)
            }
        },
        VK_LEFT => {
            if e0 {
                Some(Key::Left)
            } else {
                Some(Key::Numpad4)
            }
        },
        VK_UP => {
            if e0 {
                Some(Key::Up)
            } else {
                Some(Key::Numpad8)
            }
        },
        VK_RIGHT => {
            if e0 {
                Some(Key::Right)
            } else {
                Some(Key::Numpad6)
            }
        },
        VK_DOWN => {
            if e0 {
                Some(Key::Down)
            } else {
                Some(Key::Numpad2)
            }
        },
        VK_INSERT => {
            if e0 {
                Some(Key::Insert)
            } else {
                Some(Key::Numpad0)
            }
        },
        VK_DELETE => {
            if e0 {
                Some(Key::Delete)
            } else {
                Some(Key::NumpadDecimal)
            }
        },
        VK_0 => Some(Key::Zero),
        VK_1 => Some(Key::One),
        VK_2 => Some(Key::Two),
        VK_3 => Some(Key::Three),
        VK_4 => Some(Key::Four),
        VK_5 => Some(Key::Five),
        VK_6 => Some(Key::Six),
        VK_7 => Some(Key::Seven),
        VK_8 => Some(Key::Eight),
        VK_9 => Some(Key::Nine),
        VK_A => Some(Key::A),
        VK_B => Some(Key::B),
        VK_C => Some(Key::C),
        VK_D => Some(Key::D),
        VK_E => Some(Key::E),
        VK_F => Some(Key::F),
        VK_G => Some(Key::G),
        VK_H => Some(Key::H),
        VK_I => Some(Key::I),
        VK_J => Some(Key::J),
        VK_K => Some(Key::K),
        VK_L => Some(Key::L),
        VK_M => Some(Key::M),
        VK_N => Some(Key::N),
        VK_O => Some(Key::O),
        VK_P => Some(Key::P),
        VK_Q => Some(Key::Q),
        VK_R => Some(Key::R),
        VK_S => Some(Key::S),
        VK_T => Some(Key::T),
        VK_U => Some(Key::U),
        VK_V => Some(Key::V),
        VK_W => Some(Key::W),
        VK_X => Some(Key::X),
        VK_Y => Some(Key::Y),
        VK_Z => Some(Key::Z),
        VK_F1 => Some(Key::F1),
        VK_F2 => Some(Key::F2),
        VK_F3 => Some(Key::F3),
        VK_F4 => Some(Key::F4),
        VK_F5 => Some(Key::F5),
        VK_F6 => Some(Key::F6),
        VK_F7 => Some(Key::F7),
        VK_F8 => Some(Key::F8),
        VK_F9 => Some(Key::F9),
        VK_F10 => Some(Key::F10),
        VK_F11 => Some(Key::F11),
        VK_F12 => Some(Key::F12),
        VK_F13 => Some(Key::F13),
        VK_F14 => Some(Key::F14),
        VK_F15 => Some(Key::F15),
        VK_F16 => Some(Key::F16),
        VK_F17 => Some(Key::F17),
        VK_F18 => Some(Key::F18),
        VK_F19 => Some(Key::F19),
        VK_F20 => Some(Key::F20),
        VK_F21 => Some(Key::F21),
        VK_F22 => Some(Key::F22),
        VK_F23 => Some(Key::F23),
        VK_F24 => Some(Key::F24),
        VK_NUMLOCK => Some(Key::NumLock),
        VK_SCROLL => Some(Key::ScrollLock),
        VK_LSHIFT => Some(Key::LeftShift),
        VK_RSHIFT => Some(Key::RightShift),
        VK_SHIFT => {
            if keyboard.make_code == RIGHT_SHIFT_MAKE_CODE {
                Some(Key::RightShift)
            } else {
                Some(Key::LeftShift)
            }
        },
        VK_LCONTROL => Some(Key::LeftControl),
        VK_RCONTROL => Some(Key::RightControl),
        VK_CONTROL => {
            if e0 {
                Some(Key::RightControl)
            } else {
                Some(Key::LeftControl)
            }
        },
        VK_LMENU => Some(Key::LeftAlt),
        VK_RMENU => Some(Key::RightAlt),
        VK_MENU => {
            if e0 {
                Some(Key::RightAlt)
            } else {
                Some(Key::LeftAlt)
            }
        },
        VK_LWIN => Some(Key::LeftMeta),
        VK_RWIN => Some(Key::RightMeta),
        VK_APPS => Some(Key::Menu),
        VK_SNAPSHOT => Some(Key::PrintScreen),
        VK_PAUSE => Some(Key::Pause),
        VK_CAPITAL => Some(Key::CapsLock),
        VK_VOLUME_UP => Some(Key::VolumeUp),
        VK_VOLUME_DOWN => Some(Key::VolumeDown),
        VK_VOLUME_MUTE => Some(Key::VolumeMute),
        VK_MEDIA_NEXT_TRACK => Some(Key::MediaNext),
        VK_MEDIA_PREV_TRACK => Some(Key::MediaPrevious),
        VK_MEDIA_STOP => Some(Key::MediaStop),
        VK_MEDIA_PLAY_PAUSE => Some(Key::MediaPlayPause),
        VK_NUMPAD0 => Some(Key::Numpad0),
        VK_NUMPAD1 => Some(Key::Numpad1),
        VK_NUMPAD2 => Some(Key::Numpad2),
        VK_NUMPAD3 => Some(Key::Numpad3),
        VK_NUMPAD4 => Some(Key::Numpad4),
        VK_NUMPAD5 => Some(Key::Numpad5),
        VK_NUMPAD6 => Some(Key::Numpad6),
        VK_NUMPAD7 => Some(Key::Numpad7),
        VK_NUMPAD8 => Some(Key::Numpad8),
        VK_NUMPAD9 => Some(Key::Numpad9),
        VK_MULTIPLY => Some(Key::NumpadMultiply),
        VK_ADD => Some(Key::NumpadAdd),
        VK_SUBTRACT => Some(Key::NumpadSubtract),
        VK_DECIMAL => Some(Key::NumpadDecimal),
        VK_DIVIDE => Some(Key::NumpadDivide),
        _ => None,
    }
}

/// The code of the key of a raw keyboard sample: its scan code, with a bit for each prefix.
pub open spec fn spec_make_keycode(keyboard: RawKeyboard) -> KeyCode {
    KeyCode {
        code: keyboard.make_code,
        extended_flags: if keyboard.e0() && keyboard.e1() {
            0x03
        } else if keyboard.e0() {
            KeyCode::E0
        } else if keyboard.e1() {
            KeyCode::E1
        } else {
            0
        },
    }
}

/// Creates a [`KeyCode`] from the provided sample.
pub fn make_keycode(keyboard: &RawKeyboard) -> (code: KeyCode)
    ensures
        code == spec_make_keycode(*keyboard),
{
    let mut extended_flags: u8 = 0;
    if (keyboard.flags & RI_KEY_E0) != 0 {
        extended_flags = extended_flags + KeyCode::E0;
    }
    if (keyboard.flags & RI_KEY_E1) != 0 {
        extended_flags = extended_flags + KeyCode::E1;
    }

    KeyCode { code: keyboard.make_code, extended_flags }
}

/// The events that a raw keyboard sample makes: none for the virtual key that stands for no
/// key, else one, whether the key has a logical meaning or not.
pub open spec fn keyboard_events(device: Device, keyboard: RawKeyboard) -> Seq<Event> {
    if keyboard.vkey == VK_NONE {
        Seq::empty()
    } else {
        seq![
            Event::KeyboardKey {
                device,
                key: spec_compute_key(keyboard),
                code: spec_make_keycode(keyboard),
                pressed: keyboard.pressed(),
            },
        ]
    }
}

/// Handles a raw keyboard sample: sends the event that it makes, if any.
pub fn handle_keyboard_event<H>(
    device: Device,
    keyboard: &RawKeyboard,
    state: &State<H>,
    out: &mut Vec<Event>,
)
    ensures
        final(out)@ == old(out)@ + state.delivered(keyboard_events(device, *keyboard)),
        keyboard.vkey == VK_NONE ==> final(out)@ == old(out)@,
{
    // Skip "fake" keys.
    if keyboard.vkey == VK_NONE {
        assert(old(out)@ + Seq::<Event>::empty() =~= old(out)@);
        return ;
    }
    state.send_event(
        Event::KeyboardKey {
            device,
            code: make_keycode(keyboard),
            pressed: (keyboard.flags & RI_KEY_BREAK) == RI_KEY_MAKE,
            key: compute_key(keyboard),
        },
        out,
    );
}

/// The logical key of a sample whose virtual key is in [`extended_pair`] is decided by the
/// E0 prefix alone: two such samples with the same virtual key and the same prefix bit have
/// the same logical key, and it is the one that the table gives for that bit.
pub proof fn lemma_extended_pair_decided_by_e0(a: RawKeyboard, b: RawKeyboard)
    requires
        extended_pair(a.vkey) is Some,
        a.vkey == b.vkey,
        a.e0() == b.e0(),
    ensures
        spec_compute_key(a) == spec_compute_key(b),
        a.e0() ==> spec_compute_key(a) == Some(extended_pair(a.vkey).unwrap().0),
        !a.e0() ==> spec_compute_key(a) == Some(extended_pair(a.vkey).unwrap().1),
{
}

} // verus!
