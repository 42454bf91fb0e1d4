//! The window procedure: what each window message means.

use vstd::prelude::*;
use crate::event::{Device, Event};
use crate::keyboard::{handle_keyboard_event, keyboard_events, RawKeyboard};
use crate::mouse::{handle_mouse_event, mouse_events, RawMouse};
use crate::state::{feed_utf16, text_events, State};
use crate::word::{
    high_word, low_word, low_word_unsigned, spec_high_word, spec_low_word, spec_to_signed,
    to_signed,
};

verus! {

/// The message that tells that the window has been moved.
pub const WM_MOVE: u32 = 0x0003;

/// The message that tells that the window has been resized.
pub const WM_SIZE: u32 = 0x0005;

/// The message that asks the window to close.
pub const WM_CLOSE: u32 = 0x0010;

/// The message that announces a raw input sample.
pub const WM_INPUT: u32 = 0x00FF;

/// The message that carries one UTF-16 code unit of entered text.
pub const WM_CHAR: u32 = 0x0102;

/// The message that tells that the cursor has moved over the window.
pub const WM_MOUSEMOVE: u32 = 0x0200;

/// A raw input sample, by the kind of device that it comes from.
#[derive(Debug, Clone, Copy, PartialEq, Eq)]
pub enum RawInput {
    /// A sample of a keyboard.
    Keyboard {
        /// The device that generated the sample.
        device: Device,
        /// The sample.
        keyboard: RawKeyboard,
    },
    /// A sample of a mouse.
    Mouse {
        /// The device that generated the sample.
        device: Device,
        /// The sample.
        mouse: RawMouse,
    },
    /// A sample of a device that is neither a keyboard nor a mouse.
    Other,
}

/// What the window procedure answers to a message.
#[derive(Debug, Clone, Copy, PartialEq, Eq)]
pub enum Reply {
    /// The message is answered, with this result.
    Done(isize),
    /// The default window procedure of the system answers the message.
    System,
}

/// The answer to a message, apart from the events that it makes: the request to close the
/// window is answered here, so that the system does not destroy the window by itself, and
/// everything else is left to the system.
pub open spec fn spec_default_wndproc(msg: u32) -> Reply {
    if msg == WM_CLOSE {
        Reply::Done(0)
    } else {
        Reply::System
    }
}

/// The default window procedure: it leaves every message to the system, but notably not the
/// request to close the window.
pub fn default_wndproc(msg: u32) -> (reply: Reply)
    ensures
        reply == spec_default_wndproc(msg),
{
    match msg {
        WM_CLOSE => Reply::Done(0),
        _ => Reply::System,
    }
}

/// The events that a raw input sample makes. A sample that could not be read makes none, nor
/// does one of a device that is neither a keyboard nor a mouse.
pub open spec fn raw_input_events(input: Option<RawInput>) -> Seq<Event> {
    match input {
        Some(RawInput::Keyboard { device, keyboard }) => keyboard_events(device, keyboard),
        Some(RawInput::Mouse { device, mouse }) => mouse_events(device, mouse),
        Some(RawInput::Other) => Seq::empty(),
        None => Seq::empty(),
    }
}

/// Handles a raw input sample, eventually converting it to [`Event`]s.
pub fn handle_raw_input<H>(input: Option<RawInput>, state: &State<H>, out: &mut Vec<Event>)
    ensures
        final(out)@ == old(out)@ + state.delivered(raw_input_events(input)),
{
    proof {
        state.lemma_delivered_concat(out@, Seq::empty(), Seq::empty());
    }
    match input {
        Some(RawInput::Keyboard { device, keyboard }) => {
            handle_keyboard_event(device, &keyboard, state, out);
        },
        Some(RawInput::Mouse { device, mouse }) => {
            handle_mouse_event(device, &mouse, state, out);
        },
        _ => {},
    }
}

/// The width and height that a message about the size of the window carries: the low and the
/// high word of its parameter.
pub open spec fn size_of_lparam(lparam: isize) -> (int, int) {
    (spec_low_word(lparam as int), spec_high_word(lparam as int))
}

/// The position that a message about the window or the cursor carries: the low and the high
/// word of its parameter, each read as a signed number.
pub open spec fn point_of_lparam(lparam: isize) -> (int, int) {
    (
        spec_to_signed(spec_low_word(lparam as int) as u16),
        spec_to_signed(spec_high_word(lparam as int) as u16),
    )
}

/// The events that a message makes, given the low surrogate that was pending when it came
/// and, for a message that announces a raw input sample, that sample.
pub open spec fn message_events(
    pending: Option<u16>,
    msg: u32,
    wparam: usize,
    lparam: isize,
    input: Option<RawInput>,
) -> Seq<Event> {
    if msg == WM_CLOSE {
        seq![Event::CloseRequested]
    } else if msg == WM_SIZE {
        seq![
            Event::Resized {
                width: size_of_lparam(lparam).0 as u32,
                height: size_of_lparam(lparam).1 as u32,
            },
        ]
    } else if msg == WM_MOVE {
        seq![
            Event::Moved {
                x: point_of_lparam(lparam).0 as i32,
                y: point_of_lparam(lparam).1 as i32,
            },
        ]
    } else if msg == WM_MOUSEMOVE {
        seq![
            Event::CursorMoved {
                x: point_of_lparam(lparam).0 as i32,
                y: point_of_lparam(lparam).1 as i32,
            },
        ]
    } else if msg == WM_INPUT {
        raw_input_events(input)
    } else if msg == WM_CHAR {
        text_events(feed_utf16(pending, spec_low_word(wparam as int) as u16).1)
    } else {
        Seq::empty()
    }
}

/// The low surrogate that is pending after a message: only a message that carries text
/// changes it.
pub open spec fn message_pending(pending: Option<u16>, msg: u32, wparam: usize) -> Option<u16> {
    if msg == WM_CHAR {
        feed_utf16(pending, spec_low_word(wparam as int) as u16).0
    } else {
        pending
    }
}

/// The window procedure: sends the events that a message makes, and returns the answer to
/// the message.
///
/// `input` is the raw input sample that the message announces, where it announces one and
/// the sample could be read. For any other message it is not looked at.
pub fn wndproc<H>(
    state: &mut State<H>,
    msg: u32,
    wparam: usize,
    lparam: isize,
    input: Option<RawInput>,
    out: &mut Vec<Event>,
) -> (reply: Reply)
    ensures
        reply == spec_default_wndproc(msg),
        final(state).handler() == old(state).handler(),
        final(state).low_surrogate() == message_pending(old(state).low_surrogate(), msg, wparam),
        final(out)@ == old(out)@ + old(state).delivered(
            message_events(old(state).low_surrogate(), msg, wparam, lparam, input),
        ),
{
    match msg {
        WM_CLOSE => {
            state.send_event(Event::CloseRequested, out);
        },
        WM_SIZE => {
            let width = low_word(lparam) as u32;
            let height = high_word(lparam) as u32;
            state.send_event(Event::Resized { width, height }, out);
        },
        WM_MOVE => {
            let x = to_signed(low_word(lparam)) as i32;
            let y = to_signed(high_word(lparam)) as i32;
            state.send_event(Event::Moved { x, y }, out);
        },
        WM_MOUSEMOVE => {
            let x = to_signed(low_word(lparam)) as i32;
            let y = to_signed(high_word(lparam)) as i32;
            state.send_event(Event::CursorMoved { x, y }, out);
        },
        WM_INPUT => {
            handle_raw_input(input, state, out);
        },
        WM_CHAR => {
            state.take_u16_code_point(low_word_unsigned(wparam), out);
        },
        _ => {
            proof {
                state.lemma_delivered_concat(out@, Seq::empty(), Seq::empty());
            }
        },
    }

    default_wndproc(msg)
}

} // verus!
