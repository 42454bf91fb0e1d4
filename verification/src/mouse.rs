//! The decoder of raw mouse samples.

use vstd::prelude::*;
use crate::event::{Device, Event, MouseButton};
use crate::state::State;
use crate::word::{spec_to_signed, to_signed};

verus! {

/// In [`RawMouse::flags`]: the motion is relative to the last position. This is the absence
/// of [`MOUSE_MOVE_ABSOLUTE`].
pub const MOUSE_MOVE_RELATIVE: u16 = 0x0000;

/// In [`RawMouse::flags`]: the motion is a position, not a delta.
pub const MOUSE_MOVE_ABSOLUTE: u16 = 0x0001;

/// In [`RawMouse::button_flags`]: the left button went down.
pub const RI_MOUSE_LEFT_BUTTON_DOWN: u16 = 0x0001;

/// In [`RawMouse::button_flags`]: the left button went up.
pub const RI_MOUSE_LEFT_BUTTON_UP: u16 = 0x0002;

/// In [`RawMouse::button_flags`]: the right button went down.
pub const RI_MOUSE_RIGHT_BUTTON_DOWN: u16 = 0x0004;

/// In [`RawMouse::button_flags`]: the right button went up.
pub const RI_MOUSE_RIGHT_BUTTON_UP: u16 = 0x0008;

/// In [`RawMouse::button_flags`]: the middle button went down.
pub const RI_MOUSE_MIDDLE_BUTTON_DOWN: u16 = 0x0010;

/// In [`RawMouse::button_flags`]: the middle button went up.
pub const RI_MOUSE_MIDDLE_BUTTON_UP: u16 = 0x0020;

/// In [`RawMouse::button_flags`]: the fourth button went down.
pub const RI_MOUSE_BUTTON_4_DOWN: u16 = 0x0040;

/// In [`RawMouse::button_flags`]: the fourth button went up.
pub const RI_MOUSE_BUTTON_4_UP: u16 = 0x0080;

/// In [`RawMouse::button_flags`]: the fifth button went down.
pub const RI_MOUSE_BUTTON_5_DOWN: u16 = 0x0100;

/// In [`RawMouse::button_flags`]: the fifth button went up.
pub const RI_MOUSE_BUTTON_5_UP: u16 = 0x0200;

/// In [`RawMouse::button_flags`]: the wheel was rotated, by [`RawMouse::button_data`].
pub const RI_MOUSE_WHEEL: u16 = 0x0400;

/// In [`RawMouse::button_flags`]: the horizontal wheel was rotated, by
/// [`RawMouse::button_data`].
pub const RI_MOUSE_HWHEEL: u16 = 0x0800;

/// The ordinal of the fourth mouse button.
pub const BUTTON_4: u8 = 4;

/// The ordinal of the fifth mouse button.
pub const BUTTON_5: u8 = 5;

/// One raw sample of a mouse, as the raw input interface of the system delivers it.
#[derive(Debug, Clone, Copy, PartialEq, Eq)]
pub struct RawMouse {
    /// The state of the mouse: [`MOUSE_MOVE_ABSOLUTE`] or its absence.
    pub flags: u16,
    /// The transitions of the buttons and wheels: the `RI_MOUSE_` flags.
    pub button_flags: u16,
    /// The rotation of the wheel, a signed number in the bits of an unsigned one.
    pub button_data: u16,
    /// The motion in the X direction.
    pub last_x: i32,
    /// The motion in the Y direction.
    pub last_y: i32,
}

/// The event of the motion of a sample: one for a relative motion that is not zero.
pub open spec fn motion_events(device: Device, mouse: RawMouse) -> Seq<Event> {
    if mouse.flags & MOUSE_MOVE_ABSOLUTE == MOUSE_MOVE_RELATIVE && (mouse.last_x != 0
        || mouse.last_y != 0) {
        seq![Event::MouseMoved { device, dx: mouse.last_x, dy: mouse.last_y }]
    } else {
        Seq::empty()
    }
}

/// The events of one button: one if it went down, then one if it went up.
pub open spec fn button_events(
    device: Device,
    button_flags: u16,
    down: u16,
    up: u16,
    button: u8,
) -> Seq<Event> {
    (if button_flags & down != 0 {
        seq![Event::MouseButton { device, button: MouseButton(button), pressed: true }]
    } else {
        Seq::empty()
    }) + (if button_flags & up != 0 {
        seq![Event::MouseButton { device, button: MouseButton(button), pressed: false }]
    } else {
        Seq::empty()
    })
}

/// The events of all the buttons, in the order of their ordinals: left, middle, right,
/// fourth, fifth.
pub open spec fn all_button_events(device: Device, button_flags: u16) -> Seq<Event> {
    button_events(
        device,
        button_flags,
        RI_MOUSE_LEFT_BUTTON_DOWN,
        RI_MOUSE_LEFT_BUTTON_UP,
        MouseButton::LEFT,
    ) + button_events(
        device,
        button_flags,
        RI_MOUSE_MIDDLE_BUTTON_DOWN,
        RI_MOUSE_MIDDLE_BUTTON_UP,
        MouseButton::MIDDLE,
    ) + button_events(
        device,
        button_flags,
        RI_MOUSE_RIGHT_BUTTON_DOWN,
        RI_MOUSE_RIGHT_BUTTON_UP,
        MouseButton::RIGHT,
    ) + button_events(device, button_flags, RI_MOUSE_BUTTON_4_DOWN, RI_MOUSE_BUTTON_4_UP, BUTTON_4)
        + button_events(
        device,
        button_flags,
        RI_MOUSE_BUTTON_5_DOWN,
        RI_MOUSE_BUTTON_5_UP,
        BUTTON_5,
    )
}

/// The events of the wheels: one for the vertical wheel, then one for the horizontal one,
/// each with the other axis at zero. The rotation is the button data of the sample, read as a
/// signed number of wheel units.
pub open spec fn wheel_events(device: Device, mouse: RawMouse) -> Seq<Event> {
    (if mouse.button_flags & RI_MOUSE_WHEEL != 0 {
        seq![Event::MouseWheel { device, dx: 0, dy: spec_to_signed(mouse.button_data) as i16 }]
    } else {
        Seq::empty()
    }) + (if mouse.button_flags & RI_MOUSE_HWHEEL != 0 {
        seq![Event::MouseWheel { device, dx: spec_to_signed(mouse.button_data) as i16, dy: 0 }]
    } else {
        Seq::empty()
    })
}

/// The events that a raw mouse sample makes: its motion, then its buttons, then its wheels.
pub open spec fn mouse_events(device: Device, mouse: RawMouse) -> Seq<Event> {
    motion_events(device, mouse) + all_button_events(device, mouse.button_flags) + wheel_events(
        device,
        mouse,
    )
}

/// Sends the events of one button of a raw mouse sample.
fn send_button_events<H>(
    device: Device,
    button_flags: u16,
    down: u16,
    up: u16,
    button: u8,
    state: &State<H>,
    out: &mut Vec<Event>,
)
    ensures
        final(out)@ == old(out)@ + state.delivered(
            button_events(device, button_flags, down, up, button),
        ),
{
    if (button_flags & down) != 0 {
        state.send_event(
            Event::MouseButton { device, button: MouseButton(button), pressed: true },
            out,
        );
    }
    if (button_flags & up) != 0 {
        state.send_event(
            Event::MouseButton { device, button: MouseButton(button), pressed: false },
            out,
        );
    }
    assert(out@ =~= old(out)@ + state.delivered(
        button_events(device, button_flags, down, up, button),
    ));
}

/// Sends the events of all the buttons of a raw mouse sample.
fn send_all_button_events<H>(
    device: Device,
    button_flags: u16,
    state: &State<H>,
    out: &mut Vec<Event>,
)
    ensures
        final(out)@ == old(out)@ + state.delivered(all_button_events(device, button_flags)),
{
    let ghost left = button_events(
        device,
        button_flags,
        RI_MOUSE_LEFT_BUTTON_DOWN,
        RI_MOUSE_LEFT_BUTTON_UP,
        MouseButton::LEFT,
    );
    let ghost middle = button_events(
        device,
        button_flags,
        RI_MOUSE_MIDDLE_BUTTON_DOWN,
        RI_MOUSE_MIDDLE_BUTTON_UP,
        MouseButton::MIDDLE,
    );
    let ghost right = button_events(
        device,
        button_flags,
        RI_MOUSE_RIGHT_BUTTON_DOWN,
        RI_MOUSE_RIGHT_BUTTON_UP,
        MouseButton::RIGHT,
    );
    let ghost fourth = button_events(
        device,
        button_flags,
        RI_MOUSE_BUTTON_4_DOWN,
        RI_MOUSE_BUTTON_4_UP,
        BUTTON_4,
    );
    let ghost fifth = button_events(
        device,
        button_flags,
        RI_MOUSE_BUTTON_5_DOWN,
        RI_MOUSE_BUTTON_5_UP,
        BUTTON_5,
    );
    send_button_events(
        device,
        button_flags,
        RI_MOUSE_LEFT_BUTTON_DOWN,
        RI_MOUSE_LEFT_BUTTON_UP,
        MouseButton::LEFT,
        state,
        out,
    );
    send_button_events(
        device,
        button_flags,
        RI_MOUSE_MIDDLE_BUTTON_DOWN,
        RI_MOUSE_MIDDLE_BUTTON_UP,
        MouseButton::MIDDLE,
        state,
        out,
    );
    proof {
        state.lemma_delivered_concat(old(out)@, left, middle);
    }
    send_button_events(
        device,
        button_flags,
        RI_MOUSE_RIGHT_BUTTON_DOWN,
        RI_MOUSE_RIGHT_BUTTON_UP,
        MouseButton::RIGHT,
        state,
        out,
    );
    proof {
        state.lemma_delivered_concat(old(out)@, left + middle, right);
    }
    send_button_events(
        device,
        button_flags,
        RI_MOUSE_BUTTON_4_DOWN,
        RI_MOUSE_BUTTON_4_UP,
        BUTTON_4,
        state,
        out,
    );
    proof {
        state.lemma_delivered_concat(old(out)@, left + middle + right, fourth);
    }
    send_button_events(
        device,
        button_flags,
        RI_MOUSE_BUTTON_5_DOWN,
        RI_MOUSE_BUTTON_5_UP,
        BUTTON_5,
        state,
        out,
    );
    proof {
        state.lemma_delivered_concat(old(out)@, left + middle + right + fourth, fifth);
    }
}

/// Sends the events of the wheels of a raw mouse sample.
fn send_wheel_events<H>(device: Device, mouse: &RawMouse, state: &State<H>, out: &mut Vec<Event>)
    ensures
        final(out)@ == old(out)@ + state.delivered(wheel_events(device, *mouse)),
{
    if (mouse.button_flags & RI_MOUSE_WHEEL) != 0 {
        let delta = to_signed(mouse.button_data);
        state.send_event(Event::MouseWheel { device, dx: 0, dy: delta }, out);
    }
    if (mouse.button_flags & RI_MOUSE_HWHEEL) != 0 {
        let delta = to_signed(mouse.button_data);
        state.send_event(Event::MouseWheel { device, dx: delta, dy: 0 }, out);
    }
    assert(out@ =~= old(out)@ + state.delivered(wheel_events(device, *mouse)));
}

/// Handles a raw mouse sample: sends the events that it makes, in their order.
pub fn handle_mouse_event<H>(
    device: Device,
    mouse: &RawMouse,
    state: &State<H>,
    out: &mut Vec<Event>,
)
    ensures
        final(out)@ == old(out)@ + state.delivered(mouse_events(device, *mouse)),
{
    if (mouse.flags & MOUSE_MOVE_ABSOLUTE) == MOUSE_MOVE_RELATIVE && (mouse.last_x != 0
        || mouse.last_y != 0) {
        state.send_event(Event::MouseMoved { device, dx: mouse.last_x, dy: mouse.last_y }, out);
    } else {
        proof {
            state.lemma_delivered_concat(out@, Seq::empty(), Seq::empty());
        }
    }
    send_all_button_events(device, mouse.button_flags, state, out);
    proof {
        state.lemma_delivered_concat(
            old(out)@,
            motion_events(device, *mouse),
            all_button_events(device, mouse.button_flags),
        );
    }
    send_wheel_events(device, mouse, state, out);
    proof {
        state.lemma_delivered_concat(
            old(out)@,
            motion_events(device, *mouse) + all_button_events(device, mouse.button_flags),
            wheel_events(device, *mouse),
        );
    }
}

/// A sample in which the left button goes down and the right button goes up, and no other
/// button moves, makes exactly two button events: the left one pressed, then the right one
/// released.
pub proof fn lemma_left_down_right_up(device: Device, button_flags: u16)
    requires
        button_flags & RI_MOUSE_LEFT_BUTTON_DOWN != 0,
        button_flags & RI_MOUSE_RIGHT_BUTTON_UP != 0,
        button_flags & RI_MOUSE_LEFT_BUTTON_UP == 0,
        button_flags & RI_MOUSE_RIGHT_BUTTON_DOWN == 0,
        button_flags & RI_MOUSE_MIDDLE_BUTTON_DOWN == 0,
        button_flags & RI_MOUSE_MIDDLE_BUTTON_UP == 0,
        button_flags & RI_MOUSE_BUTTON_4_DOWN == 0,
        button_flags & RI_MOUSE_BUTTON_4_UP == 0,
        button_flags & RI_MOUSE_BUTTON_5_DOWN == 0,
        button_flags & RI_MOUSE_BUTTON_5_UP == 0,
    ensures
        all_button_events(device, button_flags) == seq![
            Event::MouseButton { device, button: MouseButton(MouseButton::LEFT), pressed: true },
            Event::MouseButton { device, button: MouseButton(MouseButton::RIGHT), pressed: false },
        ],
{
    assert(all_button_events(device, button_flags) =~= seq![
        Event::MouseButton { device, button: MouseButton(MouseButton::LEFT), pressed: true },
        Event::MouseButton { device, button: MouseButton(MouseButton::RIGHT), pressed: false },
    ]);
}

} // verus!
