//! What a native window is made with: its styles, its placement, its title, and the answers
//! of the system to the calls that set it up.

use vstd::prelude::*;
use crate::error::Error;

verus! {

/// A set of window styles.
///
/// # Representation
///
/// The lower 32 bits are the window style of the system, the higher 32 bits its extended
/// window style.
#[derive(Debug, Clone, Copy, PartialEq, Eq, Hash)]
pub struct WindowStyles(pub u64);

impl WindowStyles {
    /// The window should be visible.
    pub const VISIBLE: u64 = 0x0000_0000_1000_0000;

    /// The window should always appear on top of other windows. An extended style.
    pub const TOPMOST: u64 = 0x0000_0008_0000_0000;

    /// The window should have a title bar. A title bar comes with a thin border.
    pub const CAPTION: u64 = 0x0000_0000_00C0_0000;

    /// The window should have the default system menu.
    pub const SYSMENU: u64 = 0x0000_0000_0008_0000;

    /// The window is a bare rectangle with a thin border.
    pub const BORDER: u64 = 0x0000_0000_8000_0000;

    /// The window has a sizing border.
    pub const SIZE_BOX: u64 = 0x0000_0000_0004_0000;

    /// The window has a maximize box.
    pub const MAXIMIZE_BOX: u64 = 0x0000_0000_0001_0000;

    /// The window has a minimize box.
    pub const MINIMIZE_BOX: u64 = 0x0000_0000_0002_0000;

    /// The window accepts dropped files. An extended style.
    pub const ACCEPT_FILES: u64 = 0x0000_0010_0000_0000;

    /// Whether all of `flags` are in the set.
    pub open spec fn spec_contains(self, flags: u64) -> bool {
        self.0 & flags == flags
    }

    /// The set with `flags` added if `condition` holds, else the set itself.
    pub open spec fn with_if(self, condition: bool, flags: u64) -> WindowStyles {
        if condition {
            WindowStyles(self.0 | flags)
        } else {
            self
        }
    }

    /// Returns the set without any style.
    pub fn empty() -> (styles: WindowStyles)
        ensures
            styles.0 == 0,
    {
        WindowStyles(0)
    }

    /// Returns the bits of the set.
    pub fn bits(&self) -> (bits: u64)
        ensures
            bits == self.0,
    {
        self.0
    }

    /// Returns whether all of `flags` are in the set.
    #[verifier::when_used_as_spec(spec_contains)]
    pub fn contains(self, flags: u64) -> (yes: bool)
        ensures
            yes == self.spec_contains(flags),
    {
        self.0 & flags == flags
    }

    /// Adds `flags` to the set.
    pub fn insert(&mut self, flags: u64)
        ensures
            final(self).0 == old(self).0 | flags,
    {
        self.0 = self.0 | flags;
    }

    /// The window style and the extended window style of the system that the set stands
    /// for: its lower and its higher 32 bits.
    pub open spec fn spec_to_raw_styles(self) -> (u32, u32) {
        ((self.0 % 0x1_0000_0000) as u32, (self.0 / 0x1_0000_0000) as u32)
    }

    /// Converts this set into the corresponding styles of the system: the window style,
    /// then the extended window style.
    pub fn to_raw_styles(self) -> (raw: (u32, u32))
        ensures
            raw == self.spec_to_raw_styles(),
    {
        let bits = self.0;
        assert(bits as u32 == bits % 0x1_0000_0000) by (bit_vector);
        assert((bits >> 32) as u32 == bits / 0x1_0000_0000) by (bit_vector);
        let style = #[verifier::truncate] (bits as u32);
        let ex_style = #[verifier::truncate] ((bits >> 32) as u32);

        (style, ex_style)
    }
}

/// The index of the extended window style among the long values of a window.
pub const GWL_EXSTYLE: i32 = -20;

/// The index of the window style among the long values of a window.
pub const GWL_STYLE: i32 = -16;

/// The index of the user data among the long values of a window.
pub const GWLP_USERDATA: i32 = -21;

/// One long value of a window: where it is stored, and what is stored there.
#[derive(Debug, Clone, Copy, PartialEq, Eq)]
pub struct WindowLong {
    /// The index of the value.
    pub index: i32,
    /// The value.
    pub value: i32,
}

/// The signed number with the bits of an unsigned one.
pub open spec fn spec_reinterpret(value: u32) -> int {
    if value < 0x8000_0000 {
        value as int
    } else {
        value - 0x1_0000_0000
    }
}

/// Returns the signed number with the bits of `value`.
pub fn reinterpret(value: u32) -> (signed: i32)
    ensures
        signed == spec_reinterpret(value),
{
    assert(value < 0x8000_0000 ==> (value as i32) == value) by (bit_vector);
    assert(value >= 0x8000_0000 ==> (value as i32) == value - 0x1_0000_0000) by (bit_vector);
    #[verifier::truncate]
    (value as i32)
}

/// Returns the long values that give a window the styles `styles`, in the order in which
/// they have to be written.
///
/// The extended style comes first: if the style makes the window visible, the window is then
/// shown with all of its styles in place.
pub fn window_longs(styles: WindowStyles) -> (longs: [WindowLong; 2])
    ensures
        longs[0] == (WindowLong {
            index: GWL_EXSTYLE,
            value: spec_reinterpret(styles.spec_to_raw_styles().1) as i32,
        }),
        longs[1] == (WindowLong {
            index: GWL_STYLE,
            value: spec_reinterpret(styles.spec_to_raw_styles().0) as i32,
        }),
{
    let (style, ex_style) = styles.to_raw_styles();
    [
        WindowLong { index: GWL_EXSTYLE, value: reinterpret(ex_style) },
        WindowLong { index: GWL_STYLE, value: reinterpret(style) },
    ]
}

/// The different ways to show (or hide) a window.
#[derive(Debug, Clone, Copy, PartialEq, Eq)]
pub enum ShowWindow {
    /// The window should be hidden. Another window will take the focus.
    Hide,
    /// Show the window normally, restoring an eventual previous state.
    ShowNormal,
}

/// The command of the system that hides a window.
pub const SW_HIDE: u32 = 0;

/// The command of the system that shows a window normally.
pub const SW_SHOWNORMAL: u32 = 1;

impl ShowWindow {
    /// Returns the command of the system for this way to show a window.
    pub fn command(self) -> (command: u32)
        ensures
            command == (match self {
                ShowWindow::Hide => SW_HIDE,
                ShowWindow::ShowNormal => SW_SHOWNORMAL,
            }),
    {
        match self {
            ShowWindow::Hide => SW_HIDE,
            ShowWindow::ShowNormal => SW_SHOWNORMAL,
        }
    }
}

/// In the placement of a new window: the system chooses.
pub const CW_USEDEFAULT: i32 = -2147483648;

/// Where a new window is placed, and how large it is.
#[derive(Debug, Clone, Copy, PartialEq, Eq)]
pub struct Placement {
    /// The X position of the window.
    pub x: i32,
    /// The Y position of the window.
    pub y: i32,
    /// The width of the window.
    pub width: i32,
    /// The height of the window.
    pub height: i32,
}

/// The placement of a new window: the position and the size that were asked for, and
/// [`CW_USEDEFAULT`] for what was not asked for. A width or height is handed over bit by bit.
pub open spec fn spec_placement(position: Option<(i32, i32)>, size: Option<(u32, u32)>) -> Placement {
    Placement {
        x: match position {
            Some((x, _)) => x,
            None => CW_USEDEFAULT,
        },
        y: match position {
            Some((_, y)) => y,
            None => CW_USEDEFAULT,
        },
        width: match size {
            Some((width, _)) => spec_reinterpret(width) as i32,
            None => CW_USEDEFAULT,
        },
        height: match size {
            Some((_, height)) => spec_reinterpret(height) as i32,
            None => CW_USEDEFAULT,
        },
    }
}

/// Returns the placement of a new window.
pub fn placement(position: Option<(i32, i32)>, size: Option<(u32, u32)>) -> (placement: Placement)
    ensures
        placement == spec_placement(position, size),
{
    let (x, y) = match position {
        Some((x, y)) => (x, y),
        None => (CW_USEDEFAULT, CW_USEDEFAULT),
    };
    let (width, height) = match size {
        Some((width, height)) => (reinterpret(width), reinterpret(height)),
        None => (CW_USEDEFAULT, CW_USEDEFAULT),
    };

    Placement { x, y, width, height }
}

/// The size of a rectangle: its width and its height, each counted modulo 2^32.
pub open spec fn spec_rect_size(left: i32, top: i32, right: i32, bottom: i32) -> (u32, u32) {
    (((right - left) % 0x1_0000_0000) as u32, ((bottom - top) % 0x1_0000_0000) as u32)
}

/// Returns the size of a rectangle, from its bounds in the order left, top, right, bottom.
///
/// Of a rectangle whose right and bottom bounds are not before its left and top bounds,
/// this is the width and the height.
pub fn rect_size(left: i32, top: i32, right: i32, bottom: i32) -> (size: (u32, u32))
    ensures
        size == spec_rect_size(left, top, right, bottom),
        left <= right ==> size.0 == right - left,
        top <= bottom ==> size.1 == bottom - top,
{
    let width: i64 = right as i64 - left as i64;
    let height: i64 = bottom as i64 - top as i64;
    assert(width as u32 == (width as int) % 0x1_0000_0000) by (bit_vector);
    assert(height as u32 == (height as int) % 0x1_0000_0000) by (bit_vector);
    (#[verifier::truncate] (width as u32), #[verifier::truncate] (height as u32))
}

/// What the system says of a long value that was written: the call returns the value that
/// was there before, and zero when it fails. Zero is thus a failure only if the system also
/// recorded an error.
pub open spec fn spec_window_long_result(previous: isize, last_error: Error) -> Result<(), Error> {
    if previous == 0 && last_error.0 != Error::SUCCESS {
        Err(last_error)
    } else {
        Ok(())
    }
}

/// Tells whether writing a long value of a window failed, from what the call returned and
/// the error that the system recorded last. The caller clears that error before the call.
pub fn window_long_result(previous: isize, last_error: Error) -> (result: Result<(), Error>)
    ensures
        result == spec_window_long_result(previous, last_error),
{
    if previous == 0 && !last_error.is_success() {
        Err(last_error)
    } else {
        Ok(())
    }
}

/// What waiting for a message ended with: an error of the system if the call returned -1,
/// nothing to dispatch if it returned 0, which is the request to quit, and else a message to
/// dispatch.
pub open spec fn spec_retrieved(ret: i32, last_error: Error) -> Result<bool, Error> {
    if ret == -1 {
        Err(last_error)
    } else {
        Ok(ret != 0)
    }
}

/// Tells what waiting for a message ended with, from what the call returned and the error
/// that the system recorded last: an error, or whether there is a message to dispatch.
pub fn retrieved(ret: i32, last_error: Error) -> (result: Result<bool, Error>)
    ensures
        result == spec_retrieved(ret, last_error),
{
    match ret {
        -1 => Err(last_error),
        0 => Ok(false),
        _ => Ok(true),
    }
}

/// The usage page of the generic desktop controls.
pub const HID_USAGE_PAGE_GENERIC: u16 = 0x01;

/// The usage of a mouse, in the page of the generic desktop controls.
pub const HID_USAGE_GENERIC_MOUSE: u16 = 0x02;

/// The usage of a keyboard, in the page of the generic desktop controls.
pub const HID_USAGE_GENERIC_KEYBOARD: u16 = 0x06;

/// A class of devices whose raw input a window asks for.
#[derive(Debug, Clone, Copy, PartialEq, Eq)]
pub struct RawInputDevice {
    /// The usage page of the devices.
    pub usage_page: u16,
    /// The usage of the devices, in that page.
    pub usage: u16,
    /// How the input is to be delivered. Zero is the default of the system.
    pub flags: u32,
}

/// Returns the classes of devices whose raw input a window asks for: the keyboards, then the
/// mice.
pub fn raw_input_devices() -> (devices: [RawInputDevice; 2])
    ensures
        devices[0] == (RawInputDevice {
            usage_page: HID_USAGE_PAGE_GENERIC,
            usage: HID_USAGE_GENERIC_KEYBOARD,
            flags: 0,
        }),
        devices[1] == (RawInputDevice {
            usage_page: HID_USAGE_PAGE_GENERIC,
            usage: HID_USAGE_GENERIC_MOUSE,
            flags: 0,
        }),
{
    [
        RawInputDevice {
            usage_page: HID_USAGE_PAGE_GENERIC,
            usage: HID_USAGE_GENERIC_KEYBOARD,
            flags: 0,
        },
        RawInputDevice {
            usage_page: HID_USAGE_PAGE_GENERIC,
            usage: HID_USAGE_GENERIC_MOUSE,
            flags: 0,
        },
    ]
}

} // verus!
