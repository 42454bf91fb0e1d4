use vstd::prelude::*;

verus! {

/// An event received from the windowing system.
#[allow(inconsistent_fields)]
#[derive(Debug, Clone, Copy, PartialEq, Eq)]
pub enum Event {
    /// The user requested the window to close itself.
    ///
    /// This event is usually triggered by the user clicking on the close button of the window.
    /// The window is not closed automatically: the application decides what to do.
    CloseRequested,
    /// The window has been resized.
    ///
    /// If the window is now minimized, the new width and height of the window are 0.
    Resized {
        /// The new width of the window, in pixels.
        width: u32,
        /// The new height of the window, in pixels.
        height: u32,
    },
    /// The window has been moved.
    ///
    /// While the window is minimized the reported position is unspecified.
    Moved {
        /// The new X position of the window, in pixels.
        x: i32,
        /// The new Y position of the window, in pixels.
        y: i32,
    },
    /// The cursor has been moved over the window.
    CursorMoved {
        /// The new X position of the cursor, in pixels.
        x: i32,
        /// The new Y position of the cursor, in pixels.
        y: i32,
    },
    /// A character has been entered.
    Text(char),
    /// A mouse has been moved.
    ///
    /// The deltas are in device units. They are not subject to the cursor acceleration and
    /// sensitivity settings of the system, and cannot be used to track the cursor.
    MouseMoved {
        /// The device that generated the event.
        device: Device,
        /// The horizontal delta of the mouse movement.
        dx: i32,
        /// The vertical delta of the mouse movement.
        dy: i32,
    },
    /// A mouse wheel has been rotated.
    ///
    /// The deltas are counted in wheel units: [`WHEEL_DELTA`] of them make one notch.
    MouseWheel {
        /// The device that generated the event.
        device: Device,
        /// The horizontal delta of the mouse wheel.
        dx: i16,
        /// The vertical delta of the mouse wheel.
        dy: i16,
    },
    /// A mouse button has been pressed or released.
    MouseButton {
        /// The device that generated the event.
        device: Device,
        /// The button that has been pressed or released.
        button: MouseButton,
        /// Whether the button is now pressed.
        pressed: bool,
    },
    /// A keyboard key has been pressed or released.
    KeyboardKey {
        /// The device that generated the event.
        device: Device,
        /// The logical key that has been pressed or released, when there is one.
        key: Option<Key>,
        /// The code that identifies the physical key.
        code: KeyCode,
        /// Whether the key is now pressed.
        pressed: bool,
    },
}

/// The number of wheel units that make one notch of a mouse wheel.
pub const WHEEL_DELTA: i16 = 120;

/// An external human interface device.
///
/// The value is the handle under which the platform knows the device. It owns nothing and
/// only serves to tell devices apart.
#[derive(Debug, Clone, Copy, PartialEq, Eq, Hash)]
pub struct Device(pub isize);

/// A button that can either be pressed or released.
///
/// The value is the ordinal of the button. The ordinals [`MouseButton::LEFT`],
/// [`MouseButton::MIDDLE`] and [`MouseButton::RIGHT`] have a name; any other one stands for an
/// extra button of the device.
#[derive(Debug, Clone, Copy, PartialEq, Eq, Hash)]
pub struct MouseButton(pub u8);

impl MouseButton {
    /// The ordinal of the left mouse button.
    pub const LEFT: u8 = 0;

    /// The ordinal of the middle mouse button.
    pub const MIDDLE: u8 = 1;

    /// The ordinal of the right mouse button.
    pub const RIGHT: u8 = 2;

    /// The name of the button, for the three buttons that have one.
    pub open spec fn spec_name(self) -> Option<Seq<char>> {
        if self.0 == Self::LEFT {
            Some("LEFT"@)
        } else if self.0 == Self::MIDDLE {
            Some("MIDDLE"@)
        } else if self.0 == Self::RIGHT {
            Some("RIGHT"@)
        } else {
            None
        }
    }

    /// Returns the name under which the button is shown, or `None` for a button that is
    /// only known by its number.
    pub fn name(&self) -> (name: Option<&'static str>)
        ensures
            name.is_some() == self.spec_name().is_some(),
            name.is_some() ==> name.unwrap()@ == self.spec_name().unwrap(),
    {
        if self.0 == Self::LEFT {
            Some("LEFT")
        } else if self.0 == Self::MIDDLE {
            Some("MIDDLE")
        } else if self.0 == Self::RIGHT {
            Some("RIGHT")
        } else {
            None
        }
    }
}

/// A keyboard key.
///
/// This enumeration is a layout-independent representation of a keyboard key. It represents
/// the logical meaning of a key rather than its physical location on the keyboard.
#[derive(Debug, Clone, Copy, PartialEq, Eq, Hash)]
pub enum Key {
    /// The **BACKSPACE** key.
    Backspace,
    /// The **TAB** key.
    Tab,
    /// The **ENTER** key.
    Enter,
    /// The **ESCAPE** key.
    Escape,
    /// The **SPACE** key.
    Space,
    /// The **PAGE UP** key.
    PageUp,
    /// The **PAGE DOWN** key.
    PageDown,
    /// The **END** key.
    End,
    /// The **HOME** key.
    Home,
    /// The **LEFT** arrow key.
    Left,
    /// The **UP** arrow key.
    Up,
    /// The **RIGHT** arrow key.
    Right,
    /// The **DOWN** arrow key.
    Down,
    /// The **INSERT** key.
    Insert,
    /// The **DELETE** key.
    Delete,
    /// The **0** key, over the letters.
    Zero,
    /// The **1** key, over the letters.
    One,
    /// The **2** key, over the letters.
    Two,
    /// The **3** key, over the letters.
    Three,
    /// The **4** key, over the letters.
    Four,
    /// The **5** key, over the letters.
    Five,
    /// The **6** key, over the letters.
    Six,
    /// The **7** key, over the letters.
    Seven,
    /// The **8** key, over the letters.
    Eight,
    /// The **9** key, over the letters.
    Nine,
    /// The **A** key.
    A,
    /// The **B** key.
    B,
    /// The **C** key.
    C,
    /// The **D** key.
    D,
    /// The **E** key.
    E,
    /// The **F** key.
    F,
    /// The **G** key.
    G,
    /// The **H** key.
    H,
    /// The **I** key.
    I,
    /// The **J** key.
    J,
    /// The **K** key.
    K,
    /// The **L** key.
    L,
    /// The **M** key.
    M,
    /// The **N** key.
    N,
    /// The **O** key.
    O,
    /// The **P** key.
    P,
    /// The **Q** key.
    Q,
    /// The **R** key.
    R,
    /// The **S** key.
    S,
    /// The **T** key.
    T,
    /// The **U** key.
    U,
    /// The **V** key.
    V,
    /// The **W** key.
    W,
    /// The **X** key.
    X,
    /// The **Y** key.
    Y,
    /// The **Z** key.
    Z,
    /// The **F1** key.
    F1,
    /// The **F2** key.
    F2,
    /// The **F3** key.
    F3,
    /// The **F4** key.
    F4,
    /// The **F5** key.
    F5,
    /// The **F6** key.
    F6,
    /// The **F7** key.
    F7,
    /// The **F8** key.
    F8,
    /// The **F9** key.
    F9,
    /// The **F10** key.
    F10,
    /// The **F11** key.
    F11,
    /// The **F12** key.
    F12,
    /// The **F13** key.
    F13,
    /// The **F14** key.
    F14,
    /// The **F15** key.
    F15,
    /// The **F16** key.
    F16,
    /// The **F17** key.
    F17,
    /// The **F18** key.
    F18,
    /// The **F19** key.
    F19,
    /// The **F20** key.
    F20,
    /// The **F21** key.
    F21,
    /// The **F22** key.
    F22,
    /// The **F23** key.
    F23,
    /// The **F24** key.
    F24,
    /// The **NUM LOCK** key.
    NumLock,
    /// The **SCROLL LOCK** key.
    ScrollLock,
    /// The left **SHIFT** key.
    LeftShift,
    /// The right **SHIFT** key.
    RightShift,
    /// The left **CONTROL** key.
    LeftControl,
    /// The right **CONTROL** key.
    RightControl,
    /// The left **ALT** key.
    LeftAlt,
    /// The right **ALT** key.
    RightAlt,
    /// The left **META** key.
    LeftMeta,
    /// The right **META** key.
    RightMeta,
    /// The **MENU** key.
    Menu,
    /// The **PRINT SCREEN** key.
    PrintScreen,
    /// The **PAUSE** key.
    Pause,
    /// The **CAPS LOCK** key.
    CapsLock,
    /// The **UP** volume key.
    VolumeUp,
    /// The **DOWN** volume key.
    VolumeDown,
    /// The **MUTE** volume key.
    VolumeMute,
    /// The **PLAY/PAUSE** media key.
    MediaPlayPause,
    /// The **STOP** media key.
    MediaStop,
    /// The **PREVIOUS** media key.
    MediaPrevious,
    /// The **NEXT** media key.
    MediaNext,
    /// The **0** numpad key.
    Numpad0,
    /// The **1** numpad key.
    Numpad1,
    /// The **2** numpad key.
    Numpad2,
    /// The **3** numpad key.
    Numpad3,
    /// The **4** numpad key.
    Numpad4,
    /// The **5** numpad key.
    Numpad5,
    /// The **6** numpad key.
    Numpad6,
    /// The **7** numpad key.
    Numpad7,
    /// The **8** numpad key.
    Numpad8,
    /// The **9** numpad key.
    Numpad9,
    /// The **.** numpad key.
    NumpadDecimal,
    /// The **+** numpad key.
    NumpadAdd,
    /// The **-** numpad key.
    NumpadSubtract,
    /// The **\*** numpad key.
    NumpadMultiply,
    /// The **/** numpad key.
    NumpadDivide,
    /// The **ENTER** numpad key.
    NumpadEnter,
}

/// A unique code that identifies a keyboard key.
///
/// The code is stable across keyboard layouts: it names the physical key, whatever the
/// layout makes of it.
#[derive(Debug, Clone, Copy, PartialEq, Eq, Hash)]
pub struct KeyCode {
    /// The make-code (scan code) of the key.
    pub code: u16,
    /// The prefixes that the key was sent with: [`KeyCode::E0`], [`KeyCode::E1`].
    pub extended_flags: u8,
}

impl KeyCode {
    /// The bit of `extended_flags` that is set when the key has an E0 prefix.
    pub const E0: u8 = 0x01;

    /// The bit of `extended_flags` that is set when the key has an E1 prefix.
    pub const E1: u8 = 0x02;

    /// Creates a new [`KeyCode`] with the given code and no prefix.
    pub fn from_code(code: u8) -> (key_code: KeyCode)
        ensures
            key_code.code == code,
            key_code.extended_flags == 0,
    {
        KeyCode { code: code as u16, extended_flags: 0 }
    }
}

} // verus!
