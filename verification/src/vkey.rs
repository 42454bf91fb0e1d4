//! The virtual-key codes that the keyboard decoder knows.

use vstd::prelude::*;

verus! {

/// The virtual key of the **BACKSPACE** key.
pub const VK_BACK: u16 = 0x08;

/// The virtual key of the **TAB** key.
pub const VK_TAB: u16 = 0x09;

/// The virtual key of the **ENTER** key.
pub const VK_RETURN: u16 = 0x0D;

/// The virtual key of the **SHIFT, either side** key.
pub const VK_SHIFT: u16 = 0x10;

/// The virtual key of the **CONTROL, either side** key.
pub const VK_CONTROL: u16 = 0x11;

/// The virtual key of the **ALT, either side** key.
pub const VK_MENU: u16 = 0x12;

/// The virtual key of the **PAUSE** key.
pub const VK_PAUSE: u16 = 0x13;

/// The virtual key of the **CAPS LOCK** key.
pub const VK_CAPITAL: u16 = 0x14;

/// The virtual key of the **ESCAPE** key.
pub const VK_ESCAPE: u16 = 0x1B;

/// The virtual key of the **SPACE** key.
pub const VK_SPACE: u16 = 0x20;

/// The virtual key of the **PAGE UP** key.
pub const VK_PRIOR: u16 = 0x21;

/// The virtual key of the **PAGE DOWN** key.
pub const VK_NEXT: u16 = 0x22;

/// The virtual key of the **END** key.
pub const VK_END: u16 = 0x23;

/// The virtual key of the **HOME** key.
pub const VK_HOME: u16 = 0x24;

/// The virtual key of the **LEFT arrow** key.
pub const VK_LEFT: u16 = 0x25;

/// The virtual key of the **UP arrow** key.
pub const VK_UP: u16 = 0x26;

/// The virtual key of the **RIGHT arrow** key.
pub const VK_RIGHT: u16 = 0x27;

/// The virtual key of the **DOWN arrow** key.
pub const VK_DOWN: u16 = 0x28;

/// The virtual key of the **PRINT SCREEN** key.
pub const VK_SNAPSHOT: u16 = 0x2C;

/// The virtual key of the **INSERT** key.
pub const VK_INSERT: u16 = 0x2D;

/// The virtual key of the **DELETE** key.
pub const VK_DELETE: u16 = 0x2E;

/// The virtual key of the **0, over the letters** key.
pub const VK_0: u16 = 0x30;

/// The virtual key of the **1, over the letters** key.
pub const VK_1: u16 = 0x31;

/// The virtual key of the **2, over the letters** key.
pub const VK_2: u16 = 0x32;

/// The virtual key of the **3, over the letters** key.
pub const VK_3: u16 = 0x33;

/// The virtual key of the **4, over the letters** key.
pub const VK_4: u16 = 0x34;

/// The virtual key of the **5, over the letters** key.
pub const VK_5: u16 = 0x35;

/// The virtual key of the **6, over the letters** key.
pub const VK_6: u16 = 0x36;

/// The virtual key of the **7, over the letters** key.
pub const VK_7: u16 = 0x37;

/// The virtual key of the **8, over the letters** key.
pub const VK_8: u16 = 0x38;

/// The virtual key of the **9, over the letters** key.
pub const VK_9: u16 = 0x39;

/// The virtual key of the **A** key.
pub const VK_A: u16 = 0x41;

/// The virtual key of the **B** key.
pub const VK_B: u16 = 0x42;

/// The virtual key of the **C** key.
pub const VK_C: u16 = 0x43;

/// The virtual key of the **D** key.
pub const VK_D: u16 = 0x44;

/// The virtual key of the **E** key.
pub const VK_E: u16 = 0x45;

/// The virtual key of the **F** key.
pub const VK_F: u16 = 0x46;

/// The virtual key of the **G** key.
pub const VK_G: u16 = 0x47;

/// The virtual key of the **H** key.
pub const VK_H: u16 = 0x48;

/// The virtual key of the **I** key.
pub const VK_I: u16 = 0x49;

/// The virtual key of the **J** key.
pub const VK_J: u16 = 0x4A;

/// The virtual key of the **K** key.
pub const VK_K: u16 = 0x4B;

/// The virtual key of the **L** key.
pub const VK_L: u16 = 0x4C;

/// The virtual key of the **M** key.
pub const VK_M: u16 = 0x4D;

/// The virtual key of the **N** key.
pub const VK_N: u16 = 0x4E;

/// The virtual key of the **O** key.
pub const VK_O: u16 = 0x4F;

/// The virtual key of the **P** key.
pub const VK_P: u16 = 0x50;

/// The virtual key of the **Q** key.
pub const VK_Q: u16 = 0x51;

/// The virtual key of the **R** key.
pub const VK_R: u16 = 0x52;

/// The virtual key of the **S** key.
pub const VK_S: u16 = 0x53;

/// The virtual key of the **T** key.
pub const VK_T: u16 = 0x54;

/// The virtual key of the **U** key.
pub const VK_U: u16 = 0x55;

/// The virtual key of the **V** key.
pub const VK_V: u16 = 0x56;

/// The virtual key of the **W** key.
pub const VK_W: u16 = 0x57;

/// The virtual key of the **X** key.
pub const VK_X: u16 = 0x58;

/// The virtual key of the **Y** key.
pub const VK_Y: u16 = 0x59;

/// The virtual key of the **Z** key.
pub const VK_Z: u16 = 0x5A;

/// The virtual key of the **left META** key.
pub const VK_LWIN: u16 = 0x5B;

/// The virtual key of the **right META** key.
pub const VK_RWIN: u16 = 0x5C;

/// The virtual key of the **MENU** key.
pub const VK_APPS: u16 = 0x5D;

/// The virtual key of the **numpad 0** key.
pub const VK_NUMPAD0: u16 = 0x60;

/// The virtual key of the **numpad 1** key.
pub const VK_NUMPAD1: u16 = 0x61;

/// The virtual key of the **numpad 2** key.
pub const VK_NUMPAD2: u16 = 0x62;

/// The virtual key of the **numpad 3** key.
pub const VK_NUMPAD3: u16 = 0x63;

/// The virtual key of the **numpad 4** key.
pub const VK_NUMPAD4: u16 = 0x64;

/// The virtual key of the **numpad 5** key.
pub const VK_NUMPAD5: u16 = 0x65;

/// The virtual key of the **numpad 6** key.
pub const VK_NUMPAD6: u16 = 0x66;

/// The virtual key of the **numpad 7** key.
pub const VK_NUMPAD7: u16 = 0x67;

/// The virtual key of the **numpad 8** key.
pub const VK_NUMPAD8: u16 = 0x68;

/// The virtual key of the **numpad 9** key.
pub const VK_NUMPAD9: u16 = 0x69;

/// The virtual key of the **numpad *** key.
pub const VK_MULTIPLY: u16 = 0x6A;

/// The virtual key of the **numpad +** key.
pub const VK_ADD: u16 = 0x6B;

/// The virtual key of the **numpad -** key.
pub const VK_SUBTRACT: u16 = 0x6D;

/// The virtual key of the **numpad .** key.
pub const VK_DECIMAL: u16 = 0x6E;

/// The virtual key of the **numpad /** key.
pub const VK_DIVIDE: u16 = 0x6F;

/// The virtual key of the **F1** key.
pub const VK_F1: u16 = 0x70;

/// The virtual key of the **F2** key.
pub const VK_F2: u16 = 0x71;

/// The virtual key of the **F3** key.
pub const VK_F3: u16 = 0x72;

/// The virtual key of the **F4** key.
pub const VK_F4: u16 = 0x73;

/// The virtual key of the **F5** key.
pub const VK_F5: u16 = 0x74;

/// The virtual key of the **F6** key.
pub const VK_F6: u16 = 0x75;

/// The virtual key of the **F7** key.
pub const VK_F7: u16 = 0x76;

/// The virtual key of the **F8** key.
pub const VK_F8: u16 = 0x77;

/// The virtual key of the **F9** key.
pub const VK_F9: u16 = 0x78;

/// The virtual key of the **F10** key.
pub const VK_F10: u16 = 0x79;

/// The virtual key of the **F11** key.
pub const VK_F11: u16 = 0x7A;

/// The virtual key of the **F12** key.
pub const VK_F12: u16 = 0x7B;

/// The virtual key of the **F13** key.
pub const VK_F13: u16 = 0x7C;

/// The virtual key of the **F14** key.
pub const VK_F14: u16 = 0x7D;

/// The virtual key of the **F15** key.
pub const VK_F15: u16 = 0x7E;

/// The virtual key of the **F16** key.
pub const VK_F16: u16 = 0x7F;

/// The virtual key of the **F17** key.
pub const VK_F17: u16 = 0x80;

/// The virtual key of the **F18** key.
pub const VK_F18: u16 = 0x81;

/// The virtual key of the **F19** key.
pub const VK_F19: u16 = 0x82;

/// The virtual key of the **F20** key.
pub const VK_F20: u16 = 0x83;

/// The virtual key of the **F21** key.
pub const VK_F21: u16 = 0x84;

/// The virtual key of the **F22** key.
pub const VK_F22: u16 = 0x85;

/// The virtual key of the **F23** key.
pub const VK_F23: u16 = 0x86;

/// The virtual key of the **F24** key.
pub const VK_F24: u16 = 0x87;

/// The virtual key of the **NUM LOCK** key.
pub const VK_NUMLOCK: u16 = 0x90;

/// The virtual key of the **SCROLL LOCK** key.
pub const VK_SCROLL: u16 = 0x91;

/// The virtual key of the **left SHIFT** key.
pub const VK_LSHIFT: u16 = 0xA0;

/// The virtual key of the **right SHIFT** key.
pub const VK_RSHIFT: u16 = 0xA1;

/// The virtual key of the **left CONTROL** key.
pub const VK_LCONTROL: u16 = 0xA2;

/// The virtual key of the **right CONTROL** key.
pub const VK_RCONTROL: u16 = 0xA3;

/// The virtual key of the **left ALT** key.
pub const VK_LMENU: u16 = 0xA4;

/// The virtual key of the **right ALT** key.
pub const VK_RMENU: u16 = 0xA5;

/// The virtual key of the **volume MUTE** key.
pub const VK_VOLUME_MUTE: u16 = 0xAD;

/// The virtual key of the **volume DOWN** key.
pub const VK_VOLUME_DOWN: u16 = 0xAE;

/// The virtual key of the **volume UP** key.
pub const VK_VOLUME_UP: u16 = 0xAF;

/// The virtual key of the **NEXT media** key.
pub const VK_MEDIA_NEXT_TRACK: u16 = 0xB0;

/// The virtual key of the **PREVIOUS media** key.
pub const VK_MEDIA_PREV_TRACK: u16 = 0xB1;

/// The virtual key of the **STOP media** key.
pub const VK_MEDIA_STOP: u16 = 0xB2;

/// The virtual key of the **PLAY/PAUSE media** key.
pub const VK_MEDIA_PLAY_PAUSE: u16 = 0xB3;

/// The virtual key that stands for no key at all. The keyboard driver sends it along with
/// the parts of a key sequence that are not a key by themselves.
pub const VK_NONE: u16 = 0xFF;

} // verus!
