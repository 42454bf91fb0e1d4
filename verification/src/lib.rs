//! The translation core of a native window: it turns the window messages and raw input
//! samples of the operating system into a small, portable event model.
//!
//! Nothing in this crate talks to the operating system. The caller retrieves the messages
//! and performs the commands; this crate decides what they mean.

pub mod config;
pub mod error;
pub mod event;
pub mod hwnd;
pub mod keyboard;
pub mod mouse;
pub mod state;
pub mod utf16;
pub mod vkey;
pub mod window;
pub mod wndproc;
pub mod word;

pub use self::config::Config;
pub use self::error::Error;
pub use self::event::{Device, Event, Key, KeyCode, MouseButton, WHEEL_DELTA};
pub use self::window::{PumpAction, Window};
