//! The configuration of a window.

use vstd::prelude::*;

verus! {

/// The configuration of a window.
#[derive(Debug, Clone, Copy)]
pub struct Config<'a> {
    /// The title of the window.
    ///
    /// **Default:** `"My Awesome Window"`
    pub title: &'a str,
    /// The initial position of the window.
    ///
    /// If `None`, a platform-specific default position will be used instead.
    ///
    /// **Default:** `None`
    pub position: Option<(i32, i32)>,
    /// The initial size of the window.
    ///
    /// If `None`, a platform-specific default size will be used instead.
    ///
    /// **Default:** `None`
    pub size: Option<(u32, u32)>,
    /// The window should be initially visible.
    ///
    /// **Default:** `true`
    pub visible: bool,
    /// Whether the window should be resizable. A window without decorations cannot be
    /// resized, whatever this says.
    ///
    /// **Default:** `true`
    pub resizable: bool,
    /// Whether the window should always appear on top of other windows.
    ///
    /// **Default:** `false`
    pub always_on_top: bool,
    /// Whether the window should include the system's default decorations.
    ///
    /// **Default:** `true`
    pub decorations: bool,
}

impl<'a> Default for Config<'a> {
    fn default() -> (config: Self)
        ensures
            config.title@ == "My Awesome Window"@,
            config.position is None,
            config.size is None,
            config.visible,
            config.resizable,
            !config.always_on_top,
            config.decorations,
    {
        Config {
            title: "My Awesome Window",
            position: None,
            size: None,
            visible: true,
            resizable: true,
            always_on_top: false,
            decorations: true,
        }
    }
}

} // verus!
