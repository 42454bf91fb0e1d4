//! The window: how its configuration becomes styles, and how its messages are pumped.

use vstd::prelude::*;
use crate::config::Config;
use crate::error::Error;
use crate::event::Event;
use crate::hwnd::{rect_size, spec_rect_size, ShowWindow, WindowStyles};
use crate::state::State;
use crate::wndproc::{
    message_events, message_pending, spec_default_wndproc, wndproc, RawInput, Reply,
};

verus! {

/// The bits of `bits`, and `flags` too if `condition` holds.
pub open spec fn bits_with_if(bits: u64, condition: bool, flags: u64) -> u64 {
    if condition {
        bits | flags
    } else {
        bits
    }
}

/// The bits of the styles of a window, given what its configuration says.
///
/// Every window accepts dropped files. A window with decorations has a title bar, a system
/// menu and a minimize box, and, if it is resizable, a maximize box and a sizing border. A
/// window without decorations is a bare rectangle, resizable or not.
pub open spec fn style_bits(
    visible: bool,
    always_on_top: bool,
    decorations: bool,
    resizable: bool,
) -> u64 {
    let accepting = bits_with_if(0, true, WindowStyles::ACCEPT_FILES);
    let shown = bits_with_if(accepting, visible, WindowStyles::VISIBLE);
    let placed = bits_with_if(shown, always_on_top, WindowStyles::TOPMOST);
    let decorated = bits_with_if(
        placed,
        decorations,
        WindowStyles::CAPTION | WindowStyles::SYSMENU | WindowStyles::MINIMIZE_BOX,
    );
    let sized = bits_with_if(
        decorated,
        decorations && resizable,
        WindowStyles::MAXIMIZE_BOX | WindowStyles::SIZE_BOX,
    );
    bits_with_if(sized, !decorations, WindowStyles::BORDER)
}

/// The styles of a window with the given configuration.
pub open spec fn spec_make_window_styles(config: Config) -> WindowStyles {
    WindowStyles(
        style_bits(config.visible, config.always_on_top, config.decorations, config.resizable),
    )
}

/// Converts the window configuration into the corresponding styles.
pub fn make_window_styles(config: &Config) -> (styles: WindowStyles)
    ensures
        styles == spec_make_window_styles(*config),
{
    let mut styles = WindowStyles::empty();

    styles.insert(WindowStyles::ACCEPT_FILES);

    if config.visible {
        styles.insert(WindowStyles::VISIBLE);
    }
    if config.always_on_top {
        styles.insert(WindowStyles::TOPMOST);
    }
    if config.decorations {
        styles.insert(
            WindowStyles::CAPTION | WindowStyles::SYSMENU | WindowStyles::MINIMIZE_BOX,
        );

        if config.resizable {
            styles.insert(WindowStyles::MAXIMIZE_BOX | WindowStyles::SIZE_BOX);
        }
    } else {
        styles.insert(WindowStyles::BORDER);
    }

    styles
}

proof fn lemma_style_bits(visible: bool, always_on_top: bool, decorations: bool, resizable: bool)
    by (bit_vector)
    ensures
        ({
            let bits = style_bits(visible, always_on_top, decorations, resizable);
            &&& bits & WindowStyles::ACCEPT_FILES == WindowStyles::ACCEPT_FILES
            &&& (bits & WindowStyles::VISIBLE == WindowStyles::VISIBLE) == visible
            &&& (bits & WindowStyles::TOPMOST == WindowStyles::TOPMOST) == always_on_top
            &&& (bits & WindowStyles::CAPTION == WindowStyles::CAPTION) == decorations
            &&& (bits & WindowStyles::SYSMENU == WindowStyles::SYSMENU) == decorations
            &&& (bits & WindowStyles::MINIMIZE_BOX == WindowStyles::MINIMIZE_BOX) == decorations
            &&& (bits & WindowStyles::MAXIMIZE_BOX == WindowStyles::MAXIMIZE_BOX) == (decorations
                && resizable)
            &&& (bits & WindowStyles::SIZE_BOX == WindowStyles::SIZE_BOX) == (decorations
                && resizable)
            &&& (bits & WindowStyles::BORDER == WindowStyles::BORDER) == !decorations
            &&& bits & !(WindowStyles::ACCEPT_FILES | WindowStyles::VISIBLE
                | WindowStyles::TOPMOST | WindowStyles::CAPTION | WindowStyles::SYSMENU
                | WindowStyles::MINIMIZE_BOX | WindowStyles::MAXIMIZE_BOX | WindowStyles::SIZE_BOX
                | WindowStyles::BORDER) == 0
            &&& bits / 0x1_0000_0000 == (if always_on_top {
                0x18u64
            } else {
                0x10u64
            })
        }),
{
}

/// Which styles the window of a configuration has: each style stands for one thing that the
/// configuration says, and there are no other bits. The extended style of the system that
/// comes out of them is the one that accepts files, with the one that keeps the window on top
/// where the configuration asks for it.
///
/// In particular a window without decorations has no title bar, no system menu and no box,
/// and no sizing border even if the configuration calls it resizable; and a window with the
/// default configuration has all of these.
pub proof fn lemma_make_window_styles(config: Config)
    ensures
        ({
            let styles = spec_make_window_styles(config);
            &&& styles.contains(WindowStyles::ACCEPT_FILES)
            &&& styles.contains(WindowStyles::VISIBLE) == config.visible
            &&& styles.contains(WindowStyles::TOPMOST) == config.always_on_top
            &&& styles.contains(WindowStyles::CAPTION) == config.decorations
            &&& styles.contains(WindowStyles::SYSMENU) == config.decorations
            &&& styles.contains(WindowStyles::MINIMIZE_BOX) == config.decorations
            &&& styles.contains(WindowStyles::MAXIMIZE_BOX) == (config.decorations
                && config.resizable)
            &&& styles.contains(WindowStyles::SIZE_BOX) == (config.decorations
                && config.resizable)
            &&& styles.contains(WindowStyles::BORDER) == !config.decorations
            &&& styles.0 & !(WindowStyles::ACCEPT_FILES | WindowStyles::VISIBLE
                | WindowStyles::TOPMOST | WindowStyles::CAPTION | WindowStyles::SYSMENU
                | WindowStyles::MINIMIZE_BOX | WindowStyles::MAXIMIZE_BOX | WindowStyles::SIZE_BOX
                | WindowStyles::BORDER) == 0
            &&& styles.spec_to_raw_styles().1 == (if config.always_on_top {
                0x18u32
            } else {
                0x10u32
            })
        }),
{
    lemma_style_bits(config.visible, config.always_on_top, config.decorations, config.resizable);
}

/// What the one who pumps the messages of a window has to do next.
#[derive(Debug, Clone, Copy, PartialEq, Eq)]
pub enum PumpAction {
    /// Wait until a message arrives and dispatch it, then say how it went with
    /// [`Window::waited`]. This may block for any time.
    Wait,
    /// Look for a message without waiting and dispatch it if there is one, then say how it
    /// went with [`Window::peeked`].
    Peek,
    /// Return to the application, with this result.
    Return(Result<(), Error>),
}

/// Where a window is in the pumping of its messages.
#[derive(Debug, Clone, Copy, PartialEq, Eq)]
pub enum Phase {
    /// Nobody pumps the messages.
    Idle,
    /// A blocking poll waits for its first message.
    Waiting,
    /// A poll takes the messages that are there, until there are no more.
    Draining,
}

/// How a poll goes on when the wait for a message is over: with the messages that are there
/// if the wait went well, and no further if it failed, or if nobody was waiting.
pub open spec fn after_wait(phase: Phase, result: Result<(), Error>) -> (Phase, PumpAction) {
    match (phase, result) {
        (Phase::Waiting, Ok(_)) => (Phase::Draining, PumpAction::Peek),
        (Phase::Waiting, Err(error)) => (Phase::Idle, PumpAction::Return(Err(error))),
        _ => (Phase::Idle, PumpAction::Return(Ok(()))),
    }
}

/// How a poll goes on when a message was looked for: with the next message if one was
/// dispatched, and no further if there was none, or if nobody was taking messages.
pub open spec fn after_peek(phase: Phase, dispatched: bool) -> (Phase, PumpAction) {
    if phase == Phase::Draining && dispatched {
        (Phase::Draining, PumpAction::Peek)
    } else {
        (Phase::Idle, PumpAction::Return(Ok(())))
    }
}

/// A poll goes on for exactly as long as it does not tell to return: whatever happens, the
/// window is idle when, and only when, the one who pumps is told to return.
pub proof fn lemma_poll_returns_idle(phase: Phase, result: Result<(), Error>, dispatched: bool)
    ensures
        after_wait(phase, result).1 is Return <==> after_wait(phase, result).0 is Idle,
        after_peek(phase, dispatched).1 is Return <==> after_peek(phase, dispatched).0 is Idle,
        after_wait(phase, result).1 is Return ==> after_wait(phase, result).1
            == PumpAction::Return(
            match result {
                Err(error) if phase is Waiting => Err(error),
                _ => Ok(()),
            },
        ),
{
}

/// The part of a window that decides: what its messages mean, who receives the events, and
/// how its messages are pumped.
///
/// `H` is the handler of the application. A window has a handler exactly while a poll is
/// under way: a poll installs its handler when it starts and removes it when it tells to
/// return, however it ends.
pub struct Window<H> {
    state: State<H>,
    /// Whether the poll that is under way, if any, still waits for its first message.
    waiting: bool,
}

impl<H> Window<H> {
    /// The installed handler; `None` when events go nowhere.
    pub closed spec fn handler(&self) -> Option<H> {
        self.state.handler()
    }

    /// The low surrogate that waits for its other half.
    pub closed spec fn low_surrogate(&self) -> Option<u16> {
        self.state.low_surrogate()
    }

    /// Where the window is in the pumping of its messages.
    pub closed spec fn phase(&self) -> Phase {
        if self.state.handler() is None {
            Phase::Idle
        } else if self.waiting {
            Phase::Waiting
        } else {
            Phase::Draining
        }
    }

    /// A window has a handler exactly while a poll is under way.
    pub proof fn lemma_idle_without_handler(&self)
        ensures
            self.phase() is Idle <==> self.handler() is None,
    {
    }

    /// Of the events that were sent, those that reach a handler: all of them while one is
    /// installed, none otherwise.
    pub open spec fn delivered(&self, events: Seq<Event>) -> Seq<Event> {
        if self.handler() is Some {
            events
        } else {
            Seq::empty()
        }
    }

    /// Creates a new window: idle, without a handler, with nothing pending.
    pub fn new() -> (window: Self)
        ensures
            window.phase() is Idle,
            window.handler() is None,
            window.low_surrogate() is None,
    {
        Window { state: State::new(), waiting: false }
    }

    /// Returns the installed handler. There is one exactly while a poll is under way.
    pub fn installed_handler(&self) -> (handler: Option<&H>)
        ensures
            handler.is_some() == self.handler().is_some(),
            handler matches Some(h) ==> self.handler() == Some(*h),
            self.handler() is None <==> self.phase() is Idle,
    {
        self.state.installed_handler()
    }

    /// Returns where the window is in the pumping of its messages.
    pub fn current_phase(&self) -> (phase: Phase)
        ensures
            phase == self.phase(),
            phase is Idle <==> self.handler() is None,
    {
        if self.state.installed_handler().is_none() {
            Phase::Idle
        } else if self.waiting {
            Phase::Waiting
        } else {
            Phase::Draining
        }
    }

    /// Returns the way to show the window that makes it visible, or hides it.
    pub fn set_visible(&self, yes: bool) -> (command: ShowWindow)
        ensures
            command == (if yes {
                ShowWindow::ShowNormal
            } else {
                ShowWindow::Hide
            }),
    {
        if yes {
            ShowWindow::ShowNormal
        } else {
            ShowWindow::Hide
        }
    }

    /// Returns the size of the client area of the window, given the bounds of that area in
    /// the order left, top, right, bottom.
    pub fn client_size(&self, bounds: (i32, i32, i32, i32)) -> (size: (u32, u32))
        ensures
            size == spec_rect_size(bounds.0, bounds.1, bounds.2, bounds.3),
            bounds.0 <= bounds.2 ==> size.0 == bounds.2 - bounds.0,
            bounds.1 <= bounds.3 ==> size.1 == bounds.3 - bounds.1,
    {
        rect_size(bounds.0, bounds.1, bounds.2, bounds.3)
    }

    /// Starts a poll that takes the messages that are there and returns: installs the
    /// handler, in place of any other, and tells to look for a message.
    pub fn poll_events(&mut self, handler: H) -> (action: PumpAction)
        ensures
            action == PumpAction::Peek,
            final(self).phase() == Phase::Draining,
            final(self).handler() == Some(handler),
            final(self).low_surrogate() == old(self).low_surrogate(),
    {
        self.state.set_handler(handler);
        self.waiting = false;
        PumpAction::Peek
    }

    /// Starts a poll that waits for one message, then takes the messages that are there and
    /// returns: installs the handler, in place of any other, and tells to wait.
    pub fn blocking_poll_events(&mut self, handler: H) -> (action: PumpAction)
        ensures
            action == PumpAction::Wait,
            final(self).phase() == Phase::Waiting,
            final(self).handler() == Some(handler),
            final(self).low_surrogate() == old(self).low_surrogate(),
    {
        self.state.set_handler(handler);
        self.waiting = true;
        PumpAction::Wait
    }

    /// Takes note that the wait for a message is over, and tells how to go on. A wait that
    /// failed ends the poll with the error of the system.
    ///
    /// When this tells to return, the handler has been removed.
    pub fn waited(&mut self, result: Result<(), Error>) -> (action: PumpAction)
        ensures
            (final(self).phase(), action) == after_wait(old(self).phase(), result),
            final(self).handler() == (if action is Return {
                None
            } else {
                old(self).handler()
            }),
            final(self).low_surrogate() == old(self).low_surrogate(),
    {
        match (self.current_phase(), result) {
            (Phase::Waiting, Ok(_)) => {
                self.waiting = false;
                PumpAction::Peek
            },
            (Phase::Waiting, Err(error)) => self.finish(Err(error)),
            _ => self.finish(Ok(())),
        }
    }

    /// Takes note that a message was looked for, and whether one was dispatched, and tells
    /// how to go on. The poll ends when there was no message.
    ///
    /// When this tells to return, the handler has been removed.
    pub fn peeked(&mut self, dispatched: bool) -> (action: PumpAction)
        ensures
            (final(self).phase(), action) == after_peek(old(self).phase(), dispatched),
            final(self).handler() == (if action is Return {
                None
            } else {
                old(self).handler()
            }),
            final(self).low_surrogate() == old(self).low_surrogate(),
    {
        match (self.current_phase(), dispatched) {
            (Phase::Draining, true) => PumpAction::Peek,
            _ => self.finish(Ok(())),
        }
    }

    /// Ends the poll that is under way, if any: removes the handler.
    pub fn finish(&mut self, result: Result<(), Error>) -> (action: PumpAction)
        ensures
            action == PumpAction::Return(result),
            final(self).phase() is Idle,
            final(self).handler() is None,
            final(self).low_surrogate() == old(self).low_surrogate(),
    {
        self.state.remove_handler();
        self.waiting = false;
        PumpAction::Return(result)
    }

    /// The window procedure: sends the events that a message makes to the handler of the
    /// poll that is under way, if any, and returns the answer to the message.
    ///
    /// `input` is the raw input sample that the message announces, where it announces one
    /// and the sample could be read.
    pub fn wndproc(
        &mut self,
        msg: u32,
        wparam: usize,
        lparam: isize,
        input: Option<RawInput>,
        out: &mut Vec<Event>,
    ) -> (reply: Reply)
        ensures
            reply == spec_default_wndproc(msg),
            final(self).phase() == old(self).phase(),
            final(self).handler() == old(self).handler(),
            final(self).low_surrogate() == message_pending(
                old(self).low_surrogate(),
                msg,
                wparam,
            ),
            final(out)@ == old(out)@ + old(self).delivered(
                message_events(old(self).low_surrogate(), msg, wparam, lparam, input),
            ),
    {
        wndproc(&mut self.state, msg, wparam, lparam, input, out)
    }
}

} // verus!
