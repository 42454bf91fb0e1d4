//! The state that a window keeps between two messages.

use vstd::prelude::*;
use crate::event::Event;
use crate::utf16::{
    decode_utf16, is_high_surrogate, is_low_surrogate, lemma_surrogate_pair_value_is_scalar,
    spec_decode_utf16, surrogate_pair_value,
};

verus! {

/// Stores the state that is required to turn window messages into [`Event`]s.
///
/// `H` is the handler of the application, whatever it is made of: the state only keeps it,
/// and says through [`State::delivered`] which events are meant for it.
pub struct State<H> {
    /// The handler that receives the events. `None` stands for the handler that does nothing.
    handler: Option<H>,
    /// A low surrogate that waits for its high surrogate.
    ///
    /// It is kept until the next code unit arrives, and then either combined with it or
    /// dropped.
    low_surrogate: Option<u16>,
}

/// What one UTF-16 code unit does to the pending low surrogate, and the character that comes
/// out of it, if any.
///
/// - A low surrogate is kept, whatever was pending.
/// - A high surrogate is combined with the pending low surrogate; without one it is dropped.
/// - Any other code unit is a character by itself, and what was pending is dropped.
pub open spec fn feed_utf16(pending: Option<u16>, code: u16) -> (Option<u16>, Option<char>) {
    if is_low_surrogate(code) {
        (Some(code), None)
    } else if is_high_surrogate(code) {
        match pending {
            Some(low) => (None, spec_decode_utf16(low, code)),
            None => (None, None),
        }
    } else {
        (None, Some(code as char))
    }
}

/// A low surrogate and then a high surrogate make exactly one character, the one that the
/// pair stands for, whatever was pending before, and leave nothing pending. A high surrogate
/// that finds nothing pending makes no character and leaves nothing pending. Any other code
/// unit that is no low surrogate either drops what was pending and is then a character by
/// itself, just as if nothing had been pending.
pub proof fn lemma_feed_utf16(pending: Option<u16>, low: u16, high: u16, other: u16)
    requires
        is_low_surrogate(low),
        is_high_surrogate(high),
        !is_low_surrogate(other),
        !is_high_surrogate(other),
    ensures
        feed_utf16(pending, low) == (Some(low), None::<char>),
        feed_utf16(feed_utf16(pending, low).0, high).0 is None,
        feed_utf16(feed_utf16(pending, low).0, high).1 is Some,
        feed_utf16(feed_utf16(pending, low).0, high).1.unwrap() as int == surrogate_pair_value(
            low,
            high,
        ),
        feed_utf16(None, high) == (None::<u16>, None::<char>),
        feed_utf16(pending, other) == feed_utf16(None, other),
        feed_utf16(pending, other) == (None::<u16>, Some(other as char)),
        other as char as int == other as int,
{
    lemma_surrogate_pair_value_is_scalar(low, high);
}

/// The events that a character coming out of [`feed_utf16`] makes.
pub open spec fn text_events(c: Option<char>) -> Seq<Event> {
    match c {
        Some(c) => seq![Event::Text(c)],
        None => Seq::empty(),
    }
}

impl<H> State<H> {
    #[verifier::type_invariant]
    spec fn inv(self) -> bool {
        self.low_surrogate matches Some(low) ==> is_low_surrogate(low)
    }

    /// The installed handler; `None` when events go nowhere.
    pub closed spec fn handler(&self) -> Option<H> {
        self.handler
    }

    /// The low surrogate that waits for its other half.
    pub closed spec fn low_surrogate(&self) -> Option<u16> {
        self.low_surrogate
    }

    /// Of the events that were sent, those that reach a handler: all of them while one is
    /// installed, none otherwise.
    pub open spec fn delivered(&self, events: Seq<Event>) -> Seq<Event> {
        if self.handler() is Some {
            events
        } else {
            Seq::empty()
        }
    }

    /// Sending two runs of events one after the other delivers what sending them as one run
    /// delivers. In particular sending no event delivers none.
    pub proof fn lemma_delivered_concat(&self, base: Seq<Event>, a: Seq<Event>, b: Seq<Event>)
        ensures
            base + self.delivered(a) + self.delivered(b) == base + self.delivered(a + b),
            self.delivered(Seq::empty()) == Seq::<Event>::empty(),
            base + Seq::<Event>::empty() == base,
    {
        assert(base + self.delivered(a) + self.delivered(b) =~= base + self.delivered(a + b));
        assert(base + Seq::<Event>::empty() =~= base);
    }

    /// Creates the state of a new window: no handler, nothing pending.
    pub fn new() -> (state: Self)
        ensures
            state.handler() is None,
            state.low_surrogate() is None,
    {
        State { handler: None, low_surrogate: None }
    }

    /// Returns the installed handler.
    pub fn installed_handler(&self) -> (handler: Option<&H>)
        ensures
            handler.is_some() == self.handler().is_some(),
            handler matches Some(h) ==> self.handler() == Some(*h),
    {
        self.handler.as_ref()
    }

    /// Returns the low surrogate that waits for its other half. Nothing else is ever kept.
    pub fn pending_surrogate(&self) -> (pending: Option<u16>)
        ensures
            pending == self.low_surrogate(),
            pending matches Some(low) ==> is_low_surrogate(low),
    {
        proof {
            use_type_invariant(self);
        }
        self.low_surrogate
    }

    /// Sets the handler, in place of the one that was installed, if any.
    pub fn set_handler(&mut self, handler: H)
        ensures
            final(self).handler() == Some(handler),
            final(self).low_surrogate() == old(self).low_surrogate(),
    {
        proof {
            use_type_invariant(&*self);
        }
        self.handler = Some(handler);
    }

    /// Removes the handler: from now on events go nowhere.
    pub fn remove_handler(&mut self)
        ensures
            final(self).handler() is None,
            final(self).low_surrogate() == old(self).low_surrogate(),
    {
        proof {
            use_type_invariant(&*self);
        }
        self.handler = None;
    }

    /// Sends an event to the handler: appends it to `out` if a handler is installed.
    pub fn send_event(&self, event: Event, out: &mut Vec<Event>)
        ensures
            final(out)@ == old(out)@ + self.delivered(seq![event]),
    {
        if self.handler.is_some() {
            out.push(event);
        }
    }

    /// Takes a UTF-16 code unit, and sends the character that it completes, if any.
    pub fn take_u16_code_point(&mut self, code: u16, out: &mut Vec<Event>)
        ensures
            final(self).handler() == old(self).handler(),
            final(self).low_surrogate() == feed_utf16(old(self).low_surrogate(), code).0,
            final(out)@ == old(out)@ + old(self).delivered(
                text_events(feed_utf16(old(self).low_surrogate(), code).1),
            ),
    {
        proof {
            use_type_invariant(&*self);
        }
        if is_low_surrogate(code) {
            self.low_surrogate = Some(code);
        } else if is_high_surrogate(code) {
            match self.low_surrogate {
                Some(low) => {
                    match decode_utf16(low, code) {
                        Some(c) => self.send_event(Event::Text(c), out),
                        None => {},
                    }
                    self.low_surrogate = None;
                },
                None => {},
            }
        } else {
            match char::from_u32(code as u32) {
                Some(c) => self.send_event(Event::Text(c), out),
                None => {},
            }
            self.low_surrogate = None;
        }
    }
}

} // verus!
