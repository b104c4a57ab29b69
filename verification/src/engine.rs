//! The engine's side of the session: the commands submitted to it.

use vstd::prelude::*;
use crate::events::{event_views, WindowEvent, WindowEventView};

verus! {

/// The commands submitted to the engine and not yet carried to it, oldest first.
pub struct Servo {
    inbox: Vec<WindowEvent>,
}

impl View for Servo {
    type V = Seq<WindowEventView>;

    closed spec fn view(&self) -> Seq<WindowEventView> {
        event_views(self.inbox@)
    }
}

impl Servo {
    /// An engine that has been handed nothing.
    pub fn new() -> (servo: Servo)
        ensures
            servo@ == Seq::<WindowEventView>::empty(),
    {
        let servo = Servo { inbox: Vec::new() };
        assert(servo@ =~= Seq::<WindowEventView>::empty());
        servo
    }

    /// Submits commands to the engine, which takes them in the order given,
    /// after everything submitted before.
    pub fn handle_events(&mut self, events: Vec<WindowEvent>)
        ensures
            final(self)@ == old(self)@ + event_views(events@),
    {
        let ghost given = events@;
        let mut events = events;
        self.inbox.append(&mut events);
        assert(final(self)@ =~= old(self)@ + event_views(given));
    }

    /// The commands submitted so far, oldest first.
    pub fn events(&self) -> (events: &Vec<WindowEvent>)
        ensures
            event_views(events@) == self@,
    {
        &self.inbox
    }

    /// Hands out the commands submitted so far, oldest first, and forgets them.
    pub fn take(&mut self) -> (events: Vec<WindowEvent>)
        ensures
            event_views(events@) == old(self)@,
            final(self)@ == Seq::<WindowEventView>::empty(),
    {
        let mut events: Vec<WindowEvent> = Vec::new();
        std::mem::swap(&mut self.inbox, &mut events);
        assert(final(self)@ =~= Seq::<WindowEventView>::empty());
        events
    }
}

} // verus!
