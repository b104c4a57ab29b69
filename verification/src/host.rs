//! Notifications owed to the host.

use vstd::prelude::*;

verus! {

/// One notification for the host.
#[derive(Clone, Debug, PartialEq, Eq)]
pub enum HostCall {
    /// The surface was painted and is to be presented.
    Flush,
    /// A page load started.
    LoadStarted,
    /// A page load finished.
    LoadEnded,
    /// The title line to show.
    TitleChanged(String),
    /// The URL of the current page.
    UrlChanged(String),
    /// Whether the history has an entry before and after the current one.
    HistoryChanged(bool, bool),
}

/// What a [`HostCall`] says, with its text as a sequence of characters.
pub enum HostCallView {
    Flush,
    LoadStarted,
    LoadEnded,
    TitleChanged(Seq<char>),
    UrlChanged(Seq<char>),
    HistoryChanged(bool, bool),
}

impl View for HostCall {
    type V = HostCallView;

    open spec fn view(&self) -> HostCallView {
        match *self {
            HostCall::Flush => HostCallView::Flush,
            HostCall::LoadStarted => HostCallView::LoadStarted,
            HostCall::LoadEnded => HostCallView::LoadEnded,
            HostCall::TitleChanged(title) => HostCallView::TitleChanged(title@),
            HostCall::UrlChanged(url) => HostCallView::UrlChanged(url@),
            HostCall::HistoryChanged(back, forward) => HostCallView::HistoryChanged(back, forward),
        }
    }
}

/// What a sequence of notifications says, one by one and in the same order.
pub open spec fn host_call_views(calls: Seq<HostCall>) -> Seq<HostCallView> {
    calls.map_values(|call: HostCall| call@)
}

/// Whether a history has an entry before the one of index `current`.
pub open spec fn spec_can_go_back(current: int) -> bool {
    current > 0
}

/// Whether a history of `entry_count` entries has one after the one of index `current`.
pub open spec fn spec_can_go_forward(entry_count: int, current: int) -> bool {
    current < entry_count - 1
}

/// Whether the host may offer to go back and to go forward, for a history of
/// `entry_count` entries whose current one has index `current`.
pub fn history_flags(entry_count: usize, current: usize) -> (flags: (bool, bool))
    requires
        current < entry_count,
    ensures
        flags.0 == (current > 0),
        flags.1 == (current < entry_count - 1),
        flags.0 == spec_can_go_back(current as int),
        flags.1 == spec_can_go_forward(entry_count as int, current as int),
{
    (current > 0, current < entry_count - 1)
}

/// The notifications owed to the host and not yet delivered, oldest first.
pub struct HostCallbacks {
    calls: Vec<HostCall>,
}

impl View for HostCallbacks {
    type V = Seq<HostCallView>;

    closed spec fn view(&self) -> Seq<HostCallView> {
        host_call_views(self.calls@)
    }
}

impl HostCallbacks {
    /// An adapter that owes the host nothing.
    pub fn new() -> (callbacks: HostCallbacks)
        ensures
            callbacks@ == Seq::<HostCallView>::empty(),
    {
        let callbacks = HostCallbacks { calls: Vec::new() };
        assert(callbacks@ =~= Seq::<HostCallView>::empty());
        callbacks
    }

    fn record(&mut self, call: HostCall)
        ensures
            final(self)@ == old(self)@.push(call@),
    {
        self.calls.push(call);
        assert(final(self)@ =~= old(self)@.push(call@));
    }

    /// The surface was painted and is to be presented.
    pub fn flush(&mut self)
        ensures
            final(self)@ == old(self)@.push(HostCallView::Flush),
    {
        self.record(HostCall::Flush);
    }

    /// Page starts loading. The host's reload control becomes a stop control.
    pub fn on_load_started(&mut self)
        ensures
            final(self)@ == old(self)@.push(HostCallView::LoadStarted),
    {
        self.record(HostCall::LoadStarted);
    }

    /// Page has loaded. The host's stop control becomes a reload control.
    pub fn on_load_ended(&mut self)
        ensures
            final(self)@ == old(self)@.push(HostCallView::LoadEnded),
    {
        self.record(HostCall::LoadEnded);
    }

    /// Title changed.
    pub fn on_title_changed(&mut self, title: String)
        ensures
            final(self)@ == old(self)@.push(HostCallView::TitleChanged(title@)),
    {
        self.record(HostCall::TitleChanged(title));
    }

    /// The current page has another URL.
    pub fn on_url_changed(&mut self, url: String)
        ensures
            final(self)@ == old(self)@.push(HostCallView::UrlChanged(url@)),
    {
        self.record(HostCall::UrlChanged(url));
    }

    /// Back/forward state changed: the host's controls are to be enabled or not.
    pub fn on_history_changed(&mut self, can_go_back: bool, can_go_forward: bool)
        ensures
            final(self)@ == old(self)@.push(HostCallView::HistoryChanged(can_go_back, can_go_forward)),
    {
        self.record(HostCall::HistoryChanged(can_go_back, can_go_forward));
    }

    /// The notifications recorded so far, oldest first.
    pub fn calls(&self) -> (calls: &Vec<HostCall>)
        ensures
            host_call_views(calls@) == self@,
    {
        &self.calls
    }

    /// Hands out the notifications recorded so far, oldest first, and forgets them.
    pub fn take(&mut self) -> (calls: Vec<HostCall>)
        ensures
            host_call_views(calls@) == old(self)@,
            final(self)@ == Seq::<HostCallView>::empty(),
    {
        let mut calls: Vec<HostCall> = Vec::new();
        std::mem::swap(&mut self.calls, &mut calls);
        assert(final(self)@ =~= Seq::<HostCallView>::empty());
        calls
    }
}

} // verus!
