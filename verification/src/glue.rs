//! The session: the one mutable object between the host and the engine.

use vstd::prelude::*;
use vstd::string::StringExecFns;
use crate::api::{BrowserId, ScrollState, ServoResult, Size, ViewLayout};
use crate::callbacks::{coordinates_of, history_calls, EmbedderCoordinates, ServoCallbacks};
use crate::engine::Servo;
use crate::events::{
    event_views, signed_coordinate, spec_signed_coordinate, spec_touch_phase, touch_phase,
    DevicePoint, EmbedderMsg, MouseButton, MouseWindowEvent, ScrollDelta, TraversalDirection,
    WindowEvent, WindowEventView,
};
use crate::host::{HostCall, HostCallView, HostCallbacks, host_call_views};
use crate::text::{
    displayed_title, parse_url, read_str, spec_displayed_title, spec_read_str,
    spec_version_line, text_of, url_parse,
};

verus! {

/// The answer to one request of the engine for leave to navigate.
#[derive(Clone, Copy, Debug, PartialEq, Eq, Structural)]
pub struct NavigationReply {
    /// The number that the request came with.
    pub request: u64,
    /// Whether the engine may navigate.
    pub allowed: bool,
}

/// The URL of a browsing context that shows nothing.
pub open spec fn blank_url() -> Seq<char> {
    "about:blank"@
}

/// The host notifications that one engine notification gives rise to, for a
/// session that last recorded `current_url`.
pub open spec fn host_calls_for(msg: EmbedderMsg, current_url: Option<Seq<char>>) -> Seq<
    HostCallView,
> {
    match msg {
        EmbedderMsg::ChangePageTitle(_, title) => seq![
            HostCallView::TitleChanged(spec_displayed_title(text_of(title), current_url)),
        ],
        EmbedderMsg::HistoryChanged(_, entries, current) => history_calls(
            entries@,
            current as int,
        ),
        EmbedderMsg::LoadStart(_) => seq![HostCallView::LoadStarted],
        EmbedderMsg::LoadComplete(_) => seq![HostCallView::LoadEnded],
        _ => Seq::empty(),
    }
}

/// The URL that a session records after one engine notification: that of the
/// current history entry where the history changed, else the one it had.
pub open spec fn url_after(msg: EmbedderMsg, current_url: Option<Seq<char>>) -> Option<Seq<char>> {
    match msg {
        EmbedderMsg::HistoryChanged(_, entries, current) => Some(entries@[current as int].url@),
        _ => current_url,
    }
}

/// The answer that one engine notification calls for: leave is always given.
pub open spec fn reply_to(msg: EmbedderMsg) -> Option<NavigationReply> {
    match msg {
        EmbedderMsg::AllowNavigation(_, _, request) => Some(
            NavigationReply { request, allowed: true },
        ),
        _ => None,
    }
}

/// The answers that a run of engine notifications calls for, in their order.
pub open spec fn replies_to(msgs: Seq<EmbedderMsg>) -> Seq<NavigationReply>
    decreases msgs.len(),
{
    if msgs.len() == 0 {
        Seq::empty()
    } else {
        match reply_to(msgs.last()) {
            Some(reply) => replies_to(msgs.drop_last()).push(reply),
            None => replies_to(msgs.drop_last()),
        }
    }
}

/// The state of a session.
pub struct GlueView {
    /// The active browsing context.
    pub browser_id: BrowserId,
    /// The commands waiting for the next heartbeat, oldest first.
    pub pending: Seq<WindowEventView>,
    /// The commands submitted to the engine and not yet carried to it, oldest first.
    pub submitted: Seq<WindowEventView>,
    /// The URL last known to be shown.
    pub current_url: Option<Seq<char>>,
    /// Where the engine finds its resources.
    pub resources_path: Seq<char>,
    /// The geometry of the view.
    pub layout: ViewLayout,
    /// The notifications owed to the host, oldest first.
    pub host_calls: Seq<HostCallView>,
}

impl GlueView {
    /// A session that has just been started on a URL: its first browsing
    /// context is created and selected, and nothing else has happened.
    pub open spec fn started(
        url: Seq<char>,
        resources_path: Seq<char>,
        layout: ViewLayout,
    ) -> GlueView {
        GlueView {
            browser_id: BrowserId(0),
            pending: Seq::empty(),
            submitted: seq![
                WindowEventView::NewBrowser(url, BrowserId(0)),
                WindowEventView::SelectBrowser(BrowserId(0)),
            ],
            current_url: Some(url),
            resources_path,
            layout,
            host_calls: Seq::empty(),
        }
    }

    /// The session with one more command waiting for the heartbeat.
    pub open spec fn enqueue(self, event: WindowEventView) -> GlueView {
        GlueView { pending: self.pending.push(event), ..self }
    }

    /// The session after a heartbeat: all that waited is submitted, in order.
    pub open spec fn heartbeat(self) -> GlueView {
        GlueView {
            pending: Seq::empty(),
            submitted: self.submitted + self.pending,
            ..self
        }
    }

    /// The session after a resize: the layout replaced, the engine to be told.
    pub open spec fn resized(self, layout: ViewLayout) -> GlueView {
        GlueView { layout, ..self }.enqueue(WindowEventView::Resize)
    }

    /// The session after a resize that gives only the size of the view: the
    /// rest of the layout is kept.
    pub open spec fn resized_to(self, width: u32, height: u32) -> GlueView {
        self.resized(ViewLayout { view_size: Size { width, height }, ..self.layout })
    }

    /// The session after a scroll gesture.
    pub open spec fn scrolled(self, dx: i32, dy: i32, x: u32, y: u32, state: ScrollState) -> GlueView {
        self.enqueue(
            WindowEventView::Scroll(
                ScrollDelta { dx, dy },
                DevicePoint {
                    x: spec_signed_coordinate(x) as i32,
                    y: spec_signed_coordinate(y) as i32,
                },
                spec_touch_phase(state),
            ),
        )
    }

    /// The session after a click of the primary button.
    pub open spec fn clicked(self, x: u32, y: u32) -> GlueView {
        self.enqueue(
            WindowEventView::MouseWindowEventClass(MouseWindowEvent::Click(MouseButton::Left, x, y)),
        )
    }

    /// The session after its page was erased: a blank browsing context is to be
    /// created and selected and the one that was active closed, in that order
    /// and after all that waited before. Later commands go to the new context.
    pub open spec fn erased(self) -> GlueView {
        GlueView {
            browser_id: self.browser_id.spec_next(),
            pending: self.pending + seq![
                WindowEventView::NewBrowser(blank_url(), self.browser_id.spec_next()),
                WindowEventView::SelectBrowser(self.browser_id.spec_next()),
                WindowEventView::CloseBrowser(self.browser_id),
            ],
            ..self
        }
    }

    /// The session after the engine painted a frame.
    pub open spec fn presented(self) -> GlueView {
        GlueView { host_calls: self.host_calls.push(HostCallView::Flush), ..self }
    }

    /// The session after one engine notification.
    pub open spec fn notified(self, msg: EmbedderMsg) -> GlueView {
        GlueView {
            host_calls: self.host_calls + host_calls_for(msg, self.current_url),
            current_url: url_after(msg, self.current_url),
            ..self
        }
    }

    /// The session after a run of engine notifications, taken in their order.
    pub open spec fn notified_all(self, msgs: Seq<EmbedderMsg>) -> GlueView
        decreases msgs.len(),
    {
        if msgs.len() == 0 {
            self
        } else {
            self.notified_all(msgs.drop_last()).notified(msgs.last())
        }
    }

    /// The session after a request to navigate whose text was parsed to `parsed`.
    pub open spec fn navigated(self, parsed: Option<Seq<char>>) -> GlueView {
        match parsed {
            Some(url) => self.enqueue(WindowEventView::LoadUrl(self.browser_id, url)),
            None => self,
        }
    }
}

/// The result code of a request to navigate whose text was parsed to `parsed`.
pub open spec fn navigation_result(parsed: Option<Seq<char>>) -> ServoResult {
    match parsed {
        Some(_) => ServoResult::Success,
        None => ServoResult::CantParseUrl,
    }
}

/// The session: the active browsing context, the commands on their way to the
/// engine, and the embedder's side as the engine sees it.
pub struct ServoGlue {
    servo: Servo,
    callbacks: ServoCallbacks,
    browser_id: BrowserId,
    events: Vec<WindowEvent>,
    current_url: Option<String>,
    resources_path: String,
}

impl View for ServoGlue {
    type V = GlueView;

    closed spec fn view(&self) -> GlueView {
        GlueView {
            browser_id: self.browser_id,
            pending: event_views(self.events@),
            submitted: self.servo@,
            current_url: text_of(self.current_url),
            resources_path: self.resources_path@,
            layout: self.callbacks@.layout,
            host_calls: self.callbacks@.host_calls,
        }
    }
}

/// The engine's version text, as the engine reports it: character for
/// character, with nothing added or taken away. It needs no session and
/// touches none.
pub fn servo_version(engine_version: &str) -> (version: String)
    ensures
        version@ == engine_version@,
{
    engine_version.to_owned()
}

/// The line that tells the host which engine it runs: a fixed opening, then
/// the engine's own version text.
pub fn version_line(engine_version: &str) -> (line: String)
    ensures
        line@ == spec_version_line(engine_version@),
{
    let mut line = String::from_str("Servo Version: ");
    line.append(engine_version);
    line
}

impl ServoGlue {
    /// Starts a session on a URL: creates its first browsing context and selects it.
    pub fn new(url: String, resources_path: String, layout: ViewLayout) -> (glue: ServoGlue)
        ensures
            glue@ == GlueView::started(url@, resources_path@, layout),
    {
        let callbacks = ServoCallbacks::new(HostCallbacks::new(), layout);
        let mut servo = Servo::new();
        let browser_id = BrowserId(0);
        let mut first: Vec<WindowEvent> = Vec::new();
        first.push(WindowEvent::NewBrowser(url.clone(), browser_id));
        servo.handle_events(first);
        let mut second: Vec<WindowEvent> = Vec::new();
        second.push(WindowEvent::SelectBrowser(browser_id));
        servo.handle_events(second);
        let glue = ServoGlue {
            servo,
            callbacks,
            browser_id,
            events: Vec::new(),
            current_url: Some(url),
            resources_path,
        };
        assert(glue@.submitted =~= GlueView::started(url@, resources_path@, layout).submitted);
        assert(glue@.pending =~= Seq::empty());
        glue
    }

    fn enqueue(&mut self, event: WindowEvent)
        ensures
            final(self)@ == old(self)@.enqueue(event@),
    {
        self.events.push(event);
        assert(final(self)@.pending =~= old(self)@.pending.push(event@));
    }

    /// The heartbeat: submits to the engine all that has waited since the last
    /// one, in the order in which it was enqueued, and leaves nothing waiting.
    pub fn perform_updates(&mut self) -> (res: ServoResult)
        ensures
            res == ServoResult::Success,
            final(self)@ == old(self)@.heartbeat(),
            old(self)@.pending.len() == 0 ==> final(self)@ == old(self)@,
    {
        let mut events: Vec<WindowEvent> = Vec::new();
        std::mem::swap(&mut self.events, &mut events);
        self.servo.handle_events(events);
        assert(final(self)@.pending =~= Seq::empty());
        assert(old(self)@.pending.len() == 0 ==> final(self)@.submitted =~= old(self)@.submitted);
        assert(old(self)@.pending.len() == 0 ==> final(self)@.pending =~= old(self)@.pending);
        ServoResult::Success
    }

    /// Takes up the outcome of validating a URL: a URL is enqueued as a
    /// navigation of the active browsing context, and with none nothing changes.
    pub fn load_parsed(&mut self, parsed: Option<String>) -> (res: ServoResult)
        ensures
            res == navigation_result(text_of(parsed)),
            final(self)@ == old(self)@.navigated(text_of(parsed)),
            parsed is None ==> res == ServoResult::CantParseUrl && final(self)@ == old(self)@,
    {
        match parsed {
            Some(url) => {
                self.enqueue(WindowEvent::LoadUrl(self.browser_id, url));
                ServoResult::Success
            },
            None => ServoResult::CantParseUrl,
        }
    }

    /// Navigates the active browsing context to the URL that the text gives.
    /// A text that is no URL changes nothing.
    pub fn load_uri(&mut self, url: String) -> (res: ServoResult)
        ensures
            res == navigation_result(url_parse(url@)),
            final(self)@ == old(self)@.navigated(url_parse(url@)),
            url_parse(url@) is None ==> res == ServoResult::CantParseUrl && final(self)@ == old(self)@,
    {
        let parsed = parse_url(url.as_str());
        self.load_parsed(parsed)
    }

    /// Navigates the active browsing context to the URL that the bytes spell.
    /// Bytes that are no text, and a text that is no URL, change nothing.
    pub fn load_url(&mut self, url: &[u8]) -> (res: ServoResult)
        ensures
            match spec_read_str(url@) {
                Some(text) => {
                    &&& res == navigation_result(url_parse(text))
                    &&& final(self)@ == old(self)@.navigated(url_parse(text))
                },
                None => res == ServoResult::CantReadStr && final(self)@ == old(self)@,
            },
    {
        match read_str(url) {
            Some(text) => self.load_uri(text),
            None => ServoResult::CantReadStr,
        }
    }

    /// Loads the current page again.
    pub fn reload(&mut self) -> (res: ServoResult)
        ensures
            res == ServoResult::Success,
            final(self)@ == old(self)@.enqueue(WindowEventView::Reload(old(self)@.browser_id)),
    {
        self.enqueue(WindowEvent::Reload(self.browser_id));
        ServoResult::Success
    }

    /// Goes one entry back in the history, whether or not there is one.
    pub fn go_back(&mut self) -> (res: ServoResult)
        ensures
            res == ServoResult::Success,
            final(self)@ == old(self)@.enqueue(
                WindowEventView::Navigation(old(self)@.browser_id, TraversalDirection::Back(1)),
            ),
    {
        let event = WindowEvent::Navigation(self.browser_id, TraversalDirection::Back(1));
        self.enqueue(event);
        ServoResult::Success
    }

    /// Goes one entry forward in the history, whether or not there is one.
    pub fn go_forward(&mut self) -> (res: ServoResult)
        ensures
            res == ServoResult::Success,
            final(self)@ == old(self)@.enqueue(
                WindowEventView::Navigation(old(self)@.browser_id, TraversalDirection::Forward(1)),
            ),
    {
        let event = WindowEvent::Navigation(self.browser_id, TraversalDirection::Forward(1));
        self.enqueue(event);
        ServoResult::Success
    }

    /// Replaces the layout of the view as a whole and has the engine read it again.
    pub fn resize(&mut self, layout: ViewLayout) -> (res: ServoResult)
        ensures
            res == ServoResult::Success,
            final(self)@ == old(self)@.resized(layout),
            final(self)@.layout == layout,
    {
        self.callbacks.set_layout(layout);
        self.enqueue(WindowEvent::Resize);
        ServoResult::Success
    }

    /// Gives the view another size and has the engine read the layout again.
    /// Margins, position and pixel density stay as they are.
    pub fn resize_to(&mut self, width: u32, height: u32) -> (res: ServoResult)
        ensures
            res == ServoResult::Success,
            final(self)@ == old(self)@.resized_to(width, height),
            final(self)@.layout.view_size == (Size { width, height }),
    {
        let mut layout = self.callbacks.layout();
        layout.view_size = Size { width, height };
        self.resize(layout)
    }

    /// Scrolls by a distance around a point of the view, as one phase of a gesture.
    pub fn scroll(&mut self, dx: i32, dy: i32, x: u32, y: u32, state: ScrollState) -> (res:
        ServoResult)
        ensures
            res == ServoResult::Success,
            final(self)@ == old(self)@.scrolled(dx, dy, x, y, state),
    {
        let delta = ScrollDelta { dx, dy };
        let phase = touch_phase(state);
        let point = DevicePoint { x: signed_coordinate(x), y: signed_coordinate(y) };
        let event = WindowEvent::Scroll(delta, point, phase);
        self.enqueue(event);
        ServoResult::Success
    }

    /// Clicks the primary button at a point of the view.
    pub fn click(&mut self, x: u32, y: u32) -> (res: ServoResult)
        ensures
            res == ServoResult::Success,
            final(self)@ == old(self)@.clicked(x, y),
    {
        let mouse_event = MouseWindowEvent::Click(MouseButton::Left, x, y);
        let event = WindowEvent::MouseWindowEventClass(mouse_event);
        self.enqueue(event);
        ServoResult::Success
    }

    /// Resets to a clean page without ending the session: creates a blank
    /// browsing context, makes it the active one, and closes the one that was
    /// active. The three commands wait for the heartbeat like all others, so
    /// the engine takes them after what was enqueued before.
    pub fn erase(&mut self) -> (res: ServoResult)
        ensures
            res == ServoResult::Success,
            final(self)@ == old(self)@.erased(),
            final(self)@.browser_id != old(self)@.browser_id,
    {
        let last_id = self.browser_id;
        let id = last_id.next();
        self.events.push(WindowEvent::NewBrowser(String::from_str("about:blank"), id));
        self.events.push(WindowEvent::SelectBrowser(id));
        self.events.push(WindowEvent::CloseBrowser(last_id));
        self.browser_id = id;
        assert(final(self)@.pending =~= old(self)@.erased().pending);
        ServoResult::Success
    }

    /// The engine painted a frame: the host is told to present it.
    pub fn present(&mut self)
        ensures
            final(self)@ == old(self)@.presented(),
    {
        self.callbacks.present();
    }

    /// Takes up one notification of the engine: tells the host what it must
    /// know, records the URL where the history changed, and answers a request
    /// for leave to navigate.
    pub fn handle_servo_event(&mut self, msg: &EmbedderMsg) -> (reply: Option<NavigationReply>)
        requires
            msg.well_formed(),
        ensures
            final(self)@ == old(self)@.notified(*msg),
            reply == reply_to(*msg),
    {
        let mut reply: Option<NavigationReply> = None;
        match msg {
            EmbedderMsg::ChangePageTitle(_, title) => {
                let title = displayed_title(title, &self.current_url);
                self.callbacks.title_changed(title);
            },
            EmbedderMsg::AllowNavigation(_, _, request) => {
                let allowed = self.callbacks.allow_navigation();
                reply = Some(NavigationReply { request: *request, allowed });
            },
            EmbedderMsg::HistoryChanged(_, entries, current) => {
                self.callbacks.history_changed(entries, *current);
                self.current_url = Some(entries[*current].url.clone());
            },
            EmbedderMsg::LoadStart(_) => {
                self.callbacks.load_start();
            },
            EmbedderMsg::LoadComplete(_) => {
                self.callbacks.load_end();
            },
            EmbedderMsg::Status(..)
            | EmbedderMsg::MoveTo(..)
            | EmbedderMsg::ResizeTo(..)
            | EmbedderMsg::KeyEvent(..)
            | EmbedderMsg::SetCursor
            | EmbedderMsg::NewFavicon(..)
            | EmbedderMsg::HeadParsed(..)
            | EmbedderMsg::SetFullscreenState(..)
            | EmbedderMsg::Shutdown
            | EmbedderMsg::Panic(..) => {},
        }
        assert(final(self)@.host_calls =~= old(self)@.notified(*msg).host_calls);
        reply
    }

    /// Takes up the notifications of the engine in the order in which it
    /// produced them, and gives the answers that they call for.
    pub fn handle_servo_events(&mut self, msgs: Vec<EmbedderMsg>) -> (replies: Vec<NavigationReply>)
        requires
            forall|i: int| 0 <= i < msgs@.len() ==> (#[trigger] msgs@[i]).well_formed(),
        ensures
            final(self)@ == old(self)@.notified_all(msgs@),
            replies@ == replies_to(msgs@),
    {
        let ghost start = self@;
        let mut replies: Vec<NavigationReply> = Vec::new();
        let mut i: usize = 0;
        while i < msgs.len()
            invariant
                i <= msgs@.len(),
                forall|k: int| 0 <= k < msgs@.len() ==> (#[trigger] msgs@[k]).well_formed(),
                self@ == start.notified_all(msgs@.take(i as int)),
                replies@ == replies_to(msgs@.take(i as int)),
            decreases msgs@.len() - i,
        {
            assert(msgs@.take(i + 1).drop_last() =~= msgs@.take(i as int));
            assert(msgs@.take(i + 1).last() == msgs@[i as int]);
            match self.handle_servo_event(&msgs[i]) {
                Some(reply) => {
                    replies.push(reply);
                },
                None => {},
            }
            i = i + 1;
        }
        assert(msgs@.take(i as int) =~= msgs@);
        replies
    }

    /// The active browsing context.
    pub fn browser_id(&self) -> (id: BrowserId)
        ensures
            id == self@.browser_id,
    {
        self.browser_id
    }

    /// The commands waiting for the next heartbeat, oldest first.
    pub fn pending(&self) -> (events: &Vec<WindowEvent>)
        ensures
            event_views(events@) == self@.pending,
    {
        &self.events
    }

    /// The commands submitted to the engine and not yet carried to it, oldest first.
    pub fn submitted(&self) -> (events: &Vec<WindowEvent>)
        ensures
            event_views(events@) == self@.submitted,
    {
        self.servo.events()
    }

    /// The notifications owed to the host, oldest first.
    pub fn host_calls(&self) -> (calls: &Vec<HostCall>)
        ensures
            host_call_views(calls@) == self@.host_calls,
    {
        self.callbacks.host_calls()
    }

    /// The URL last known to be shown.
    pub fn current_url(&self) -> (url: &Option<String>)
        ensures
            text_of(*url) == self@.current_url,
    {
        &self.current_url
    }

    /// Where the engine finds its resources.
    pub fn resources_path(&self) -> (path: &String)
        ensures
            path@ == self@.resources_path,
    {
        &self.resources_path
    }

    /// The layout of the view.
    pub fn layout(&self) -> (layout: ViewLayout)
        ensures
            layout == self@.layout,
    {
        self.callbacks.layout()
    }

    /// The geometry of the view as the engine reads it before it composites.
    pub fn get_coordinates(&self) -> (coordinates: EmbedderCoordinates)
        ensures
            coordinates == coordinates_of(self@.layout),
    {
        self.callbacks.get_coordinates()
    }

    /// Hands out the commands submitted to the engine, oldest first, for whoever
    /// drives the engine to carry them to it.
    pub fn take_submitted(&mut self) -> (events: Vec<WindowEvent>)
        ensures
            event_views(events@) == old(self)@.submitted,
            final(self)@ == (GlueView { submitted: Seq::empty(), ..old(self)@ }),
    {
        self.servo.take()
    }

    /// Hands out the notifications owed to the host, oldest first, for whoever
    /// holds the way to the host to deliver them.
    pub fn take_host_calls(&mut self) -> (calls: Vec<HostCall>)
        ensures
            host_call_views(calls@) == old(self)@.host_calls,
            final(self)@ == (GlueView { host_calls: Seq::empty(), ..old(self)@ }),
    {
        self.callbacks.take_host_calls()
    }
}

} // verus!
