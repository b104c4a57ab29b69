//! The sessions of a process, each bound to the one thread that may use it, and
//! the commands of the host, which reach a session only from its own thread.

use std::collections::HashMap;
use vstd::prelude::*;
use crate::api::{ScrollState, ServoResult, ViewLayout};
use crate::events::{TraversalDirection, WindowEventView};
use crate::glue::{navigation_result, GlueView, ServoGlue};
use crate::text::{parse_url, read_str, spec_read_str, text_of, url_parse};

verus! {

/// The sessions of a process by the thread that each is bound to. A thread has
/// at most one session.
pub struct Sessions {
    slots: HashMap<u64, ServoGlue>,
}

impl View for Sessions {
    type V = Map<u64, GlueView>;

    closed spec fn view(&self) -> Map<u64, GlueView> {
        self.slots@.map_values(|glue: ServoGlue| glue@)
    }
}

impl Sessions {
    /// No thread has a session.
    pub fn new() -> (sessions: Sessions)
        ensures
            sessions@ == Map::<u64, GlueView>::empty(),
    {
        let sessions = Sessions { slots: HashMap::new() };
        assert(sessions@ =~= Map::<u64, GlueView>::empty());
        sessions
    }

    /// Whether a thread has a session.
    pub fn is_bound(&self, thread: u64) -> (bound: bool)
        ensures
            bound == self@.contains_key(thread),
    {
        self.slots.contains_key(&thread)
    }

    /// The session of a thread, if it has one.
    pub fn get(&self, thread: u64) -> (glue: Option<&ServoGlue>)
        ensures
            match glue {
                Some(glue) => self@.contains_key(thread) && glue@ == self@[thread],
                None => !self@.contains_key(thread),
            },
    {
        self.slots.get(&thread)
    }

    /// Binds a session to a thread, and hands back the one that the thread had,
    /// if it had one: that session is then no longer reachable from here.
    pub fn bind(&mut self, thread: u64, glue: ServoGlue) -> (replaced: Option<ServoGlue>)
        ensures
            final(self)@ == old(self)@.insert(thread, glue@),
            match replaced {
                Some(before) => old(self)@.contains_key(thread) && before@ == old(self)@[thread],
                None => !old(self)@.contains_key(thread),
            },
    {
        let replaced = self.slots.insert(thread, glue);
        assert(final(self)@ =~= old(self)@.insert(thread, glue@));
        replaced
    }

    /// Takes the session of a thread out, if it has one; the thread then has none.
    pub fn take(&mut self, thread: u64) -> (glue: Option<ServoGlue>)
        ensures
            match glue {
                Some(glue) => {
                    &&& old(self)@.contains_key(thread)
                    &&& glue@ == old(self)@[thread]
                    &&& final(self)@ == old(self)@.remove(thread)
                },
                None => !old(self)@.contains_key(thread) && final(self)@ == old(self)@,
            },
    {
        let glue = self.slots.remove(&thread);
        assert(glue is Some ==> final(self)@ =~= old(self)@.remove(thread));
        assert(glue is None ==> final(self)@ =~= old(self)@);
        glue
    }
}

/// The result code of starting a session from the bytes of a URL and of a
/// resources path: both must be text, and the URL must be one.
pub open spec fn init_result(url: Seq<u8>, resources_path: Seq<u8>) -> ServoResult {
    match (spec_read_str(resources_path), spec_read_str(url)) {
        (Some(_), Some(text)) => navigation_result(url_parse(text)),
        _ => ServoResult::CantReadStr,
    }
}

/// The sessions after starting one on a thread from the bytes of a URL and of
/// a resources path: on success the thread has the new session, whatever it
/// had before; else nothing changes.
pub open spec fn init_sessions(
    sessions: Map<u64, GlueView>,
    thread: u64,
    url: Seq<u8>,
    resources_path: Seq<u8>,
    layout: ViewLayout,
) -> Map<u64, GlueView> {
    match (spec_read_str(resources_path), spec_read_str(url)) {
        (Some(path), Some(text)) => match url_parse(text) {
            Some(parsed) => sessions.insert(thread, GlueView::started(parsed, path, layout)),
            None => sessions,
        },
        _ => sessions,
    }
}

/// Takes up the outcome of validating the start URL: with a URL, the thread
/// gets a new session started on it, in place of one it may have had; with
/// none, nothing changes. A session that is replaced is dropped without a
/// word: whoever drives its engine is not told, and the engine is left behind.
pub fn init_with(
    sessions: &mut Sessions,
    thread: u64,
    parsed_url: Option<String>,
    resources_path: String,
    layout: ViewLayout,
) -> (res: ServoResult)
    ensures
        res == navigation_result(text_of(parsed_url)),
        match parsed_url {
            Some(url) => final(sessions)@ == old(sessions)@.insert(
                thread,
                GlueView::started(url@, resources_path@, layout),
            ),
            None => final(sessions)@ == old(sessions)@,
        },
{
    match parsed_url {
        Some(url) => {
            let _ = sessions.bind(thread, ServoGlue::new(url, resources_path, layout));
            ServoResult::Success
        },
        None => ServoResult::CantParseUrl,
    }
}

/// Starts a session on the calling thread. Both texts are decoded first, the
/// resources path before the URL; then the URL is validated. A thread that
/// already has a session gets the new one in its place.
pub fn init(
    sessions: &mut Sessions,
    thread: u64,
    url: &[u8],
    resources_path: &[u8],
    layout: ViewLayout,
) -> (res: ServoResult)
    ensures
        res == init_result(url@, resources_path@),
        final(sessions)@ == init_sessions(old(sessions)@, thread, url@, resources_path@, layout),
        res != ServoResult::Success ==> final(sessions)@ == old(sessions)@,
        res == ServoResult::Success ==> final(sessions)@.contains_key(thread),
{
    let resources_path = match read_str(resources_path) {
        Some(path) => path,
        None => { return ServoResult::CantReadStr; },
    };
    let url = match read_str(url) {
        Some(url) => url,
        None => { return ServoResult::CantReadStr; },
    };
    let parsed = parse_url(url.as_str());
    init_with(sessions, thread, parsed, resources_path, layout)
}

/// The heartbeat of the calling thread's session. This needs to be called
/// every time the engine has woken the host.
pub fn perform_updates(sessions: &mut Sessions, thread: u64) -> (res: ServoResult)
    ensures
        !old(sessions)@.contains_key(thread) ==> res == ServoResult::WrongThread && final(sessions)@ == old(sessions)@,
        old(sessions)@.contains_key(thread) ==> res == ServoResult::Success && final(sessions)@
            == old(sessions)@.insert(thread, old(sessions)@[thread].heartbeat()),
{
    match sessions.take(thread) {
        Some(mut glue) => {
            let res = glue.perform_updates();
            let _ = sessions.bind(thread, glue);
            assert(final(sessions)@ =~= old(sessions)@.insert(
                thread,
                old(sessions)@[thread].heartbeat(),
            ));
            res
        },
        None => ServoResult::WrongThread,
    }
}

/// Scrolls the view of the calling thread's session.
pub fn scroll(
    sessions: &mut Sessions,
    thread: u64,
    dx: i32,
    dy: i32,
    x: u32,
    y: u32,
    state: ScrollState,
) -> (res: ServoResult)
    ensures
        !old(sessions)@.contains_key(thread) ==> res == ServoResult::WrongThread && final(sessions)@ == old(sessions)@,
        old(sessions)@.contains_key(thread) ==> res == ServoResult::Success && final(sessions)@
            == old(sessions)@.insert(thread, old(sessions)@[thread].scrolled(dx, dy, x, y, state)),
{
    match sessions.take(thread) {
        Some(mut glue) => {
            let res = glue.scroll(dx, dy, x, y, state);
            let _ = sessions.bind(thread, glue);
            assert(final(sessions)@ =~= old(sessions)@.insert(
                thread,
                old(sessions)@[thread].scrolled(dx, dy, x, y, state),
            ));
            res
        },
        None => ServoResult::WrongThread,
    }
}

/// Clicks into the view of the calling thread's session.
pub fn click(sessions: &mut Sessions, thread: u64, x: u32, y: u32) -> (res: ServoResult)
    ensures
        !old(sessions)@.contains_key(thread) ==> res == ServoResult::WrongThread && final(sessions)@ == old(sessions)@,
        old(sessions)@.contains_key(thread) ==> res == ServoResult::Success && final(sessions)@
            == old(sessions)@.insert(thread, old(sessions)@[thread].clicked(x, y)),
{
    match sessions.take(thread) {
        Some(mut glue) => {
            let res = glue.click(x, y);
            let _ = sessions.bind(thread, glue);
            assert(final(sessions)@ =~= old(sessions)@.insert(
                thread,
                old(sessions)@[thread].clicked(x, y),
            ));
            res
        },
        None => ServoResult::WrongThread,
    }
}

/// The result code of a request to navigate from the bytes of a URL.
pub open spec fn load_url_result(url: Seq<u8>) -> ServoResult {
    match spec_read_str(url) {
        Some(text) => navigation_result(url_parse(text)),
        None => ServoResult::CantReadStr,
    }
}

/// A session after a request to navigate from the bytes of a URL.
pub open spec fn load_url_session(glue: GlueView, url: Seq<u8>) -> GlueView {
    match spec_read_str(url) {
        Some(text) => glue.navigated(url_parse(text)),
        None => glue,
    }
}

/// Load a URL in the calling thread's session. This needs to be a valid URL.
pub fn load_url(sessions: &mut Sessions, thread: u64, url: &[u8]) -> (res: ServoResult)
    ensures
        !old(sessions)@.contains_key(thread) ==> res == ServoResult::WrongThread && final(sessions)@ == old(sessions)@,
        old(sessions)@.contains_key(thread) ==> res == load_url_result(url@) && final(sessions)@
            == old(sessions)@.insert(thread, load_url_session(old(sessions)@[thread], url@)),
        res != ServoResult::Success ==> final(sessions)@ == old(sessions)@,
{
    match sessions.take(thread) {
        Some(mut glue) => {
            let res = glue.load_url(url);
            let _ = sessions.bind(thread, glue);
            assert(final(sessions)@ =~= old(sessions)@.insert(
                thread,
                load_url_session(old(sessions)@[thread], url@),
            ));
            assert(res != ServoResult::Success ==> final(sessions)@ =~= old(sessions)@);
            res
        },
        None => ServoResult::WrongThread,
    }
}

/// Reload the page of the calling thread's session.
pub fn reload(sessions: &mut Sessions, thread: u64) -> (res: ServoResult)
    ensures
        !old(sessions)@.contains_key(thread) ==> res == ServoResult::WrongThread && final(sessions)@ == old(sessions)@,
        old(sessions)@.contains_key(thread) ==> res == ServoResult::Success && final(sessions)@
            == old(sessions)@.insert(
            thread,
            old(sessions)@[thread].enqueue(
                WindowEventView::Reload(old(sessions)@[thread].browser_id),
            ),
        ),
{
    match sessions.take(thread) {
        Some(mut glue) => {
            let res = glue.reload();
            let _ = sessions.bind(thread, glue);
            assert(final(sessions)@ =~= old(sessions)@.insert(
                thread,
                old(sessions)@[thread].enqueue(
                    WindowEventView::Reload(old(sessions)@[thread].browser_id),
                ),
            ));
            res
        },
        None => ServoResult::WrongThread,
    }
}

/// Replaces the layout of the view of the calling thread's session.
pub fn resize(sessions: &mut Sessions, thread: u64, layout: ViewLayout) -> (res: ServoResult)
    ensures
        !old(sessions)@.contains_key(thread) ==> res == ServoResult::WrongThread && final(sessions)@ == old(sessions)@,
        old(sessions)@.contains_key(thread) ==> res == ServoResult::Success && final(sessions)@
            == old(sessions)@.insert(thread, old(sessions)@[thread].resized(layout)),
{
    match sessions.take(thread) {
        Some(mut glue) => {
            let res = glue.resize(layout);
            let _ = sessions.bind(thread, glue);
            assert(final(sessions)@ =~= old(sessions)@.insert(
                thread,
                old(sessions)@[thread].resized(layout),
            ));
            res
        },
        None => ServoResult::WrongThread,
    }
}

/// Gives the view of the calling thread's session another size. The rest of
/// its layout is kept.
pub fn resize_view(sessions: &mut Sessions, thread: u64, width: u32, height: u32) -> (res:
    ServoResult)
    ensures
        !old(sessions)@.contains_key(thread) ==> res == ServoResult::WrongThread && final(sessions)@
            == old(sessions)@,
        old(sessions)@.contains_key(thread) ==> res == ServoResult::Success && final(sessions)@
            == old(sessions)@.insert(thread, old(sessions)@[thread].resized_to(width, height)),
{
    match sessions.take(thread) {
        Some(mut glue) => {
            let res = glue.resize_to(width, height);
            let _ = sessions.bind(thread, glue);
            assert(final(sessions)@ =~= old(sessions)@.insert(
                thread,
                old(sessions)@[thread].resized_to(width, height),
            ));
            res
        },
        None => ServoResult::WrongThread,
    }
}

/// Stop page loading. Left without effect.
pub fn stop() -> (res: ServoResult)
    ensures
        res == ServoResult::NotImplemented,
{
    ServoResult::NotImplemented
}

/// Goes one entry back in the history of the calling thread's session.
pub fn go_back(sessions: &mut Sessions, thread: u64) -> (res: ServoResult)
    ensures
        !old(sessions)@.contains_key(thread) ==> res == ServoResult::WrongThread && final(sessions)@ == old(sessions)@,
        old(sessions)@.contains_key(thread) ==> res == ServoResult::Success && final(sessions)@
            == old(sessions)@.insert(
            thread,
            old(sessions)@[thread].enqueue(
                WindowEventView::Navigation(
                    old(sessions)@[thread].browser_id,
                    TraversalDirection::Back(1),
                ),
            ),
        ),
{
    match sessions.take(thread) {
        Some(mut glue) => {
            let res = glue.go_back();
            let _ = sessions.bind(thread, glue);
            assert(final(sessions)@ =~= old(sessions)@.insert(
                thread,
                old(sessions)@[thread].enqueue(
                    WindowEventView::Navigation(
                        old(sessions)@[thread].browser_id,
                        TraversalDirection::Back(1),
                    ),
                ),
            ));
            res
        },
        None => ServoResult::WrongThread,
    }
}

/// Goes one entry forward in the history of the calling thread's session.
pub fn go_forward(sessions: &mut Sessions, thread: u64) -> (res: ServoResult)
    ensures
        !old(sessions)@.contains_key(thread) ==> res == ServoResult::WrongThread && final(sessions)@ == old(sessions)@,
        old(sessions)@.contains_key(thread) ==> res == ServoResult::Success && final(sessions)@
            == old(sessions)@.insert(
            thread,
            old(sessions)@[thread].enqueue(
                WindowEventView::Navigation(
                    old(sessions)@[thread].browser_id,
                    TraversalDirection::Forward(1),
                ),
            ),
        ),
{
    match sessions.take(thread) {
        Some(mut glue) => {
            let res = glue.go_forward();
            let _ = sessions.bind(thread, glue);
            assert(final(sessions)@ =~= old(sessions)@.insert(
                thread,
                old(sessions)@[thread].enqueue(
                    WindowEventView::Navigation(
                        old(sessions)@[thread].browser_id,
                        TraversalDirection::Forward(1),
                    ),
                ),
            ));
            res
        },
        None => ServoResult::WrongThread,
    }
}

/// Resets the calling thread's session to a clean page.
pub fn erase(sessions: &mut Sessions, thread: u64) -> (res: ServoResult)
    ensures
        !old(sessions)@.contains_key(thread) ==> res == ServoResult::WrongThread && final(sessions)@ == old(sessions)@,
        old(sessions)@.contains_key(thread) ==> res == ServoResult::Success && final(sessions)@
            == old(sessions)@.insert(thread, old(sessions)@[thread].erased()),
{
    match sessions.take(thread) {
        Some(mut glue) => {
            let res = glue.erase();
            let _ = sessions.bind(thread, glue);
            assert(final(sessions)@ =~= old(sessions)@.insert(
                thread,
                old(sessions)@[thread].erased(),
            ));
            res
        },
        None => ServoResult::WrongThread,
    }
}

/// Ends the calling thread's session: the thread then has none, and a later
/// command from it is refused until a session is started again.
pub fn shutdown(sessions: &mut Sessions, thread: u64) -> (res: ServoResult)
    ensures
        !old(sessions)@.contains_key(thread) ==> res == ServoResult::WrongThread && final(sessions)@ == old(sessions)@,
        old(sessions)@.contains_key(thread) ==> res == ServoResult::Success && final(sessions)@
            == old(sessions)@.remove(thread),
{
    match sessions.take(thread) {
        Some(_) => ServoResult::Success,
        None => ServoResult::WrongThread,
    }
}

} // verus!
