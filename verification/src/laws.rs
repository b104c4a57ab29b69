//! What holds of sessions whatever the host and the engine do.

use vstd::prelude::*;
use crate::api::{ServoResult, ViewLayout};
use crate::callbacks::history_calls;
use crate::events::{EmbedderMsg, LoadData, WindowEventView};
use crate::glue::{host_calls_for, navigation_result, url_after, GlueView};
use crate::host::{spec_can_go_back, spec_can_go_forward, HostCallView};
use crate::sessions::{init_result, init_sessions, load_url_result, load_url_session};
use crate::text::{
    placeholder_title, spec_displayed_title, spec_read_str, title_suffix, url_parse,
};

verus! {

/// A text that is no URL is refused as such, and the session is as it was:
/// nothing waits for the engine and nothing is submitted to it on that account.
pub proof fn lemma_malformed_url_is_refused(glue: GlueView, text: Seq<char>)
    requires
        url_parse(text) is None,
    ensures
        navigation_result(url_parse(text)) == ServoResult::CantParseUrl,
        glue.navigated(url_parse(text)) == glue,
        glue.navigated(url_parse(text)).pending == glue.pending,
        glue.navigated(url_parse(text)).submitted == glue.submitted,
{
}

/// The same of the bytes of a URL: where they spell a text that is no URL, the
/// request is refused and the session is as it was.
pub proof fn lemma_malformed_url_bytes_are_refused(glue: GlueView, url: Seq<u8>)
    requires
        spec_read_str(url) matches Some(text) && url_parse(text) is None,
    ensures
        load_url_result(url) == ServoResult::CantParseUrl,
        load_url_session(glue, url) == glue,
{
}

/// A session is not started on a text that is no URL: the start is refused,
/// and every thread has the session that it had.
pub proof fn lemma_malformed_start_url_is_refused(
    sessions: Map<u64, GlueView>,
    thread: u64,
    url: Seq<u8>,
    resources_path: Seq<u8>,
    layout: ViewLayout,
)
    requires
        spec_read_str(resources_path) is Some,
        spec_read_str(url) matches Some(text) && url_parse(text) is None,
    ensures
        init_result(url, resources_path) == ServoResult::CantParseUrl,
        init_sessions(sessions, thread, url, resources_path, layout) == sessions,
{
}

/// A heartbeat with nothing waiting leaves the session as it was.
pub proof fn lemma_idle_heartbeat_is_noop(glue: GlueView)
    requires
        glue.pending.len() == 0,
    ensures
        glue.heartbeat() == glue,
{
    assert(glue.heartbeat().pending =~= glue.pending);
    assert(glue.heartbeat().submitted =~= glue.submitted);
}

/// A second heartbeat right after a first changes nothing.
pub proof fn lemma_heartbeat_is_idempotent(glue: GlueView)
    ensures
        glue.heartbeat().heartbeat() == glue.heartbeat(),
{
    lemma_idle_heartbeat_is_noop(glue.heartbeat());
}

/// Commands reach the engine in the order in which they were enqueued: after
/// three commands and one heartbeat, the engine has been handed what it had,
/// then what waited before, then the three, in that order.
pub proof fn lemma_heartbeat_keeps_order(
    glue: GlueView,
    first: WindowEventView,
    second: WindowEventView,
    third: WindowEventView,
)
    ensures
        glue.enqueue(first).enqueue(second).enqueue(third).heartbeat().submitted
            == glue.submitted + glue.pending + seq![first, second, third],
        glue.enqueue(first).enqueue(second).enqueue(third).heartbeat().pending.len() == 0,
{
    assert(glue.enqueue(first).enqueue(second).enqueue(third).heartbeat().submitted
        =~= glue.submitted + glue.pending + seq![first, second, third]);
}

/// A resize, a navigation and another resize reach the engine in that order,
/// and the layout read afterwards is that of the last resize.
pub proof fn lemma_resize_load_resize_in_order(
    glue: GlueView,
    first: ViewLayout,
    url: Seq<char>,
    last: ViewLayout,
)
    requires
        glue.pending.len() == 0,
    ensures
        glue.resized(first).navigated(Some(url)).resized(last).heartbeat().submitted
            == glue.submitted + seq![
            WindowEventView::Resize,
            WindowEventView::LoadUrl(glue.browser_id, url),
            WindowEventView::Resize,
        ],
        glue.resized(first).navigated(Some(url)).resized(last).heartbeat().layout == last,
{
    assert(glue.resized(first).navigated(Some(url)).resized(last).heartbeat().submitted
        =~= glue.submitted + seq![
        WindowEventView::Resize,
        WindowEventView::LoadUrl(glue.browser_id, url),
        WindowEventView::Resize,
    ]);
}

/// For a history of any length and any of its entries as the current one, the
/// host is told that it may go back exactly if the entry is not the first, and
/// forward exactly if it is not the last; then it is told the entry's URL,
/// which the session records.
pub proof fn lemma_history_flags_are_consistent(
    glue: GlueView,
    msg: EmbedderMsg,
    entries: Seq<LoadData>,
    current: int,
)
    requires
        msg matches EmbedderMsg::HistoryChanged(_, list, index) && list@ == entries && index
            == current,
        0 <= current < entries.len(),
    ensures
        spec_can_go_back(current) == (current > 0),
        spec_can_go_forward(entries.len() as int, current) == (current < entries.len() - 1),
        host_calls_for(msg, glue.current_url) == seq![
            HostCallView::HistoryChanged(current > 0, current < entries.len() - 1),
            HostCallView::UrlChanged(entries[current].url@),
        ],
        glue.notified(msg).current_url == Some(entries[current].url@),
        glue.notified(msg).host_calls == glue.host_calls + history_calls(entries, current),
{
    assert(host_calls_for(msg, glue.current_url) =~= seq![
        HostCallView::HistoryChanged(current > 0, current < entries.len() - 1),
        HostCallView::UrlChanged(entries[current].url@),
    ]);
}

/// Where the engine reports no title or an empty one, the title shown is the
/// URL last recorded, or the placeholder where none was recorded yet, followed
/// by the suffix; a title that is not empty is shown itself, followed by the
/// suffix.
pub proof fn lemma_title_fallback(title: Option<Seq<char>>, current_url: Option<Seq<char>>)
    ensures
        (title is None || title == Some(Seq::<char>::empty())) && current_url is None
            ==> spec_displayed_title(title, current_url) == placeholder_title() + title_suffix(),
        (title is None || title == Some(Seq::<char>::empty())) && current_url is Some
            ==> spec_displayed_title(title, current_url) == current_url.unwrap() + title_suffix(),
        title is Some && title.unwrap().len() > 0 ==> spec_displayed_title(title, current_url)
            == title.unwrap() + title_suffix(),
{
}

/// A title notification changes nothing in the session but what the host is owed.
pub proof fn lemma_title_keeps_url(glue: GlueView, msg: EmbedderMsg)
    requires
        msg is ChangePageTitle,
    ensures
        url_after(msg, glue.current_url) == glue.current_url,
        glue.notified(msg).pending == glue.pending,
        glue.notified(msg).submitted == glue.submitted,
        glue.notified(msg).host_calls.len() == glue.host_calls.len() + 1,
{
}

/// Starting a session on a thread that has one replaces it: the thread's
/// session is then the one just started, with nothing kept of the old, and
/// every other thread has the session that it had.
pub proof fn lemma_init_replaces_session(
    sessions: Map<u64, GlueView>,
    thread: u64,
    url: Seq<u8>,
    resources_path: Seq<u8>,
    layout: ViewLayout,
)
    requires
        init_result(url, resources_path) == ServoResult::Success,
    ensures
        init_sessions(sessions, thread, url, resources_path, layout).contains_key(thread),
        init_sessions(sessions, thread, url, resources_path, layout)[thread] == GlueView::started(
            url_parse(spec_read_str(url).unwrap()).unwrap(),
            spec_read_str(resources_path).unwrap(),
            layout,
        ),
        init_sessions(sessions, thread, url, resources_path, layout) == init_sessions(
            sessions.remove(thread),
            thread,
            url,
            resources_path,
            layout,
        ),
        forall|other: u64|
            other != thread ==> (#[trigger] init_sessions(
                sessions,
                thread,
                url,
                resources_path,
                layout,
            ).contains_key(other) == sessions.contains_key(other)),
        forall|other: u64|
            other != thread && sessions.contains_key(other) ==> #[trigger] init_sessions(
                sessions,
                thread,
                url,
                resources_path,
                layout,
            )[other] == sessions[other],
{
    assert(init_sessions(sessions, thread, url, resources_path, layout) =~= init_sessions(
        sessions.remove(thread),
        thread,
        url,
        resources_path,
        layout,
    ));
}

} // verus!
