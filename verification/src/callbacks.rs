//! What the engine reads from the embedder and reports to it while it paints.

use vstd::prelude::*;
use crate::api::{Size, ViewLayout};
use crate::events::LoadData;
use crate::host::{
    history_flags, host_call_views, spec_can_go_back, spec_can_go_forward, HostCall,
    HostCallView, HostCallbacks,
};

verus! {

/// A rectangle of device pixels.
#[derive(Clone, Copy, Debug, PartialEq, Eq, Structural)]
pub struct DeviceRect {
    pub x: u32,
    pub y: u32,
    pub size: Size,
}

/// The geometry that the engine asks for before it composites.
#[derive(Clone, Copy, Debug, PartialEq, Eq, Structural)]
pub struct EmbedderCoordinates {
    /// Pixel density, as the bit pattern of an IEEE 754 single-precision number.
    pub hidpi_factor: u32,
    /// Size of the screen.
    pub screen: Size,
    /// Size of the screen that is free for windows.
    pub screen_avail: Size,
    /// Size of the window.
    pub window_size: Size,
    /// Place of the window.
    pub window_x: i32,
    /// Place of the window.
    pub window_y: i32,
    /// Size of the framebuffer.
    pub framebuffer: Size,
    /// The part of the framebuffer that pages are painted into.
    pub viewport: DeviceRect,
}

/// The coordinates of a view of the given layout: everything has the size of
/// the view and starts at the origin.
pub open spec fn coordinates_of(layout: ViewLayout) -> EmbedderCoordinates {
    EmbedderCoordinates {
        hidpi_factor: layout.hidpi_factor,
        screen: layout.view_size,
        screen_avail: layout.view_size,
        window_size: layout.view_size,
        window_x: 0,
        window_y: 0,
        framebuffer: layout.view_size,
        viewport: DeviceRect { x: 0, y: 0, size: layout.view_size },
    }
}

/// The host notifications for a changed history: first the two flags, then the
/// URL of the current entry.
pub open spec fn history_calls(entries: Seq<LoadData>, current: int) -> Seq<HostCallView> {
    seq![
        HostCallView::HistoryChanged(
            spec_can_go_back(current),
            spec_can_go_forward(entries.len() as int, current),
        ),
        HostCallView::UrlChanged(entries[current].url@),
    ]
}

/// The state of [`ServoCallbacks`]: the layout and the notifications owed to the host.
pub struct CallbacksView {
    pub layout: ViewLayout,
    pub host_calls: Seq<HostCallView>,
}

/// The embedder as the engine sees it: the geometry of the view, and the way
/// to the host.
pub struct ServoCallbacks {
    host_callbacks: HostCallbacks,
    layout: ViewLayout,
}

impl View for ServoCallbacks {
    type V = CallbacksView;

    closed spec fn view(&self) -> CallbacksView {
        CallbacksView { layout: self.layout, host_calls: self.host_callbacks@ }
    }
}

impl ServoCallbacks {
    /// Binds a host adapter to a view of the given layout.
    pub fn new(host_callbacks: HostCallbacks, layout: ViewLayout) -> (callbacks: ServoCallbacks)
        ensures
            callbacks@ == (CallbacksView { layout, host_calls: host_callbacks@ }),
    {
        ServoCallbacks { host_callbacks, layout }
    }

    /// The layout of the view.
    pub fn layout(&self) -> (layout: ViewLayout)
        ensures
            layout == self@.layout,
    {
        self.layout
    }

    /// Replaces the layout of the view as a whole.
    pub fn set_layout(&mut self, layout: ViewLayout)
        ensures
            final(self)@ == (CallbacksView { layout, ..old(self)@ }),
    {
        self.layout = layout;
    }

    /// The engine may always composite.
    pub fn prepare_for_composite(&self) -> (ready: bool)
        ensures
            ready,
    {
        true
    }

    /// The engine painted a frame: the host is told to present it.
    pub fn present(&mut self)
        ensures
            final(self)@ == (CallbacksView {
                host_calls: old(self)@.host_calls.push(HostCallView::Flush),
                ..old(self)@
            }),
    {
        self.host_callbacks.flush();
    }

    /// The embedder offers no clipboard.
    pub fn supports_clipboard(&self) -> (supported: bool)
        ensures
            !supported,
    {
        false
    }

    /// The geometry of the view, read as a whole.
    pub fn get_coordinates(&self) -> (coordinates: EmbedderCoordinates)
        ensures
            coordinates == coordinates_of(self@.layout),
    {
        let size = self.layout.view_size;
        EmbedderCoordinates {
            hidpi_factor: self.layout.hidpi_factor,
            screen: size,
            screen_avail: size,
            window_size: size,
            window_x: 0,
            window_y: 0,
            framebuffer: size,
            viewport: DeviceRect { x: 0, y: 0, size },
        }
    }

    /// Pixel density of the view, as the bit pattern of an IEEE 754
    /// single-precision number.
    pub fn hidpi_factor(&self) -> (factor: u32)
        ensures
            factor == self@.layout.hidpi_factor,
    {
        self.layout.hidpi_factor
    }

    /// Size of the framebuffer: that of the view.
    pub fn framebuffer_size(&self) -> (size: Size)
        ensures
            size == self@.layout.view_size,
    {
        self.layout.view_size
    }

    /// The window's rectangle: the framebuffer, from the origin.
    pub fn window_rect(&self) -> (rect: DeviceRect)
        ensures
            rect == (DeviceRect { x: 0, y: 0, size: self@.layout.view_size }),
    {
        DeviceRect { x: 0, y: 0, size: self.framebuffer_size() }
    }

    /// A page load started: the host is told.
    pub fn load_start(&mut self)
        ensures
            final(self)@ == (CallbacksView {
                host_calls: old(self)@.host_calls.push(HostCallView::LoadStarted),
                ..old(self)@
            }),
    {
        self.host_callbacks.on_load_started();
    }

    /// A page load finished: the host is told.
    pub fn load_end(&mut self)
        ensures
            final(self)@ == (CallbacksView {
                host_calls: old(self)@.host_calls.push(HostCallView::LoadEnded),
                ..old(self)@
            }),
    {
        self.host_callbacks.on_load_ended();
    }

    /// The title line changed: the host is told.
    pub fn title_changed(&mut self, title: String)
        ensures
            final(self)@ == (CallbacksView {
                host_calls: old(self)@.host_calls.push(HostCallView::TitleChanged(title@)),
                ..old(self)@
            }),
    {
        self.host_callbacks.on_title_changed(title);
    }

    /// The session history changed: the host is told whether it may go back and
    /// forward, and then the URL of the current entry.
    pub fn history_changed(&mut self, entries: &Vec<LoadData>, current: usize)
        requires
            current < entries@.len(),
        ensures
            final(self)@ == (CallbacksView {
                host_calls: old(self)@.host_calls + history_calls(entries@, current as int),
                ..old(self)@
            }),
    {
        let (can_go_back, can_go_forward) = history_flags(entries.len(), current);
        self.host_callbacks.on_history_changed(can_go_back, can_go_forward);
        self.host_callbacks.on_url_changed(entries[current].url.clone());
        assert(final(self)@.host_calls =~= old(self)@.host_calls + history_calls(
            entries@,
            current as int,
        ));
    }

    /// Whether the engine may navigate: always.
    pub fn allow_navigation(&self) -> (allowed: bool)
        ensures
            allowed,
    {
        true
    }

    /// The notifications owed to the host, oldest first.
    pub fn host_calls(&self) -> (calls: &Vec<HostCall>)
        ensures
            host_call_views(calls@) == self@.host_calls,
    {
        self.host_callbacks.calls()
    }

    /// Hands out the notifications owed to the host, oldest first, and forgets them.
    pub fn take_host_calls(&mut self) -> (calls: Vec<HostCall>)
        ensures
            host_call_views(calls@) == old(self)@.host_calls,
            final(self)@ == (CallbacksView {
                host_calls: Seq::<HostCallView>::empty(),
                ..old(self)@
            }),
    {
        self.host_callbacks.take()
    }
}

} // verus!
