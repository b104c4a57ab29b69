//! Commands handed to the engine and notifications received from it.

use vstd::prelude::*;
use crate::api::{BrowserId, Position, ScrollState, Size};

verus! {

/// Direction and distance of a move through the session history.
#[derive(Clone, Copy, Debug, PartialEq, Eq, Structural)]
pub enum TraversalDirection {
    Forward(usize),
    Back(usize),
}

/// Phase of a touch gesture as the engine understands it.
#[derive(Clone, Copy, Debug, PartialEq, Eq, Structural)]
pub enum TouchEventType {
    Down,
    Move,
    Up,
    Cancel,
}

/// Mouse button of a pointer event.
#[derive(Clone, Copy, Debug, PartialEq, Eq, Structural)]
pub enum MouseButton {
    Left,
    Middle,
    Right,
}

/// Pointer event with its button and its place in device pixels.
#[derive(Clone, Copy, Debug, PartialEq, Eq, Structural)]
pub enum MouseWindowEvent {
    Click(MouseButton, u32, u32),
    MouseDown(MouseButton, u32, u32),
    MouseUp(MouseButton, u32, u32),
}

/// Distance to scroll by, in device pixels.
#[derive(Clone, Copy, Debug, PartialEq, Eq, Structural)]
pub struct ScrollDelta {
    pub dx: i32,
    pub dy: i32,
}

/// A point of the view, in device pixels.
#[derive(Clone, Copy, Debug, PartialEq, Eq, Structural)]
pub struct DevicePoint {
    pub x: i32,
    pub y: i32,
}

/// A command for the engine.
#[derive(Clone, Debug, PartialEq, Eq)]
pub enum WindowEvent {
    /// Create a browsing context showing the URL, known by the handle from now on.
    NewBrowser(String, BrowserId),
    /// Make the browsing context the active one.
    SelectBrowser(BrowserId),
    /// Close the browsing context.
    CloseBrowser(BrowserId),
    /// Navigate the browsing context to the URL.
    LoadUrl(BrowserId, String),
    /// Load the current page again.
    Reload(BrowserId),
    /// Move through the session history.
    Navigation(BrowserId, TraversalDirection),
    /// The geometry of the view changed and is to be read again.
    Resize,
    /// Scroll by a distance around a point.
    Scroll(ScrollDelta, DevicePoint, TouchEventType),
    /// A pointer event.
    MouseWindowEventClass(MouseWindowEvent),
}

/// What a [`WindowEvent`] says, with its text as a sequence of characters.
pub enum WindowEventView {
    NewBrowser(Seq<char>, BrowserId),
    SelectBrowser(BrowserId),
    CloseBrowser(BrowserId),
    LoadUrl(BrowserId, Seq<char>),
    Reload(BrowserId),
    Navigation(BrowserId, TraversalDirection),
    Resize,
    Scroll(ScrollDelta, DevicePoint, TouchEventType),
    MouseWindowEventClass(MouseWindowEvent),
}

impl View for WindowEvent {
    type V = WindowEventView;

    open spec fn view(&self) -> WindowEventView {
        match *self {
            WindowEvent::NewBrowser(url, id) => WindowEventView::NewBrowser(url@, id),
            WindowEvent::SelectBrowser(id) => WindowEventView::SelectBrowser(id),
            WindowEvent::CloseBrowser(id) => WindowEventView::CloseBrowser(id),
            WindowEvent::LoadUrl(id, url) => WindowEventView::LoadUrl(id, url@),
            WindowEvent::Reload(id) => WindowEventView::Reload(id),
            WindowEvent::Navigation(id, direction) => WindowEventView::Navigation(id, direction),
            WindowEvent::Resize => WindowEventView::Resize,
            WindowEvent::Scroll(delta, point, phase) => WindowEventView::Scroll(delta, point, phase),
            WindowEvent::MouseWindowEventClass(event) => WindowEventView::MouseWindowEventClass(
                event,
            ),
        }
    }
}

/// What a sequence of commands says, one by one and in the same order.
pub open spec fn event_views(events: Seq<WindowEvent>) -> Seq<WindowEventView> {
    events.map_values(|event: WindowEvent| event@)
}

/// One entry of the session history.
#[derive(Clone, Debug, PartialEq, Eq)]
pub struct LoadData {
    pub url: String,
}

/// A notification from the engine.
#[derive(Clone, Debug, PartialEq, Eq)]
pub enum EmbedderMsg {
    /// Status text for the host to show, if any.
    Status(BrowserId, Option<String>),
    /// The page title changed; `None` when the page has none.
    ChangePageTitle(BrowserId, Option<String>),
    /// The page asks to move the window.
    MoveTo(BrowserId, Position),
    /// The page asks to resize the window.
    ResizeTo(BrowserId, Size),
    /// The engine asks whether it may navigate to the URL. The number names the
    /// request, and the answer carries it back.
    AllowNavigation(BrowserId, String, u64),
    /// A key press that the page did not consume.
    KeyEvent(Option<BrowserId>, Option<char>),
    /// The pointer's shape changed.
    SetCursor,
    /// The page has a new icon at the URL.
    NewFavicon(BrowserId, String),
    /// The document head was parsed.
    HeadParsed(BrowserId),
    /// The session history changed: its entries and the index of the current one.
    HistoryChanged(BrowserId, Vec<LoadData>, usize),
    /// The page entered or left fullscreen.
    SetFullscreenState(BrowserId, bool),
    /// A page load started.
    LoadStart(BrowserId),
    /// A page load finished.
    LoadComplete(BrowserId),
    /// The engine has shut down.
    Shutdown,
    /// A thread of the engine failed, with the reason.
    Panic(BrowserId, String),
}

impl EmbedderMsg {
    /// A history notification names one of its own entries as the current one.
    pub open spec fn well_formed(self) -> bool {
        match self {
            EmbedderMsg::HistoryChanged(_, entries, current) => current < entries@.len(),
            _ => true,
        }
    }
}

/// The engine's gesture phase for a scroll state of the host.
pub open spec fn spec_touch_phase(state: ScrollState) -> TouchEventType {
    match state {
        ScrollState::Start => TouchEventType::Down,
        ScrollState::Move => TouchEventType::Move,
        ScrollState::End => TouchEventType::Up,
        ScrollState::Canceled => TouchEventType::Cancel,
    }
}

/// The engine's gesture phase for a scroll state of the host.
#[verifier::when_used_as_spec(spec_touch_phase)]
pub fn touch_phase(state: ScrollState) -> (phase: TouchEventType)
    ensures
        phase == spec_touch_phase(state),
{
    match state {
        ScrollState::Start => TouchEventType::Down,
        ScrollState::Move => TouchEventType::Move,
        ScrollState::End => TouchEventType::Up,
        ScrollState::Canceled => TouchEventType::Cancel,
    }
}

/// The two's complement reading of an unsigned coordinate.
pub open spec fn spec_signed_coordinate(value: u32) -> int {
    if value <= 0x7fff_ffff {
        value as int
    } else {
        value as int - 0x1_0000_0000
    }
}

/// The two's complement reading of an unsigned coordinate: values past the
/// largest signed one come out negative.
pub fn signed_coordinate(value: u32) -> (signed: i32)
    ensures
        signed as int == spec_signed_coordinate(value),
{
    if value <= 0x7fff_ffff {
        value as i32
    } else {
        ((value - 0x8000_0000) as i32) + i32::MIN
    }
}

} // verus!
