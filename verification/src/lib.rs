//! Session and event orchestration for embedding a web engine in a host application.
//!
//! The engine and the host are both outside this crate. A session records the
//! commands it hands to the engine and the notifications it owes the host; whoever
//! drives the session carries them out.

pub mod api;
pub mod events;
pub mod text;
pub mod host;
pub mod engine;
pub mod callbacks;
pub mod glue;
pub mod sessions;
pub mod logs;
pub mod laws;

pub use api::{
    layout_of_size, BrowserId, Margins, Position, ScrollState, ServoResult, Size, TouchState,
    ViewLayout, DEFAULT_HIDPI_FACTOR,
};
pub use callbacks::{DeviceRect, EmbedderCoordinates, ServoCallbacks};
pub use engine::Servo;
pub use events::{
    DevicePoint, EmbedderMsg, LoadData, MouseButton, MouseWindowEvent, ScrollDelta,
    TouchEventType, TraversalDirection, WindowEvent,
};
pub use glue::{servo_version, version_line, NavigationReply, ServoGlue};
pub use host::{history_flags, HostCall, HostCallbacks};
pub use sessions::{
    click, erase, go_back, go_forward, init, init_with, load_url, perform_updates, reload, resize,
    resize_view, scroll, shutdown, stop, Sessions,
};
