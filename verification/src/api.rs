//! Result codes and geometry records exchanged with the host.

use vstd::prelude::*;

verus! {

/// Outcome of a command issued by the host.
#[derive(Clone, Copy, Debug, PartialEq, Eq, Structural)]
pub enum ServoResult {
    /// The command was accepted.
    Success,
    /// An internal failure that fits no other code.
    UnexpectedError,
    /// The calling thread has no session bound to it.
    WrongThread,
    /// Text supplied by the host is not valid UTF-8.
    CantReadStr,
    /// Text supplied by the host is not a URL.
    CantParseUrl,
    /// The operation is deliberately left without effect.
    NotImplemented,
}

impl ServoResult {
    /// The number that stands for a result where the host takes numbers: the
    /// place of the result in the list of results, counted from zero.
    pub open spec fn spec_code(self) -> i32 {
        match self {
            ServoResult::Success => 0,
            ServoResult::UnexpectedError => 1,
            ServoResult::WrongThread => 2,
            ServoResult::CantReadStr => 3,
            ServoResult::CantParseUrl => 4,
            ServoResult::NotImplemented => 5,
        }
    }

    /// The number that stands for a result where the host takes numbers.
    #[verifier::when_used_as_spec(spec_code)]
    pub fn code(self) -> (code: i32)
        ensures
            code == self.spec_code(),
            code == 0 <==> self == ServoResult::Success,
    {
        match self {
            ServoResult::Success => 0,
            ServoResult::UnexpectedError => 1,
            ServoResult::WrongThread => 2,
            ServoResult::CantReadStr => 3,
            ServoResult::CantParseUrl => 4,
            ServoResult::NotImplemented => 5,
        }
    }
}

/// Phase of a scroll gesture as the host reports it.
#[derive(Clone, Copy, Debug, PartialEq, Eq, Structural)]
pub enum ScrollState {
    Start,
    Move,
    End,
    Canceled,
}

/// Touch state
#[derive(Clone, Copy, Debug, PartialEq, Eq, Structural)]
pub enum TouchState {
    Down,
    Up,
}

/// Extent of a surface, in hardware pixels.
#[derive(Clone, Copy, Debug, PartialEq, Eq, Structural)]
pub struct Size {
    pub width: u32,
    pub height: u32,
}

/// Margins of the view, in hardware pixels.
#[derive(Clone, Copy, Debug, PartialEq, Eq, Structural)]
pub struct Margins {
    pub top: u32,
    pub right: u32,
    pub bottom: u32,
    pub left: u32,
}

/// Position of the window.
#[derive(Clone, Copy, Debug, PartialEq, Eq, Structural)]
pub struct Position {
    pub x: i32,
    pub y: i32,
}

/// Geometry of the view that the engine paints into.
#[derive(Clone, Copy, Debug, PartialEq, Eq, Structural)]
pub struct ViewLayout {
    /// Size of the view. Hardware pixels.
    pub view_size: Size,
    /// Margins of the view. Pages are painted all over the surface, but layout
    /// coordinates are bound by these margins.
    pub margins: Margins,
    /// Position of the window.
    pub position: Position,
    /// Pixel density, as the bit pattern of an IEEE 754 single-precision number.
    pub hidpi_factor: u32,
}

/// The pixel density of a view that is given by its size alone: the bit
/// pattern of the number two.
pub const DEFAULT_HIDPI_FACTOR: u32 = 0x4000_0000;

/// The layout of a view that is given by its size alone: no margins, the
/// window at the origin, and the default pixel density.
pub open spec fn spec_layout_of_size(width: u32, height: u32) -> ViewLayout {
    ViewLayout {
        view_size: Size { width, height },
        margins: Margins { top: 0, right: 0, bottom: 0, left: 0 },
        position: Position { x: 0, y: 0 },
        hidpi_factor: DEFAULT_HIDPI_FACTOR,
    }
}

/// The layout of a view that is given by its size alone.
#[verifier::when_used_as_spec(spec_layout_of_size)]
pub fn layout_of_size(width: u32, height: u32) -> (layout: ViewLayout)
    ensures
        layout == spec_layout_of_size(width, height),
        layout.view_size == (Size { width, height }),
        layout.margins == (Margins { top: 0, right: 0, bottom: 0, left: 0 }),
        layout.position == (Position { x: 0, y: 0 }),
        layout.hidpi_factor == 0x4000_0000,
{
    ViewLayout {
        view_size: Size { width, height },
        margins: Margins { top: 0, right: 0, bottom: 0, left: 0 },
        position: Position { x: 0, y: 0 },
        hidpi_factor: DEFAULT_HIDPI_FACTOR,
    }
}

/// Handle of a browsing context. The session allots it; whoever drives the
/// engine keeps the engine's own identifier beside it.
#[derive(Clone, Copy, Debug, PartialEq, Eq, Structural)]
pub struct BrowserId(pub u64);

impl BrowserId {
    /// The handle after this one, starting over after the largest.
    pub open spec fn spec_next(self) -> BrowserId {
        BrowserId(if self.0 == u64::MAX { 0 } else { (self.0 + 1) as u64 })
    }

    /// The handle after this one, which always differs from it.
    #[verifier::when_used_as_spec(spec_next)]
    pub fn next(self) -> (id: BrowserId)
        ensures
            id == self.spec_next(),
            id != self,
    {
        if self.0 == u64::MAX {
            BrowserId(0)
        } else {
            BrowserId(self.0 + 1)
        }
    }
}

} // verus!
