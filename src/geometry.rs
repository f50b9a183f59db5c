use vstd::prelude::*;

verus! {

/// A point in physical pixels: the origin of a display or of a window.
#[derive(Clone, Copy, Debug, PartialEq, Eq, Structural)]
pub struct Position {
    pub x: i32,
    pub y: i32,
}

/// An extent in physical pixels.
#[derive(Clone, Copy, Debug, PartialEq, Eq, Structural)]
pub struct Size {
    pub width: u32,
    pub height: u32,
}

/// Where a display sits on the desktop and how large it is.
#[derive(Clone, Copy, Debug, PartialEq, Eq, Structural)]
pub struct MonitorGeometry {
    pub position: Position,
    pub size: Size,
}

/// Width of the display assumed when none can be found.
pub const FALLBACK_MONITOR_WIDTH: u32 = 1920;

/// Height of the display assumed when none can be found.
pub const FALLBACK_MONITOR_HEIGHT: u32 = 1080;

/// The display assumed when the query for the current one yields nothing:
/// 1920 by 1080 at the desktop origin.
pub open spec fn fallback_monitor_spec() -> MonitorGeometry {
    MonitorGeometry {
        position: Position { x: 0, y: 0 },
        size: Size { width: 1920, height: 1080 },
    }
}

/// Horizontal coordinate that puts the right edge of a window of extent `window`
/// on the right edge of `monitor`.
pub open spec fn snapped_x(monitor: MonitorGeometry, window: Size) -> int {
    monitor.position.x + monitor.size.width - window.width
}

/// Whether the right-aligned placement is expressible in `i32` coordinates.
pub open spec fn snap_representable(monitor: MonitorGeometry, window: Size) -> bool {
    i32::MIN <= snapped_x(monitor, window) <= i32::MAX
}

impl Position {
    pub fn new(x: i32, y: i32) -> (r: Position)
        ensures
            r.x == x,
            r.y == y,
    {
        Position { x, y }
    }
}

impl Size {
    pub fn new(width: u32, height: u32) -> (r: Size)
        ensures
            r.width == width,
            r.height == height,
    {
        Size { width, height }
    }
}

impl MonitorGeometry {
    pub fn new(position: Position, size: Size) -> (r: MonitorGeometry)
        ensures
            r.position == position,
            r.size == size,
    {
        MonitorGeometry { position, size }
    }

    /// The display assumed when none can be found.
    pub fn fallback() -> (r: MonitorGeometry)
        ensures
            r == fallback_monitor_spec(),
    {
        MonitorGeometry {
            position: Position { x: 0, y: 0 },
            size: Size { width: FALLBACK_MONITOR_WIDTH, height: FALLBACK_MONITOR_HEIGHT },
        }
    }
}

/// The geometry of the display holding the window, or the fallback display when
/// the query found none (or failed).
pub fn monitor_or_fallback(found: Option<MonitorGeometry>) -> (r: MonitorGeometry)
    ensures
        r == match found {
            Some(m) => m,
            None => fallback_monitor_spec(),
        },
{
    match found {
        Some(m) => m,
        None => MonitorGeometry::fallback(),
    }
}

/// Placement of a window of outer extent `window` flush with the right edge of
/// `monitor` and aligned with its top edge.
///
/// Returns `None` when that placement lies outside the `i32` coordinate space;
/// the window is then left where it is.
pub fn snap_position(monitor: &MonitorGeometry, window: Size) -> (r: Option<Position>)
    ensures
        r.is_some() == snap_representable(*monitor, window),
        r matches Some(p) ==> p.x == snapped_x(*monitor, window) && p.y == monitor.position.y,
        r matches Some(p) ==> p.x + window.width == monitor.position.x + monitor.size.width,
{
    let x: i64 = monitor.position.x as i64 + monitor.size.width as i64 - window.width as i64;
    if x < i32::MIN as i64 || x > i32::MAX as i64 {
        None
    } else {
        Some(Position { x: x as i32, y: monitor.position.y })
    }
}

} // verus!
