//! Where the launcher window goes: snapping to a screen edge it was dragged
//! near, sliding a docked window out of view and back, and what the tray
//! icon's menu and clicks do.

use vstd::prelude::*;
use crate::model::DockResult;

verus! {

/// How close (in pixels) a window edge must come to a screen edge to dock.
pub const SNAP_THRESHOLD: i32 = 24;

/// How many pixels of a hidden docked window stay on screen.
pub const DOCK_TRIGGER: i32 = 4;

pub open spec fn fits_i32(x: int) -> bool {
    i32::MIN <= x <= i32::MAX
}

pub open spec fn abs_spec(x: int) -> int {
    if x < 0 {
        -x
    } else {
        x
    }
}

/// A rectangle on the virtual screen: position and size in pixels.
#[derive(Debug, Clone, Copy, PartialEq, Eq)]
pub struct Rect {
    pub x: i32,
    pub y: i32,
    pub width: u32,
    pub height: u32,
}

/// The right edge of a rectangle.
pub open spec fn right_of(r: Rect) -> int {
    r.x + (r.width as i32)
}

pub open spec fn left_distance(monitor: Rect, window: Rect) -> int {
    abs_spec(window.x - monitor.x)
}

pub open spec fn top_distance(monitor: Rect, window: Rect) -> int {
    abs_spec(window.y - monitor.y)
}

pub open spec fn right_distance(monitor: Rect, window: Rect) -> int {
    abs_spec(right_of(monitor) - right_of(window))
}

/// The inputs on which every step of the snap computation stays within
/// `i32` (sizes are read as `i32`, wrapping as `as` does).
pub open spec fn snap_defined(monitor: Rect, window: Rect) -> bool {
    &&& fits_i32(window.x - monitor.x) && window.x - monitor.x != i32::MIN
    &&& fits_i32(window.y - monitor.y) && window.y - monitor.y != i32::MIN
    &&& fits_i32(right_of(monitor))
    &&& fits_i32(right_of(window))
    &&& fits_i32(right_of(monitor) - right_of(window))
    &&& right_of(monitor) - right_of(window) != i32::MIN
    &&& (top_distance(monitor, window) <= 24 || (left_distance(monitor, window) > 24
        && right_distance(monitor, window) <= 24)) ==> fits_i32(
        right_of(monitor) - (window.width as i32),
    )
    &&& top_distance(monitor, window) <= 24 ==> monitor.x <= right_of(monitor) - (
    window.width as i32)
}

pub open spec fn max_spec(a: int, b: int) -> int {
    if a >= b {
        a
    } else {
        b
    }
}

/// A screen edge a window can dock at.
#[derive(Debug, Clone, Copy, PartialEq, Eq)]
pub enum DockEdge {
    Top,
    Left,
    Right,
}

/// The name of an edge in a `DockResult`.
pub open spec fn edge_name(e: DockEdge) -> Seq<char> {
    match e {
        DockEdge::Top => "top"@,
        DockEdge::Left => "left"@,
        DockEdge::Right => "right"@,
    }
}

/// Where snapping puts a window, and at which edge: the top edge first,
/// then the left, then the right, whichever is within 24 pixels; the
/// window keeps its other coordinate, kept on the screen.
pub open spec fn snap_spec(monitor: Rect, window: Rect) -> Option<(DockEdge, (int, int))> {
    if top_distance(monitor, window) <= 24 {
        Some(
            (
                DockEdge::Top,
                (
                    if window.x < monitor.x {
                        monitor.x as int
                    } else if window.x > right_of(monitor) - (window.width as i32) {
                        right_of(monitor) - (window.width as i32)
                    } else {
                        window.x as int
                    },
                    monitor.y as int,
                ),
            ),
        )
    } else if left_distance(monitor, window) <= 24 {
        Some((DockEdge::Left, (monitor.x as int, max_spec(window.y as int, monitor.y as int))))
    } else if right_distance(monitor, window) <= 24 {
        Some(
            (
                DockEdge::Right,
                (
                    right_of(monitor) - (window.width as i32),
                    max_spec(window.y as int, monitor.y as int),
                ),
            ),
        )
    } else {
        None
    }
}

fn abs_i32(x: i32) -> (r: i32)
    requires
        x != i32::MIN,
    ensures
        r == abs_spec(x as int),
{
    if x < 0 {
        -x
    } else {
        x
    }
}

/// Docks a window dragged near a screen edge: the answer, and where to move
/// the window when it docks.
pub fn snap_to_edge(monitor: Rect, window: Rect) -> (r: (DockResult, Option<(i32, i32)>))
    requires
        snap_defined(monitor, window),
    ensures
        match snap_spec(monitor, window) {
            Some((edge, (x, y))) => r.0.docked && r.0.position@ == edge_name(edge) && r.1 == Some(
                (x as i32, y as i32),
            ),
            None => !r.0.docked && r.0.position@ == "none"@ && r.1 is None,
        },
        // Near the top edge: docked at the top, moved up to it, keeping its
        // x unless that would put it past the left or right edge.
        top_distance(monitor, window) <= 24 ==> r.0.docked && r.0.position@ == "top"@ && (
        r.1 matches Some((x, y)) && y == monitor.y && (monitor.x <= window.x <= right_of(monitor)
            - (window.width as i32) ==> x == window.x) && (window.x < monitor.x ==> x == monitor.x)
            && (window.x > right_of(monitor) - (window.width as i32) ==> x == right_of(monitor) - (
        window.width as i32))),
        // Else near the left edge: moved to it, keeping its y but not above
        // the screen.
        top_distance(monitor, window) > 24 && left_distance(monitor, window) <= 24 ==> r.0.docked
            && r.0.position@ == "left"@ && r.1 == Some(
            (monitor.x, if window.y >= monitor.y {
                window.y
            } else {
                monitor.y
            }),
        ),
        // Else near the right edge: moved flush with it.
        top_distance(monitor, window) > 24 && left_distance(monitor, window) > 24 && right_distance(
            monitor,
            window,
        ) <= 24 ==> r.0.docked && r.0.position@ == "right"@ && (r.1 matches Some((x, y)) && x
            + (window.width as i32) == right_of(monitor) && y == (if window.y >= monitor.y {
            window.y
        } else {
            monitor.y
        })),
        // Far from all three edges: not docked, not moved.
        top_distance(monitor, window) > 24 && left_distance(monitor, window) > 24 && right_distance(
            monitor,
            window,
        ) > 24 ==> !r.0.docked && r.0.position@ == "none"@ && r.1 is None,
{
    let left = abs_i32(window.x - monitor.x);
    let top = abs_i32(window.y - monitor.y);
    let right_edge = monitor.x + monitor.width as i32;
    let right = abs_i32(right_edge - (window.x + window.width as i32));
    if top <= SNAP_THRESHOLD {
        let max_x = right_edge - window.width as i32;
        let x = if window.x < monitor.x {
            monitor.x
        } else if window.x > max_x {
            max_x
        } else {
            window.x
        };
        return (DockResult { docked: true, position: "top".to_owned() }, Some((x, monitor.y)));
    }
    let y = if window.y >= monitor.y {
        window.y
    } else {
        monitor.y
    };
    if left <= SNAP_THRESHOLD {
        return (DockResult { docked: true, position: "left".to_owned() }, Some((monitor.x, y)));
    }
    if right <= SNAP_THRESHOLD {
        return (
            DockResult { docked: true, position: "right".to_owned() },
            Some((right_edge - window.width as i32, y)),
        );
    }
    (DockResult { docked: false, position: "none".to_owned() }, None)
}

fn fits_i32_exec(v: i64) -> (b: bool)
    ensures
        b == fits_i32(v as int),
{
    -2147483648 <= v && v <= 2147483647
}

fn abs_i64(x: i64) -> (r: i64)
    requires
        -0x1_0000_0000_0000 <= x <= 0x1_0000_0000_0000,
    ensures
        r == abs_spec(x as int),
{
    if x < 0 {
        -x
    } else {
        x
    }
}

/// Whether `snap_to_edge` is defined on these rectangles: whether every
/// step of the computation stays within `i32`, and a window snapped to the
/// top fits between the screen's left and right edges.
pub fn snap_in_range(monitor: Rect, window: Rect) -> (b: bool)
    ensures
        b == snap_defined(monitor, window),
{
    let mw = monitor.width as i32;
    let ww = window.width as i32;
    let dx = window.x as i64 - monitor.x as i64;
    let dy = window.y as i64 - monitor.y as i64;
    let mr = monitor.x as i64 + mw as i64;
    let wr = window.x as i64 + ww as i64;
    let dr = mr - wr;
    let top = abs_i64(dy);
    let left = abs_i64(dx);
    let right = abs_i64(dr);
    let max_x = mr - ww as i64;
    let basic = fits_i32_exec(dx) && dx != -2147483648 && fits_i32_exec(dy) && dy != -2147483648
        && fits_i32_exec(mr) && fits_i32_exec(wr) && fits_i32_exec(dr) && dr != -2147483648;
    let needs_max = top <= 24 || (left > 24 && right <= 24);
    let max_ok = !needs_max || fits_i32_exec(max_x);
    let order_ok = !(top <= 24) || monitor.x as i64 <= max_x;
    basic && max_ok && order_ok
}

/// A top snap keeps the window's x whenever the window already lies
/// between the screen's left and right edges, and otherwise moves it just
/// inside the edge it crossed; it always lands on the top edge. (A window
/// wider than the screen cannot be placed so; the snap is not defined
/// there.)
pub proof fn lemma_top_snap_keeps_x(monitor: Rect, window: Rect)
    requires
        top_distance(monitor, window) <= 24,
        monitor.x <= right_of(monitor) - (window.width as i32),
    ensures
        snap_spec(monitor, window) matches Some((edge, (x, y))) && edge == DockEdge::Top && y
            == monitor.y && (monitor.x <= window.x <= right_of(monitor) - (window.width as i32) ==> x
            == window.x) && (window.x < monitor.x ==> x == monitor.x) && (window.x > right_of(
            monitor,
        ) - (window.width as i32) ==> x == right_of(monitor) - (window.width as i32)),
{
}

/// Snapping a window that a top snap just placed keeps it where it is, at
/// the top.
pub proof fn lemma_top_snap_is_stable(monitor: Rect, window: Rect)
    requires
        snap_defined(monitor, window),
        snap_spec(monitor, window) matches Some((edge, _)) && edge == DockEdge::Top,
    ensures
        match snap_spec(monitor, window) {
            Some((edge, (x, y))) => snap_spec(monitor, Rect { x: x as i32, y: y as i32, ..window })
                == snap_spec(monitor, window),
            None => true,
        },
{
    if let Some((edge, (x, y))) = snap_spec(monitor, window) {
        let placed = Rect { x: x as i32, y: y as i32, ..window };
        assert(monitor.x <= x <= right_of(monitor) - (window.width as i32));
        assert(placed.x == x && placed.y == monitor.y);
        assert(top_distance(monitor, placed) == 0);
        assert(placed.width == window.width);
    }
}

/// The edge named `top`, `left` or `right`.
pub open spec fn dock_edge_spec(name: Seq<char>) -> Option<DockEdge> {
    if name == "top"@ {
        Some(DockEdge::Top)
    } else if name == "left"@ {
        Some(DockEdge::Left)
    } else if name == "right"@ {
        Some(DockEdge::Right)
    } else {
        None
    }
}

/// The edge named `top`, `left` or `right`.
pub fn dock_edge(name: &str) -> (r: Option<DockEdge>)
    ensures
        r == dock_edge_spec(name@),
{
    let n = name.to_owned();
    if n == "top".to_owned() {
        Some(DockEdge::Top)
    } else if n == "left".to_owned() {
        Some(DockEdge::Left)
    } else if n == "right".to_owned() {
        Some(DockEdge::Right)
    } else {
        None
    }
}

/// Where a window docked at `edge` goes when hidden (all but four pixels
/// off screen) or shown (flush with the edge); it keeps its other
/// coordinate.
pub open spec fn dock_position_spec(
    edge: DockEdge,
    hide: bool,
    current: (i32, i32),
    monitor: Rect,
    window: Rect,
) -> (int, int) {
    match edge {
        DockEdge::Top => if hide {
            (current.0 as int, monitor.y - (window.height as i32) + 4)
        } else {
            (current.0 as int, monitor.y as int)
        },
        DockEdge::Left => if hide {
            (monitor.x - (window.width as i32) + 4, current.1 as int)
        } else {
            (monitor.x as int, current.1 as int)
        },
        DockEdge::Right => if hide {
            (right_of(monitor) - 4, current.1 as int)
        } else {
            (right_of(monitor) - (window.width as i32), current.1 as int)
        },
    }
}

/// The inputs on which the position computation stays within `i32`.
pub open spec fn dock_defined(edge: DockEdge, hide: bool, monitor: Rect, window: Rect) -> bool {
    match edge {
        DockEdge::Top => (hide ==> (fits_i32(monitor.y - (window.height as i32)) && fits_i32(
            monitor.y - (window.height as i32) + 4,
        ))),
        DockEdge::Left => (hide ==> (fits_i32(monitor.x - (window.width as i32)) && fits_i32(
            monitor.x - (window.width as i32) + 4,
        ))),
        DockEdge::Right => {
            &&& fits_i32(right_of(monitor))
            &&& hide ==> fits_i32(right_of(monitor) - 4)
            &&& !hide ==> fits_i32(right_of(monitor) - (window.width as i32))
        },
    }
}

/// Whether `docked_window_position` is defined for this edge name: an
/// unknown name always is; a known edge when the new position fits in
/// `i32`.
pub fn dock_in_range(edge_name: &str, hide: bool, monitor: Rect, window: Rect) -> (b: bool)
    ensures
        b == (dock_edge_spec(edge_name@) matches Some(e) ==> dock_defined(e, hide, monitor, window)),
{
    let mw = monitor.width as i32;
    let ww = window.width as i32;
    let wh = window.height as i32;
    match dock_edge(edge_name) {
        None => true,
        Some(DockEdge::Top) => !hide || (fits_i32_exec(monitor.y as i64 - wh as i64)
            && fits_i32_exec(monitor.y as i64 - wh as i64 + 4)),
        Some(DockEdge::Left) => !hide || (fits_i32_exec(monitor.x as i64 - ww as i64)
            && fits_i32_exec(monitor.x as i64 - ww as i64 + 4)),
        Some(DockEdge::Right) => {
            let right = monitor.x as i64 + mw as i64;
            fits_i32_exec(right) && (!hide || fits_i32_exec(right - 4)) && (hide || fits_i32_exec(
                right - ww as i64,
            ))
        },
    }
}

/// Where to move a docked window on hiding or showing; `None` for an edge
/// name other than `top`, `left` and `right` (the window stays).
pub fn docked_window_position(
    edge_name: &str,
    hide: bool,
    current: (i32, i32),
    monitor: Rect,
    window: Rect,
) -> (r: Option<(i32, i32)>)
    requires
        dock_edge_spec(edge_name@) matches Some(e) ==> dock_defined(e, hide, monitor, window),
    ensures
        match dock_edge_spec(edge_name@) {
            None => r is None,
            Some(e) => r matches Some((x, y)) && (x as int, y as int) == dock_position_spec(
                e,
                hide,
                current,
                monitor,
                window,
            ),
        },
{
    let edge = match dock_edge(edge_name) {
        None => {
            return None;
        },
        Some(e) => e,
    };
    let (x, y) = match edge {
        DockEdge::Top => if hide {
            (current.0, monitor.y - window.height as i32 + DOCK_TRIGGER)
        } else {
            (current.0, monitor.y)
        },
        DockEdge::Left => if hide {
            (monitor.x - window.width as i32 + DOCK_TRIGGER, current.1)
        } else {
            (monitor.x, current.1)
        },
        DockEdge::Right => if hide {
            (monitor.x + monitor.width as i32 - DOCK_TRIGGER, current.1)
        } else {
            (monitor.x + monitor.width as i32 - window.width as i32, current.1)
        },
    };
    Some((x, y))
}

/// Hiding a docked window leaves exactly four pixels of it on screen at
/// that edge, showing it puts it flush against the edge, and both keep the
/// coordinate along the edge.
pub proof fn lemma_dock_hide_show(edge: DockEdge, current: (i32, i32), monitor: Rect, window: Rect)
    ensures
        ({
            let hidden = dock_position_spec(edge, true, current, monitor, window);
            let shown = dock_position_spec(edge, false, current, monitor, window);
            match edge {
                DockEdge::Top => hidden.1 + (window.height as i32) == monitor.y + 4 && shown.1
                    == monitor.y && hidden.0 == current.0 && shown.0 == current.0,
                DockEdge::Left => hidden.0 + (window.width as i32) == monitor.x + 4 && shown.0
                    == monitor.x && hidden.1 == current.1 && shown.1 == current.1,
                DockEdge::Right => hidden.0 == right_of(monitor) - 4 && shown.0 + (
                window.width as i32) == right_of(monitor) && hidden.1 == current.1 && shown.1
                    == current.1,
            }
        }),
{
}

/// Whether a window at `current` lies flush against the given edge.
pub open spec fn flush_with(edge: DockEdge, current: (i32, i32), monitor: Rect, window: Rect) -> bool {
    match edge {
        DockEdge::Top => current.1 == monitor.y,
        DockEdge::Left => current.0 == monitor.x,
        DockEdge::Right => current.0 + (window.width as i32) == right_of(monitor),
    }
}

/// A window that snapping docks at an edge ends up flush with that edge.
pub proof fn lemma_snap_leaves_window_flush(monitor: Rect, window: Rect)
    requires
        snap_defined(monitor, window),
    ensures
        snap_spec(monitor, window) matches Some((edge, (x, y))) ==> flush_with(
            edge,
            (x as i32, y as i32),
            monitor,
            window,
        ),
{
}

/// Showing a docked window after hiding it puts it back where it was, when
/// it was flush with the edge (as snapping leaves it).
pub proof fn lemma_show_undoes_hide(edge: DockEdge, current: (i32, i32), monitor: Rect, window: Rect)
    requires
        dock_defined(edge, true, monitor, window),
        dock_defined(edge, false, monitor, window),
        flush_with(edge, current, monitor, window),
    ensures
        ({
            let hidden = dock_position_spec(edge, true, current, monitor, window);
            dock_position_spec(edge, false, (hidden.0 as i32, hidden.1 as i32), monitor, window)
                == (current.0 as int, current.1 as int)
        }),
{
}

/// What a tray menu entry does.
#[derive(Debug, Clone, Copy, PartialEq, Eq)]
pub enum TrayAction {
    ShowWindow,
    HideWindow,
    Quit,
    Ignore,
}

/// The action of the tray menu entry with the given id: `show`, `hide`,
/// `quit`; any other id does nothing.
pub fn tray_menu_action(id: &str) -> (a: TrayAction)
    ensures
        a == (if id@ == "show"@ {
            TrayAction::ShowWindow
        } else if id@ == "hide"@ {
            TrayAction::HideWindow
        } else if id@ == "quit"@ {
            TrayAction::Quit
        } else {
            TrayAction::Ignore
        }),
{
    let i = id.to_owned();
    if i == "show".to_owned() {
        TrayAction::ShowWindow
    } else if i == "hide".to_owned() {
        TrayAction::HideWindow
    } else if i == "quit".to_owned() {
        TrayAction::Quit
    } else {
        TrayAction::Ignore
    }
}

/// A click on the tray icon shows the window when it is the left button
/// being released.
pub fn tray_click_shows_window(left_button: bool, released: bool) -> (r: bool)
    ensures
        r == (left_button && released),
{
    left_button && released
}

} // verus!
