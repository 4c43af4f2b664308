use vstd::prelude::*;

use crate::error::AppError;
use crate::models::{DockedEdge, WindowPosition};

verus! {

/// Distance below which a window counts as touching a screen edge.
pub const DOCK_THRESHOLD: i64 = 15;

/// Thickness of a collapsed window along its docked axis.
pub const INDICATOR_THICKNESS: u32 = 2;

/// Width used for a Top collapse when neither the caller nor the window
/// reports one.
pub const FALLBACK_WIDTH: u32 = 800;

/// Position and size of a monitor, in physical pixels.
#[derive(Debug, Clone, Copy, PartialEq, Eq)]
pub struct MonitorInfo {
    pub x: i32,
    pub y: i32,
    pub width: u32,
    pub height: u32,
}

/// Outer position and size of a window, in physical pixels.
#[derive(Debug, Clone, Copy, PartialEq, Eq)]
pub struct Geometry {
    pub x: i64,
    pub y: i64,
    pub width: u32,
    pub height: u32,
}

/// The edge a window is close to: Right is tried before Top, and Left and
/// Bottom are never reported.
pub open spec fn docking_edge(enabled: bool, x: i32, y: i32, width: u32, m: MonitorInfo) -> Option<DockedEdge> {
    let to_right = (m.x + m.width) - (x + width);
    let to_top = y - m.y;
    if !enabled {
        None
    } else if 0 <= to_right < DOCK_THRESHOLD {
        Some(DockedEdge::Right)
    } else if 0 <= to_top < DOCK_THRESHOLD {
        Some(DockedEdge::Top)
    } else {
        None
    }
}

/// Whether a window at (`x`, `y`) with the given width touches the right or
/// the top edge of the monitor; always `None` while docking is switched off.
pub fn check_edge_docking(enabled: bool, x: i32, y: i32, width: u32, m: MonitorInfo) -> (r: Option<DockedEdge>)
    ensures
        r == docking_edge(enabled, x, y, width, m),
{
    if !enabled {
        return None;
    }
    let to_right: i64 = (m.x as i64 + m.width as i64) - (x as i64 + width as i64);
    let to_top: i64 = y as i64 - m.y as i64;
    if 0 <= to_right && to_right < DOCK_THRESHOLD {
        Some(DockedEdge::Right)
    } else if 0 <= to_top && to_top < DOCK_THRESHOLD {
        Some(DockedEdge::Top)
    } else {
        None
    }
}

/// Where a window of the given size is placed when docked to `edge`: Left and
/// Right put its top at a third of the monitor's height, Top and Bottom
/// center it horizontally.
pub open spec fn dock_spot(edge: DockedEdge, m: MonitorInfo, width: u32, height: u32) -> (int, int) {
    match edge {
        DockedEdge::Left => (m.x as int, m.y + m.height / 3),
        DockedEdge::Right => (m.x + m.width - width, m.y + m.height / 3),
        DockedEdge::Top => (m.x + m.width / 2 - width / 2, m.y as int),
        DockedEdge::Bottom => (m.x + m.width / 2 - width / 2, m.y + m.height - height),
    }
}

pub fn dock_position(edge: DockedEdge, m: MonitorInfo, width: u32, height: u32) -> (r: (i64, i64))
    ensures
        (r.0 as int, r.1 as int) == dock_spot(edge, m, width, height),
{
    let mx = m.x as i64;
    let my = m.y as i64;
    let mw = m.width as i64;
    let mh = m.height as i64;
    let w = width as i64;
    let h = height as i64;
    match edge {
        DockedEdge::Left => (mx, my + mh / 3),
        DockedEdge::Right => (mx + mw - w, my + mh / 3),
        DockedEdge::Top => (mx + mw / 2 - w / 2, my),
        DockedEdge::Bottom => (mx + mw / 2 - w / 2, my + mh - h),
    }
}

/// The geometry of a window collapsed against `edge`, or `None` for an edge
/// that cannot be collapsed against. For Top, the left edge and width are the
/// caller's, else the window's own, else the monitor's left edge and
/// `FALLBACK_WIDTH`.
pub open spec fn collapsed(
    edge: DockedEdge,
    m: MonitorInfo,
    window_y: i32,
    window_height: u32,
    window_x: Option<i32>,
    window_width: Option<u32>,
    current_x: Option<i32>,
    current_width: Option<u32>,
) -> Option<Geometry> {
    match edge {
        DockedEdge::Right => Some(Geometry {
            x: (m.x + m.width - INDICATOR_THICKNESS) as i64,
            y: window_y as i64,
            width: INDICATOR_THICKNESS,
            height: window_height,
        }),
        DockedEdge::Top => Some(Geometry {
            x: match window_x {
                Some(v) => v as i64,
                None => match current_x {
                    Some(v) => v as i64,
                    None => m.x as i64,
                },
            },
            y: m.y as i64,
            width: match window_width {
                Some(v) => v,
                None => match current_width {
                    Some(v) => v,
                    None => FALLBACK_WIDTH,
                },
            },
            height: INDICATOR_THICKNESS,
        }),
        _ => None,
    }
}

/// Shrinks a docked window to a thin indicator along its edge. Only Right and
/// Top are supported; any other edge is `UnsupportedOperation`.
pub fn collapse_to_edge(
    edge: DockedEdge,
    m: MonitorInfo,
    window_y: i32,
    window_height: u32,
    window_x: Option<i32>,
    window_width: Option<u32>,
    current_x: Option<i32>,
    current_width: Option<u32>,
) -> (r: Result<Geometry, AppError>)
    ensures
        match collapsed(edge, m, window_y, window_height, window_x, window_width, current_x, current_width) {
            Some(g) => r == Ok::<Geometry, AppError>(g),
            None => r == Err::<Geometry, AppError>(AppError::UnsupportedOperation),
        },
{
    match edge {
        DockedEdge::Right => Ok(Geometry {
            x: m.x as i64 + m.width as i64 - INDICATOR_THICKNESS as i64,
            y: window_y as i64,
            width: INDICATOR_THICKNESS,
            height: window_height,
        }),
        DockedEdge::Top => {
            let x: i64 = match window_x {
                Some(v) => v as i64,
                None => match current_x {
                    Some(v) => v as i64,
                    None => m.x as i64,
                },
            };
            let width: u32 = match window_width {
                Some(v) => v,
                None => match current_width {
                    Some(v) => v,
                    None => FALLBACK_WIDTH,
                },
            };
            Ok(Geometry { x, y: m.y as i64, width, height: INDICATOR_THICKNESS })
        },
        _ => Err(AppError::UnsupportedOperation),
    }
}

/// The geometry that expanding with the given position and size yields.
pub open spec fn expanded(x: i32, y: i32, width: u32, height: u32) -> Geometry {
    Geometry { x: x as i64, y: y as i64, width, height }
}

/// Restores a collapsed window to the position and size the caller kept.
pub fn expand_from_edge(x: i32, y: i32, width: u32, height: u32) -> (r: Geometry)
    ensures
        r == expanded(x, y, width, height),
{
    Geometry { x: x as i64, y: y as i64, width, height }
}

/// A collapse against the top edge keeps the window's left edge and width,
/// and expanding with the position and size the caller kept beforehand gives
/// back exactly that geometry.
pub proof fn lemma_collapse_top_then_expand(
    m: MonitorInfo,
    x: i32,
    y: i32,
    width: u32,
    height: u32,
    current_x: Option<i32>,
    current_width: Option<u32>,
)
    ensures
        collapsed(DockedEdge::Top, m, y, height, Some(x), Some(width), current_x, current_width)
            == Some(Geometry { x: x as i64, y: m.y as i64, width, height: INDICATOR_THICKNESS }),
        expanded(x, y, width, height) == (Geometry { x: x as i64, y: y as i64, width, height }),
{
}

/// Whether the pointer, where the platform reports one, lies inside the
/// window's outer rectangle (left and top inclusive, right and bottom
/// exclusive).
pub open spec fn pointer_inside(pointer: Option<(i32, i32)>, g: Geometry) -> bool {
    match pointer {
        Some(p) => g.x <= p.0 < g.x + g.width && g.y <= p.1 < g.y + g.height,
        None => false,
    }
}

pub fn is_mouse_in_window(pointer: Option<(i32, i32)>, window_x: i32, window_y: i32, width: u32, height: u32) -> (r: bool)
    ensures
        r == pointer_inside(pointer, Geometry { x: window_x as i64, y: window_y as i64, width, height }),
{
    match pointer {
        Some((px, py)) => {
            let x = window_x as i64;
            let y = window_y as i64;
            x <= px as i64 && (px as i64) < x + width as i64 && y <= py as i64 && (py as i64) < y + height as i64
        },
        None => false,
    }
}

/// A floating window's position record made from its outer geometry.
pub fn get_window_position(x: i32, y: i32, width: u32, height: u32) -> (r: WindowPosition)
    ensures
        r == (WindowPosition { x: x as i64, y: y as i64, width: width as i64, height: height as i64, docked_edge: None }),
{
    WindowPosition { x: x as i64, y: y as i64, width: width as i64, height: height as i64, docked_edge: None }
}

} // verus!
