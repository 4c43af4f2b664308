use xtodo::error::AppError;
use xtodo::geometry::{
    check_edge_docking, collapse_to_edge, dock_position, expand_from_edge, get_window_position,
    is_mouse_in_window, Geometry, MonitorInfo,
};
use xtodo::models::{DockedEdge, WindowPosition};

fn monitor() -> MonitorInfo {
    MonitorInfo { x: 0, y: 0, width: 1920, height: 1080 }
}

#[test]
fn edge_detection_scenario() {
    // right-edge distance 1920 - (1905 + 384) = -369: outside the threshold
    assert_eq!(check_edge_docking(true, 1905, 300, 384, monitor()), None);
    // right-edge distance 1920 - (1533 + 384) = 3: inside it
    assert_eq!(check_edge_docking(true, 1533, 300, 384, monitor()), Some(DockedEdge::Right));
    // right-edge distance 1920 - (1539 + 384) = -3: the window overhangs the edge
    assert_eq!(check_edge_docking(true, 1539, 300, 384, monitor()), None);
}

#[test]
fn edge_detection_top_and_tie_break() {
    assert_eq!(check_edge_docking(true, 500, 10, 384, monitor()), Some(DockedEdge::Top));
    assert_eq!(check_edge_docking(true, 1536, 0, 384, monitor()), Some(DockedEdge::Right));
    assert_eq!(check_edge_docking(true, 500, 15, 384, monitor()), None);
    assert_eq!(check_edge_docking(true, 500, -1, 384, monitor()), None);
    assert_eq!(check_edge_docking(false, 1539, 0, 384, monitor()), None);
    assert_eq!(check_edge_docking(true, 0, 500, 384, monitor()), None);
}

#[test]
fn dock_positions() {
    let m = MonitorInfo { x: 100, y: 50, width: 1920, height: 1080 };
    assert_eq!(dock_position(DockedEdge::Left, m, 384, 720), (100, 410));
    assert_eq!(dock_position(DockedEdge::Right, m, 384, 720), (1636, 410));
    assert_eq!(dock_position(DockedEdge::Top, m, 385, 720), (868, 50));
    assert_eq!(dock_position(DockedEdge::Bottom, m, 384, 720), (868, 410));
}

#[test]
fn collapse_right_and_top() {
    let m = monitor();
    assert_eq!(
        collapse_to_edge(DockedEdge::Right, m, 300, 720, None, None, None, None),
        Ok(Geometry { x: 1918, y: 300, width: 2, height: 720 })
    );
    assert_eq!(
        collapse_to_edge(DockedEdge::Top, m, 300, 720, Some(700), Some(384), Some(1), Some(2)),
        Ok(Geometry { x: 700, y: 0, width: 384, height: 2 })
    );
    assert_eq!(
        collapse_to_edge(DockedEdge::Top, m, 300, 720, None, None, Some(33), None),
        Ok(Geometry { x: 33, y: 0, width: 800, height: 2 })
    );
    assert_eq!(
        collapse_to_edge(DockedEdge::Left, m, 300, 720, None, None, None, None),
        Err(AppError::UnsupportedOperation)
    );
    assert_eq!(
        collapse_to_edge(DockedEdge::Bottom, m, 300, 720, None, None, None, None),
        Err(AppError::UnsupportedOperation)
    );
}

#[test]
fn collapse_top_then_expand_restores() {
    let c = collapse_to_edge(DockedEdge::Top, monitor(), 300, 720, Some(700), Some(384), None, None).unwrap();
    assert_eq!(c.height, 2);
    assert_eq!(expand_from_edge(700, 300, 384, 720), Geometry { x: 700, y: 300, width: 384, height: 720 });
}

#[test]
fn pointer_inside_window() {
    assert!(is_mouse_in_window(Some((10, 10)), 10, 10, 5, 5));
    assert!(!is_mouse_in_window(Some((15, 10)), 10, 10, 5, 5));
    assert!(!is_mouse_in_window(Some((9, 12)), 10, 10, 5, 5));
    assert!(!is_mouse_in_window(None, 10, 10, 5, 5));
}

#[test]
fn floating_window_position() {
    assert_eq!(
        get_window_position(1, 2, 3, 4),
        WindowPosition { x: 1, y: 2, width: 3, height: 4, docked_edge: None }
    );
}
