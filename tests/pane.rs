use editor_panes::pane::{
    find_pointer, first_content_node, render_target_extent, route_pointer_events, PaneInput,
    PanePointerEvent, PointerId, PointerTarget, RenderTargetExtent,
};

#[test]
fn new_pane_is_idle() {
    let p = PaneInput::new();
    assert!(!p.hovered);
    assert!(!p.camera_enabled);
}

#[test]
fn hover_move_leave_cycle() {
    let p = PaneInput::new().apply(PanePointerEvent::Over);
    assert_eq!(p, PaneInput { hovered: true, camera_enabled: false });
    let p = p.apply(PanePointerEvent::Move);
    assert_eq!(p, PaneInput { hovered: true, camera_enabled: true });
    let p = p.apply(PanePointerEvent::Out);
    assert_eq!(p, PaneInput { hovered: false, camera_enabled: false });
}

#[test]
fn move_without_hover_enables_camera_only() {
    let p = PaneInput::new().apply(PanePointerEvent::Move);
    assert_eq!(p, PaneInput { hovered: false, camera_enabled: true });
}

#[test]
fn first_content_node_picks_first() {
    assert_eq!(first_content_node(&vec![false, true, true]), Some(1));
    assert_eq!(first_content_node(&vec![true]), Some(0));
}

#[test]
fn first_content_node_none() {
    assert_eq!(first_content_node(&vec![]), None);
    assert_eq!(first_content_node(&vec![false, false]), None);
}

#[test]
fn find_pointer_matches_identity() {
    let pointers = vec![PointerId::Touch(3), PointerId::Mouse, PointerId::Touch(7), PointerId::Mouse];
    assert_eq!(find_pointer(&pointers, PointerId::Mouse), Some(1));
    assert_eq!(find_pointer(&pointers, PointerId::Touch(7)), Some(2));
    assert_eq!(find_pointer(&pointers, PointerId::Touch(4)), None);
    assert_eq!(find_pointer(&pointers, PointerId::Custom(7)), None);
    assert_eq!(find_pointer(&vec![], PointerId::Mouse), None);
}

#[test]
fn extent_keeps_positive_sides() {
    assert_eq!(
        render_target_extent(640, 480),
        RenderTargetExtent { width: 640, height: 480, depth_or_array_layers: 1 }
    );
}

#[test]
fn extent_clamps_empty_sides() {
    assert_eq!(
        render_target_extent(0, 0),
        RenderTargetExtent { width: 1, height: 1, depth_or_array_layers: 1 }
    );
    assert_eq!(render_target_extent(0, u32::MAX).height, u32::MAX);
    assert_eq!(render_target_extent(0, u32::MAX).width, 1);
}

#[test]
fn routes_window_events_to_hovered_panes() {
    let events = vec![PointerTarget::Window, PointerTarget::Image, PointerTarget::Window];
    let hovered = vec![true, false, true];
    assert_eq!(
        route_pointer_events(&events, &hovered),
        vec![(0, 0), (0, 2), (2, 0), (2, 2)]
    );
}

#[test]
fn no_routes_without_hover_or_window_events() {
    let events = vec![PointerTarget::Window, PointerTarget::Window];
    assert_eq!(route_pointer_events(&events, &vec![false, false]), vec![]);
    let events = vec![PointerTarget::Image];
    assert_eq!(route_pointer_events(&events, &vec![true]), vec![]);
    assert_eq!(route_pointer_events(&vec![], &vec![true]), vec![]);
}
