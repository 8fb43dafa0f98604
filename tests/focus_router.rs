use cosmic_panel::geometry::{Point, Rect};
use cosmic_panel::layer::{KeyboardInteractivity, LayerEvent, LayerState, OutputSelector, PanelAnchor, PanelSettings, SurfaceSize};
use cosmic_panel::panel::PanelSpace;
use cosmic_panel::popup::{PopupError, Positioner, Request};

const LAYER: u64 = 10;

fn bound_panel() -> PanelSpace {
    let mut p = PanelSpace::new(120);
    let settings = PanelSettings {
        output: OutputSelector::Active,
        layer: 2,
        anchor: PanelAnchor::Top,
        min_size: SurfaceSize { width: 0, height: 0 },
        expand_to_edges: true,
        keyboard: KeyboardInteractivity::OnDemand,
    };
    p.new_output(&settings, None, LAYER).unwrap();
    p.add_window(1, Point { x: 0, y: 0 }, Rect { x: 0, y: 0, width: 50, height: 30 });
    p.add_window(2, Point { x: 50, y: 0 }, Rect { x: 50, y: 0, width: 50, height: 30 });
    p
}

fn with_popup(p: &mut PanelSpace) {
    let pos = Positioner {
        width: 100,
        height: 80,
        anchor_rect: Rect { x: 0, y: 0, width: 10, height: 10 },
        anchor_edges: 0,
        gravity: 0,
        constraint_adjustment: 0,
        offset: Point { x: 0, y: 0 },
        reactive: false,
        parent_size: None,
    };
    p.add_popup(7, 70, pos, Rect { x: 4, y: 6, width: 100, height: 80 }, None, Point { x: 0, y: 0 }).unwrap();
}

#[test]
fn motion_on_panel_hovers_topmost_element() {
    let mut p = bound_panel();
    let seat = "seat0".to_string();
    let f = p.update_pointer(60, 10, &seat, LAYER).unwrap();
    assert_eq!(f.surface, 2);
    assert_eq!(f.embedded_pos, Point { x: 50, y: 0 });
    assert_eq!(f.host_pos, Point { x: 50, y: 0 });
    assert_eq!(p.focused(&seat), Some(2));
    assert_eq!(p.hovered(&seat), Some(f));
}

#[test]
fn host_position_follows_scale() {
    let mut p = bound_panel();
    let seat = "seat0".to_string();
    p.scale_factor_changed(LAYER, 240, false, true, true, SurfaceSize { width: 100, height: 30 });
    let f = p.update_pointer(60, 10, &seat, LAYER).unwrap();
    assert_eq!(f.host_pos, Point { x: 25, y: 0 });
}

#[test]
fn motion_off_every_surface_drops_hover() {
    let mut p = bound_panel();
    let seat = "seat0".to_string();
    assert!(p.update_pointer(10, 10, &seat, LAYER).is_some());
    assert!(p.update_pointer(10, 10, &seat, 999).is_none());
    assert_eq!(p.hovered(&seat), None);
    assert!(p.update_pointer(10, 10, &seat, LAYER).is_some());
    assert!(p.update_pointer(500, 10, &seat, LAYER).is_none());
    assert_eq!(p.hovered(&seat), None);
}

#[test]
fn seats_are_tracked_apart() {
    let mut p = bound_panel();
    let a = "seat0".to_string();
    let b = "seat1".to_string();
    p.update_pointer(10, 10, &a, LAYER);
    p.update_pointer(60, 10, &b, LAYER);
    assert_eq!(p.hovered(&a).unwrap().surface, 1);
    assert_eq!(p.hovered(&b).unwrap().surface, 2);
    p.pointer_leave(&a);
    assert_eq!(p.hovered(&a), None);
    assert_eq!(p.hovered(&b).unwrap().surface, 2);
}

#[test]
fn motion_on_popup_uses_popup_geometry() {
    let mut p = bound_panel();
    with_popup(&mut p);
    let seat = "seat0".to_string();
    let f = p.update_pointer(3, 3, &seat, 70).unwrap();
    assert_eq!(f.surface, 7);
    assert_eq!(f.host_pos, Point { x: 0, y: 0 });
    assert_eq!(f.embedded_pos, Point { x: -4, y: -6 });
    assert_eq!(p.focused(&seat), Some(7));
}

#[test]
fn keyboard_leave_closes_popup() {
    let mut p = bound_panel();
    let seat = "seat0".to_string();
    p.update_pointer(10, 10, &seat, LAYER);
    with_popup(&mut p);
    let reqs = p.keyboard_leave(&seat);
    assert_eq!(reqs, vec![Request::EmbeddedPopupDone { surface: 7 }, Request::HostDestroyPopup { host: 70 }]);
    assert!(p.popup.is_none());
    assert_eq!(p.focused(&seat), None);
}

#[test]
fn keyboard_leave_of_other_seat_keeps_popup() {
    let mut p = bound_panel();
    let seat = "seat0".to_string();
    let other = "seat1".to_string();
    p.update_pointer(10, 10, &seat, LAYER);
    with_popup(&mut p);
    assert!(p.keyboard_leave(&other).is_empty());
    assert!(p.popup.is_some());
}

#[test]
fn press_on_panel_closes_popup_and_forwards() {
    let mut p = bound_panel();
    let seat = "seat0".to_string();
    p.update_pointer(10, 10, &seat, LAYER);
    with_popup(&mut p);
    let (target, reqs) = p.handle_press(&seat);
    assert_eq!(target, Some(1));
    assert_eq!(reqs, vec![Request::EmbeddedPopupDone { surface: 7 }, Request::HostDestroyPopup { host: 70 }]);
}

#[test]
fn press_without_hover_is_keyboard_leave() {
    let mut p = bound_panel();
    let seat = "seat0".to_string();
    p.update_pointer(10, 10, &seat, LAYER);
    with_popup(&mut p);
    p.pointer_leave(&seat);
    let (target, reqs) = p.handle_press(&seat);
    assert_eq!(target, None);
    assert_eq!(reqs.len(), 2);
    assert_eq!(p.focused(&seat), None);
}

#[test]
fn layer_events_on_panel() {
    let mut p = bound_panel();
    assert_eq!(p.handle_layer_event(LayerEvent::Configure { width: 0, height: 30, serial: 4 }), Some(4));
    assert_eq!(p.layer, LayerState::Configured { first: true, width: 1, height: 30, serial: 4 });
    assert_eq!(p.handle_layer_event(LayerEvent::Closed), None);
    assert_eq!(p.handle_layer_event(LayerEvent::Configure { width: 9, height: 9, serial: 5 }), None);
    assert_eq!(p.layer, LayerState::Quit);
}

#[test]
fn output_loss_quits_and_closes_popup() {
    let mut p = bound_panel();
    with_popup(&mut p);
    let reqs = p.output_lost();
    assert_eq!(p.layer, LayerState::Quit);
    assert_eq!(reqs, vec![Request::EmbeddedPopupDone { surface: 7 }, Request::HostDestroyPopup { host: 70 }]);
}

#[test]
fn frame_marks_surface() {
    let mut p = bound_panel();
    with_popup(&mut p);
    p.frame(LAYER);
    assert!(p.has_frame);
    p.dirty_window(42);
    assert_eq!(p.last_dirty, Some(42));
}

#[test]
fn output_update_keeps_minimum_size() {
    let mut p = bound_panel();
    assert_eq!(p.dimensions, SurfaceSize { width: 1, height: 1 });
    assert!(p.update_output(SurfaceSize { width: 0, height: 32 }));
    assert_eq!(p.dimensions, SurfaceSize { width: 1, height: 32 });
    assert!(p.dirty);
}

#[test]
fn popup_needs_bound_panel() {
    let mut p = PanelSpace::new(120);
    let pos = Positioner {
        width: 10,
        height: 10,
        anchor_rect: Rect { x: 0, y: 0, width: 1, height: 1 },
        anchor_edges: 0,
        gravity: 0,
        constraint_adjustment: 0,
        offset: Point { x: 0, y: 0 },
        reactive: false,
        parent_size: None,
    };
    let r = p.add_popup(7, 70, pos, Rect { x: 0, y: 0, width: 10, height: 10 }, None, Point { x: 0, y: 0 });
    assert_eq!(r.unwrap_err(), PopupError::NoPanelSurface);
    assert!(p.popup.is_none());
}

#[test]
fn popup_attached_to_anchored_surface_with_panel_scale() {
    let mut p = bound_panel();
    with_popup(&mut p);
    assert_eq!(p.popup.unwrap().scale120, 120);
    p.scale_factor_changed(70, 180, false, true, true, SurfaceSize { width: 1, height: 1 });
    let popup = p.popup.unwrap();
    assert_eq!(popup.scale120, 180);
    assert!(popup.dirty);
    assert_eq!(p.scale120, 120);
}

#[test]
fn popup_commit_marks_panel_dirty() {
    let mut p = PanelSpace::new(120);
    let settings = PanelSettings {
        output: OutputSelector::Active,
        layer: 2,
        anchor: PanelAnchor::Top,
        min_size: SurfaceSize { width: 0, height: 0 },
        expand_to_edges: true,
        keyboard: KeyboardInteractivity::NoKeyboard,
    };
    let plan = p.new_output(&settings, None, LAYER).unwrap();
    assert_eq!(plan.keyboard, KeyboardInteractivity::NoKeyboard);
    p.dirty = false;
    with_popup(&mut p);
    let reqs = p.dirty_popup(7, Rect { x: 0, y: 0, width: 100, height: 80 }, Rect { x: 0, y: 0, width: 100, height: 80 }, None);
    assert!(reqs.is_empty());
    assert!(p.dirty);
    assert!(p.popup.unwrap().dirty);
}

#[test]
fn refused_bind_leaves_panel_as_it_was() {
    let mut p = bound_panel();
    let settings = PanelSettings {
        output: OutputSelector::Active,
        layer: 2,
        anchor: PanelAnchor::Top,
        min_size: SurfaceSize { width: 9, height: 9 },
        expand_to_edges: true,
        keyboard: KeyboardInteractivity::OnDemand,
    };
    assert!(p.new_output(&settings, None, 11).is_err());
    assert_eq!(p.layer_surface, Some(LAYER));
    assert_eq!(p.dimensions, SurfaceSize { width: 1, height: 1 });
    assert_eq!(p.elements.len(), 2);
}

#[test]
fn pointer_enter_on_panel_hovers_element() {
    let mut p = bound_panel();
    let seat = "seat0".to_string();
    assert_eq!(p.pointer_enter(10, 10, &seat, LAYER).unwrap().surface, 1);
    assert!(p.pointer_enter(500, 10, &seat, LAYER).is_none());
    assert_eq!(p.hovered(&seat), None);
}
