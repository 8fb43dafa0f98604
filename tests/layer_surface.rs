use cosmic_panel::layer::{
    apply_layer_event, apply_layer_events, bind_output, configure_layer, constrain_size,
    raise_pending, scale_update, BindError, Edges, Layer, LayerEvent, LayerState,
    KeyboardInteractivity, OutputBinding, OutputSelector, PanelAnchor, PanelSettings, SurfaceSize,
};

fn settings(output: OutputSelector, layer: u32) -> PanelSettings {
    PanelSettings {
        output,
        layer,
        anchor: PanelAnchor::Bottom,
        min_size: SurfaceSize { width: 0, height: 0 },
        expand_to_edges: false,
        keyboard: KeyboardInteractivity::Exclusive,
    }
}

fn output(name: Option<&str>) -> OutputBinding {
    OutputBinding { host: 1, embedded: 2, name: name.map(str::to_string), x: 0, y: 0, width: 1920, height: 1080 }
}

#[test]
fn zero_width_keeps_previous_width() {
    let s = LayerState::Configured { first: false, width: 32, height: 30, serial: 1 };
    let (next, ack) = configure_layer(s, 0, 42, 2);
    assert_eq!(next, LayerState::Configured { first: false, width: 32, height: 42, serial: 2 });
    assert_eq!(ack, Some(2));
}

#[test]
fn first_configure_keeps_first_flag() {
    let s = LayerState::WaitConfigure { first: true, width: 1, height: 1 };
    let (next, ack) = configure_layer(s, 200, 0, 5);
    assert_eq!(next, LayerState::Configured { first: true, width: 200, height: 1, serial: 5 });
    assert_eq!(ack, Some(5));
    let (later, _) = configure_layer(next, 0, 0, 6);
    assert_eq!(later, LayerState::Configured { first: false, width: 200, height: 1, serial: 6 });
}

#[test]
fn quit_ignores_every_later_event() {
    let s = LayerState::WaitConfigure { first: true, width: 10, height: 10 };
    let events = vec![
        LayerEvent::Configure { width: 20, height: 20, serial: 1 },
        LayerEvent::Closed,
        LayerEvent::Configure { width: 30, height: 30, serial: 2 },
        LayerEvent::Configure { width: 0, height: 5, serial: 3 },
    ];
    assert_eq!(apply_layer_events(s, &events), LayerState::Quit);
    let (r, ack) = configure_layer(LayerState::Quit, 40, 40, 9);
    assert_eq!(r, LayerState::Quit);
    assert_eq!(ack, None);
}

#[test]
fn configure_on_unbound_surface_is_dropped() {
    let (r, ack) = configure_layer(LayerState::Unbound, 40, 40, 9);
    assert_eq!(r, LayerState::Unbound);
    assert_eq!(ack, None);
}

#[test]
fn closed_event_quits() {
    let s = LayerState::Configured { first: false, width: 3, height: 4, serial: 1 };
    assert_eq!(apply_layer_event(s, LayerEvent::Closed), LayerState::Quit);
}

#[test]
fn growth_raises_pending_once() {
    let pending = SurfaceSize { width: 128, height: 30 };
    let negotiated = SurfaceSize { width: 128, height: 30 };
    let requested = SurfaceSize { width: 128, height: 30 };
    let p1 = raise_pending(pending, negotiated, requested, SurfaceSize { width: 140, height: 30 }, 0);
    assert_eq!(p1, SurfaceSize { width: 140, height: 30 });
    let p2 = raise_pending(p1, negotiated, requested, SurfaceSize { width: 135, height: 30 }, 0);
    assert_eq!(p2, SurfaceSize { width: 140, height: 30 });
    let p3 = raise_pending(p1, negotiated, requested, SurfaceSize { width: 140, height: 30 }, 0);
    assert_eq!(p3, p1);
}

#[test]
fn growth_not_raised_when_already_requested() {
    let pending = SurfaceSize { width: 100, height: 30 };
    let negotiated = SurfaceSize { width: 100, height: 30 };
    let requested = SurfaceSize { width: 150, height: 30 };
    let p = raise_pending(pending, negotiated, requested, SurfaceSize { width: 140, height: 30 }, 0);
    assert_eq!(p, pending);
}

#[test]
fn growth_counts_padding() {
    let s = SurfaceSize { width: 100, height: 30 };
    let p = raise_pending(s, s, s, SurfaceSize { width: 96, height: 20 }, 8);
    assert_eq!(p, SurfaceSize { width: 104, height: 30 });
}

#[test]
fn growth_need_saturates() {
    let s = SurfaceSize { width: 10, height: 10 };
    let p = raise_pending(s, s, s, SurfaceSize { width: u32::MAX - 1, height: 5 }, 8);
    assert_eq!(p, SurfaceSize { width: u32::MAX, height: 13 });
}

#[test]
fn constrain_size_keeps_one_by_one() {
    let r = constrain_size(SurfaceSize { width: 0, height: 0 }, SurfaceSize { width: 0, height: 0 });
    assert_eq!(r, SurfaceSize { width: 1, height: 1 });
    let r = constrain_size(SurfaceSize { width: 5, height: 0 }, SurfaceSize { width: 10, height: 3 });
    assert_eq!(r, SurfaceSize { width: 10, height: 3 });
}

#[test]
fn bind_named_output() {
    let name = "DP-1".to_string();
    let plan = bind_output(LayerState::Unbound, &settings(OutputSelector::Name(name.clone()), 2), Some(&output(Some("DP-1")))).unwrap();
    assert_eq!(plan.keyboard, KeyboardInteractivity::Exclusive);
    assert_eq!(plan.state, LayerState::WaitConfigure { first: true, width: 1, height: 1 });
    assert_eq!(plan.layer, Layer::Top);
    assert_eq!(plan.anchor, Edges { top: false, bottom: true, left: true, right: true });
    assert!(plan.empty_input_region);
}

#[test]
fn bind_errors() {
    let name = "DP-1".to_string();
    let s = settings(OutputSelector::Name(name.clone()), 1);
    assert_eq!(bind_output(LayerState::Unbound, &s, Some(&output(Some("HDMI-A-1")))), Err(BindError::OutputMismatch));
    assert_eq!(bind_output(LayerState::Unbound, &s, Some(&output(None))), Err(BindError::OutputMismatch));
    assert_eq!(bind_output(LayerState::Unbound, &s, None), Err(BindError::OutputMismatch));
    let active = settings(OutputSelector::Active, 1);
    assert_eq!(bind_output(LayerState::Unbound, &active, Some(&output(Some("DP-1")))), Err(BindError::OutputMismatch));
    assert!(bind_output(LayerState::Unbound, &active, None).is_ok());
    let bad = settings(OutputSelector::Active, 7);
    assert_eq!(bind_output(LayerState::Unbound, &bad, None), Err(BindError::InvalidLayer));
    let bound = LayerState::WaitConfigure { first: true, width: 1, height: 1 };
    assert_eq!(bind_output(bound, &active, None), Err(BindError::AlreadyBound));
}

#[test]
fn scale_through_viewport_or_buffer() {
    let actual = SurfaceSize { width: 0, height: 48 };
    let u = scale_update(true, false, true, 240, actual);
    assert_eq!(u.buffer_scale, 2);
    assert_eq!(u.viewport_destination, None);
    let u = scale_update(false, true, true, 180, actual);
    assert_eq!(u.buffer_scale, 1);
    assert_eq!(u.viewport_destination, Some(SurfaceSize { width: 1, height: 48 }));
    let u = scale_update(false, true, false, 180, actual);
    assert_eq!(u.viewport_destination, None);
}
