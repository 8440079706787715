use ampmeter_ui::{
    AmpUI, Event, MyUIPorts, RootWidget, UiPort, GAIN_MIN, TOGGLE_OFF, TOGGLE_ON,
};

#[test]
fn port_roundtrip_through_one_slot() {
    let mut p = UiPort::new();
    assert_eq!(p.value(), None);
    assert_eq!(p.take_to_host(), None);
    p.receive(7);
    p.set_value(-3);
    assert_eq!(p.value(), Some(7));
    assert_eq!(p.take_to_host(), Some(-3));
    assert_eq!(p.take_to_host(), None);
    assert_eq!(p.value(), Some(7));
}

#[test]
fn port_event_routes_by_index() {
    let mut ports = MyUIPorts::new();
    assert!(ports.port_event(0, 10));
    assert!(ports.port_event(1, 11));
    assert!(ports.port_event(2, 12));
    assert!(ports.port_event(3, 13));
    assert_eq!(ports.gain.from_host, Some(10));
    assert_eq!(ports.enabled.from_host, Some(11));
    assert_eq!(ports.meter_in.from_host, Some(12));
    assert_eq!(ports.meter_out.from_host, Some(13));
}

#[test]
fn port_event_refuses_an_unknown_index() {
    let mut ports = MyUIPorts::new();
    assert!(!ports.port_event(4, 10));
    assert_eq!(ports.gain.from_host, None);
    assert_eq!(ports.enabled.from_host, None);
    assert_eq!(ports.meter_in.from_host, None);
    assert_eq!(ports.meter_out.from_host, None);
}

#[test]
fn root_widget_turns_tab_into_focus_request() {
    let mut root = RootWidget::default();
    assert_eq!(root.event(Event::KeyPress('\t')), None);
    assert!(root.focus_next());
    assert!(!root.focus_next());
}

#[test]
fn root_widget_passes_other_events_on() {
    let mut root = RootWidget::default();
    assert_eq!(root.event(Event::KeyPress('a')), Some(Event::KeyPress('a')));
    assert_eq!(root.event(Event::MouseMove), Some(Event::MouseMove));
    assert!(!root.focus_next());
}

#[test]
fn new_surface_is_idle_and_off() {
    let ui = AmpUI::new();
    assert_eq!(ui.gain_dial.value, GAIN_MIN);
    assert_eq!(ui.enable_btn.toggle_state, Some(false));
    assert_eq!(ui.enable_btn.label, "enable");
    assert_eq!(ui.meter_in.value, ui.meter_in.min_value);
    assert_eq!(ui.meter_out.value, ui.meter_out.min_value);
    assert_eq!(ui.ports.gain.to_host, None);
    assert_eq!(ui.ports.gain.from_host, None);
    assert!(!ui.gain_dial.needs_repaint);
    assert!(!ui.enable_btn.needs_repaint);
    assert!(!ui.meter_in.needs_repaint);
    assert!(!ui.meter_out.needs_repaint);
}

#[test]
fn close_request_stops_the_tick() {
    let mut ui = AmpUI::new();
    ui.gain_dial.adjust(3);
    assert_eq!(ui.idle(true), 1);
    assert_eq!(ui.ports.gain.to_host, None);
    assert!(ui.gain_dial.changed);
}

#[test]
fn idle_queues_a_dial_change_once() {
    let mut ui = AmpUI::new();
    ui.gain_dial.adjust(3);
    assert_eq!(ui.idle(false), 0);
    assert_eq!(ui.ports.gain.to_host, Some(GAIN_MIN + 3_000));
    assert!(!ui.gain_dial.changed);
    assert_eq!(ui.ports().gain.take_to_host(), Some(GAIN_MIN + 3_000));
    assert_eq!(ui.idle(false), 0);
    assert_eq!(ui.ports.gain.to_host, None);
}

#[test]
fn idle_reports_the_toggle_state_every_tick() {
    let mut ui = AmpUI::new();
    ui.idle(false);
    assert_eq!(ui.ports.enabled.to_host, Some(TOGGLE_OFF));
    ui.enable_btn.event(Event::MouseButtonRelease);
    ui.idle(false);
    assert_eq!(ui.ports.enabled.to_host, Some(TOGGLE_ON));
}

#[test]
fn update_applies_gain_with_clamping() {
    let mut ui = AmpUI::new();
    ui.ports.port_event(0, 5_000);
    ui.update();
    assert_eq!(ui.gain_dial.value, 5_000);
    assert!(!ui.gain_dial.changed);
    ui.ports.port_event(0, 1_000_000);
    ui.update();
    assert_eq!(ui.gain_dial.value, 24_000);
}

#[test]
fn update_reads_enabled_strictly_above_threshold() {
    let mut ui = AmpUI::new();
    ui.ports.port_event(1, 600);
    ui.update();
    assert_eq!(ui.enable_btn.toggle_state, Some(true));
    ui.ports.port_event(1, 500);
    ui.update();
    assert_eq!(ui.enable_btn.toggle_state, Some(false));
    ui.ports.port_event(1, 400);
    ui.update();
    assert_eq!(ui.enable_btn.toggle_state, Some(false));
}

#[test]
fn update_moves_levels_into_the_meters() {
    let mut ui = AmpUI::new();
    ui.ports.port_event(2, -3_000);
    ui.ports.port_event(3, 90_000);
    ui.update();
    assert_eq!(ui.meter_in.value, -3_000);
    assert_eq!(ui.meter_out.value, 20_000);
    assert_eq!(ui.ports.meter_in.from_host, Some(-3_000));
    assert!(ui.meter_in.needs_repaint);
    assert!(ui.meter_out.needs_repaint);
}

#[test]
fn update_requests_repaints_only_where_values_arrived() {
    let mut ui = AmpUI::new();
    ui.ports.port_event(0, 5_000);
    ui.ports.port_event(1, 900);
    ui.update();
    assert!(ui.gain_dial.needs_repaint);
    assert!(!ui.enable_btn.needs_repaint);
    assert!(!ui.meter_in.needs_repaint);
    assert!(!ui.meter_out.needs_repaint);
}

#[test]
fn update_without_host_writes_changes_nothing() {
    let mut ui = AmpUI::new();
    ui.update();
    assert_eq!(ui.gain_dial.value, GAIN_MIN);
    assert_eq!(ui.enable_btn.toggle_state, Some(false));
    assert_eq!(ui.meter_in.value, ui.meter_in.min_value);
    assert!(!ui.gain_dial.needs_repaint);
    assert!(!ui.enable_btn.needs_repaint);
    assert!(!ui.meter_in.needs_repaint);
    assert!(!ui.meter_out.needs_repaint);
}
