use ampmeter_ui::{Button, Event};

#[test]
fn toggle_button_starts_with_given_state() {
    let b = Button::new_toggle_button("enable", true);
    assert_eq!(b.label, "enable");
    assert_eq!(b.toggle_state, Some(true));
    assert!(!b.clicked);
    assert!(!b.needs_repaint);
}

#[test]
fn plain_button_has_no_toggle_state() {
    let b = Button::new("ok");
    assert_eq!(b.label, "ok");
    assert_eq!(b.toggle_state, None);
}

#[test]
fn release_flips_toggle_exactly_once() {
    let mut b = *Button::new_toggle_button("enable", false);
    let passed = b.event(Event::MouseButtonRelease);
    assert_eq!(passed, None);
    assert_eq!(b.toggle_state, Some(true));
    assert!(b.clicked);
    assert!(b.needs_repaint);
}

#[test]
fn two_releases_restore_toggle_state() {
    let mut b = *Button::new_toggle_button("enable", true);
    b.event(Event::MouseButtonRelease);
    assert_eq!(b.toggle_state, Some(false));
    b.event(Event::MouseButtonRelease);
    assert_eq!(b.toggle_state, Some(true));
}

#[test]
fn release_on_plain_button_only_clicks() {
    let mut b = *Button::new("ok");
    let passed = b.event(Event::MouseButtonRelease);
    assert_eq!(passed, None);
    assert_eq!(b.toggle_state, None);
    assert!(b.clicked);
    assert!(!b.needs_repaint);
}

#[test]
fn clicked_reports_once_and_clears() {
    let mut b = *Button::new("ok");
    b.event(Event::MouseButtonRelease);
    assert!(b.clicked());
    assert!(!b.clicked());
}

#[test]
fn mouse_move_is_consumed_without_effect() {
    let mut b = *Button::new_toggle_button("enable", false);
    let passed = b.event(Event::MouseMove);
    assert_eq!(passed, None);
    assert_eq!(b.toggle_state, Some(false));
    assert!(!b.clicked);
}

#[test]
fn space_release_is_consumed_other_keys_pass() {
    let mut b = *Button::new_toggle_button("enable", false);
    assert_eq!(b.event(Event::KeyRelease(' ')), None);
    assert_eq!(b.event(Event::KeyRelease('x')), Some(Event::KeyRelease('x')));
    assert_eq!(b.toggle_state, Some(false));
}

#[test]
fn unhandled_events_pass_through() {
    let mut b = *Button::new_toggle_button("enable", false);
    assert_eq!(b.event(Event::MouseButtonPress), Some(Event::MouseButtonPress));
    assert_eq!(b.event(Event::KeyPress('a')), Some(Event::KeyPress('a')));
    assert_eq!(b.event(Event::Other), Some(Event::Other));
    assert_eq!(b.toggle_state, Some(false));
}

#[test]
fn set_toggle_state_keeps_plain_button_stateless() {
    let mut b = *Button::new("ok");
    b.set_toggle_state(true);
    assert_eq!(b.toggle_state, None);
}

#[test]
fn set_toggle_state_overwrites_toggle_button() {
    let mut b = *Button::new_toggle_button("enable", false);
    b.set_toggle_state(true);
    assert_eq!(b.toggle_state, Some(true));
    b.set_toggle_state(false);
    assert_eq!(b.toggle_state, Some(false));
}

#[test]
fn toggle_state_method_reads_state() {
    let b = *Button::new_toggle_button("enable", true);
    assert_eq!(b.toggle_state(), Some(true));
}
