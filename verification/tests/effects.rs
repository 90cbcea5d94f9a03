use aura_core::effects::{Placement, PushEvent, Surface};

#[test]
fn surface_names() {
    assert_eq!(Surface::Main.name(), "main");
    assert_eq!(Surface::Session.name(), "session");
    assert_eq!(Surface::Overlay.name(), "overlay");
    assert_eq!(Surface::Notification.name(), "notification");
}

#[test]
fn push_event_names() {
    assert_eq!(PushEvent::ShowBreak.name(), "show-break");
    assert_eq!(PushEvent::ShowScheduleWarning.name(), "show-schedule-warning");
}

#[test]
fn notification_goes_to_the_bottom_right() {
    let placement = Placement { width: 280, height: 320, padding: 20 };
    assert_eq!(placement.origin(1920, 1080), Some((1620, 740)));
    assert_eq!(placement.origin(2560, 1440), Some((2260, 1100)));
    assert_eq!(placement.origin(300, 340), Some((0, 0)));
}

#[test]
fn surface_larger_than_the_screen_gets_negative_coordinates() {
    let placement = Placement { width: 280, height: 320, padding: 20 };
    assert_eq!(placement.origin(0, 0), Some((-300, -340)));
    assert_eq!(placement.origin(299, 341), Some((-1, 1)));
}

#[test]
fn origin_at_the_limits_of_the_coordinates() {
    let placement = Placement { width: 280, height: 320, padding: 20 };
    assert_eq!(placement.origin(i32::MAX as u32, i32::MAX as u32), Some((i32::MAX - 300, i32::MAX - 340)));
    assert_eq!(placement.origin(i32::MAX as u32 + 300, 340), Some((i32::MAX, 0)));
    assert_eq!(placement.origin(i32::MAX as u32 + 301, 340), None);
    assert_eq!(placement.origin(300, i32::MAX as u32 + 341), None);
    assert_eq!(placement.origin(u32::MAX, u32::MAX), None);
    let none = Placement { width: 0, height: 0, padding: 0 };
    assert_eq!(none.origin(i32::MAX as u32, 0), Some((i32::MAX, 0)));
    assert_eq!(none.origin(i32::MAX as u32 + 1, 0), None);
    let huge = Placement { width: u32::MAX, height: u32::MAX, padding: u32::MAX };
    assert_eq!(huge.origin(0, 0), None);
    let edge = Placement { width: 1 << 31, height: 0, padding: 0 };
    assert_eq!(edge.origin(0, 0), Some((i32::MIN, 0)));
    let past = Placement { width: 1 << 31, height: 0, padding: 1 };
    assert_eq!(past.origin(0, 0), None);
}
