use aura_core::effects::{Placement, PushEvent, SideEffect, Surface};
use aura_core::handoff::Handoff;
use aura_core::requests::{
    debug_notification, hide_overlay, overlay_not_found, trigger_test_break,
    TRIAL_PUSH_DELAY_MS, TRIAL_RECORD_ID, TRIAL_SECONDS_REMAINING,
};
use aura_core::router::apply_staging;
use serde_json::Value;

fn parse(text: &str) -> Value {
    serde_json::from_str(text).unwrap()
}

#[test]
fn trial_constants() {
    assert_eq!(TRIAL_PUSH_DELAY_MS, 500);
    assert_eq!(TRIAL_RECORD_ID, 999);
    assert_eq!(TRIAL_SECONDS_REMAINING, 60);
}

#[test]
fn hide_overlay_steps() {
    assert_eq!(hide_overlay(), vec![SideEffect::Hide { surface: Surface::Overlay }]);
}

#[test]
fn overlay_not_found_text() {
    assert_eq!(overlay_not_found(), "Overlay window not found");
}

#[test]
fn test_break_is_presented_like_a_due_break() {
    let payload = parse(
        r##"{"break_type":"stretch","duration_seconds":45,"theme_color":"#10b981","record_id":999}"##,
    );
    assert_eq!(
        trigger_test_break("stretch", 45, "#10b981"),
        vec![
            SideEffect::Stage { payload: payload.clone() },
            SideEffect::Show { surface: Surface::Overlay },
            SideEffect::Focus { surface: Surface::Overlay },
            SideEffect::PushAfterDelay {
                surface: Surface::Overlay,
                push: PushEvent::ShowBreak,
                payload,
                delay_ms: 300,
            },
        ]
    );
}

#[test]
fn test_break_is_staged() {
    let mut store = Handoff::new();
    store.set(parse(r#"{"break_type":"real"}"#));
    let rest = apply_staging(trigger_test_break("eyes", 20, ""), &mut store);
    assert_eq!(
        store.get_and_peek(),
        Some(parse(r#"{"break_type":"eyes","duration_seconds":20,"theme_color":"","record_id":999}"#))
    );
    assert_eq!(rest.len(), 3);
    assert_eq!(rest[0], SideEffect::Show { surface: Surface::Overlay });
}

#[test]
fn debug_notification_steps() {
    assert_eq!(
        debug_notification(),
        vec![
            SideEffect::Position {
                surface: Surface::Notification,
                placement: Placement { width: 280, height: 320, padding: 20 },
            },
            SideEffect::Show { surface: Surface::Notification },
            SideEffect::KeepOnTop { surface: Surface::Notification },
            SideEffect::Focus { surface: Surface::Notification },
            SideEffect::PushAfterDelay {
                surface: Surface::Notification,
                push: PushEvent::ShowScheduleWarning,
                payload: parse(r#"{"title":"Debug Test Warning","action":"pause","seconds_remaining":60}"#),
                delay_ms: 500,
            },
        ]
    );
}
