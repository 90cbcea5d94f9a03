//! What the host does on requests of the user interface that are no plain
//! commands to the worker: showing and hiding the overlay, and the two
//! requests that exist to try the surfaces out without the worker.

use crate::effects::{PushEvent, SideEffect, Surface};
use crate::record::{empty_record, is_record, put_integer, put_text, Field};
use crate::router::{break_steps, present_break, raise_notification, raise_notification_steps};
use serde_json::Value;
use vstd::prelude::*;
use vstd::string::StringExecFns;

verus! {

/// How long the notification surface is given to start listening when it is
/// tried out, in milliseconds.
pub const TRIAL_PUSH_DELAY_MS: u64 = 500;

/// The number under which a break that is tried out is recorded.
pub const TRIAL_RECORD_ID: i32 = 999;

/// How many seconds the warning that is tried out gives.
pub const TRIAL_SECONDS_REMAINING: i32 = 60;

/// What hides the overlay.
pub open spec fn hide_overlay_steps() -> Seq<SideEffect> {
    seq![SideEffect::Hide { surface: Surface::Overlay }]
}

/// Hides the overlay. An answer to a break (taken, put off, skipped) hides the
/// overlay first and then sends its command.
pub fn hide_overlay() -> (steps: Vec<SideEffect>)
    ensures
        steps@ == hide_overlay_steps(),
{
    let mut steps: Vec<SideEffect> = Vec::new();
    steps.push(SideEffect::Hide { surface: Surface::Overlay });
    assert(steps@ =~= hide_overlay_steps());
    steps
}

/// What the user interface is told when it asks for the overlay and there is
/// none.
pub fn overlay_not_found() -> (text: String)
    ensures
        text@ == "Overlay window not found"@,
{
    String::from_str("Overlay window not found")
}

/// The payload of a break that is tried out.
pub open spec fn trial_break_fields(
    break_type: Seq<char>,
    duration_seconds: int,
    theme_color: Seq<char>,
) -> Map<Seq<char>, Field> {
    map![
        "break_type"@ => Field::Text(break_type),
        "duration_seconds"@ => Field::Integer(duration_seconds),
        "theme_color"@ => Field::Text(theme_color),
        "record_id"@ => Field::Integer(TRIAL_RECORD_ID as int),
    ]
}

/// Whether `steps` presents a break whose payload has the given members: the
/// payload is staged first and is what the overlay is told later.
pub open spec fn presents_break(steps: Seq<SideEffect>, fields: Map<Seq<char>, Field>) -> bool {
    &&& steps.len() == 4
    &&& steps[0] is Stage
    &&& is_record(steps[0]->Stage_payload, fields)
    &&& steps == break_steps(steps[0]->Stage_payload)
}

/// Tries a break out: presents a break as if the worker had reported it due.
pub fn trigger_test_break(break_type: &str, duration_seconds: i32, theme_color: &str) -> (steps: Vec<
    SideEffect,
>)
    ensures
        presents_break(
            steps@,
            trial_break_fields(break_type@, duration_seconds as int, theme_color@),
        ),
{
    let mut payload = empty_record();
    let ghost f1 = map!["break_type"@ => Field::Text(break_type@)];
    let ghost f2 = f1.insert("duration_seconds"@, Field::Integer(duration_seconds as int));
    let ghost f3 = f2.insert("theme_color"@, Field::Text(theme_color@));
    put_text(&mut payload, Ghost(Map::empty()), "break_type", break_type);
    put_integer(&mut payload, Ghost(f1), "duration_seconds", duration_seconds);
    put_text(&mut payload, Ghost(f2), "theme_color", theme_color);
    put_integer(&mut payload, Ghost(f3), "record_id", TRIAL_RECORD_ID);
    present_break(&payload)
}

/// The payload of the warning that is tried out.
pub open spec fn trial_warning_fields() -> Map<Seq<char>, Field> {
    map![
        "title"@ => Field::Text("Debug Test Warning"@),
        "action"@ => Field::Text("pause"@),
        "seconds_remaining"@ => Field::Integer(TRIAL_SECONDS_REMAINING as int),
    ]
}

/// What tries the notification surface out, for a given payload: raise it,
/// give it the focus, and tell it of the warning after the delay.
pub open spec fn trial_warning_steps(payload: Value) -> Seq<SideEffect> {
    raise_notification_steps().push(SideEffect::Focus { surface: Surface::Notification }).push(
        SideEffect::PushAfterDelay {
            surface: Surface::Notification,
            push: PushEvent::ShowScheduleWarning,
            payload,
            delay_ms: TRIAL_PUSH_DELAY_MS,
        },
    )
}

/// Whether `steps` tries the notification surface out with the payload that
/// is made up for it.
pub open spec fn tries_notification(steps: Seq<SideEffect>) -> bool {
    &&& steps.len() == 5
    &&& steps[4] is PushAfterDelay
    &&& is_record(steps[4]->PushAfterDelay_payload, trial_warning_fields())
    &&& steps == trial_warning_steps(steps[4]->PushAfterDelay_payload)
}

/// Tries the notification surface out with a warning made up for it.
pub fn debug_notification() -> (steps: Vec<SideEffect>)
    ensures
        tries_notification(steps@),
{
    let mut payload = empty_record();
    let ghost f1 = map!["title"@ => Field::Text("Debug Test Warning"@)];
    let ghost f2 = f1.insert("action"@, Field::Text("pause"@));
    put_text(&mut payload, Ghost(Map::empty()), "title", "Debug Test Warning");
    put_text(&mut payload, Ghost(f1), "action", "pause");
    put_integer(&mut payload, Ghost(f2), "seconds_remaining", TRIAL_SECONDS_REMAINING);
    let mut steps = raise_notification();
    steps.push(SideEffect::Focus { surface: Surface::Notification });
    steps.push(
        SideEffect::PushAfterDelay {
            surface: Surface::Notification,
            push: PushEvent::ShowScheduleWarning,
            payload,
            delay_ms: TRIAL_PUSH_DELAY_MS,
        },
    );
    assert(steps@ =~= trial_warning_steps(steps@[4]->PushAfterDelay_payload));
    steps
}

} // verus!
