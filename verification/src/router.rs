//! The event router: which side effects an event of the worker asks for.
//!
//! Every event is forwarded to all listeners under a channel derived from its
//! type, also an event of a type that no rule knows. Two types ask for more:
//! a due break is staged for the overlay, which is then shown and told after a
//! short delay; a schedule warning raises the notification surface, which is
//! told after a longer delay. The delays give a surface that was just shown
//! time to start listening. They are fixed waits and no handshake: a surface
//! that is slower than the delay misses the push and has to read the handoff
//! store, which is why the payload is staged before the surface is shown.

use crate::codec::InboundEvent;
use crate::effects::{Placement, PushEvent, SideEffect, Surface};
use crate::handoff::{slot_after_set, Handoff};
use crate::json::json_clone;
use crate::record::{empty_record, is_record, put_json, put_null, put_text, Field};
use crate::text::same_text;
use serde_json::Value;
use vstd::prelude::*;
use vstd::string::StringExecFns;

verus! {

/// How long the overlay is given to start listening, in milliseconds.
pub const BREAK_PUSH_DELAY_MS: u64 = 300;

/// How long the notification surface is given to start listening, in
/// milliseconds.
pub const WARNING_PUSH_DELAY_MS: u64 = 800;

/// The width of the notification surface, in pixels.
pub const NOTIFICATION_WIDTH: u32 = 280;

/// The height of the notification surface, in pixels.
pub const NOTIFICATION_HEIGHT: u32 = 320;

/// The distance that the notification surface keeps from the screen's edges,
/// in pixels.
pub const NOTIFICATION_PADDING: u32 = 20;

/// Where the notification surface goes.
pub open spec fn notification_placement() -> Placement {
    Placement {
        width: NOTIFICATION_WIDTH,
        height: NOTIFICATION_HEIGHT,
        padding: NOTIFICATION_PADDING,
    }
}

/// What presents a break: stage the payload, show and focus the overlay, and
/// tell it after the delay.
pub open spec fn break_steps(payload: Value) -> Seq<SideEffect> {
    seq![
        SideEffect::Stage { payload },
        SideEffect::Show { surface: Surface::Overlay },
        SideEffect::Focus { surface: Surface::Overlay },
        SideEffect::PushAfterDelay {
            surface: Surface::Overlay,
            push: PushEvent::ShowBreak,
            payload,
            delay_ms: BREAK_PUSH_DELAY_MS,
        },
    ]
}

/// What brings a surface before the user: show it and give it the focus.
pub open spec fn raise_steps(surface: Surface) -> Seq<SideEffect> {
    seq![SideEffect::Show { surface }, SideEffect::Focus { surface }]
}

/// What raises the notification surface: put it into its corner, show it and
/// keep it on top.
pub open spec fn raise_notification_steps() -> Seq<SideEffect> {
    seq![
        SideEffect::Position { surface: Surface::Notification, placement: notification_placement() },
        SideEffect::Show { surface: Surface::Notification },
        SideEffect::KeepOnTop { surface: Surface::Notification },
    ]
}

/// What tells the notification surface of a warning after the delay.
pub open spec fn warning_push(payload: Value) -> SideEffect {
    SideEffect::PushAfterDelay {
        surface: Surface::Notification,
        push: PushEvent::ShowScheduleWarning,
        payload,
        delay_ms: WARNING_PUSH_DELAY_MS,
    }
}

/// The side effects that an event asks for, in the order in which they are
/// to happen.
pub open spec fn routing_rule(event: InboundEvent) -> Seq<SideEffect> {
    let forward = SideEffect::Forward { event };
    if event.event_type@ == "break_due"@ {
        match event.data {
            Some(payload) => break_steps(payload).push(forward),
            // Without a payload there is nothing to stage and nothing to tell.
            None => raise_steps(Surface::Overlay).push(forward),
        }
    } else if event.event_type@ == "schedule_warning"@ {
        match event.data {
            Some(payload) => raise_notification_steps().push(warning_push(payload)).push(forward),
            None => raise_notification_steps().push(forward),
        }
    } else {
        seq![forward]
    }
}

/// The channel under which an event of the given type is forwarded.
pub open spec fn channel_name(event_type: Seq<char>) -> Seq<char> {
    "sidecar-"@ + event_type
}

/// The member `data` of a forwarded event: the payload, or `null` for none.
pub open spec fn data_field(data: Option<Value>) -> Field {
    match data {
        Some(payload) => Field::Json(payload),
        None => Field::Null,
    }
}

impl InboundEvent {
    /// The channel under which the event is forwarded to all listeners.
    pub fn channel(&self) -> (channel: String)
        ensures
            channel@ == channel_name(self.event_type@),
    {
        String::from_str("sidecar-").concat(self.event_type.as_str())
    }

    /// The event as the listeners get it: an object with the members `type`
    /// and `data`, the latter `null` where the event has no payload.
    pub fn to_json(&self) -> (value: Value)
        ensures
            is_record(
                value,
                map!["type"@ => Field::Text(self.event_type@), "data"@ => data_field(self.data)],
            ),
    {
        let mut record = empty_record();
        let ghost f1 = map!["type"@ => Field::Text(self.event_type@)];
        put_text(&mut record, Ghost(Map::empty()), "type", self.event_type.as_str());
        match &self.data {
            Some(payload) => put_json(&mut record, Ghost(f1), "data", json_clone(payload)),
            None => put_null(&mut record, Ghost(f1), "data"),
        }
        record
    }
}

/// Brings a surface before the user.
pub fn raise(surface: Surface) -> (steps: Vec<SideEffect>)
    ensures
        steps@ == raise_steps(surface),
{
    let mut steps: Vec<SideEffect> = Vec::new();
    steps.push(SideEffect::Show { surface });
    steps.push(SideEffect::Focus { surface });
    assert(steps@ =~= raise_steps(surface));
    steps
}

/// Presents a break with the given payload.
pub(crate) fn present_break(payload: &Value) -> (steps: Vec<SideEffect>)
    ensures
        steps@ == break_steps(*payload),
{
    let mut steps: Vec<SideEffect> = Vec::new();
    steps.push(SideEffect::Stage { payload: json_clone(payload) });
    steps.push(SideEffect::Show { surface: Surface::Overlay });
    steps.push(SideEffect::Focus { surface: Surface::Overlay });
    steps.push(
        SideEffect::PushAfterDelay {
            surface: Surface::Overlay,
            push: PushEvent::ShowBreak,
            payload: json_clone(payload),
            delay_ms: BREAK_PUSH_DELAY_MS,
        },
    );
    assert(steps@ =~= break_steps(*payload));
    steps
}

/// Raises the notification surface.
pub(crate) fn raise_notification() -> (steps: Vec<SideEffect>)
    ensures
        steps@ == raise_notification_steps(),
{
    let placement = Placement {
        width: NOTIFICATION_WIDTH,
        height: NOTIFICATION_HEIGHT,
        padding: NOTIFICATION_PADDING,
    };
    let mut steps: Vec<SideEffect> = Vec::new();
    steps.push(SideEffect::Position { surface: Surface::Notification, placement });
    steps.push(SideEffect::Show { surface: Surface::Notification });
    steps.push(SideEffect::KeepOnTop { surface: Surface::Notification });
    assert(steps@ =~= raise_notification_steps());
    steps
}

/// Looks up the rule for an event: the side effects that it asks for, in
/// their order.
pub fn route(event: &InboundEvent) -> (effects: Vec<SideEffect>)
    ensures
        effects@ == routing_rule(*event),
{
    let mut effects: Vec<SideEffect> = if same_text(event.event_type.as_str(), "break_due") {
        match &event.data {
            Some(payload) => present_break(payload),
            None => raise(Surface::Overlay),
        }
    } else if same_text(event.event_type.as_str(), "schedule_warning") {
        let mut steps = raise_notification();
        match &event.data {
            Some(payload) => {
                steps.push(
                    SideEffect::PushAfterDelay {
                        surface: Surface::Notification,
                        push: PushEvent::ShowScheduleWarning,
                        payload: json_clone(payload),
                        delay_ms: WARNING_PUSH_DELAY_MS,
                    },
                );
            },
            None => {},
        }
        steps
    } else {
        Vec::new()
    };
    effects.push(SideEffect::Forward { event: event.duplicate() });
    assert(effects@ =~= routing_rule(*event));
    effects
}

/// What is left for the host of a list of side effects once the staging has
/// been done: all but the staging, in their order.
pub open spec fn host_part(effects: Seq<SideEffect>) -> Seq<SideEffect>
    decreases effects.len(),
{
    if effects.len() == 0 {
        Seq::empty()
    } else if effects.last() is Stage {
        host_part(effects.drop_last())
    } else {
        host_part(effects.drop_last()).push(effects.last())
    }
}

/// The handoff slot after the stagings of a list of side effects were done in
/// their order: it holds what was staged last, or what it held if nothing was.
pub open spec fn staged(slot: Option<Value>, effects: Seq<SideEffect>) -> Option<Value>
    decreases effects.len(),
{
    if effects.len() == 0 {
        slot
    } else {
        match effects.last() {
            SideEffect::Stage { payload } => slot_after_set(
                staged(slot, effects.drop_last()),
                payload,
            ),
            _ => staged(slot, effects.drop_last()),
        }
    }
}

/// Does the staging that a list of side effects asks for and hands back the
/// rest for the host. The staging is done before the host sees any of the
/// rest, so a surface that is shown finds the payload.
pub fn apply_staging(effects: Vec<SideEffect>, handoff: &mut Handoff) -> (rest: Vec<SideEffect>)
    ensures
        final(handoff)@ == staged(old(handoff)@, effects@),
        rest@ == host_part(effects@),
{
    let ghost all = effects@;
    let ghost before = handoff@;
    let mut rest: Vec<SideEffect> = Vec::new();
    for effect in iter: effects
        invariant
            iter.seq() == all,
            handoff@ == staged(before, all.take(iter.index() as int)),
            rest@ == host_part(all.take(iter.index() as int)),
    {
        proof {
            let done = all.take(iter.index() as int);
            let next = all.take(iter.index() as int + 1);
            assert(next.drop_last() =~= done);
            assert(next.last() == effect);
        }
        match effect {
            SideEffect::Stage { payload } => {
                handoff.set(payload);
            },
            other => {
                rest.push(other);
            },
        }
    }
    assert(all.take(all.len() as int) =~= all);
    rest
}

/// Routes an event: does the staging that its rule asks for and hands back
/// what is left for the host to do, in order.
pub fn dispatch(event: &InboundEvent, handoff: &mut Handoff) -> (rest: Vec<SideEffect>)
    ensures
        final(handoff)@ == staged(old(handoff)@, routing_rule(*event)),
        rest@ == host_part(routing_rule(*event)),
{
    apply_staging(route(event), handoff)
}

/// How a list of side effects that was made longer by one is split: a staging
/// goes to the store, anything else to the host.
pub proof fn lemma_host_part_push(slot: Option<Value>, effects: Seq<SideEffect>, last: SideEffect)
    ensures
        host_part(effects.push(last)) == if last is Stage {
            host_part(effects)
        } else {
            host_part(effects).push(last)
        },
        staged(slot, effects.push(last)) == if last is Stage {
            Some(last->Stage_payload)
        } else {
            staged(slot, effects)
        },
{
    assert(effects.push(last).drop_last() =~= effects);
    assert(effects.push(last).last() == last);
}

/// What dispatching comes to, spelled out. Only a due break that brings a
/// payload stages anything: the store then holds that payload and the host
/// gets the rest of the rule. For every other event the store stays as it is
/// and the host gets the whole rule.
pub proof fn lemma_dispatch_spelled_out(slot: Option<Value>, event: InboundEvent)
    ensures
        event.event_type@ == "break_due"@ && event.data is Some ==> {
            &&& staged(slot, routing_rule(event)) == event.data
            &&& host_part(routing_rule(event)) == routing_rule(event).subrange(
                1,
                routing_rule(event).len() as int,
            )
        },
        !(event.event_type@ == "break_due"@ && event.data is Some) ==> {
            &&& staged(slot, routing_rule(event)) == slot
            &&& host_part(routing_rule(event)) == routing_rule(event)
        },
{
    let rule = routing_rule(event);
    lemma_split(slot, rule, rule.len() as int);
    assert(rule.take(rule.len() as int) =~= rule);
    if event.event_type@ == "break_due"@ && event.data is Some {
        assert(rule.skip(1) =~= rule.subrange(1, rule.len() as int));
    } else {
        assert(rule.skip(0) =~= rule);
    }
}

/// Splitting goes from the front to the back: of the first `n` side effects
/// of a list whose stagings, if any, all stand at the front, the store gets
/// the last staging and the host everything behind the stagings.
proof fn lemma_split(slot: Option<Value>, effects: Seq<SideEffect>, n: int)
    requires
        0 <= n <= effects.len(),
        forall|i: int| 1 <= i < effects.len() ==> !(#[trigger] effects[i] is Stage),
    ensures
        n >= 1 && effects[0] is Stage ==> {
            &&& staged(slot, effects.take(n)) == Some(effects[0]->Stage_payload)
            &&& host_part(effects.take(n)) == effects.take(n).skip(1)
        },
        !(n >= 1 && effects[0] is Stage) ==> {
            &&& staged(slot, effects.take(n)) == slot
            &&& host_part(effects.take(n)) == effects.take(n).skip(0)
        },
    decreases n,
{
    if n == 0 {
        assert(effects.take(0).skip(0) =~= Seq::<SideEffect>::empty());
    } else {
        lemma_split(slot, effects, n - 1);
        lemma_host_part_push(slot, effects.take(n - 1), effects[n - 1]);
        assert(effects.take(n - 1).push(effects[n - 1]) =~= effects.take(n));
        if effects[0] is Stage {
            if n == 1 {
                assert(effects.take(1).skip(1) =~= Seq::<SideEffect>::empty());
                assert(host_part(effects.take(0)) =~= Seq::<SideEffect>::empty());
            } else {
                assert(effects.take(n - 1).skip(1).push(effects[n - 1]) =~= effects.take(n).skip(1));
            }
        } else {
            assert(effects.take(n - 1).skip(0).push(effects[n - 1]) =~= effects.take(n).skip(0));
        }
    }
}

/// Every event reaches the listeners, whatever its type: the last thing that
/// its rule asks for, and the last thing left for the host, is to forward the
/// event itself. For a type without a rule of its own that is all.
pub proof fn lemma_every_event_is_forwarded(event: InboundEvent)
    ensures
        routing_rule(event).len() > 0,
        routing_rule(event).last() == (SideEffect::Forward { event }),
        host_part(routing_rule(event)).len() > 0,
        host_part(routing_rule(event)).last() == (SideEffect::Forward { event }),
        event.event_type@ != "break_due"@ && event.event_type@ != "schedule_warning"@
            ==> routing_rule(event) == seq![SideEffect::Forward { event }],
{
    let rule = routing_rule(event);
    lemma_host_part_push(None, rule.drop_last(), SideEffect::Forward { event });
    assert(rule.drop_last().push(SideEffect::Forward { event }) =~= rule);
}

/// Staging comes first: where a rule stages a payload it does so before
/// anything else, so before the surface is shown, and the payload is the
/// event's own.
pub proof fn lemma_staging_comes_first(event: InboundEvent, i: int)
    requires
        0 <= i < routing_rule(event).len(),
        routing_rule(event)[i] is Stage,
    ensures
        i == 0,
        event.data == Some(routing_rule(event)[i]->Stage_payload),
{
}

/// A push comes after its surface was shown, and it carries the event's
/// payload.
pub proof fn lemma_push_follows_show(event: InboundEvent, i: int)
    requires
        0 <= i < routing_rule(event).len(),
        routing_rule(event)[i] is PushAfterDelay,
    ensures
        event.data == Some(routing_rule(event)[i]->PushAfterDelay_payload),
        exists|j: int|
            0 <= j < i && routing_rule(event)[j] == (SideEffect::Show {
                surface: routing_rule(event)[i]->PushAfterDelay_surface,
            }),
{
    let rule = routing_rule(event);
    if event.event_type@ == "break_due"@ {
        assert(rule[1] == (SideEffect::Show { surface: Surface::Overlay }));
    } else {
        assert(rule[1] == (SideEffect::Show { surface: Surface::Notification }));
    }
}

} // verus!
