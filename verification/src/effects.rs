//! What the router asks the host to do.
//!
//! The router decides; the host acts. A decision is a list of side effects
//! that the host performs in the order of the list. A side effect that names
//! a surface which is not there is skipped by the host: the presentation is
//! best effort.

use crate::codec::InboundEvent;
use serde_json::Value;
use vstd::prelude::*;

verus! {

/// A presentation surface, addressed by its logical name.
#[derive(Clone, Copy, Debug, PartialEq, Eq, Structural)]
pub enum Surface {
    Main,
    Session,
    Overlay,
    Notification,
}

/// The logical name of a surface.
pub open spec fn surface_name(surface: Surface) -> Seq<char> {
    match surface {
        Surface::Main => "main"@,
        Surface::Session => "session"@,
        Surface::Overlay => "overlay"@,
        Surface::Notification => "notification"@,
    }
}

impl Surface {
    /// The name under which the host finds the surface.
    pub fn name(self) -> (name: &'static str)
        ensures
            name@ == surface_name(self),
    {
        match self {
            Surface::Main => "main",
            Surface::Session => "session",
            Surface::Overlay => "overlay",
            Surface::Notification => "notification",
        }
    }
}

/// An event that is pushed to one surface.
#[derive(Clone, Copy, Debug, PartialEq, Eq, Structural)]
pub enum PushEvent {
    ShowBreak,
    ShowScheduleWarning,
}

/// The name under which a pushed event reaches its surface.
pub open spec fn push_event_name(event: PushEvent) -> Seq<char> {
    match event {
        PushEvent::ShowBreak => "show-break"@,
        PushEvent::ShowScheduleWarning => "show-schedule-warning"@,
    }
}

impl PushEvent {
    /// The name under which the surface listens for the event.
    pub fn name(self) -> (name: &'static str)
        ensures
            name@ == push_event_name(self),
    {
        match self {
            PushEvent::ShowBreak => "show-break",
            PushEvent::ShowScheduleWarning => "show-schedule-warning",
        }
    }
}

/// Where a surface of a fixed size goes: into the bottom right corner of the
/// screen, `padding` away from both edges.
#[derive(Clone, Copy, Debug, PartialEq, Eq, Structural)]
pub struct Placement {
    pub width: u32,
    pub height: u32,
    pub padding: u32,
}

/// The distance of the surface's near edge from the screen's near edge, along
/// one axis: what is left of the screen after the surface and the padding.
pub open spec fn offset(screen: int, size: int, padding: int) -> int {
    screen - size - padding
}

/// Whether a distance can be a coordinate.
pub open spec fn is_coordinate(distance: int) -> bool {
    i32::MIN <= distance <= i32::MAX
}

impl Placement {
    /// The top left corner of the surface on a screen of the given size;
    /// `None` where a coordinate would not fit the coordinate type.
    pub open spec fn spec_origin(self, screen_width: u32, screen_height: u32) -> Option<(i32, i32)> {
        let x = offset(screen_width as int, self.width as int, self.padding as int);
        let y = offset(screen_height as int, self.height as int, self.padding as int);
        if is_coordinate(x) && is_coordinate(y) {
            Some((x as i32, y as i32))
        } else {
            None
        }
    }

    /// Computes the position of the surface on a screen of the given size. A
    /// surface larger than the screen gets a negative coordinate.
    pub fn origin(&self, screen_width: u32, screen_height: u32) -> (corner: Option<(i32, i32)>)
        ensures
            corner == self.spec_origin(screen_width, screen_height),
    {
        let x: i64 = screen_width as i64 - self.width as i64 - self.padding as i64;
        let y: i64 = screen_height as i64 - self.height as i64 - self.padding as i64;
        if x < i32::MIN as i64 || x > i32::MAX as i64 || y < i32::MIN as i64 || y > i32::MAX as i64 {
            None
        } else {
            Some((x as i32, y as i32))
        }
    }
}

/// One thing that the host is asked to do.
#[derive(Debug, PartialEq)]
pub enum SideEffect {
    /// Put the payload into the handoff store.
    Stage { payload: Value },
    /// Show the surface.
    Show { surface: Surface },
    /// Hide the surface.
    Hide { surface: Surface },
    /// Give the surface the input focus.
    Focus { surface: Surface },
    /// Move the surface to where `placement` puts it on the current screen.
    Position { surface: Surface, placement: Placement },
    /// Keep the surface above other windows.
    KeepOnTop { surface: Surface },
    /// Wait `delay_ms` milliseconds, then push the event with the payload to
    /// the surface, if the surface is there by then. Nobody waits for the
    /// push and it is not tried again.
    PushAfterDelay { surface: Surface, push: PushEvent, payload: Value, delay_ms: u64 },
    /// Hand the event to every listener, under the channel derived from its
    /// type.
    Forward { event: InboundEvent },
}

} // verus!
