//! What the entries of the tray menu and a click on the tray icon do.
//!
//! Quitting is the graceful shutdown: the worker is told to shut down, the
//! host waits a fixed grace period and then exits. The order is the point;
//! whether the worker got done in time is not checked.

use crate::commands::{is_command, pause_reminders, resume_reminders, shutdown};
use crate::effects::{SideEffect, Surface};
use crate::record::{empty_record, is_record, optional_integer, put_integer, Field};
use crate::supervisor::SHUTDOWN_GRACE_MS;
use crate::text::same_text;
use serde_json::Value;
use vstd::prelude::*;

verus! {

/// What an entry of the tray menu asks for.
#[derive(Clone, Copy, Debug, PartialEq, Eq, Structural)]
pub enum MenuAction {
    /// Shut the worker down and leave.
    Quit,
    /// Bring the session surface before the user.
    ShowDashboard,
    /// Pause the reminders for some minutes.
    Pause { minutes: i32 },
    /// Resume the reminders.
    Resume,
    /// The entry does nothing.
    Nothing,
}

/// What the entry with the given identifier asks for.
pub open spec fn menu_action_of(id: Seq<char>) -> MenuAction {
    if id == "quit"@ {
        MenuAction::Quit
    } else if id == "show"@ {
        MenuAction::ShowDashboard
    } else if id == "pause_30m"@ {
        MenuAction::Pause { minutes: 30 }
    } else if id == "pause_1h"@ {
        MenuAction::Pause { minutes: 60 }
    } else if id == "pause_2h"@ {
        MenuAction::Pause { minutes: 120 }
    } else if id == "pause_movie"@ {
        MenuAction::Pause { minutes: 480 }
    } else if id == "resume"@ {
        MenuAction::Resume
    } else {
        MenuAction::Nothing
    }
}

/// Tells what the entry with the given identifier asks for. The separators
/// and any identifier that is not known ask for nothing.
pub fn menu_action(id: &str) -> (action: MenuAction)
    ensures
        action == menu_action_of(id@),
{
    if same_text(id, "quit") {
        MenuAction::Quit
    } else if same_text(id, "show") {
        MenuAction::ShowDashboard
    } else if same_text(id, "pause_30m") {
        MenuAction::Pause { minutes: 30 }
    } else if same_text(id, "pause_1h") {
        MenuAction::Pause { minutes: 60 }
    } else if same_text(id, "pause_2h") {
        MenuAction::Pause { minutes: 120 }
    } else if same_text(id, "pause_movie") {
        MenuAction::Pause { minutes: 480 }
    } else if same_text(id, "resume") {
        MenuAction::Resume
    } else {
        MenuAction::Nothing
    }
}

/// What the user interface is told about a change made from the tray.
#[derive(Clone, Copy, Debug, PartialEq, Eq, Structural)]
pub enum Notice {
    Paused { minutes: i32 },
    Resumed,
}

/// The channel of a notice.
pub open spec fn notice_channel(notice: Notice) -> Seq<char> {
    match notice {
        Notice::Paused { .. } => "sidecar-paused"@,
        Notice::Resumed => "sidecar-resumed"@,
    }
}

/// The members of a notice's payload.
pub open spec fn notice_fields(notice: Notice) -> Map<Seq<char>, Field> {
    match notice {
        Notice::Paused { minutes } => map!["minutes"@ => Field::Integer(minutes as int)],
        Notice::Resumed => Map::empty(),
    }
}

impl Notice {
    /// The channel under which all listeners get the notice.
    pub fn channel(self) -> (channel: &'static str)
        ensures
            channel@ == notice_channel(self),
    {
        match self {
            Notice::Paused { .. } => "sidecar-paused",
            Notice::Resumed => "sidecar-resumed",
        }
    }

    /// The payload of the notice.
    pub fn payload(self) -> (payload: Value)
        ensures
            is_record(payload, notice_fields(self)),
    {
        let mut payload = empty_record();
        match self {
            Notice::Paused { minutes } => {
                put_integer(&mut payload, Ghost(Map::empty()), "minutes", minutes);
            },
            Notice::Resumed => {},
        }
        payload
    }
}

/// One step of what a menu entry does.
#[derive(Debug, PartialEq)]
pub enum TrayStep {
    /// Send the command to the worker if one is running. A failure is
    /// ignored: the tray has nobody to report it to.
    Submit { command: Value },
    /// Tell all listeners.
    Announce { notice: Notice },
    /// Perform a side effect on a surface.
    Perform { effect: SideEffect },
    /// Wait.
    Wait { ms: u64 },
    /// Leave the host process with the exit code.
    Exit { code: i32 },
}

/// Whether `steps` is what a menu action asks for, in order.
pub open spec fn is_menu_plan(action: MenuAction, steps: Seq<TrayStep>) -> bool {
    match action {
        MenuAction::Quit => {
            &&& steps.len() == 3
            &&& steps[0] is Submit
            &&& is_command(steps[0]->command, "shutdown"@, Map::empty())
            &&& steps[1] == (TrayStep::Wait { ms: SHUTDOWN_GRACE_MS })
            &&& steps[2] == (TrayStep::Exit { code: 0 })
        },
        MenuAction::ShowDashboard => {
            &&& steps.len() == 2
            &&& steps[0] == (TrayStep::Perform {
                effect: SideEffect::Show { surface: Surface::Session },
            })
            &&& steps[1] == (TrayStep::Perform {
                effect: SideEffect::Focus { surface: Surface::Session },
            })
        },
        MenuAction::Pause { minutes } => {
            &&& steps.len() == 2
            &&& steps[0] is Submit
            &&& is_command(
                steps[0]->command,
                "pause"@,
                map!["minutes"@ => Field::Integer(minutes as int)],
            )
            &&& steps[1] == (TrayStep::Announce { notice: Notice::Paused { minutes } })
        },
        MenuAction::Resume => {
            &&& steps.len() == 2
            &&& steps[0] is Submit
            &&& is_command(steps[0]->command, "resume"@, Map::empty())
            &&& steps[1] == (TrayStep::Announce { notice: Notice::Resumed })
        },
        MenuAction::Nothing => steps.len() == 0,
    }
}

/// The steps of a menu action, in the order in which the host takes them.
pub fn menu_plan(action: MenuAction) -> (steps: Vec<TrayStep>)
    ensures
        is_menu_plan(action, steps@),
{
    let mut steps: Vec<TrayStep> = Vec::new();
    match action {
        MenuAction::Quit => {
            steps.push(TrayStep::Submit { command: shutdown() });
            steps.push(TrayStep::Wait { ms: SHUTDOWN_GRACE_MS });
            steps.push(TrayStep::Exit { code: 0 });
        },
        MenuAction::ShowDashboard => {
            steps.push(TrayStep::Perform { effect: SideEffect::Show { surface: Surface::Session } });
            steps.push(
                TrayStep::Perform { effect: SideEffect::Focus { surface: Surface::Session } },
            );
        },
        MenuAction::Pause { minutes } => {
            let command = pause_reminders(Some(minutes));
            assert(optional_integer(Some(minutes)) == Field::Integer(minutes as int));
            steps.push(TrayStep::Submit { command });
            steps.push(TrayStep::Announce { notice: Notice::Paused { minutes } });
        },
        MenuAction::Resume => {
            steps.push(TrayStep::Submit { command: resume_reminders() });
            steps.push(TrayStep::Announce { notice: Notice::Resumed });
        },
        MenuAction::Nothing => {},
    }
    steps
}

/// A button of the pointer.
#[derive(Clone, Copy, Debug, PartialEq, Eq, Structural)]
pub enum PointerButton {
    Left,
    Right,
    Middle,
}

/// Whether a button went down or came up.
#[derive(Clone, Copy, Debug, PartialEq, Eq, Structural)]
pub enum ButtonState {
    Up,
    Down,
}

/// Whether a click on the tray icon brings up the session surface: when the
/// left button is released. Other clicks are left to the menu.
pub fn click_shows_dashboard(button: PointerButton, state: ButtonState) -> (shows: bool)
    ensures
        shows == (button is Left && state is Up),
{
    match (button, state) {
        (PointerButton::Left, ButtonState::Up) => true,
        _ => false,
    }
}

} // verus!
