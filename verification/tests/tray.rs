use aura_core::effects::{SideEffect, Surface};
use aura_core::tray::{
    click_shows_dashboard, menu_action, menu_plan, ButtonState, MenuAction, Notice, PointerButton,
    TrayStep,
};
use serde_json::Value;

fn parse(text: &str) -> Value {
    serde_json::from_str(text).unwrap()
}

#[test]
fn menu_entries() {
    assert_eq!(menu_action("quit"), MenuAction::Quit);
    assert_eq!(menu_action("show"), MenuAction::ShowDashboard);
    assert_eq!(menu_action("pause_30m"), MenuAction::Pause { minutes: 30 });
    assert_eq!(menu_action("pause_1h"), MenuAction::Pause { minutes: 60 });
    assert_eq!(menu_action("pause_2h"), MenuAction::Pause { minutes: 120 });
    assert_eq!(menu_action("pause_movie"), MenuAction::Pause { minutes: 480 });
    assert_eq!(menu_action("resume"), MenuAction::Resume);
}

#[test]
fn other_menu_entries_do_nothing() {
    for id in ["sep1", "sep2", "", "Quit", "quit ", "pause", "pause_3h"] {
        assert_eq!(menu_action(id), MenuAction::Nothing);
        assert_eq!(menu_plan(menu_action(id)), Vec::new());
    }
}

#[test]
fn quit_notifies_waits_and_exits() {
    assert_eq!(
        menu_plan(MenuAction::Quit),
        vec![
            TrayStep::Submit { command: parse(r#"{"cmd":"shutdown"}"#) },
            TrayStep::Wait { ms: 500 },
            TrayStep::Exit { code: 0 },
        ]
    );
}

#[test]
fn show_raises_the_session_surface() {
    assert_eq!(
        menu_plan(MenuAction::ShowDashboard),
        vec![
            TrayStep::Perform { effect: SideEffect::Show { surface: Surface::Session } },
            TrayStep::Perform { effect: SideEffect::Focus { surface: Surface::Session } },
        ]
    );
}

#[test]
fn pause_sends_and_announces() {
    assert_eq!(
        menu_plan(menu_action("pause_2h")),
        vec![
            TrayStep::Submit { command: parse(r#"{"cmd":"pause","minutes":120}"#) },
            TrayStep::Announce { notice: Notice::Paused { minutes: 120 } },
        ]
    );
}

#[test]
fn resume_sends_and_announces() {
    assert_eq!(
        menu_plan(MenuAction::Resume),
        vec![
            TrayStep::Submit { command: parse(r#"{"cmd":"resume"}"#) },
            TrayStep::Announce { notice: Notice::Resumed },
        ]
    );
}

#[test]
fn notices() {
    assert_eq!(Notice::Paused { minutes: 30 }.channel(), "sidecar-paused");
    assert_eq!(Notice::Paused { minutes: 30 }.payload(), parse(r#"{"minutes":30}"#));
    assert_eq!(Notice::Resumed.channel(), "sidecar-resumed");
    assert_eq!(Notice::Resumed.payload(), parse("{}"));
}

#[test]
fn left_release_on_the_icon_shows_the_dashboard() {
    assert!(click_shows_dashboard(PointerButton::Left, ButtonState::Up));
    assert!(!click_shows_dashboard(PointerButton::Left, ButtonState::Down));
    assert!(!click_shows_dashboard(PointerButton::Right, ButtonState::Up));
    assert!(!click_shows_dashboard(PointerButton::Right, ButtonState::Down));
    assert!(!click_shows_dashboard(PointerButton::Middle, ButtonState::Up));
    assert!(!click_shows_dashboard(PointerButton::Middle, ButtonState::Down));
}
