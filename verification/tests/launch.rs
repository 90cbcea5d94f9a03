use aura_core::effects::{SideEffect, Surface};
use aura_core::launch::{is_minimized_launch, launch_flag, on_launch};

fn args(list: &[&str]) -> Vec<String> {
    list.iter().map(|arg| arg.to_string()).collect()
}

#[test]
fn launch_flag_text() {
    assert_eq!(launch_flag(), "--minimized");
}

#[test]
fn minimized_flag_anywhere_counts() {
    assert!(is_minimized_launch(&args(&["aura", "--minimized"])));
    assert!(is_minimized_launch(&args(&["--minimized"])));
    assert!(is_minimized_launch(&args(&["aura", "-v", "--minimized", "x"])));
    assert!(is_minimized_launch(&args(&["--minimized", "--minimized"])));
}

#[test]
fn other_arguments_do_not_count() {
    assert!(!is_minimized_launch(&args(&[])));
    assert!(!is_minimized_launch(&args(&["aura"])));
    assert!(!is_minimized_launch(&args(&["aura", "--minimize", "-minimized", "--minimized=1", "--Minimized", " --minimized"])));
}

#[test]
fn minimized_launch_hides_the_main_surface() {
    assert_eq!(
        on_launch(&args(&["aura", "--minimized"])),
        vec![SideEffect::Hide { surface: Surface::Main }]
    );
    assert_eq!(on_launch(&args(&["aura"])), Vec::new());
}
