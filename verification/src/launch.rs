//! How the host was launched.
//!
//! A launch at login passes the flag `--minimized`. Such a launch keeps the
//! main surface hidden; the worker is started all the same.

use crate::effects::{SideEffect, Surface};
use vstd::prelude::*;
use vstd::string::StringExecFns;

verus! {

/// The flag of a launch in the background.
pub open spec fn minimized_flag() -> Seq<char> {
    "--minimized"@
}

/// Whether one of the arguments is the flag of a launch in the background.
pub open spec fn has_minimized_flag(args: Seq<String>) -> bool {
    exists|i: int| 0 <= i < args.len() && (#[trigger] args[i])@ == minimized_flag()
}

/// What a launch does to the surfaces before the worker is started: a launch
/// in the background hides the main surface, any other leaves it alone.
pub open spec fn launch_steps(minimized: bool) -> Seq<SideEffect> {
    if minimized {
        seq![SideEffect::Hide { surface: Surface::Main }]
    } else {
        Seq::empty()
    }
}

/// The flag that the host registers for its launch at login.
pub fn launch_flag() -> (flag: &'static str)
    ensures
        flag@ == minimized_flag(),
{
    "--minimized"
}

/// Tells from the arguments of the process whether the launch is one in the
/// background.
pub fn is_minimized_launch(args: &Vec<String>) -> (minimized: bool)
    ensures
        minimized == has_minimized_flag(args@),
{
    let flag = String::from_str("--minimized");
    let mut i: usize = 0;
    while i < args.len()
        invariant
            i <= args.len(),
            flag@ == minimized_flag(),
            forall|j: int| 0 <= j < i ==> (#[trigger] args@[j])@ != minimized_flag(),
        decreases args.len() - i,
    {
        if args[i] == flag {
            return true;
        }
        i += 1;
    }
    false
}

/// The side effects of a launch, to be performed before the worker is
/// started.
pub fn on_launch(args: &Vec<String>) -> (steps: Vec<SideEffect>)
    ensures
        steps@ == launch_steps(has_minimized_flag(args@)),
{
    let mut steps: Vec<SideEffect> = Vec::new();
    if is_minimized_launch(args) {
        steps.push(SideEffect::Hide { surface: Surface::Main });
    }
    assert(steps@ =~= launch_steps(has_minimized_flag(args@)));
    steps
}

} // verus!
