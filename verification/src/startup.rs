//! The delayed reveal at startup: the splash window stays up for a fixed
//! time, then gives way to the main window.

use vstd::prelude::*;
use crate::action::Action;
use crate::window::WindowLabel;

verus! {

/// How long the splash window stays, in seconds.
pub const SPLASH_SECS: u64 = 2;

/// What is made sure of before the wait begins.
pub open spec fn startup_check_steps() -> Seq<Action> {
    seq![Action::Locate(WindowLabel::Splashscreen), Action::Locate(WindowLabel::Main)]
}

/// The steps of the reveal, in order.
pub open spec fn startup_steps() -> Seq<Action> {
    seq![
        Action::Sleep { secs: 2 },
        Action::Close(WindowLabel::Splashscreen),
        Action::Show(WindowLabel::Main),
    ]
}

/// The steps to take at once when the shell starts: both windows of the
/// reveal have to exist, so that a missing one is found before the wait and
/// not after it.
pub fn startup_checks() -> (actions: Vec<Action>)
    ensures
        actions@ == startup_check_steps(),
{
    let actions = vec![Action::Locate(WindowLabel::Splashscreen), Action::Locate(WindowLabel::Main)];
    assert(actions@ =~= startup_check_steps());
    actions
}

/// The steps of the one task that runs in the background after startup.
pub fn startup_plan() -> (actions: Vec<Action>)
    ensures
        actions@ == startup_steps(),
{
    let actions = vec![
        Action::Sleep { secs: SPLASH_SECS },
        Action::Close(WindowLabel::Splashscreen),
        Action::Show(WindowLabel::Main),
    ];
    assert(actions@ =~= startup_steps());
    actions
}

/// Every window that the reveal touches has been looked up beforehand.
pub proof fn lemma_reveal_touches_checked_windows(i: int, window: WindowLabel)
    requires
        0 <= i < startup_steps().len(),
        startup_steps()[i] == Action::Close(window) || startup_steps()[i] == Action::Show(window),
    ensures
        startup_check_steps().contains(Action::Locate(window)),
{
    let checks = startup_check_steps();
    if i == 1 {
        assert(checks[0] == Action::Locate(window));
    } else {
        assert(checks[1] == Action::Locate(window));
    }
}

} // verus!
