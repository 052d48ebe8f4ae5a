//! What the shell does when the tray reports an event.
//!
//! The shell remembers one thing: whether it takes the main window to be
//! shown. A click on the menu is answered with the steps the framework has
//! to carry out, in order, and the value of that flag afterwards.

use vstd::prelude::*;
use crate::action::Action;
use crate::menu::{MenuItem, Title};
use crate::window::WindowLabel;

verus! {

/// The flag when the shell starts: the main window counts as shown.
pub const SHOWN_AT_START: bool = true;

/// An event of the tray, as far as the shell tells events apart.
#[derive(Clone, Debug, PartialEq, Eq)]
pub enum TrayEvent {
    /// A click on the menu entry with the given identifier.
    MenuItemClick { id: String },
    /// A click on the icon itself, or anything else.
    Other,
}

/// The answer to an event: the steps to take and the flag afterwards.
#[derive(Clone, Debug, PartialEq, Eq)]
pub struct Reaction {
    pub shown: bool,
    pub actions: Vec<Action>,
}

impl TrayEvent {
    /// The menu command that the event asks for, if it asks for one.
    pub open spec fn command(self) -> Option<MenuItem> {
        match self {
            TrayEvent::MenuItemClick { id } => MenuItem::spec_from_id(id@),
            TrayEvent::Other => None,
        }
    }
}

/// The flag after an event. Only the command that toggles the main window
/// changes it.
pub open spec fn shown_after(shown: bool, command: Option<MenuItem>) -> bool {
    if command == Some(MenuItem::About) {
        !shown
    } else {
        shown
    }
}

/// The steps that answer an event, in the order in which they are taken.
pub open spec fn steps_for(shown: bool, command: Option<MenuItem>) -> Seq<Action> {
    match command {
        Some(MenuItem::Spotlight) => seq![
            Action::CreateSpotlightWindow,
            Action::Hide(WindowLabel::Main),
            Action::SetTitle(MenuItem::Spotlight, Title::LeaveSpotlight),
        ],
        Some(MenuItem::Quit) => seq![Action::Exit { status: 0 }],
        Some(MenuItem::OpenMain) => seq![
            Action::Show(WindowLabel::Main),
            Action::Focus(WindowLabel::Main),
        ],
        Some(MenuItem::About) => if shown {
            seq![
                Action::Hide(WindowLabel::Main),
                Action::SetTitle(MenuItem::About, Title::Show),
            ]
        } else {
            // The window is looked up before the title changes, so that a
            // missing window leaves the title as it was.
            seq![
                Action::Locate(WindowLabel::Main),
                Action::SetTitle(MenuItem::About, Title::Hide),
                Action::Show(WindowLabel::Main),
                Action::Focus(WindowLabel::Main),
            ]
        },
        None => seq![],
    }
}

/// Answers a menu command, or the lack of one.
pub fn react(shown: bool, command: Option<MenuItem>) -> (reaction: Reaction)
    ensures
        reaction.shown == shown_after(shown, command),
        reaction.actions@ == steps_for(shown, command),
{
    let reaction = match command {
        Some(MenuItem::Spotlight) => Reaction {
            shown,
            actions: vec![
                Action::CreateSpotlightWindow,
                Action::Hide(WindowLabel::Main),
                Action::SetTitle(MenuItem::Spotlight, Title::LeaveSpotlight),
            ],
        },
        Some(MenuItem::Quit) => Reaction { shown, actions: vec![Action::Exit { status: 0 }] },
        Some(MenuItem::OpenMain) => Reaction {
            shown,
            actions: vec![Action::Show(WindowLabel::Main), Action::Focus(WindowLabel::Main)],
        },
        Some(MenuItem::About) => if shown {
            Reaction {
                shown: false,
                actions: vec![
                    Action::Hide(WindowLabel::Main),
                    Action::SetTitle(MenuItem::About, Title::Show),
                ],
            }
        } else {
            Reaction {
                shown: true,
                actions: vec![
                    Action::Locate(WindowLabel::Main),
                    Action::SetTitle(MenuItem::About, Title::Hide),
                    Action::Show(WindowLabel::Main),
                    Action::Focus(WindowLabel::Main),
                ],
            }
        },
        None => Reaction { shown, actions: Vec::new() },
    };
    assert(reaction.actions@ =~= steps_for(shown, command));
    reaction
}

/// Answers an event of the tray. A click is dispatched by the identifier of
/// the entry; an identifier that names no command, and any event that is no
/// click on the menu, is answered with no step at all.
pub fn system_tray_handler(shown: bool, event: &TrayEvent) -> (reaction: Reaction)
    ensures
        reaction.shown == shown_after(shown, event.command()),
        reaction.actions@ == steps_for(shown, event.command()),
{
    match event {
        TrayEvent::MenuItemClick { id } => react(shown, MenuItem::from_id(id.as_str())),
        TrayEvent::Other => react(shown, None),
    }
}

/// Toggling twice leaves the flag as it was.
pub proof fn lemma_toggle_twice(shown: bool)
    ensures
        shown_after(shown_after(shown, Some(MenuItem::About)), Some(MenuItem::About)) == shown,
{
}

/// A toggle retitles its own command after what the next toggle will do:
/// "Hide" while the main window is shown, "Show" while it is hidden.
pub proof fn lemma_toggle_title_follows_flag(shown: bool)
    ensures
        steps_for(shown, Some(MenuItem::About)).contains(
            Action::SetTitle(
                MenuItem::About,
                if shown_after(shown, Some(MenuItem::About)) {
                    Title::Hide
                } else {
                    Title::Show
                },
            ),
        ),
{
    let steps = steps_for(shown, Some(MenuItem::About));
    assert(steps[1] is SetTitle);
}

/// A toggle shows the main window exactly when the flag says it was hidden,
/// and hides it exactly when the flag says it was shown.
pub proof fn lemma_toggle_acts_against_flag(shown: bool)
    ensures
        steps_for(shown, Some(MenuItem::About)).contains(Action::Hide(WindowLabel::Main)) <==> shown,
        steps_for(shown, Some(MenuItem::About)).contains(Action::Show(WindowLabel::Main)) <==> !shown,
{
    let steps = steps_for(shown, Some(MenuItem::About));
    if shown {
        assert(steps[0] == Action::Hide(WindowLabel::Main));
    } else {
        assert(steps[2] == Action::Show(WindowLabel::Main));
    }
}

/// The flag matters to the toggle alone: every other command, and every
/// event that is no command, is answered alike whatever the flag says.
pub proof fn lemma_flag_matters_to_toggle_only(command: Option<MenuItem>, a: bool, b: bool)
    requires
        command != Some(MenuItem::About),
    ensures
        steps_for(a, command) == steps_for(b, command),
        shown_after(a, command) == a,
{
}

/// Only leaving the program ends the process, and it does nothing else.
pub proof fn lemma_exit_only_on_quit(shown: bool, command: Option<MenuItem>, status: i32)
    requires
        steps_for(shown, command).contains(Action::Exit { status }),
    ensures
        command == Some(MenuItem::Quit),
        status == 0,
        steps_for(shown, command) == seq![Action::Exit { status: 0 }],
{
    let steps = steps_for(shown, command);
    let i = choose|i: int| 0 <= i < steps.len() && steps[i] == (Action::Exit { status });
    assert(steps[i] is Exit);
}

} // verus!
