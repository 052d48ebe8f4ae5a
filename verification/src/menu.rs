//! The tray menu: its commands, the identifiers they are clicked by and the
//! titles they can carry.

use vstd::prelude::*;
use crate::text::same_text;

verus! {

/// A command of the tray menu.
#[derive(Clone, Copy, Debug, PartialEq, Eq, Structural)]
pub enum MenuItem {
    /// Bring the main window to the front.
    OpenMain,
    /// Show or hide the main window, in turn.
    About,
    /// Open the spotlight window in place of the main window.
    Spotlight,
    /// Leave the program.
    Quit,
}

/// A title that a menu command can carry.
#[derive(Clone, Copy, Debug, PartialEq, Eq, Structural)]
pub enum Title {
    OpenMain,
    Show,
    Hide,
    SystemInformation,
    Exit,
    LeaveSpotlight,
}

/// One line of the tray menu.
#[derive(Clone, Copy, Debug, PartialEq, Eq, Structural)]
pub enum MenuEntry {
    Item(MenuItem),
    Separator,
}

impl Title {
    /// The characters that the user reads.
    pub open spec fn spec_text(self) -> Seq<char> {
        match self {
            Title::OpenMain => "打开主界面"@,
            Title::Show => "Show"@,
            Title::Hide => "Hide"@,
            Title::SystemInformation => "System Information"@,
            Title::Exit => "Exit"@,
            Title::LeaveSpotlight => "退出Spotlight模式"@,
        }
    }

    pub fn text(self) -> (t: &'static str)
        ensures
            t@ == self.spec_text(),
    {
        match self {
            Title::OpenMain => "打开主界面",
            Title::Show => "Show",
            Title::Hide => "Hide",
            Title::SystemInformation => "System Information",
            Title::Exit => "Exit",
            Title::LeaveSpotlight => "退出Spotlight模式",
        }
    }
}

impl MenuItem {
    /// The identifier under which a click on the command is reported.
    pub open spec fn spec_id(self) -> Seq<char> {
        match self {
            MenuItem::OpenMain => "open_main"@,
            MenuItem::About => "about"@,
            MenuItem::Spotlight => "spotlight"@,
            MenuItem::Quit => "quit"@,
        }
    }

    /// The command that an identifier stands for, if any.
    pub open spec fn spec_from_id(id: Seq<char>) -> Option<MenuItem> {
        if id == "spotlight"@ {
            Some(MenuItem::Spotlight)
        } else if id == "quit"@ {
            Some(MenuItem::Quit)
        } else if id == "open_main"@ {
            Some(MenuItem::OpenMain)
        } else if id == "about"@ {
            Some(MenuItem::About)
        } else {
            None
        }
    }

    /// The title that the command carries when the menu is first built.
    pub open spec fn spec_initial_title(self) -> Title {
        match self {
            MenuItem::OpenMain => Title::OpenMain,
            MenuItem::About => Title::Show,
            MenuItem::Spotlight => Title::SystemInformation,
            MenuItem::Quit => Title::Exit,
        }
    }

    pub fn id(self) -> (id: &'static str)
        ensures
            id@ == self.spec_id(),
    {
        match self {
            MenuItem::OpenMain => "open_main",
            MenuItem::About => "about",
            MenuItem::Spotlight => "spotlight",
            MenuItem::Quit => "quit",
        }
    }

    /// Looks a reported identifier up. Identifiers are compared exactly, so
    /// one that differs in case or carries extra characters names nothing.
    pub fn from_id(id: &str) -> (item: Option<MenuItem>)
        ensures
            item == Self::spec_from_id(id@),
    {
        if same_text(id, "spotlight") {
            Some(MenuItem::Spotlight)
        } else if same_text(id, "quit") {
            Some(MenuItem::Quit)
        } else if same_text(id, "open_main") {
            Some(MenuItem::OpenMain)
        } else if same_text(id, "about") {
            Some(MenuItem::About)
        } else {
            None
        }
    }

    pub fn initial_title(self) -> (t: Title)
        ensures
            t == self.spec_initial_title(),
    {
        match self {
            MenuItem::OpenMain => Title::OpenMain,
            MenuItem::About => Title::Show,
            MenuItem::Spotlight => Title::SystemInformation,
            MenuItem::Quit => Title::Exit,
        }
    }
}

/// The menu from top to bottom: three commands, a separator, and the command
/// that leaves the program.
pub open spec fn menu_layout() -> Seq<MenuEntry> {
    seq![
        MenuEntry::Item(MenuItem::OpenMain),
        MenuEntry::Item(MenuItem::About),
        MenuEntry::Item(MenuItem::Spotlight),
        MenuEntry::Separator,
        MenuEntry::Item(MenuItem::Quit),
    ]
}

pub fn tray_menu() -> (entries: Vec<MenuEntry>)
    ensures
        entries@ == menu_layout(),
{
    let entries = vec![
        MenuEntry::Item(MenuItem::OpenMain),
        MenuEntry::Item(MenuItem::About),
        MenuEntry::Item(MenuItem::Spotlight),
        MenuEntry::Separator,
        MenuEntry::Item(MenuItem::Quit),
    ];
    assert(entries@ =~= menu_layout());
    entries
}

/// An identifier names a command exactly when it is that command's own
/// identifier.
pub proof fn lemma_from_id_matches_id(id: Seq<char>, item: MenuItem)
    ensures
        MenuItem::spec_from_id(id) == Some(item) <==> id == item.spec_id(),
{
    reveal_strlit("spotlight");
    reveal_strlit("quit");
    reveal_strlit("open_main");
    reveal_strlit("about");
    assert("spotlight"@.len() == 9 && "spotlight"@[0] == 's');
    assert("open_main"@.len() == 9 && "open_main"@[0] == 'o');
    assert("quit"@.len() == 4);
    assert("about"@.len() == 5);
}

/// Looking up the identifier of a command gives that command back.
pub proof fn lemma_id_round_trip(item: MenuItem)
    ensures
        MenuItem::spec_from_id(item.spec_id()) == Some(item),
{
    lemma_from_id_matches_id(item.spec_id(), item);
}

/// No two commands share an identifier.
pub proof fn lemma_ids_distinct(a: MenuItem, b: MenuItem)
    requires
        a.spec_id() == b.spec_id(),
    ensures
        a == b,
{
    lemma_from_id_matches_id(a.spec_id(), a);
    lemma_from_id_matches_id(a.spec_id(), b);
}

/// Every command stands in the menu, once.
pub proof fn lemma_menu_holds_each_command_once(item: MenuItem)
    ensures
        menu_layout().filter(|e: MenuEntry| e == MenuEntry::Item(item)).len() == 1,
{
    reveal_with_fuel(Seq::filter, 6);
}

} // verus!
