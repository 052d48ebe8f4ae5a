use tray_shell::menu::{MenuItem, Title};
use tray_shell::startup::{startup_checks, startup_plan, SPLASH_SECS};
use tray_shell::action::Action;
use tray_shell::tray::{react, system_tray_handler, Reaction, TrayEvent, SHOWN_AT_START};
use tray_shell::window::{spotlight_window, WindowConfig, WindowLabel};

fn click(id: &str) -> TrayEvent {
    TrayEvent::MenuItemClick { id: id.to_string() }
}

#[test]
fn main_window_counts_as_shown_at_start() {
    assert!(SHOWN_AT_START);
}

#[test]
fn spotlight_builds_the_window_hides_main_and_retitles() {
    for shown in [false, true] {
        assert_eq!(
            system_tray_handler(shown, &click("spotlight")),
            Reaction {
                shown,
                actions: vec![
                    Action::CreateSpotlightWindow,
                    Action::Hide(WindowLabel::Main),
                    Action::SetTitle(MenuItem::Spotlight, Title::LeaveSpotlight),
                ],
            }
        );
    }
}

#[test]
fn quit_exits_with_status_zero() {
    for shown in [false, true] {
        assert_eq!(
            system_tray_handler(shown, &click("quit")),
            Reaction { shown, actions: vec![Action::Exit { status: 0 }] }
        );
    }
}

#[test]
fn open_main_shows_and_focuses() {
    for shown in [false, true] {
        assert_eq!(
            system_tray_handler(shown, &click("open_main")),
            Reaction {
                shown,
                actions: vec![Action::Show(WindowLabel::Main), Action::Focus(WindowLabel::Main)],
            }
        );
    }
}

#[test]
fn about_hides_a_shown_window() {
    assert_eq!(
        system_tray_handler(true, &click("about")),
        Reaction {
            shown: false,
            actions: vec![
                Action::Hide(WindowLabel::Main),
                Action::SetTitle(MenuItem::About, Title::Show),
            ],
        }
    );
}

#[test]
fn about_shows_a_hidden_window() {
    assert_eq!(
        system_tray_handler(false, &click("about")),
        Reaction {
            shown: true,
            actions: vec![
                Action::Locate(WindowLabel::Main),
                Action::SetTitle(MenuItem::About, Title::Hide),
                Action::Show(WindowLabel::Main),
                Action::Focus(WindowLabel::Main),
            ],
        }
    );
}

#[test]
fn first_click_on_about_hides() {
    let reaction = system_tray_handler(SHOWN_AT_START, &click("about"));
    assert!(!reaction.shown);
    assert_eq!(reaction.actions[0], Action::Hide(WindowLabel::Main));
}

#[test]
fn about_twice_restores_the_flag() {
    for shown in [false, true] {
        let once = system_tray_handler(shown, &click("about"));
        let twice = system_tray_handler(once.shown, &click("about"));
        assert_eq!(once.shown, !shown);
        assert_eq!(twice.shown, shown);
    }
}

#[test]
fn about_title_follows_the_flag() {
    for shown in [false, true] {
        let reaction = system_tray_handler(shown, &click("about"));
        let title = if reaction.shown { Title::Hide } else { Title::Show };
        assert!(reaction.actions.contains(&Action::SetTitle(MenuItem::About, title)));
    }
}

#[test]
fn only_about_changes_the_flag() {
    for shown in [false, true] {
        for id in ["spotlight", "quit", "open_main", "nothing", ""] {
            assert_eq!(system_tray_handler(shown, &click(id)).shown, shown);
        }
        assert_eq!(system_tray_handler(shown, &TrayEvent::Other).shown, shown);
    }
}

#[test]
fn unknown_identifier_does_nothing() {
    for shown in [false, true] {
        for id in ["", "About", "QUIT", "open_main ", "q_clipboard", "退出"] {
            assert_eq!(
                system_tray_handler(shown, &click(id)),
                Reaction { shown, actions: vec![] }
            );
        }
    }
}

#[test]
fn other_events_do_nothing() {
    for shown in [false, true] {
        assert_eq!(
            system_tray_handler(shown, &TrayEvent::Other),
            Reaction { shown, actions: vec![] }
        );
    }
}

#[test]
fn handler_agrees_with_react() {
    for shown in [false, true] {
        for id in ["spotlight", "quit", "open_main", "about", "else"] {
            assert_eq!(
                system_tray_handler(shown, &click(id)),
                react(shown, MenuItem::from_id(id))
            );
        }
        assert_eq!(system_tray_handler(shown, &TrayEvent::Other), react(shown, None));
    }
}

#[test]
fn only_quit_exits() {
    for shown in [false, true] {
        for item in [MenuItem::OpenMain, MenuItem::About, MenuItem::Spotlight] {
            let reaction = react(shown, Some(item));
            assert!(!reaction.actions.iter().any(|a| matches!(a, Action::Exit { .. })));
        }
    }
}

#[test]
fn spotlight_window_is_bare_fixed_and_visible() {
    assert_eq!(
        spotlight_window(),
        WindowConfig {
            label: WindowLabel::Spotlight,
            url: "spotlight.html",
            decorations: false,
            resizable: false,
            visible: true,
        }
    );
}

#[test]
fn window_labels() {
    assert_eq!(WindowLabel::Main.label(), "main");
    assert_eq!(WindowLabel::Spotlight.label(), "spotlight");
    assert_eq!(WindowLabel::Splashscreen.label(), "splashscreen");
    assert_eq!(spotlight_window().label.label(), "spotlight");
}

#[test]
fn startup_waits_then_swaps_splash_for_main() {
    assert_eq!(SPLASH_SECS, 2);
    assert_eq!(
        startup_plan(),
        vec![
            Action::Sleep { secs: 2 },
            Action::Close(WindowLabel::Splashscreen),
            Action::Show(WindowLabel::Main),
        ]
    );
}

#[test]
fn startup_looks_both_windows_up_first() {
    assert_eq!(
        startup_checks(),
        vec![Action::Locate(WindowLabel::Splashscreen), Action::Locate(WindowLabel::Main)]
    );
}

#[test]
fn reveal_touches_only_windows_looked_up() {
    let checks = startup_checks();
    for action in startup_plan() {
        match action {
            Action::Close(w) | Action::Show(w) => assert!(checks.contains(&Action::Locate(w))),
            Action::Sleep { secs } => assert_eq!(secs, 2),
            other => panic!("unexpected step {:?}", other),
        }
    }
}

#[test]
fn flag_matters_to_about_only() {
    for id in ["spotlight", "quit", "open_main", "other"] {
        assert_eq!(
            system_tray_handler(true, &click(id)).actions,
            system_tray_handler(false, &click(id)).actions
        );
    }
    assert_ne!(
        system_tray_handler(true, &click("about")).actions,
        system_tray_handler(false, &click("about")).actions
    );
}
