use pelican_installer::screens::domain::DomainScreen;
use pelican_installer::screens::install::InstallScreen;
use pelican_installer::screens::menu::MenuScreen;
use pelican_installer::screens::summary::SummaryScreen;
use pelican_installer::screens::webserver::WebserverScreen;
use pelican_installer::screens::{Key, Navigation, Screen, ScreenResult, ScreenStack};
use pelican_installer::utils::state::InstallState;

fn new_stack(state: &mut InstallState) -> ScreenStack {
    ScreenStack::new(Screen::Menu(MenuScreen::new(false, false)), state)
}

#[test]
fn new_stack_holds_the_first_screen() {
    let mut s = InstallState::default();
    let stack = new_stack(&mut s);
    assert_eq!(stack.depth(), 0);
    assert!(matches!(stack.active(), Screen::Menu(_)));
    assert_eq!(s, InstallState::default());
}

#[test]
fn new_stack_mounts_the_first_screen() {
    let mut s = InstallState::default();
    let stack = ScreenStack::new(Screen::Domain(DomainScreen::new()), &mut s);
    match stack.active() {
        Screen::Domain(d) => assert!(d.input().is_focused()),
        _ => panic!("the first screen is the active one"),
    }
}

#[test]
fn next_puts_the_mounted_screen_on_top() {
    let mut s = InstallState::default();
    let mut stack = new_stack(&mut s);
    let to = stack.apply(ScreenResult::Next(Screen::Install(InstallScreen::new()), true), &mut s);
    assert_eq!(to, Navigation::Entered(true));
    assert_eq!(stack.depth(), 1);
    match stack.active() {
        Screen::Install(i) => assert!(i.is_installation_started()),
        _ => panic!("the new screen is the active one"),
    }
    let to = stack.apply(ScreenResult::Next(Screen::Summary(SummaryScreen::new()), false), &mut s);
    assert_eq!(to, Navigation::Entered(false));
    assert_eq!(stack.depth(), 2);
    assert!(matches!(stack.active(), Screen::Summary(_)));
}

#[test]
fn back_returns_to_the_screen_before() {
    let mut s = InstallState::default();
    let mut stack = new_stack(&mut s);
    stack.apply(ScreenResult::Next(Screen::Webserver(WebserverScreen::new()), false), &mut s);
    stack.handle_key(Key::Down, &mut s).unwrap();
    stack.apply(ScreenResult::Next(Screen::Domain(DomainScreen::new()), false), &mut s);
    assert_eq!(stack.apply(ScreenResult::Back, &mut s), Navigation::Returned);
    assert_eq!(stack.depth(), 1);
    match stack.active() {
        Screen::Webserver(w) => assert_eq!(w.menu().selected_index(), 1),
        _ => panic!("the screen before is the active one"),
    }
    assert_eq!(stack.apply(ScreenResult::Back, &mut s), Navigation::Returned);
    assert!(matches!(stack.active(), Screen::Menu(_)));
    assert_eq!(stack.depth(), 0);
}

#[test]
fn back_from_the_only_screen_leaves_the_wizard_and_keeps_the_screen() {
    let mut s = InstallState::default();
    let mut stack = new_stack(&mut s);
    for _ in 0..3 {
        assert_eq!(stack.apply(ScreenResult::Back, &mut s), Navigation::Exit);
        assert_eq!(stack.depth(), 0);
        assert!(matches!(stack.active(), Screen::Menu(_)));
    }
}

#[test]
fn stay_and_exit_leave_the_stack_alone() {
    let mut s = InstallState::default();
    let mut stack = new_stack(&mut s);
    stack.apply(ScreenResult::Next(Screen::Webserver(WebserverScreen::new()), false), &mut s);
    assert_eq!(stack.apply(ScreenResult::Stay, &mut s), Navigation::Stayed);
    assert_eq!(stack.depth(), 1);
    assert_eq!(stack.apply(ScreenResult::Exit, &mut s), Navigation::Exit);
    assert_eq!(stack.depth(), 1);
    assert!(matches!(stack.active(), Screen::Webserver(_)));
}

#[test]
fn stack_never_underflows() {
    let mut s = InstallState::default();
    let mut stack = new_stack(&mut s);
    let mut seed: u32 = 12345;
    let mut depth: usize = 0;
    for _ in 0..2000 {
        seed = seed.wrapping_mul(1664525).wrapping_add(1013904223);
        let answer = match (seed >> 16) % 4 {
            0 => ScreenResult::Stay,
            1 => ScreenResult::Next(Screen::Webserver(WebserverScreen::new()), false),
            2 => ScreenResult::Back,
            _ => ScreenResult::Back,
        };
        let to = stack.apply(answer, &mut s);
        match to {
            Navigation::Entered(_) => depth += 1,
            Navigation::Returned => depth -= 1,
            Navigation::Exit => assert_eq!(depth, 0),
            Navigation::Stayed => {}
        }
        assert_eq!(stack.depth(), depth);
        let _ = stack.active();
    }
}

#[test]
fn keys_go_to_the_active_screen_only() {
    let mut s = InstallState::default();
    let mut stack = new_stack(&mut s);
    stack.apply(ScreenResult::Next(Screen::Webserver(WebserverScreen::new()), false), &mut s);
    stack.handle_key(Key::Char('3'), &mut s).unwrap();
    stack.apply(ScreenResult::Back, &mut s);
    match stack.active() {
        Screen::Menu(m) => assert_eq!(m.menu().selected_index(), 0),
        _ => panic!("the menu is the active screen"),
    }
}

#[test]
fn install_updates_reach_the_active_install_screen_only() {
    let mut s = InstallState::default();
    let mut stack = new_stack(&mut s);
    stack.update_progress(10, "x".to_string());
    stack.set_error("bad");
    assert!(matches!(stack.active(), Screen::Menu(_)));
    stack.apply(ScreenResult::Next(Screen::Install(InstallScreen::new()), true), &mut s);
    stack.update_progress(10, "x".to_string());
    match stack.active() {
        Screen::Install(i) => {
            assert_eq!(i.progress().percentage(), 10);
            assert_eq!(i.logs().clone(), vec!["Initializing installation...", "x"]);
        }
        _ => panic!("the installation screen is the active one"),
    }
    stack.set_complete();
    match stack.active() {
        Screen::Install(i) => assert!(i.is_installation_complete()),
        _ => panic!("the installation screen is the active one"),
    }
}
