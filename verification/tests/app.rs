use pelican_installer::app::{App, AppAction, AppEvent, InstallationRun};
use pelican_installer::error::InstallerError;
use pelican_installer::installers::pipeline::{InstallPipeline, PipelineAction};
use pelican_installer::installers::{
    CommandExecutor, ProcessEnd, ProcessOutput, ProgressEvent,
};
use pelican_installer::screens::{Key, Screen};
use pelican_installer::utils::state::{ComponentType, InstallState, ProtocolType, WebserverType};
use pelican_installer::utils::system::SystemInfo;

fn system(panel: bool, wings: bool) -> SystemInfo {
    SystemInfo {
        os_name: "debian".to_string(),
        os_version: "12".to_string(),
        panel_installed: panel,
        wings_installed: wings,
    }
}

fn key(app: &mut App, k: Key) -> AppAction {
    app.handle_event(AppEvent::Key(k)).unwrap()
}

fn type_text(app: &mut App, text: &str) {
    for c in text.chars() {
        assert_eq!(key(app, Key::Char(c)), AppAction::Continue);
    }
}

fn output(stdout: &[&str], stderr: &[&str], code: i32) -> ProcessOutput {
    ProcessOutput {
        stdout: stdout.iter().map(|l| l.to_string()).collect(),
        stderr: stderr.iter().map(|l| l.to_string()).collect(),
        end: ProcessEnd::Exited(Some(code)),
    }
}

fn event(percentage: u16, message: &str) -> ProgressEvent {
    ProgressEvent { percentage, message: message.to_string() }
}

/// Drives the pipeline as the program around the library does: runs each
/// command it asks for with the next of the given outputs, hands every
/// report and every event of a run to the wizard as it arises, and at the
/// end the result. Returns the commands that were run.
fn carry_out(app: &mut App, snapshot: InstallState, outputs: Vec<ProcessOutput>) -> Vec<String> {
    let mut commands = Vec::new();
    let mut outputs = outputs.into_iter();
    let (mut pipeline, mut step) = InstallPipeline::start(snapshot);
    loop {
        if let Some(report) = step.report {
            let handled = app.handle_event(AppEvent::Progress(report.percentage, report.message));
            assert_eq!(handled, Ok(AppAction::Continue));
        }
        match step.action {
            PipelineAction::Finish(result) => {
                assert_eq!(
                    app.handle_event(AppEvent::InstallComplete(result)),
                    Ok(AppAction::Continue)
                );
                return commands;
            }
            PipelineAction::Run(cmd) => {
                let out = outputs.next().expect("an output for every command");
                let mut executor = CommandExecutor::new();
                let run = executor.run_streaming(&cmd, &out);
                commands.push(cmd);
                for e in executor.take_events() {
                    assert_eq!(
                        app.handle_event(AppEvent::Progress(e.percentage, e.message)),
                        Ok(AppAction::Continue)
                    );
                }
                step = pipeline.advance(run);
            }
        }
    }
}

fn snapshot_of(action: AppAction) -> InstallState {
    match action {
        AppAction::StartInstallation(snapshot) => snapshot,
        other => panic!("expected the start of an installation, got {:?}", other),
    }
}

#[test]
fn new_app_shows_the_menu_and_holds_the_detected_facts() {
    let app = App::new(system(true, false));
    assert!(matches!(app.active_screen(), Screen::Menu(_)));
    assert_eq!(app.screens().depth(), 0);
    assert!(!app.is_installing());
    let mut expected = InstallState::default();
    expected.os_name = "debian".to_string();
    expected.os_version = "12".to_string();
    expected.panel_installed = true;
    assert_eq!(app.state(), &expected);
    match app.active_screen() {
        Screen::Menu(m) => assert_eq!(m.menu().len(), 3),
        _ => unreachable!(),
    }
}

#[test]
fn tick_changes_nothing() {
    let mut app = App::new(system(false, false));
    let before = app.state().clone();
    assert_eq!(app.handle_event(AppEvent::Tick), Ok(AppAction::Continue));
    assert_eq!(app.state(), &before);
    assert_eq!(app.screens().depth(), 0);
}

#[test]
fn progress_event_updates_the_state() {
    let mut app = App::new(system(false, false));
    assert_eq!(
        app.handle_event(AppEvent::Progress(42, "Installing deps".to_string())),
        Ok(AppAction::Continue)
    );
    assert_eq!(app.state().progress, 42);
    assert_eq!(app.state().progress_message, "Installing deps");
    app.handle_event(AppEvent::Progress(0, "disk full".to_string())).unwrap();
    assert_eq!(app.state().progress, 0);
    assert_eq!(app.state().progress_message, "disk full");
    app.handle_event(AppEvent::Progress(300, "over".to_string())).unwrap();
    assert_eq!(app.state().progress, 100);
    assert_eq!(app.state().progress_message, "over");
}

#[test]
fn exit_from_the_menu() {
    let mut app = App::new(system(false, false));
    assert_eq!(key(&mut app, Key::Char('c')), AppAction::Exit);
    assert!(!app.is_installing());
}

#[test]
fn back_returns_through_the_screens() {
    let mut app = App::new(system(false, false));
    assert_eq!(key(&mut app, Key::Enter), AppAction::Continue);
    assert!(matches!(app.active_screen(), Screen::Webserver(_)));
    assert_eq!(key(&mut app, Key::Enter), AppAction::Continue);
    assert!(matches!(app.active_screen(), Screen::Protocol(_)));
    assert_eq!(app.screens().depth(), 2);
    assert_eq!(key(&mut app, Key::Char('b')), AppAction::Continue);
    assert!(matches!(app.active_screen(), Screen::Webserver(_)));
    assert_eq!(key(&mut app, Key::Char('b')), AppAction::Continue);
    assert!(matches!(app.active_screen(), Screen::Menu(_)));
    assert_eq!(key(&mut app, Key::Char('b')), AppAction::Continue);
    assert!(matches!(app.active_screen(), Screen::Menu(_)));
    assert_eq!(app.screens().depth(), 0);
}

#[test]
fn wings_starts_the_installation_from_the_menu() {
    let mut app = App::new(system(false, false));
    key(&mut app, Key::Down);
    let snapshot = snapshot_of(key(&mut app, Key::Enter));
    assert!(app.is_installing());
    assert_eq!(snapshot.component, Some(ComponentType::Wings));
    assert_eq!(snapshot.retry_count, 1);
    assert_eq!(&snapshot, app.state());
    match app.active_screen() {
        Screen::Install(i) => assert!(i.is_installation_started()),
        _ => panic!("the installation screen is the active one"),
    }
}

#[test]
fn panel_scenario_ends_complete_and_reaches_the_summary() {
    let mut app = App::new(system(false, false));
    assert_eq!(key(&mut app, Key::Enter), AppAction::Continue);
    assert_eq!(app.state().component, Some(ComponentType::Panel));
    assert_eq!(key(&mut app, Key::Enter), AppAction::Continue);
    assert_eq!(app.state().webserver, WebserverType::Nginx);
    assert_eq!(key(&mut app, Key::Enter), AppAction::Continue);
    assert_eq!(app.state().protocol, ProtocolType::Https);
    assert!(matches!(app.active_screen(), Screen::Domain(_)));
    type_text(&mut app, "panel.example.com");
    assert_eq!(key(&mut app, Key::Enter), AppAction::Continue);
    assert_eq!(app.state().domain, "panel.example.com");
    assert!(matches!(app.active_screen(), Screen::Ssl(_)));
    type_text(&mut app, "admin@example.com");
    let snapshot = snapshot_of(key(&mut app, Key::Enter));
    assert_eq!(snapshot.ssl_email, "admin@example.com");
    assert!(app.is_installing());
    assert!(matches!(app.active_screen(), Screen::Install(_)));

    let commands = carry_out(
        &mut app,
        snapshot,
        vec![
            output(&["PROGRESS:20:Installing deps", "some output"], &[], 0),
            output(&["PROGRESS:80:Configuring panel"], &["warning"], 0),
        ],
    );
    assert_eq!(
        commands,
        vec![
            "./scripts/install_dependencies.sh --component panel --webserver nginx",
            "./scripts/install_panel.sh --domain panel.example.com --protocol https --webserver nginx --ssl-email admin@example.com",
        ]
    );
    assert!(!app.is_installing());
    assert!(app.state().installation_complete);
    assert_eq!(app.state().installation_error, None);
    assert_eq!(app.state().progress, 100);
    assert_eq!(app.state().progress_message, "Installation Complete");
    match app.active_screen() {
        Screen::Install(i) => {
            assert!(i.is_installation_complete());
            assert!(!i.should_show_retry());
            assert_eq!(i.progress().percentage(), 100);
            assert_eq!(
                i.logs().clone(),
                vec![
                    "Initializing installation...",
                    "Installing Dependencies",
                    "Installing deps",
                    "Installing Panel",
                    "Configuring panel",
                    "Installation Complete",
                ]
            );
        }
        _ => panic!("the installation screen is the active one"),
    }
    assert_eq!(key(&mut app, Key::Char('n')), AppAction::Continue);
    assert!(matches!(app.active_screen(), Screen::Summary(_)));
    assert_eq!(key(&mut app, Key::Enter), AppAction::Exit);
}

#[test]
fn failed_dependency_phase_offers_a_retry_that_starts_over() {
    let mut app = App::new(system(false, false));
    key(&mut app, Key::Down);
    let snapshot = snapshot_of(key(&mut app, Key::Enter));
    let commands = carry_out(&mut app, snapshot, vec![output(&["PROGRESS:30:Docker"], &[], 3)]);
    assert_eq!(commands, vec!["./scripts/install_dependencies.sh --component wings"]);
    assert!(!app.is_installing());
    assert!(!app.state().installation_complete);
    assert_eq!(
        app.state().installation_error,
        Some("Installation failed: Docker installation failed with exit code 3".to_string())
    );
    assert!(app.state().installation_error.as_ref().unwrap().contains('3'));
    assert_eq!(app.state().progress, 30);
    let depth = app.screens().depth();
    match app.active_screen() {
        Screen::Install(i) => {
            assert!(i.should_show_retry());
            assert!(i.is_installation_complete());
            assert_eq!(
                i.progress().label(),
                "Installation failed: Installation failed: Docker installation failed with exit code 3"
            );
        }
        _ => panic!("the installation screen is the active one"),
    }
    assert_eq!(key(&mut app, Key::Char('n')), AppAction::Continue);
    assert!(matches!(app.active_screen(), Screen::Install(_)));

    let again = snapshot_of(key(&mut app, Key::Char('r')));
    assert!(app.is_installing());
    assert_eq!(again.progress, 0);
    assert_eq!(again.progress_message, "");
    assert!(!again.installation_complete);
    assert_eq!(again.installation_error, None);
    assert_eq!(again.retry_count, 2);
    assert_eq!(again.component, Some(ComponentType::Wings));
    assert_eq!(&again, app.state());
    assert_eq!(app.screens().depth(), depth + 1);
    match app.active_screen() {
        Screen::Install(i) => {
            assert!(i.is_installation_started());
            assert!(!i.should_show_retry());
            assert!(!i.is_installation_complete());
        }
        _ => panic!("a new installation screen is the active one"),
    }

    let commands = carry_out(&mut app, again, vec![output(&[], &[], 0), output(&[], &[], 0)]);
    assert_eq!(
        commands,
        vec![
            "./scripts/install_dependencies.sh --component wings",
            "./scripts/install_wings.sh",
        ]
    );
    assert!(app.state().installation_complete);
    assert_eq!(app.state().installation_error, None);
}

#[test]
fn retry_event_does_what_the_retry_key_does() {
    let mut with_key = App::new(system(false, false));
    let mut with_event = App::new(system(false, false));
    for app in [&mut with_key, &mut with_event] {
        key(app, Key::Down);
        let snapshot = snapshot_of(key(app, Key::Enter));
        carry_out(app, snapshot, vec![output(&[], &["ERROR:no network"], 1)]);
    }
    let a = snapshot_of(key(&mut with_key, Key::Char('r')));
    let b = snapshot_of(with_event.handle_event(AppEvent::RetryInstallation).unwrap());
    assert_eq!(a, b);
    assert_eq!(b.retry_count, 2);
    assert_eq!(with_key.state(), with_event.state());
    assert_eq!(with_key.screens().depth(), with_event.screens().depth());
    assert!(with_event.is_installing());
}

#[test]
fn retry_event_is_ignored_where_no_retry_is_offered() {
    let mut app = App::new(system(false, false));
    assert_eq!(app.handle_event(AppEvent::RetryInstallation), Ok(AppAction::Continue));
    assert!(!app.is_installing());
    assert_eq!(app.state().retry_count, 0);
    key(&mut app, Key::Enter);
    key(&mut app, Key::Enter);
    key(&mut app, Key::Enter);
    assert!(matches!(app.active_screen(), Screen::Domain(_)));
    assert_eq!(app.handle_event(AppEvent::RetryInstallation), Ok(AppAction::Continue));
    match app.active_screen() {
        Screen::Domain(d) => assert_eq!(d.input().value(), ""),
        _ => unreachable!(),
    }
}

#[test]
fn no_second_installation_starts_while_one_runs() {
    let mut app = App::new(system(false, false));
    key(&mut app, Key::Down);
    let _ = snapshot_of(key(&mut app, Key::Enter));
    let keys = [
        Key::Char('r'),
        Key::Char('n'),
        Key::Char('b'),
        Key::Enter,
        Key::Up,
        Key::Down,
        Key::Other,
    ];
    for k in keys {
        assert_eq!(key(&mut app, k), AppAction::Continue);
        assert!(app.is_installing());
        assert!(matches!(app.active_screen(), Screen::Install(_)));
    }
    assert_eq!(app.handle_event(AppEvent::RetryInstallation), Ok(AppAction::Continue));
    assert_eq!(app.handle_event(AppEvent::Tick), Ok(AppAction::Continue));
    assert_eq!(
        app.handle_event(AppEvent::Progress(10, "x".to_string())),
        Ok(AppAction::Continue)
    );
    assert!(app.is_installing());
    assert_eq!(app.state().retry_count, 1);
}

#[test]
fn exit_while_installing_ends_the_installation() {
    let mut app = App::new(system(false, false));
    key(&mut app, Key::Down);
    let _ = snapshot_of(key(&mut app, Key::Enter));
    assert!(app.is_installing());
    assert_eq!(key(&mut app, Key::Char('c')), AppAction::Exit);
    assert!(!app.is_installing());
}

#[test]
fn install_complete_with_error_records_the_message() {
    let mut app = App::new(system(false, false));
    key(&mut app, Key::Down);
    let _ = snapshot_of(key(&mut app, Key::Enter));
    let e = InstallerError::CommandFailed("Failed to spawn: missing".to_string());
    assert_eq!(app.handle_event(AppEvent::InstallComplete(Err(e))), Ok(AppAction::Continue));
    assert!(!app.is_installing());
    assert_eq!(
        app.state().installation_error,
        Some("Command execution failed: Failed to spawn: missing".to_string())
    );
    assert!(!app.state().installation_complete);
    match app.active_screen() {
        Screen::Install(i) => assert!(i.should_show_retry()),
        _ => unreachable!(),
    }
}

#[test]
fn run_takes_events_in_order_and_stops_at_exit() {
    let mut app = App::new(system(false, false));
    let handled = app.run(vec![
        AppEvent::Key(Key::Down),
        AppEvent::Tick,
        AppEvent::Key(Key::Enter),
        AppEvent::Progress(5, "Installing Dependencies".to_string()),
        AppEvent::Key(Key::Char('c')),
        AppEvent::Progress(50, "never handled".to_string()),
        AppEvent::Key(Key::Enter),
    ]);
    assert_eq!(handled.len(), 5);
    assert_eq!(handled[0], Ok(AppAction::Continue));
    assert_eq!(handled[1], Ok(AppAction::Continue));
    assert!(matches!(handled[2], Ok(AppAction::StartInstallation(_))));
    assert_eq!(handled[3], Ok(AppAction::Continue));
    assert_eq!(handled[4], Ok(AppAction::Exit));
    assert_eq!(app.state().progress, 5);
    assert_eq!(app.state().progress_message, "Installing Dependencies");
}

#[test]
fn run_of_no_events_changes_nothing() {
    let mut app = App::new(system(true, true));
    let before = app.state().clone();
    assert!(app.run(vec![]).is_empty());
    assert_eq!(app.state(), &before);
}

#[test]
fn run_is_the_same_as_handling_one_by_one() {
    let events = || {
        vec![
            AppEvent::Key(Key::Enter),
            AppEvent::Key(Key::Char('2')),
            AppEvent::Key(Key::Enter),
            AppEvent::Key(Key::Down),
            AppEvent::Key(Key::Enter),
            AppEvent::Key(Key::Char('x')),
            AppEvent::Key(Key::Char('.')),
            AppEvent::Key(Key::Char('y')),
            AppEvent::Key(Key::Enter),
            AppEvent::Progress(7, "seven".to_string()),
            AppEvent::InstallComplete(Ok(())),
            AppEvent::Key(Key::Char('n')),
        ]
    };
    let mut whole = App::new(system(false, false));
    let handled = whole.run(events());
    let mut stepwise = App::new(system(false, false));
    let mut one_by_one = Vec::new();
    for e in events() {
        one_by_one.push(stepwise.handle_event(e));
    }
    assert_eq!(handled, one_by_one);
    assert_eq!(whole.state(), stepwise.state());
    assert_eq!(whole.state().webserver, WebserverType::Apache);
    assert_eq!(whole.state().protocol, ProtocolType::Http);
    assert_eq!(whole.state().domain, "x.y");
    assert!(whole.state().installation_complete);
    assert!(matches!(whole.active_screen(), Screen::Summary(_)));
}

#[test]
fn whole_attempt_for_wings() {
    let mut s = InstallState::default();
    s.component = Some(ComponentType::Wings);
    let run: InstallationRun = App::run_installation_internal(
        s,
        &output(&["PROGRESS:10:docker", "ERROR:slow mirror"], &[], 0),
        &output(&["PROGRESS:90:wings"], &["ERROR:late"], 0),
    );
    assert_eq!(run.result, Ok(()));
    assert_eq!(
        run.events,
        vec![
            event(5, "Installing Dependencies"),
            event(10, "docker"),
            event(0, "slow mirror"),
            event(50, "Installing Wings"),
            event(90, "wings"),
            event(0, "late"),
            event(100, "Installation Complete"),
        ]
    );
    let messages: Vec<String> = run.log.iter().map(|e| e.message.clone()).collect();
    assert_eq!(
        messages,
        vec![
            "Executing: ./scripts/install_dependencies.sh --component wings",
            "Progress: 10% - docker",
            "Error: slow mirror",
            "Exit code: 0",
            "Executing: ./scripts/install_wings.sh",
            "Progress: 90% - wings",
            "Stderr: ERROR:late",
            "Exit code: 0",
        ]
    );
}

#[test]
fn whole_attempt_aborts_after_a_failed_dependency_phase() {
    let mut s = InstallState::default();
    s.component = Some(ComponentType::Panel);
    let run = App::run_installation_internal(
        s,
        &output(&["PROGRESS:10:deps"], &[], 3),
        &output(&["PROGRESS:90:never run"], &[], 0),
    );
    assert_eq!(
        run.result,
        Err(InstallerError::InstallationFailed(
            "Dependency installation failed with exit code 3".to_string()
        ))
    );
    assert_eq!(run.events, vec![event(5, "Installing Dependencies"), event(10, "deps")]);
    let messages: Vec<String> = run.log.iter().map(|e| e.message.clone()).collect();
    assert_eq!(
        messages,
        vec![
            "Executing: ./scripts/install_dependencies.sh --component panel --webserver nginx",
            "Progress: 10% - deps",
            "Exit code: 3",
        ]
    );
}

#[test]
fn whole_attempt_without_component_runs_nothing() {
    let run = App::run_installation_internal(
        InstallState::default(),
        &output(&["PROGRESS:10:never run"], &[], 0),
        &output(&["PROGRESS:90:never run"], &[], 0),
    );
    assert_eq!(
        run.result,
        Err(InstallerError::InvalidInput("No component selected".to_string()))
    );
    assert!(run.events.is_empty());
    assert!(run.log.is_empty());
}

#[test]
fn whole_attempt_with_a_failed_component_phase() {
    let mut s = InstallState::default();
    s.component = Some(ComponentType::Wings);
    let run = App::run_installation_internal(
        s,
        &output(&[], &[], 0),
        &ProcessOutput {
            stdout: vec![],
            stderr: vec![],
            end: ProcessEnd::SpawnFailed("not found".to_string()),
        },
    );
    assert_eq!(
        run.result,
        Err(InstallerError::CommandFailed("Failed to spawn: not found".to_string()))
    );
    assert_eq!(
        run.events,
        vec![event(5, "Installing Dependencies"), event(50, "Installing Wings")]
    );
}

#[test]
fn wizard_stays_well_formed_under_arbitrary_events() {
    let mut app = App::new(system(true, true));
    let mut seed: u32 = 987654321;
    let mut starts = 0;
    for _ in 0..5000 {
        seed = seed.wrapping_mul(1664525).wrapping_add(1013904223);
        let pick = (seed >> 16) % 16;
        let event = match pick {
            0 => AppEvent::Key(Key::Enter),
            1 => AppEvent::Key(Key::Down),
            2 => AppEvent::Key(Key::Up),
            3 => AppEvent::Key(Key::Char('b')),
            4 => AppEvent::Key(Key::Char('r')),
            5 => AppEvent::Key(Key::Char('n')),
            6 => AppEvent::Key(Key::Char('@')),
            7 => AppEvent::Key(Key::Char('.')),
            8 => AppEvent::Key(Key::Backspace),
            9 => AppEvent::Tick,
            10 => AppEvent::Progress((seed % 200) as u16, "p".to_string()),
            11 => AppEvent::InstallComplete(Ok(())),
            12 => AppEvent::InstallComplete(Err(InstallerError::Io("x".to_string()))),
            13 => AppEvent::RetryInstallation,
            14 => AppEvent::Key(Key::Char('1')),
            _ => AppEvent::Key(Key::Char('3')),
        };
        let was_installing = app.is_installing();
        let handled = app.handle_event(event).unwrap();
        if let AppAction::StartInstallation(_) = handled {
            assert!(!was_installing);
            assert!(app.is_installing());
            starts += 1;
        }
        assert!(app.state().progress <= 100);
        if app.is_installing() {
            match app.active_screen() {
                Screen::Install(i) => {
                    assert!(i.is_installation_started());
                    assert!(!i.is_installation_complete());
                }
                _ => panic!("a running installation is shown by the active screen"),
            }
        }
    }
    assert!(starts > 0);
}
