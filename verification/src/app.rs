//! The controller of the wizard: it owns the install state and the screen
//! stack, takes the events of the wizard one after the other, and says
//! after each what is to be done outside.

use vstd::prelude::*;
use vstd::string::*;
use crate::error::{outcome_view, InstallerError, InstallerErrorView};
use crate::installers::dependencies::{dependency_command, dependency_subject};
use crate::installers::pipeline::{
    component_command,
    done_report,
    report_view,
    ActionView,
    InstallPipeline,
    PipelineAction,
    PipelineView,
    StepView,
};
use crate::installers::{
    end_result,
    progress_view,
    exit_failure,
    messages_view,
    run_events,
    run_messages,
    CommandExecutor,
    LogEntry,
    ProcessEndView,
    ProcessOutput,
    ProcessOutputView,
    ProgressEvent,
    ProgressEventView,
};
use crate::screens::menu::{MenuScreen, MenuScreenView};
use crate::screens::{
    navigation,
    stack_after,
    Key,
    Navigation,
    Screen,
    ScreenStack,
    ScreenView,
};
use crate::utils::state::{InstallState, InstallStateView, MAX_PROGRESS};
use crate::utils::system::{SystemInfo, SystemInfoView};

verus! {

/// What the wizard is told: a key was pressed, time passed, the
/// installation reported progress or ended, or a retry was asked for.
#[derive(Debug)]
pub enum AppEvent {
    Key(Key),
    Tick,
    Progress(u16, String),
    InstallComplete(Result<(), InstallerError>),
    RetryInstallation,
}

/// The mathematical content of an [`AppEvent`].
pub enum AppEventView {
    Key(Key),
    Tick,
    Progress(u16, Seq<char>),
    InstallComplete(Result<(), InstallerErrorView>),
    RetryInstallation,
}

impl View for AppEvent {
    type V = AppEventView;

    open spec fn view(&self) -> AppEventView {
        match self {
            AppEvent::Key(key) => AppEventView::Key(*key),
            AppEvent::Tick => AppEventView::Tick,
            AppEvent::Progress(percentage, message) => AppEventView::Progress(
                *percentage,
                message@,
            ),
            AppEvent::InstallComplete(result) => AppEventView::InstallComplete(
                outcome_view(*result),
            ),
            AppEvent::RetryInstallation => AppEventView::RetryInstallation,
        }
    }
}

/// What is to be done outside after an event was handled.
#[derive(Debug, PartialEq, Eq)]
pub enum AppAction {
    /// Nothing: wait for the next event.
    Continue,
    /// Start the installation pipeline in the background, from this
    /// snapshot of the install state.
    StartInstallation(InstallState),
    /// Stop a pipeline that still runs, and leave the wizard.
    Exit,
}

/// The mathematical content of an [`AppAction`].
pub enum AppActionView {
    Continue,
    StartInstallation(InstallStateView),
    Exit,
}

impl View for AppAction {
    type V = AppActionView;

    open spec fn view(&self) -> AppActionView {
        match self {
            AppAction::Continue => AppActionView::Continue,
            AppAction::StartInstallation(state) => AppActionView::StartInstallation(state@),
            AppAction::Exit => AppActionView::Exit,
        }
    }
}

/// The view of what handling an event gave.
pub open spec fn handled_view(handled: Result<AppAction, InstallerError>) -> Result<
    AppActionView,
    InstallerErrorView,
> {
    match handled {
        Ok(action) => Ok(action@),
        Err(e) => Err(e@),
    }
}

/// The views of the events of a vector, in order.
pub open spec fn events_view(events: Seq<AppEvent>) -> Seq<AppEventView> {
    events.map_values(|event: AppEvent| event@)
}

/// The views of what handling a row of events gave, in order.
pub open spec fn all_handled_view(handled: Seq<Result<AppAction, InstallerError>>) -> Seq<
    Result<AppActionView, InstallerErrorView>,
> {
    handled.map_values(|h: Result<AppAction, InstallerError>| handled_view(h))
}

/// The mathematical content of an [`App`]: the install state, the screens
/// of the stack with the active one last, and whether an installation is
/// running.
pub struct AppView {
    pub state: InstallStateView,
    pub screens: Seq<ScreenView>,
    pub installing: bool,
}

/// What handling an event leaves behind: the wizard, and what is to be
/// done outside or the error of the screen that took the key.
pub type Handled = (AppView, Result<AppActionView, InstallerErrorView>);

impl AppView {
    /// The wizard at startup: the install state holds the detected facts
    /// and nothing else; the menu is the only screen; nothing is being
    /// installed.
    pub open spec fn initial(info: SystemInfoView) -> AppView {
        AppView {
            state: InstallStateView {
                os_name: info.os_name,
                os_version: info.os_version,
                panel_installed: info.panel_installed,
                wings_installed: info.wings_installed,
                ..InstallStateView::initial()
            },
            screens: seq![
                ScreenView::Menu(
                    MenuScreenView::initial(info.panel_installed, info.wings_installed),
                ).mounted(),
            ],
            installing: false,
        }
    }

    /// The stack holds a screen; while an installation is running the
    /// active screen is the installation screen and shows it as running;
    /// and the recorded progress is a percentage.
    pub open spec fn wf(self) -> bool {
        &&& self.screens.len() >= 1
        &&& self.installing ==> self.active().shows_running_installation()
        &&& self.state.progress <= MAX_PROGRESS
    }

    /// The active screen.
    pub open spec fn active(self) -> ScreenView
        recommends
            self.screens.len() >= 1,
    {
        self.screens.last()
    }

    /// The wizard with another active screen.
    pub open spec fn with_active(self, screen: ScreenView) -> AppView {
        AppView { screens: self.screens.update(self.screens.len() - 1, screen), ..self }
    }

    /// The wizard at the start of an attempt: an installation is running,
    /// and the install state is reset with the attempt counted.
    pub open spec fn started(self) -> AppView {
        AppView { installing: true, state: self.state.without_error().reset(), ..self }
    }

    /// What a key does. The active screen takes it and answers. Its
    /// answer is applied to the stack. Entering a screen that starts an
    /// installation starts one, unless one is running. Leaving the wizard
    /// ends a running installation. An error of the screen leaves the
    /// wizard as the screen left it.
    pub open spec fn on_key(self, key: Key) -> Handled {
        let outcome = self.active().on_key(key, self.state);
        let taken = AppView { state: outcome.state, ..self.with_active(outcome.screen) };
        match outcome.answer {
            Err(e) => (taken, Err(e)),
            Ok(answer) => {
                let moved = AppView { screens: stack_after(taken.screens, answer), ..taken };
                match navigation(taken.screens, answer) {
                    Navigation::Entered(starts) => if starts && !self.installing {
                        (moved.started(), Ok(AppActionView::StartInstallation(moved.started().state)))
                    } else {
                        (moved, Ok(AppActionView::Continue))
                    },
                    Navigation::Exit => (
                        AppView { installing: false, ..moved },
                        Ok(AppActionView::Exit),
                    ),
                    _ => (moved, Ok(AppActionView::Continue)),
                }
            },
        }
    }

    /// What a progress report does: the install state records it, and the
    /// active screen shows it where it is the installation screen.
    pub open spec fn on_progress(self, percentage: u16, message: Seq<char>) -> AppView {
        AppView {
            state: self.state.with_progress(percentage, message),
            ..self.with_active(self.active().with_progress(percentage, message))
        }
    }

    /// What the end of an installation does: no installation is running
    /// any more. A good end is recorded in the install state as complete
    /// and without error; a bad one is recorded with the error's message.
    /// The active screen shows the end where it is the installation
    /// screen.
    pub open spec fn on_complete(self, result: Result<(), InstallerErrorView>) -> AppView {
        match result {
            Ok(_) => AppView {
                installing: false,
                state: self.state.completed(),
                ..self.with_active(self.active().completed())
            },
            Err(e) => AppView {
                installing: false,
                state: self.state.with_error(e.message()),
                ..self.with_active(self.active().failed(e.message()))
            },
        }
    }

    /// What a request for a retry does: on the installation screen it does
    /// what the key `r` does there; on any other screen it does nothing.
    pub open spec fn on_retry(self) -> Handled {
        if self.active() is Install {
            self.on_key(Key::Char('r'))
        } else {
            (self, Ok(AppActionView::Continue))
        }
    }

    /// What an event does.
    pub open spec fn on_event(self, event: AppEventView) -> Handled {
        match event {
            AppEventView::Key(key) => self.on_key(key),
            AppEventView::Tick => (self, Ok(AppActionView::Continue)),
            AppEventView::Progress(percentage, message) => (
                self.on_progress(percentage, message),
                Ok(AppActionView::Continue),
            ),
            AppEventView::InstallComplete(result) => (
                self.on_complete(result),
                Ok(AppActionView::Continue),
            ),
            AppEventView::RetryInstallation => self.on_retry(),
        }
    }

    /// The wizard after the given events were handled in their order, up
    /// to and with the first one that leaves the wizard.
    pub open spec fn after_events(self, events: Seq<AppEventView>) -> AppView
        decreases events.len(),
    {
        if events.len() == 0 {
            self
        } else if self.on_event(events[0]).1 == Ok::<AppActionView, InstallerErrorView>(
            AppActionView::Exit,
        ) {
            self.on_event(events[0]).0
        } else {
            self.on_event(events[0]).0.after_events(events.drop_first())
        }
    }

    /// What handling the given events in their order gave, one entry for
    /// each event up to and with the first one that leaves the wizard.
    pub open spec fn handled_events(self, events: Seq<AppEventView>) -> Seq<
        Result<AppActionView, InstallerErrorView>,
    >
        decreases events.len(),
    {
        if events.len() == 0 {
            Seq::empty()
        } else if self.on_event(events[0]).1 == Ok::<AppActionView, InstallerErrorView>(
            AppActionView::Exit,
        ) {
            seq![self.on_event(events[0]).1]
        } else {
            seq![self.on_event(events[0]).1] + self.on_event(events[0]).0.handled_events(
                events.drop_first(),
            )
        }
    }
}

/// Everything one attempt gave: the progress events in the order in which
/// they were reported, the entries written to the log, and the result.
#[derive(Debug)]
pub struct InstallationRun {
    pub events: Vec<ProgressEvent>,
    pub log: Vec<LogEntry>,
    pub result: Result<(), InstallerError>,
}

/// The mathematical content of an [`InstallationRun`].
pub struct InstallationRunView {
    pub events: Seq<ProgressEventView>,
    pub messages: Seq<Seq<char>>,
    pub result: Result<(), InstallerErrorView>,
}

impl View for InstallationRun {
    type V = InstallationRunView;

    open spec fn view(&self) -> InstallationRunView {
        InstallationRunView {
            events: progress_view(self.events@),
            messages: messages_view(self.log@),
            result: outcome_view(self.result),
        }
    }
}

/// What a step of the pipeline reports: one event, or none.
pub open spec fn reported(report: Option<ProgressEventView>) -> Seq<ProgressEventView> {
    match report {
        Some(event) => seq![event],
        None => Seq::empty(),
    }
}

/// The events that the run of a script reports.
pub open spec fn output_events(output: ProcessOutputView) -> Seq<ProgressEventView> {
    run_events(output.stdout, output.stderr, output.end)
}

/// The log messages that the run of `cmd` leaves.
pub open spec fn output_messages(cmd: Seq<char>, output: ProcessOutputView) -> Seq<Seq<char>> {
    run_messages(cmd, output.stdout, output.stderr, output.end)
}

/// The result with which a step ends the attempt.
pub open spec fn finished_with(step: StepView) -> Result<(), InstallerErrorView> {
    match step.action {
        ActionView::Finish(result) => result,
        ActionView::Run(_) => Ok(()),
    }
}

/// What one attempt gives, from the state it starts from and from what the
/// scripts of its two phases give when they are run. The pipeline is
/// started and handed the end of each run in turn. Each step's report and
/// the events of each run are reported in the order in which they arise.
/// The script of a phase that is not reached is not run: nothing of what
/// it would give appears.
pub open spec fn installation_run(
    state: InstallStateView,
    dependencies: ProcessOutputView,
    component: ProcessOutputView,
) -> InstallationRunView {
    let (started, first) = PipelineView::start(state);
    match first.action {
        ActionView::Finish(result) => InstallationRunView {
            events: reported(first.report),
            messages: Seq::empty(),
            result,
        },
        ActionView::Run(first_cmd) => {
            let (entered, second) = started.advance(end_result(dependencies.end));
            let events = reported(first.report) + output_events(dependencies) + reported(second.report);
            let messages = output_messages(first_cmd, dependencies);
            match second.action {
                ActionView::Finish(result) => InstallationRunView { events, messages, result },
                ActionView::Run(second_cmd) => {
                    let last = entered.advance(end_result(component.end)).1;
                    InstallationRunView {
                        events: events + output_events(component) + reported(last.report),
                        messages: messages + output_messages(second_cmd, component),
                        result: finished_with(last),
                    }
                },
            }
        },
    }
}

/// Takes what a step reports into the events of a run.
fn take_report(events: &mut Vec<ProgressEvent>, report: Option<ProgressEvent>)
    ensures
        progress_view(final(events)@) == progress_view(old(events)@) + reported(
            report_view(report),
        ),
{
    match report {
        Some(event) => events.push(event),
        None => {},
    }
}

/// Carries out the run of `cmd` from what the script gave, and takes its
/// events and log entries into those of the attempt.
fn take_run(
    events: &mut Vec<ProgressEvent>,
    log: &mut Vec<LogEntry>,
    cmd: &str,
    output: &ProcessOutput,
) -> (run: Result<i32, InstallerError>)
    ensures
        progress_view(final(events)@) == progress_view(old(events)@) + output_events(output@),
        messages_view(final(log)@) == messages_view(old(log)@) + output_messages(cmd@, output@),
        crate::installers::run_view(run) == end_result(output.end@),
{
    let mut executor = CommandExecutor::new();
    let run = executor.run_streaming(cmd, output);
    let mut new_events = executor.take_events();
    let mut new_log = executor.take_log();
    events.append(&mut new_events);
    log.append(&mut new_log);
    run
}

/// The controller of the wizard.
#[derive(Debug)]
pub struct App {
    state: InstallState,
    screen_stack: ScreenStack,
    installing: bool,
}

impl View for App {
    type V = AppView;

    closed spec fn view(&self) -> AppView {
        AppView { state: self.state@, screens: self.screen_stack@, installing: self.installing }
    }
}

impl App {
    /// Returns the wizard at startup, for a system with the given facts.
    pub fn new(system_info: SystemInfo) -> (app: App)
        ensures
            app@ == AppView::initial(system_info@),
            app@.wf(),
    {
        let mut state = InstallState::default();
        state.panel_installed = system_info.panel_installed;
        state.wings_installed = system_info.wings_installed;
        let menu = MenuScreen::new(system_info.panel_installed, system_info.wings_installed);
        state.os_name = system_info.os_name;
        state.os_version = system_info.os_version;
        let screen_stack = ScreenStack::new(Screen::Menu(menu), &mut state);
        App { state, screen_stack, installing: false }
    }

    /// The install state.
    pub fn state(&self) -> (state: &InstallState)
        ensures
            state@ == self@.state,
    {
        &self.state
    }

    /// The screen stack.
    pub fn screens(&self) -> (stack: &ScreenStack)
        ensures
            stack@ == self@.screens,
    {
        &self.screen_stack
    }

    /// The active screen.
    pub fn active_screen(&self) -> (screen: &Screen)
        ensures
            self@.screens.len() >= 1,
            screen@ == self@.active(),
    {
        self.screen_stack.active()
    }

    /// Tells whether an installation is running.
    pub fn is_installing(&self) -> (installing: bool)
        ensures
            installing == self@.installing,
    {
        self.installing
    }

    /// Begins an attempt: resets the install state, counts the attempt,
    /// and hands out the snapshot from which the pipeline is to start.
    fn start_installation(&mut self) -> (action: AppAction)
        ensures
            final(self)@ == old(self)@.started(),
            action@ == AppActionView::StartInstallation(final(self)@.state),
    {
        self.installing = true;
        self.state.clear_error();
        self.state.reset_installation();
        AppAction::StartInstallation(self.state.clone())
    }

    /// Ends a running attempt as far as the wizard is concerned.
    fn cleanup_installation(&mut self)
        ensures
            final(self)@ == (AppView { installing: false, ..old(self)@ }),
    {
        self.installing = false;
    }

    /// Takes a key.
    fn handle_key(&mut self, key: Key) -> (handled: Result<AppAction, InstallerError>)
        ensures
            (final(self)@, handled_view(handled)) == old(self)@.on_key(key),
    {
        match self.screen_stack.handle_key(key, &mut self.state) {
            Err(e) => Err(e),
            Ok(answer) => {
                match self.screen_stack.apply(answer, &mut self.state) {
                    Navigation::Entered(starts) => {
                        if starts && !self.installing {
                            Ok(self.start_installation())
                        } else {
                            Ok(AppAction::Continue)
                        }
                    },
                    Navigation::Exit => {
                        self.cleanup_installation();
                        Ok(AppAction::Exit)
                    },
                    _ => Ok(AppAction::Continue),
                }
            },
        }
    }

    /// Takes one event of the wizard, and says what is to be done outside.
    /// An error is that of the screen that took a key; the wizard can go
    /// on after it.
    pub fn handle_event(&mut self, event: AppEvent) -> (handled: Result<
        AppAction,
        InstallerError,
    >)
        ensures
            (final(self)@, handled_view(handled)) == old(self)@.on_event(event@),
            old(self)@.wf() ==> final(self)@.wf(),
            handled_view(handled) matches Ok(AppActionView::StartInstallation(snapshot)) ==> {
                &&& !old(self)@.installing
                &&& final(self)@.installing
                &&& snapshot == final(self)@.state
                &&& snapshot.progress == 0
                &&& snapshot.installation_error is None
                &&& !snapshot.installation_complete
            },
            event@ matches AppEventView::InstallComplete(result) ==> {
                &&& !final(self)@.installing
                &&& result is Ok ==> final(self)@.state.succeeded() && !final(self)@.state.failed()
                &&& result matches Err(e) ==> {
                    &&& final(self)@.state.installation_error == Some(e.message())
                    &&& !final(self)@.state.succeeded()
                }
            },
            event@ matches AppEventView::Progress(percentage, message) ==> {
                &&& final(self)@.state == old(self)@.state.with_progress(percentage, message)
                &&& final(self)@.state.progress_message == message
                &&& final(self)@.state.progress <= MAX_PROGRESS
                &&& percentage <= MAX_PROGRESS ==> final(self)@.state.progress == percentage
            },
    {
        proof {
            if old(self)@.wf() {
                lemma_event_keeps_wf(old(self)@, event@);
            }
        }
        match event {
            AppEvent::Key(key) => self.handle_key(key),
            AppEvent::Tick => Ok(AppAction::Continue),
            AppEvent::Progress(percentage, message) => {
                self.state.record_progress(percentage, message.clone());
                self.screen_stack.update_progress(percentage, message);
                Ok(AppAction::Continue)
            },
            AppEvent::InstallComplete(result) => {
                self.installing = false;
                match result {
                    Ok(_) => {
                        self.state.mark_complete();
                        self.screen_stack.set_complete();
                    },
                    Err(e) => {
                        let text = e.to_string();
                        self.screen_stack.set_error(text.as_str());
                        self.state.set_error(text);
                    },
                }
                Ok(AppAction::Continue)
            },
            AppEvent::RetryInstallation => {
                if self.screen_stack.active().is_install() {
                    self.handle_key(Key::Char('r'))
                } else {
                    Ok(AppAction::Continue)
                }
            },
        }
    }

    /// Carries out one attempt from what the scripts of its two phases
    /// give when they are run: starts the pipeline from `state`, has each
    /// run taken by an executor of its own, and returns the events, the log
    /// entries and the result.
    pub fn run_installation_internal(
        state: InstallState,
        dependencies: &ProcessOutput,
        component: &ProcessOutput,
    ) -> (run: InstallationRun)
        ensures
            run@ == installation_run(state@, dependencies@, component@),
    {
        let mut events: Vec<ProgressEvent> = Vec::new();
        let mut log: Vec<LogEntry> = Vec::new();
        assert(messages_view(log@) =~= Seq::empty());
        let (mut pipeline, first) = InstallPipeline::start(state);
        take_report(&mut events, first.report);
        let first_cmd = match first.action {
            PipelineAction::Finish(result) => {
                return InstallationRun { events, log, result };
            },
            PipelineAction::Run(cmd) => cmd,
        };
        let first_run = take_run(&mut events, &mut log, first_cmd.as_str(), dependencies);
        let second = pipeline.advance(first_run);
        take_report(&mut events, second.report);
        let second_cmd = match second.action {
            PipelineAction::Finish(result) => {
                return InstallationRun { events, log, result };
            },
            PipelineAction::Run(cmd) => cmd,
        };
        let second_run = take_run(&mut events, &mut log, second_cmd.as_str(), component);
        let last = pipeline.advance(second_run);
        take_report(&mut events, last.report);
        let result = match last.action {
            PipelineAction::Finish(result) => result,
            PipelineAction::Run(_) => Ok(()),
        };
        InstallationRun { events, log, result }
    }

    /// Takes the given events in their order, up to and with the first
    /// one that leaves the wizard, and returns what handling each of them
    /// gave.
    pub fn run(&mut self, events: Vec<AppEvent>) -> (handled: Vec<Result<AppAction, InstallerError>>)
        ensures
            final(self)@ == old(self)@.after_events(events_view(events@)),
            all_handled_view(handled@) == old(self)@.handled_events(events_view(events@)),
            old(self)@.wf() ==> final(self)@.wf(),
    {
        let ghost all = events_view(events@);
        let mut handled: Vec<Result<AppAction, InstallerError>> = Vec::new();
        assert(all.subrange(0, all.len() as int) =~= all);
        for event in it: events
            invariant
                events_view(it.seq()) == all,
                old(self)@.after_events(all) == self@.after_events(
                    all.subrange(it.index() as int, all.len() as int),
                ),
                old(self)@.handled_events(all) == all_handled_view(handled@)
                    + self@.handled_events(all.subrange(it.index() as int, all.len() as int)),
                old(self)@.wf() ==> self@.wf(),
        {
            let ghost rest = all.subrange(it.index() as int, all.len() as int);
            assert(rest.drop_first() =~= all.subrange(it.index() + 1, all.len() as int));
            let outcome = self.handle_event(event);
            let leave = match &outcome {
                Ok(AppAction::Exit) => true,
                _ => false,
            };
            handled.push(outcome);
            if leave {
                return handled;
            }
        }
        handled
    }
}

/// An attempt in which both scripts end with code zero ends well, and the
/// last thing it reports is that the installation is complete.
pub proof fn lemma_attempt_succeeds(
    state: InstallStateView,
    dependencies: ProcessOutputView,
    component: ProcessOutputView,
)
    requires
        state.component is Some,
        dependencies.end == ProcessEndView::Exited(Some(0)),
        component.end == ProcessEndView::Exited(Some(0)),
    ensures
        installation_run(state, dependencies, component).result is Ok,
        installation_run(state, dependencies, component).events.last() == done_report(),
        installation_run(state, dependencies, component).messages == output_messages(
            dependency_command(state)->Ok_0,
            dependencies,
        ) + output_messages(component_command(state, state.component->0), component),
{
}

/// An attempt whose dependency script ends with a code other than zero
/// fails with that code in its error; the component's script is not run:
/// the log holds the run of the dependency script and nothing else, and
/// no event is reported behind those of that run.
pub proof fn lemma_attempt_aborts(
    state: InstallStateView,
    dependencies: ProcessOutputView,
    component: ProcessOutputView,
    code: i32,
)
    requires
        state.component is Some,
        dependencies.end == ProcessEndView::Exited(Some(code)),
        code != 0,
    ensures
        installation_run(state, dependencies, component).result == Err::<(), InstallerErrorView>(
            exit_failure(dependency_subject(state.component->0), code),
        ),
        installation_run(state, dependencies, component).messages == output_messages(
            dependency_command(state)->Ok_0,
            dependencies,
        ),
        installation_run(state, dependencies, component).events == reported(
            PipelineView::start(state).1.report,
        ) + output_events(dependencies),
{
}

/// Handling an event keeps the wizard well formed: the stack still holds
/// a screen, a running installation is still shown as running by the
/// active screen, and the recorded progress is still a percentage.
pub proof fn lemma_event_keeps_wf(app: AppView, event: AppEventView)
    requires
        app.wf(),
    ensures
        app.on_event(event).0.wf(),
{
    match event {
        AppEventView::Key(key) => {
            lemma_key_keeps_wf(app, key);
        },
        AppEventView::RetryInstallation => {
            if app.active() is Install {
                lemma_key_keeps_wf(app, Key::Char('r'));
            }
        },
        _ => {},
    }
}

/// Handling a key keeps the wizard well formed.
pub proof fn lemma_key_keeps_wf(app: AppView, key: Key)
    requires
        app.wf(),
    ensures
        app.on_key(key).0.wf(),
{
    crate::screens::lemma_next_starts_installation(app.active(), key, app.state);
}

/// Whatever events the wizard is given, in whatever order, it stays well
/// formed: the stack never underflows and has one active screen, a
/// running installation is shown by the active screen, and the recorded
/// progress is a percentage.
pub proof fn lemma_events_keep_wf(app: AppView, events: Seq<AppEventView>)
    requires
        app.wf(),
    ensures
        app.after_events(events).wf(),
        app.after_events(events).screens.len() >= 1,
    decreases events.len(),
{
    if events.len() > 0 {
        lemma_event_keeps_wf(app, events[0]);
        lemma_events_keep_wf(app.on_event(events[0]).0, events.drop_first());
    }
}

/// At most one installation runs at a time: while one is running, no
/// event starts another. In a well formed wizard none even asks for one:
/// while an installation is running no event enters or leaves a screen,
/// and every event is answered with going on or with leaving the wizard.
pub proof fn lemma_one_installation_at_a_time(app: AppView, event: AppEventView)
    requires
        app.installing,
    ensures
        !(app.on_event(event).1 matches Ok(AppActionView::StartInstallation(_))),
        app.wf() ==> {
            &&& app.on_event(event).0.screens.len() == app.screens.len()
            &&& app.on_event(event).1 == Ok::<AppActionView, InstallerErrorView>(
                AppActionView::Continue,
            ) || app.on_event(event).1 == Ok::<AppActionView, InstallerErrorView>(
                AppActionView::Exit,
            )
        },
{
}

/// A retry asked for on the screen of a failed installation starts a new
/// attempt: progress, completion and error are cleared, and the attempt
/// is counted once.
pub proof fn lemma_retry_starts_over(app: AppView)
    requires
        app.wf(),
        !app.installing,
        app.active() matches ScreenView::Install(s) && s.show_retry,
    ensures
        ({
            let (next, handled) = app.on_event(AppEventView::RetryInstallation);
            &&& handled == Ok::<AppActionView, InstallerErrorView>(
                AppActionView::StartInstallation(next.state),
            )
            &&& next.installing
            &&& next.state == app.state.without_error().reset()
            &&& next.state.progress == 0
            &&& !next.state.installation_complete
            &&& next.state.installation_error is None
            &&& app.state.retry_count < u32::MAX ==> next.state.retry_count
                == app.state.retry_count + 1
            &&& next.active().shows_running_installation()
            &&& app.on_event(AppEventView::Key(Key::Char('r'))) == (next, handled)
        }),
{
}

} // verus!
