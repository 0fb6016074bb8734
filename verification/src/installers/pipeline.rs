//! The installation pipeline: the dependency phase, then the phase of the
//! chosen component, then done.
//!
//! The pipeline decides; it runs nothing itself. Each step says what to
//! report to the progress sink and what to do next: run a command and come
//! back with what the run gave, or finish with a result.

use vstd::prelude::*;
use vstd::string::*;
use crate::error::{outcome_view, InstallerError, InstallerErrorView};
use crate::installers::dependencies::{
    dependency_command,
    dependency_result,
    no_component,
    DependencyInstaller,
};
use crate::installers::panel::{panel_command, panel_result, PanelInstaller};
use crate::installers::wings::{wings_command, wings_result, WingsInstaller};
use crate::installers::{run_view, ProgressEvent, ProgressEventView};
use crate::utils::state::{ComponentType, InstallState, InstallStateView};

verus! {

/// The percentage reported when the dependency phase is entered.
pub const DEPENDENCIES_CHECKPOINT: u16 = 5;

/// The percentage reported when the component phase is entered.
pub const COMPONENT_CHECKPOINT: u16 = 50;

/// The percentage reported when the pipeline is done.
pub const DONE_CHECKPOINT: u16 = 100;

/// The phases of the pipeline, in their order.
#[derive(Debug, Clone, Copy, PartialEq, Eq, Structural)]
pub enum Phase {
    Dependencies,
    Component,
    Done,
}

/// What is to be done after a step of the pipeline.
#[derive(Debug, PartialEq, Eq)]
pub enum PipelineAction {
    /// Run the command, and hand what the run gave to
    /// [`InstallPipeline::advance`].
    Run(String),
    /// The attempt is over, with this result.
    Finish(Result<(), InstallerError>),
}

/// The mathematical content of a [`PipelineAction`].
pub enum ActionView {
    Run(Seq<char>),
    Finish(Result<(), InstallerErrorView>),
}

impl View for PipelineAction {
    type V = ActionView;

    open spec fn view(&self) -> ActionView {
        match self {
            PipelineAction::Run(cmd) => ActionView::Run(cmd@),
            PipelineAction::Finish(result) => ActionView::Finish(outcome_view(*result)),
        }
    }
}

/// One step of the pipeline: what to report, if anything, and what to do.
#[derive(Debug, PartialEq, Eq)]
pub struct PipelineStep {
    pub report: Option<ProgressEvent>,
    pub action: PipelineAction,
}

/// The mathematical content of a [`PipelineStep`].
pub struct StepView {
    pub report: Option<ProgressEventView>,
    pub action: ActionView,
}

/// The view of an optional progress event.
pub open spec fn report_view(report: Option<ProgressEvent>) -> Option<ProgressEventView> {
    match report {
        Some(event) => Some(event@),
        None => None,
    }
}

impl View for PipelineStep {
    type V = StepView;

    open spec fn view(&self) -> StepView {
        StepView { report: report_view(self.report), action: self.action@ }
    }
}

/// The report made when the dependency phase is entered.
pub open spec fn dependencies_report() -> ProgressEventView {
    ProgressEventView { percentage: DEPENDENCIES_CHECKPOINT, message: "Installing Dependencies"@ }
}

/// The report made when the phase of `component` is entered.
pub open spec fn component_report(component: ComponentType) -> ProgressEventView {
    ProgressEventView {
        percentage: COMPONENT_CHECKPOINT,
        message: match component {
            ComponentType::Panel => "Installing Panel"@,
            ComponentType::Wings => "Installing Wings"@,
        },
    }
}

/// The report made when the pipeline is done.
pub open spec fn done_report() -> ProgressEventView {
    ProgressEventView { percentage: DONE_CHECKPOINT, message: "Installation Complete"@ }
}

/// The command of the phase of `component`.
pub open spec fn component_command(state: InstallStateView, component: ComponentType) -> Seq<
    char,
> {
    match component {
        ComponentType::Panel => panel_command(state),
        ComponentType::Wings => wings_command(),
    }
}

/// What the run of the component's script means for its phase.
pub open spec fn component_result(
    component: ComponentType,
    run: Result<i32, InstallerErrorView>,
) -> Result<(), InstallerErrorView> {
    match component {
        ComponentType::Panel => panel_result(run),
        ComponentType::Wings => wings_result(run),
    }
}

/// The step that ends an attempt with an error, reporting nothing.
pub open spec fn failure_step(e: InstallerErrorView) -> StepView {
    StepView { report: None, action: ActionView::Finish(Err(e)) }
}

/// The mathematical content of an [`InstallPipeline`]: the state the
/// attempt started from, the phase it is in, and, once done, its result.
pub struct PipelineView {
    pub state: InstallStateView,
    pub phase: Phase,
    pub outcome: Result<(), InstallerErrorView>,
}

impl PipelineView {
    /// The pipeline that is done with `outcome`.
    pub open spec fn finished(
        state: InstallStateView,
        outcome: Result<(), InstallerErrorView>,
    ) -> PipelineView {
        PipelineView { state, phase: Phase::Done, outcome }
    }

    /// The pipeline at the start of an attempt, and its first step. With a
    /// component chosen, the dependency phase is entered: its checkpoint is
    /// reported and its command is to be run. With none chosen the attempt
    /// is over at once, and nothing is reported or run.
    pub open spec fn start(state: InstallStateView) -> (PipelineView, StepView) {
        match dependency_command(state) {
            Ok(cmd) => (
                PipelineView { state, phase: Phase::Dependencies, outcome: Ok(()) },
                StepView { report: Some(dependencies_report()), action: ActionView::Run(cmd) },
            ),
            Err(e) => (PipelineView::finished(state, Err(e)), failure_step(e)),
        }
    }

    /// The pipeline after the run of the current phase's command gave
    /// `run`, and its next step. A phase that went well is followed by the
    /// next one; a phase that failed ends the attempt with its error and
    /// nothing more is run. Once done, the pipeline stays done and repeats
    /// its result.
    pub open spec fn advance(self, run: Result<i32, InstallerErrorView>) -> (
        PipelineView,
        StepView,
    ) {
        match self.phase {
            Phase::Dependencies => match self.state.component {
                Some(component) => match dependency_result(self.state, run) {
                    Ok(_) => (
                        PipelineView { phase: Phase::Component, ..self },
                        StepView {
                            report: Some(component_report(component)),
                            action: ActionView::Run(component_command(self.state, component)),
                        },
                    ),
                    Err(e) => (PipelineView::finished(self.state, Err(e)), failure_step(e)),
                },
                None => (
                    PipelineView::finished(self.state, Err(no_component())),
                    failure_step(no_component()),
                ),
            },
            Phase::Component => match self.state.component {
                Some(component) => match component_result(component, run) {
                    Ok(_) => (
                        PipelineView::finished(self.state, Ok(())),
                        StepView {
                            report: Some(done_report()),
                            action: ActionView::Finish(Ok(())),
                        },
                    ),
                    Err(e) => (PipelineView::finished(self.state, Err(e)), failure_step(e)),
                },
                None => (
                    PipelineView::finished(self.state, Err(no_component())),
                    failure_step(no_component()),
                ),
            },
            Phase::Done => (self, StepView { report: None, action: ActionView::Finish(self.outcome) }),
        }
    }

    /// The steps that the pipeline takes when it is handed `runs` one after
    /// the other.
    pub open spec fn steps(self, runs: Seq<Result<i32, InstallerErrorView>>) -> Seq<StepView>
        decreases runs.len(),
    {
        if runs.len() == 0 {
            Seq::empty()
        } else {
            seq![self.advance(runs[0]).1] + self.advance(runs[0]).0.steps(runs.drop_first())
        }
    }
}

/// One attempt to install the chosen component, from the start of the
/// dependency phase to the result.
#[derive(Debug)]
pub struct InstallPipeline {
    state: InstallState,
    phase: Phase,
    outcome: Result<(), InstallerError>,
}

impl View for InstallPipeline {
    type V = PipelineView;

    closed spec fn view(&self) -> PipelineView {
        PipelineView {
            state: self.state@,
            phase: self.phase,
            outcome: outcome_view(self.outcome),
        }
    }
}

/// Returns a copy of a result.
fn copy_outcome(outcome: &Result<(), InstallerError>) -> (copy: Result<(), InstallerError>)
    ensures
        outcome_view(copy) == outcome_view(*outcome),
{
    match outcome {
        Ok(_) => Ok(()),
        Err(e) => Err(e.clone()),
    }
}

/// Returns a progress event.
fn checkpoint(percentage: u16, message: &str) -> (event: Option<ProgressEvent>)
    ensures
        report_view(event) == Some(ProgressEventView { percentage, message: message@ }),
{
    Some(ProgressEvent { percentage, message: message.to_owned() })
}

impl InstallPipeline {
    /// Starts an attempt from a snapshot of the install state, and returns
    /// the pipeline with its first step.
    pub fn start(state: InstallState) -> (started: (InstallPipeline, PipelineStep))
        ensures
            (started.0@, started.1@) == PipelineView::start(state@),
            state@.component is None ==> started.0@.phase == Phase::Done && started.1@
                == failure_step(no_component()),
    {
        match DependencyInstaller::new().command(&state) {
            Ok(cmd) => (
                InstallPipeline { state, phase: Phase::Dependencies, outcome: Ok(()) },
                PipelineStep {
                    report: checkpoint(DEPENDENCIES_CHECKPOINT, "Installing Dependencies"),
                    action: PipelineAction::Run(cmd),
                },
            ),
            Err(e) => {
                let outcome = Err(e.clone());
                (
                    InstallPipeline { state, phase: Phase::Done, outcome },
                    PipelineStep { report: None, action: PipelineAction::Finish(Err(e)) },
                )
            },
        }
    }

    /// The phase the pipeline is in.
    pub fn phase(&self) -> (phase: Phase)
        ensures
            phase == self@.phase,
    {
        self.phase
    }

    /// Ends the attempt with an error.
    fn fail(&mut self, e: InstallerError) -> (step: PipelineStep)
        ensures
            final(self)@ == PipelineView::finished(old(self)@.state, Err(e@)),
            step@ == failure_step(e@),
    {
        self.phase = Phase::Done;
        self.outcome = Err(e.clone());
        PipelineStep { report: None, action: PipelineAction::Finish(Err(e)) }
    }

    /// Takes what the run of the current phase's command gave, and returns
    /// the next step.
    pub fn advance(&mut self, run: Result<i32, InstallerError>) -> (step: PipelineStep)
        ensures
            (final(self)@, step@) == old(self)@.advance(run_view(run)),
            old(self)@.phase == Phase::Done ==> final(self)@ == old(self)@,
            step@.action is Run ==> (run == Ok::<i32, InstallerError>(0) && old(self)@.phase
                == Phase::Dependencies && final(self)@.phase == Phase::Component),
    {
        match self.phase {
            Phase::Dependencies => {
                match self.state.component {
                    Some(component) => {
                        match DependencyInstaller::new().install(&self.state, run) {
                            Ok(_) => {
                                self.phase = Phase::Component;
                                match component {
                                    ComponentType::Panel => PipelineStep {
                                        report: checkpoint(
                                            COMPONENT_CHECKPOINT,
                                            "Installing Panel",
                                        ),
                                        action: PipelineAction::Run(
                                            PanelInstaller::new().command(&self.state),
                                        ),
                                    },
                                    ComponentType::Wings => PipelineStep {
                                        report: checkpoint(
                                            COMPONENT_CHECKPOINT,
                                            "Installing Wings",
                                        ),
                                        action: PipelineAction::Run(
                                            WingsInstaller::new().command(&self.state),
                                        ),
                                    },
                                }
                            },
                            Err(e) => self.fail(e),
                        }
                    },
                    None => self.fail(
                        InstallerError::InvalidInput(String::from_str("No component selected")),
                    ),
                }
            },
            Phase::Component => {
                let result = match self.state.component {
                    Some(ComponentType::Panel) => PanelInstaller::new().install(&self.state, run),
                    Some(ComponentType::Wings) => WingsInstaller::new().install(&self.state, run),
                    None => Err(
                        InstallerError::InvalidInput(String::from_str("No component selected")),
                    ),
                };
                match result {
                    Ok(_) => {
                        self.phase = Phase::Done;
                        self.outcome = Ok(());
                        PipelineStep {
                            report: checkpoint(DONE_CHECKPOINT, "Installation Complete"),
                            action: PipelineAction::Finish(Ok(())),
                        }
                    },
                    Err(e) => self.fail(e),
                }
            },
            Phase::Done => PipelineStep {
                report: None,
                action: PipelineAction::Finish(copy_outcome(&self.outcome)),
            },
        }
    }
}

/// A pipeline that is done runs nothing more, whatever it is handed: each
/// of its steps finishes with the result it was done with.
pub proof fn lemma_done_runs_nothing(
    pipeline: PipelineView,
    runs: Seq<Result<i32, InstallerErrorView>>,
)
    requires
        pipeline.phase == Phase::Done,
    ensures
        pipeline.steps(runs).len() == runs.len(),
        forall|i: int|
            0 <= i < runs.len() ==> (#[trigger] pipeline.steps(runs)[i]).action
                == ActionView::Finish(pipeline.outcome),
    decreases runs.len(),
{
    if runs.len() > 0 {
        lemma_done_runs_nothing(pipeline, runs.drop_first());
    }
}

/// An attempt started with no component chosen fails at once as invalid
/// input, reports nothing, and never asks for a command to be run,
/// whatever it is handed afterwards.
pub proof fn lemma_unset_component_runs_nothing(
    state: InstallStateView,
    runs: Seq<Result<i32, InstallerErrorView>>,
)
    requires
        state.component is None,
    ensures
        PipelineView::start(state).1 == failure_step(no_component()),
        PipelineView::start(state).0.phase == Phase::Done,
        forall|i: int|
            0 <= i < runs.len() ==> !((#[trigger] PipelineView::start(state).0.steps(
                runs,
            )[i]).action is Run),
{
    lemma_done_runs_nothing(PipelineView::start(state).0, runs);
}

/// A phase whose run failed, or whose script ended with a code other than
/// zero, ends the attempt with an error: the pipeline is done, and no
/// later step asks for a command to be run.
pub proof fn lemma_failed_phase_aborts(
    pipeline: PipelineView,
    run: Result<i32, InstallerErrorView>,
    runs: Seq<Result<i32, InstallerErrorView>>,
)
    requires
        pipeline.phase != Phase::Done,
        run != Ok::<i32, InstallerErrorView>(0),
    ensures
        pipeline.advance(run).0.phase == Phase::Done,
        pipeline.advance(run).0.outcome is Err,
        pipeline.advance(run).1.report is None,
        pipeline.advance(run).1.action == ActionView::Finish(pipeline.advance(run).0.outcome),
        forall|i: int|
            0 <= i < runs.len() ==> !((#[trigger] pipeline.advance(run).0.steps(runs)[i]).action
                is Run),
{
    lemma_done_runs_nothing(pipeline.advance(run).0, runs);
}

/// An attempt in which both scripts end with code zero reports the
/// checkpoints in their order, runs the dependency command and then the
/// component's command, and finishes well.
pub proof fn lemma_successful_attempt(state: InstallStateView)
    requires
        state.component is Some,
    ensures
        ({
            let component = state.component->0;
            let (p0, s0) = PipelineView::start(state);
            let (p1, s1) = p0.advance(Ok(0));
            let (p2, s2) = p1.advance(Ok(0));
            &&& s0.report == Some(dependencies_report())
            &&& dependency_command(state) == Ok::<Seq<char>, InstallerErrorView>(s0.action->Run_0)
            &&& s0.action is Run
            &&& s1.report == Some(component_report(component))
            &&& s1.action == ActionView::Run(component_command(state, component))
            &&& s2.report == Some(done_report())
            &&& s2.action == ActionView::Finish(Ok(()))
            &&& p2.phase == Phase::Done
            &&& p2.outcome is Ok
        }),
{
}

} // verus!
