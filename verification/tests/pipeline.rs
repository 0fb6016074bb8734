use pelican_installer::error::InstallerError;
use pelican_installer::installers::pipeline::{
    InstallPipeline, Phase, PipelineAction, PipelineStep, COMPONENT_CHECKPOINT,
    DEPENDENCIES_CHECKPOINT, DONE_CHECKPOINT,
};
use pelican_installer::installers::ProgressEvent;
use pelican_installer::utils::state::{ComponentType, InstallState, ProtocolType, WebserverType};

fn panel_state() -> InstallState {
    let mut s = InstallState::default();
    s.component = Some(ComponentType::Panel);
    s.webserver = WebserverType::Nginx;
    s.protocol = ProtocolType::Https;
    s.domain = "panel.example.com".to_string();
    s.ssl_email = "admin@example.com".to_string();
    s
}

fn wings_state() -> InstallState {
    let mut s = InstallState::default();
    s.component = Some(ComponentType::Wings);
    s
}

fn run_step(percentage: u16, message: &str, cmd: &str) -> PipelineStep {
    PipelineStep {
        report: Some(ProgressEvent { percentage, message: message.to_string() }),
        action: PipelineAction::Run(cmd.to_string()),
    }
}

fn failure(e: InstallerError) -> PipelineStep {
    PipelineStep { report: None, action: PipelineAction::Finish(Err(e)) }
}

#[test]
fn checkpoints() {
    assert_eq!(DEPENDENCIES_CHECKPOINT, 5);
    assert_eq!(COMPONENT_CHECKPOINT, 50);
    assert_eq!(DONE_CHECKPOINT, 100);
}

#[test]
fn panel_pipeline_runs_dependencies_then_panel_then_finishes() {
    let (mut p, first) = InstallPipeline::start(panel_state());
    assert_eq!(p.phase(), Phase::Dependencies);
    assert_eq!(
        first,
        run_step(
            5,
            "Installing Dependencies",
            "./scripts/install_dependencies.sh --component panel --webserver nginx"
        )
    );
    let second = p.advance(Ok(0));
    assert_eq!(p.phase(), Phase::Component);
    assert_eq!(
        second,
        run_step(
            50,
            "Installing Panel",
            "./scripts/install_panel.sh --domain panel.example.com --protocol https --webserver nginx --ssl-email admin@example.com"
        )
    );
    let last = p.advance(Ok(0));
    assert_eq!(p.phase(), Phase::Done);
    assert_eq!(
        last,
        PipelineStep {
            report: Some(ProgressEvent {
                percentage: 100,
                message: "Installation Complete".to_string()
            }),
            action: PipelineAction::Finish(Ok(())),
        }
    );
}

#[test]
fn wings_pipeline_runs_dependencies_then_wings_then_finishes() {
    let (mut p, first) = InstallPipeline::start(wings_state());
    assert_eq!(
        first,
        run_step(
            5,
            "Installing Dependencies",
            "./scripts/install_dependencies.sh --component wings"
        )
    );
    assert_eq!(
        p.advance(Ok(0)),
        run_step(50, "Installing Wings", "./scripts/install_wings.sh")
    );
    let last = p.advance(Ok(0));
    assert_eq!(last.action, PipelineAction::Finish(Ok(())));
    assert_eq!(p.phase(), Phase::Done);
}

#[test]
fn pipeline_without_component_fails_at_once_and_runs_nothing() {
    let (mut p, first) = InstallPipeline::start(InstallState::default());
    let expected = InstallerError::InvalidInput("No component selected".to_string());
    assert_eq!(first, failure(expected.clone()));
    assert_eq!(p.phase(), Phase::Done);
    for run in [Ok(0), Ok(1), Err(InstallerError::Io("x".to_string()))] {
        assert_eq!(p.advance(run), failure(expected.clone()));
        assert_eq!(p.phase(), Phase::Done);
    }
}

#[test]
fn failed_dependency_phase_aborts_before_the_component_phase() {
    let (mut p, _) = InstallPipeline::start(panel_state());
    let expected = InstallerError::InstallationFailed(
        "Dependency installation failed with exit code 3".to_string(),
    );
    assert_eq!(p.advance(Ok(3)), failure(expected.clone()));
    assert_eq!(p.phase(), Phase::Done);
    assert_eq!(p.advance(Ok(0)), failure(expected.clone()));
    assert_eq!(p.advance(Ok(0)), failure(expected));
}

#[test]
fn failed_dependency_phase_for_wings_names_docker() {
    let (mut p, _) = InstallPipeline::start(wings_state());
    assert_eq!(
        p.advance(Ok(1)),
        failure(InstallerError::InstallationFailed(
            "Docker installation failed with exit code 1".to_string()
        ))
    );
}

#[test]
fn failed_component_phase_ends_the_attempt() {
    let (mut p, _) = InstallPipeline::start(panel_state());
    p.advance(Ok(0));
    assert_eq!(
        p.advance(Ok(4)),
        failure(InstallerError::InstallationFailed(
            "Panel installation failed with exit code 4".to_string()
        ))
    );
    assert_eq!(p.phase(), Phase::Done);

    let (mut w, _) = InstallPipeline::start(wings_state());
    w.advance(Ok(0));
    assert_eq!(
        w.advance(Ok(-1)),
        failure(InstallerError::InstallationFailed(
            "Wings installation failed with exit code -1".to_string()
        ))
    );
}

#[test]
fn a_run_that_failed_ends_the_attempt_with_its_error() {
    let e = InstallerError::CommandFailed("Failed to spawn: missing".to_string());
    let (mut p, _) = InstallPipeline::start(panel_state());
    assert_eq!(p.advance(Err(e.clone())), failure(e.clone()));
    assert_eq!(p.phase(), Phase::Done);

    let (mut q, _) = InstallPipeline::start(panel_state());
    q.advance(Ok(0));
    assert_eq!(q.advance(Err(e.clone())), failure(e));
}

#[test]
fn a_finished_pipeline_repeats_its_result() {
    let (mut p, _) = InstallPipeline::start(wings_state());
    p.advance(Ok(0));
    p.advance(Ok(0));
    for run in [Ok(0), Ok(9)] {
        assert_eq!(
            p.advance(run),
            PipelineStep { report: None, action: PipelineAction::Finish(Ok(())) }
        );
        assert_eq!(p.phase(), Phase::Done);
    }
}
