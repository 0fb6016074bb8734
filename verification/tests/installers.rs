use pelican_installer::error::InstallerError;
use pelican_installer::installers::check_run;
use pelican_installer::installers::dependencies::DependencyInstaller;
use pelican_installer::installers::panel::PanelInstaller;
use pelican_installer::installers::wings::WingsInstaller;
use pelican_installer::utils::state::{ComponentType, InstallState, ProtocolType, WebserverType};

fn panel_state() -> InstallState {
    let mut s = InstallState::default();
    s.component = Some(ComponentType::Panel);
    s.webserver = WebserverType::Nginx;
    s.protocol = ProtocolType::Https;
    s.domain = "panel.example.com".to_string();
    s.ssl_email = "admin@example.com".to_string();
    s
}

fn wings_state() -> InstallState {
    let mut s = InstallState::default();
    s.component = Some(ComponentType::Wings);
    s
}

fn failed(text: &str) -> Result<(), InstallerError> {
    Err(InstallerError::InstallationFailed(text.to_string()))
}

#[test]
fn dependency_command_for_the_panel_names_the_webserver() {
    let d = DependencyInstaller::new();
    let mut s = panel_state();
    assert_eq!(
        d.command(&s),
        Ok("./scripts/install_dependencies.sh --component panel --webserver nginx".to_string())
    );
    s.webserver = WebserverType::Apache;
    assert_eq!(
        d.command(&s),
        Ok("./scripts/install_dependencies.sh --component panel --webserver apache".to_string())
    );
    s.webserver = WebserverType::Caddy;
    assert_eq!(
        d.command(&s),
        Ok("./scripts/install_dependencies.sh --component panel --webserver caddy".to_string())
    );
}

#[test]
fn dependency_command_for_wings() {
    assert_eq!(
        DependencyInstaller::new().command(&wings_state()),
        Ok("./scripts/install_dependencies.sh --component wings".to_string())
    );
}

#[test]
fn dependency_command_without_component_is_invalid_input() {
    assert_eq!(
        DependencyInstaller::new().command(&InstallState::default()),
        Err(InstallerError::InvalidInput("No component selected".to_string()))
    );
}

#[test]
fn dependency_install_results() {
    let d = DependencyInstaller::new();
    assert_eq!(d.install(&panel_state(), Ok(0)), Ok(()));
    assert_eq!(d.install(&wings_state(), Ok(0)), Ok(()));
    assert_eq!(
        d.install(&panel_state(), Ok(3)),
        failed("Dependency installation failed with exit code 3")
    );
    assert_eq!(
        d.install(&wings_state(), Ok(127)),
        failed("Docker installation failed with exit code 127")
    );
    assert_eq!(
        d.install(&panel_state(), Ok(-1)),
        failed("Dependency installation failed with exit code -1")
    );
}

#[test]
fn dependency_install_without_component_is_invalid_input() {
    let d = DependencyInstaller::new();
    let none = InstallState::default();
    let expected = Err(InstallerError::InvalidInput("No component selected".to_string()));
    assert_eq!(d.install(&none, Ok(0)), expected);
    assert_eq!(d.install(&none, Ok(1)), expected);
    assert_eq!(
        d.install(&none, Err(InstallerError::CommandFailed("x".to_string()))),
        expected
    );
}

#[test]
fn install_hands_on_the_error_of_a_failed_run() {
    let e = InstallerError::CommandFailed("Failed to spawn: gone".to_string());
    assert_eq!(
        DependencyInstaller::new().install(&panel_state(), Err(e.clone())),
        Err(e.clone())
    );
    assert_eq!(PanelInstaller::new().install(&panel_state(), Err(e.clone())), Err(e.clone()));
    assert_eq!(WingsInstaller::new().install(&wings_state(), Err(e.clone())), Err(e));
}

#[test]
fn panel_command_names_domain_protocol_webserver_and_email() {
    let p = PanelInstaller::new();
    assert_eq!(
        p.command(&panel_state()),
        "./scripts/install_panel.sh --domain panel.example.com --protocol https --webserver nginx --ssl-email admin@example.com"
    );
    let mut s = panel_state();
    s.protocol = ProtocolType::Http;
    s.webserver = WebserverType::Caddy;
    s.domain = "10.0.0.1".to_string();
    s.ssl_email = String::new();
    assert_eq!(
        p.command(&s),
        "./scripts/install_panel.sh --domain 10.0.0.1 --protocol http --webserver caddy --ssl-email "
    );
}

#[test]
fn panel_install_results() {
    let p = PanelInstaller::new();
    assert_eq!(p.install(&panel_state(), Ok(0)), Ok(()));
    assert_eq!(
        p.install(&panel_state(), Ok(1)),
        failed("Panel installation failed with exit code 1")
    );
}

#[test]
fn wings_command_takes_no_arguments() {
    assert_eq!(WingsInstaller::new().command(&wings_state()), "./scripts/install_wings.sh");
    assert_eq!(WingsInstaller::new().command(&panel_state()), "./scripts/install_wings.sh");
}

#[test]
fn wings_install_results() {
    let w = WingsInstaller::new();
    assert_eq!(w.install(&wings_state(), Ok(0)), Ok(()));
    assert_eq!(
        w.install(&wings_state(), Ok(2)),
        failed("Wings installation failed with exit code 2")
    );
    assert_eq!(
        w.install(&wings_state(), Ok(i32::MIN)),
        failed("Wings installation failed with exit code -2147483648")
    );
}

#[test]
fn check_run_names_what_failed() {
    assert_eq!(check_run("Thing", Ok(0)), Ok(()));
    assert_eq!(check_run("Thing", Ok(5)), failed("Thing failed with exit code 5"));
    assert_eq!(
        check_run("Thing", Err(InstallerError::Io("x".to_string()))),
        Err(InstallerError::Io("x".to_string()))
    );
}
