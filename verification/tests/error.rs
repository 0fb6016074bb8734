use pelican_installer::error::InstallerError;

#[test]
fn error_texts() {
    assert_eq!(InstallerError::Io("denied".to_string()).to_string(), "IO error: denied");
    assert_eq!(
        InstallerError::CommandFailed("Failed to spawn: x".to_string()).to_string(),
        "Command execution failed: Failed to spawn: x"
    );
    assert_eq!(
        InstallerError::SystemDetection("no file".to_string()).to_string(),
        "System detection failed: no file"
    );
    assert_eq!(
        InstallerError::InstallationFailed("code 3".to_string()).to_string(),
        "Installation failed: code 3"
    );
    assert_eq!(
        InstallerError::InvalidInput("No component selected".to_string()).to_string(),
        "Invalid input: No component selected"
    );
    assert_eq!(
        InstallerError::ParseError("bad".to_string()).to_string(),
        "Parsing error: bad"
    );
}

#[test]
fn error_text_with_empty_reason() {
    assert_eq!(InstallerError::Io(String::new()).to_string(), "IO error: ");
}

#[test]
fn error_clone_is_equal() {
    let all = vec![
        InstallerError::Io("a".to_string()),
        InstallerError::CommandFailed("b".to_string()),
        InstallerError::SystemDetection("c".to_string()),
        InstallerError::InstallationFailed("d".to_string()),
        InstallerError::InvalidInput("e".to_string()),
        InstallerError::ParseError("f".to_string()),
    ];
    for e in &all {
        assert_eq!(&e.clone(), e);
    }
}
