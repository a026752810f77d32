use compactveteran::guard::{guard, GuardError};

#[test]
fn guard_accepts_ordinary_changes() {
    assert_eq!(guard(" M src/main.rs\n?? notes.txt"), Ok(()));
    assert_eq!(guard(""), Ok(()));
}

#[test]
fn guard_refuses_env_file() {
    assert_eq!(guard("?? .env"), Err(GuardError::CredentialFilename));
    assert_eq!(guard(" M config/.env.local"), Err(GuardError::CredentialFilename));
}

#[test]
fn guard_refuses_keys_and_secrets() {
    assert_eq!(guard("A  certs/server.PEM"), Err(GuardError::CredentialFilename));
    assert_eq!(guard("A  deploy.key"), Err(GuardError::CredentialFilename));
    assert_eq!(guard("?? Credentials.json"), Err(GuardError::CredentialFilename));
    assert_eq!(guard("?? secrets.yaml"), Err(GuardError::CredentialFilename));
    assert_eq!(guard("?? home/.ssh/id_rsa"), Err(GuardError::CredentialFilename));
    assert_eq!(guard("?? id_ed25519"), Err(GuardError::CredentialFilename));
}

#[test]
fn guard_checks_rename_target() {
    assert_eq!(guard("R  old.txt -> .env"), Err(GuardError::CredentialFilename));
    assert_eq!(guard("R  .env -> safe.txt"), Ok(()));
}

#[test]
fn guard_checks_every_line() {
    assert_eq!(guard(" M a.rs\r\n M b.rs\n?? keys/prod.key\n"), Err(GuardError::CredentialFilename));
}

#[test]
fn guard_uses_file_name_only() {
    // A directory named like a secret does not trip the guard.
    assert_eq!(guard("?? secrets/readme.md"), Ok(()));
    // Trailing slashes and `.` components are skipped.
    assert_eq!(guard("?? conf/.env/"), Err(GuardError::CredentialFilename));
    assert_eq!(guard("?? conf/.env/."), Err(GuardError::CredentialFilename));
    // A final `..` has no file name.
    assert_eq!(guard("?? .env/.."), Ok(()));
    // Too short a line has no path.
    assert_eq!(guard(".e"), Ok(()));
}

#[test]
fn guard_error_message() {
    assert_eq!(GuardError::CredentialFilename.message(), "credential filename guard");
}
