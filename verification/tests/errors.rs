use login_manager::{DirectoryError, Error, Operation, OsFailure, SupervisorError};

#[test]
fn directory_refusals_show_a_short_reason() {
    assert_eq!(DirectoryError::NoSuchUser.message(), "No such user");
    assert_eq!(DirectoryError::WrongPassword.message(), "Wrong password");
    assert_eq!(DirectoryError::AlreadyExists.message(), "User already exists");
}

#[test]
fn transport_failure_shows_the_underlying_description() {
    let error = DirectoryError::Transport("connection reset by peer".to_string());
    assert_eq!(error.message(), "connection reset by peer");
}

#[test]
fn only_an_existing_account_is_unrecoverable() {
    assert!(DirectoryError::NoSuchUser.is_recoverable());
    assert!(DirectoryError::WrongPassword.is_recoverable());
    assert!(DirectoryError::Transport("broken pipe".to_string()).is_recoverable());
    assert!(!DirectoryError::AlreadyExists.is_recoverable());
}

#[test]
fn supervisor_errors_say_what_is_wrong_with_the_parameter() {
    assert_eq!(SupervisorError::Missing.message(), "supervisor identifier is not set");
    assert_eq!(
        SupervisorError::NotNumeric("init".to_string()).message(),
        "supervisor identifier is not a number: init"
    );
}

#[test]
fn os_failures_name_the_operation_and_the_cause() {
    let failure = |operation| OsFailure { operation, description: "EPERM: Operation not permitted".to_string() };
    assert_eq!(failure(Operation::OpenTerminal).message(), "Nix Error: EPERM: Operation not permitted");
    assert_eq!(failure(Operation::CreateSession).message(), "Nix Error: EPERM: Operation not permitted");
    assert_eq!(failure(Operation::BindTerminal).message(), "Nix Error: EPERM: Operation not permitted");
    assert_eq!(failure(Operation::SetIdentity).message(), "Failed to set UID: EPERM: Operation not permitted");
    assert_eq!(
        failure(Operation::SpawnShell).message(),
        "Failed to launch shell: EPERM: Operation not permitted"
    );
}

#[test]
fn fatal_errors_say_what_failed_and_why() {
    assert_eq!(
        Error::Serviced(SupervisorError::Missing).message(),
        "Failed to signal service daemon: supervisor identifier is not set"
    );
    assert_eq!(
        Error::Serviced(SupervisorError::NotNumeric("1 2".to_string())).message(),
        "Failed to signal service daemon: supervisor identifier is not a number: 1 2"
    );
    assert_eq!(Error::Userd(DirectoryError::AlreadyExists).message(), "Userd error: User already exists");
    assert_eq!(Error::IpcError("no such socket".to_string()).message(), "IPC Error: no such socket");
    assert_eq!(
        Error::Nix(OsFailure {
            operation: Operation::OpenTerminal,
            description: "ENOENT: No such file or directory".to_string(),
        })
        .message(),
        "Nix Error: ENOENT: No such file or directory"
    );
    assert_eq!(Error::OutOfOrder.message(), "Internal error: result out of order");
}

#[test]
fn empty_descriptions_leave_the_lead_alone() {
    assert_eq!(Error::IpcError(String::new()).message(), "IPC Error: ");
    assert_eq!(DirectoryError::Transport(String::new()).message(), "");
}

#[test]
fn copies_of_errors_equal_what_was_copied() {
    let errors = vec![
        Error::Serviced(SupervisorError::Missing),
        Error::Serviced(SupervisorError::NotNumeric("x".to_string())),
        Error::Userd(DirectoryError::Transport("lost".to_string())),
        Error::IpcError("refused".to_string()),
        Error::Nix(OsFailure { operation: Operation::SpawnShell, description: "ENOEXEC".to_string() }),
        Error::OutOfOrder,
    ];
    for error in &errors {
        assert_eq!(&error.clone(), error);
        assert_eq!(error.clone().message(), error.message());
    }
}
