//! The failures that end the program.

use crate::directory::{directory_error_text, DirectoryError, DirectoryErrorView};
use vstd::prelude::*;
use vstd::string::*;

verus! {

/// What is wrong with the start-up parameter that names the supervisor.
#[derive(Debug, PartialEq, Eq)]
pub enum SupervisorError {
    /// The parameter is not set.
    Missing,
    /// The parameter is set to the given text, which is no process identifier.
    NotNumeric(String),
}

/// The mathematical content of a [`SupervisorError`].
pub ghost enum SupervisorErrorView {
    Missing,
    NotNumeric(Seq<char>),
}

impl View for SupervisorError {
    type V = SupervisorErrorView;

    open spec fn view(&self) -> SupervisorErrorView {
        match self {
            SupervisorError::Missing => SupervisorErrorView::Missing,
            SupervisorError::NotNumeric(text) => SupervisorErrorView::NotNumeric(text@),
        }
    }
}

impl Clone for SupervisorError {
    fn clone(&self) -> (copy: Self)
        ensures
            copy == *self,
    {
        match self {
            SupervisorError::Missing => SupervisorError::Missing,
            SupervisorError::NotNumeric(text) => SupervisorError::NotNumeric(text.clone()),
        }
    }
}

/// The operating-system operations of one session, in the order in which a
/// session performs them.
#[derive(Debug, PartialEq, Eq, Clone, Copy)]
pub enum Operation {
    OpenTerminal,
    CreateSession,
    BindTerminal,
    SetIdentity,
    SpawnShell,
}

/// An operating-system operation that failed, with the system's description
/// of the failure.
#[derive(Debug, PartialEq, Eq)]
pub struct OsFailure {
    pub operation: Operation,
    pub description: String,
}

/// The mathematical content of an [`OsFailure`].
pub ghost struct OsFailureView {
    pub operation: Operation,
    pub description: Seq<char>,
}

impl View for OsFailure {
    type V = OsFailureView;

    open spec fn view(&self) -> OsFailureView {
        OsFailureView { operation: self.operation, description: self.description@ }
    }
}

impl Clone for OsFailure {
    fn clone(&self) -> (copy: Self)
        ensures
            copy == *self,
    {
        OsFailure { operation: self.operation, description: self.description.clone() }
    }
}

/// A failure that the program does not recover from.
#[derive(Debug, PartialEq, Eq)]
pub enum Error {
    /// The supervisor cannot be identified.
    Serviced(SupervisorError),
    /// The directory service answered what no login can cause.
    Userd(DirectoryError),
    /// The directory service cannot be reached.
    IpcError(String),
    /// An operating-system operation failed.
    Nix(OsFailure),
    /// A result arrived that the operation in progress cannot produce.
    OutOfOrder,
}

/// The mathematical content of an [`Error`].
pub ghost enum ErrorView {
    Serviced(SupervisorErrorView),
    Userd(DirectoryErrorView),
    IpcError(Seq<char>),
    Nix(OsFailureView),
    OutOfOrder,
}

impl View for Error {
    type V = ErrorView;

    open spec fn view(&self) -> ErrorView {
        match self {
            Error::Serviced(cause) => ErrorView::Serviced(cause@),
            Error::Userd(cause) => ErrorView::Userd(cause@),
            Error::IpcError(detail) => ErrorView::IpcError(detail@),
            Error::Nix(failure) => ErrorView::Nix(failure@),
            Error::OutOfOrder => ErrorView::OutOfOrder,
        }
    }
}

impl Clone for Error {
    fn clone(&self) -> (copy: Self)
        ensures
            copy == *self,
    {
        match self {
            Error::Serviced(cause) => Error::Serviced(cause.clone()),
            Error::Userd(cause) => Error::Userd(cause.clone()),
            Error::IpcError(detail) => Error::IpcError(detail.clone()),
            Error::Nix(failure) => Error::Nix(failure.clone()),
            Error::OutOfOrder => Error::OutOfOrder,
        }
    }
}

/// What is shown when the supervisor cannot be identified.
pub open spec fn supervisor_error_text(error: SupervisorErrorView) -> Seq<char> {
    match error {
        SupervisorErrorView::Missing => "supervisor identifier is not set"@,
        SupervisorErrorView::NotNumeric(text) => "supervisor identifier is not a number: "@ + text,
    }
}

/// The words that introduce the description of a failed operation.
pub open spec fn operation_text(operation: Operation) -> Seq<char> {
    match operation {
        Operation::OpenTerminal => "Nix Error: "@,
        Operation::CreateSession => "Nix Error: "@,
        Operation::BindTerminal => "Nix Error: "@,
        Operation::SetIdentity => "Failed to set UID: "@,
        Operation::SpawnShell => "Failed to launch shell: "@,
    }
}

/// What is shown for a fatal error: what failed, then the description of the
/// cause.
pub open spec fn error_text(error: ErrorView) -> Seq<char> {
    match error {
        ErrorView::Serviced(cause) => "Failed to signal service daemon: "@ + supervisor_error_text(
            cause,
        ),
        ErrorView::Userd(cause) => "Userd error: "@ + directory_error_text(cause),
        ErrorView::IpcError(detail) => "IPC Error: "@ + detail,
        ErrorView::Nix(failure) => operation_text(failure.operation) + failure.description,
        ErrorView::OutOfOrder => "Internal error: result out of order"@,
    }
}

impl SupervisorError {
    /// The text to show for this error.
    pub fn message(&self) -> (text: String)
        ensures
            text@ == supervisor_error_text(self@),
    {
        match self {
            SupervisorError::Missing => "supervisor identifier is not set".to_owned(),
            SupervisorError::NotNumeric(text) => {
                let lead = "supervisor identifier is not a number: ";
                lead.to_owned().concat(text.as_str())
            },
        }
    }
}

impl OsFailure {
    /// The text to show for this failure.
    pub fn message(&self) -> (text: String)
        ensures
            text@ == operation_text(self.operation) + self.description@,
    {
        let lead = match self.operation {
            Operation::OpenTerminal => "Nix Error: ",
            Operation::CreateSession => "Nix Error: ",
            Operation::BindTerminal => "Nix Error: ",
            Operation::SetIdentity => "Failed to set UID: ",
            Operation::SpawnShell => "Failed to launch shell: ",
        };
        lead.to_owned().concat(self.description.as_str())
    }
}

impl Error {
    /// The text to show for this error.
    pub fn message(&self) -> (text: String)
        ensures
            text@ == error_text(self@),
    {
        match self {
            Error::Serviced(cause) => "Failed to signal service daemon: ".to_owned().concat(
                cause.message().as_str(),
            ),
            Error::Userd(cause) => "Userd error: ".to_owned().concat(cause.message().as_str()),
            Error::IpcError(detail) => "IPC Error: ".to_owned().concat(detail.as_str()),
            Error::Nix(failure) => failure.message(),
            Error::OutOfOrder => "Internal error: result out of order".to_owned(),
        }
    }
}

} // verus!
