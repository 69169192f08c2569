//! What the directory service can answer besides a result.
//!
//! The service itself is a remote capability with two operations, looking an
//! account up by name and checking a password for a uid. The library never
//! performs them: it asks for them and is told what came back.

use vstd::prelude::*;
use vstd::string::*;

verus! {

/// A refusal or failure reported by the directory service.
#[derive(Debug, PartialEq, Eq)]
pub enum DirectoryError {
    /// No account goes by the name or uid that was asked for.
    NoSuchUser,
    /// The account exists and the password is not its password.
    WrongPassword,
    /// An account of that name exists already. No operation of a login can
    /// cause this answer.
    AlreadyExists,
    /// The request or its answer was lost on the way; the text describes how.
    Transport(String),
}

/// The mathematical content of a [`DirectoryError`].
pub ghost enum DirectoryErrorView {
    NoSuchUser,
    WrongPassword,
    AlreadyExists,
    Transport(Seq<char>),
}

impl View for DirectoryError {
    type V = DirectoryErrorView;

    open spec fn view(&self) -> DirectoryErrorView {
        match self {
            DirectoryError::NoSuchUser => DirectoryErrorView::NoSuchUser,
            DirectoryError::WrongPassword => DirectoryErrorView::WrongPassword,
            DirectoryError::AlreadyExists => DirectoryErrorView::AlreadyExists,
            DirectoryError::Transport(detail) => DirectoryErrorView::Transport(detail@),
        }
    }
}

impl Clone for DirectoryError {
    fn clone(&self) -> (copy: Self)
        ensures
            copy == *self,
    {
        match self {
            DirectoryError::NoSuchUser => DirectoryError::NoSuchUser,
            DirectoryError::WrongPassword => DirectoryError::WrongPassword,
            DirectoryError::AlreadyExists => DirectoryError::AlreadyExists,
            DirectoryError::Transport(detail) => DirectoryError::Transport(detail.clone()),
        }
    }
}

/// What is shown for a directory error: a short reason for a refusal, the
/// underlying description for a transport failure.
pub open spec fn directory_error_text(error: DirectoryErrorView) -> Seq<char> {
    match error {
        DirectoryErrorView::NoSuchUser => "No such user"@,
        DirectoryErrorView::WrongPassword => "Wrong password"@,
        DirectoryErrorView::AlreadyExists => "User already exists"@,
        DirectoryErrorView::Transport(detail) => detail,
    }
}

impl DirectoryError {
    /// The text to show for this error.
    pub fn message(&self) -> (text: String)
        ensures
            text@ == directory_error_text(self@),
    {
        match self {
            DirectoryError::NoSuchUser => "No such user".to_owned(),
            DirectoryError::WrongPassword => "Wrong password".to_owned(),
            DirectoryError::AlreadyExists => "User already exists".to_owned(),
            DirectoryError::Transport(detail) => detail.clone(),
        }
    }

    /// Whether a login can go on after this error, with a new attempt.
    ///
    /// Every error is recoverable but the one that no login can cause.
    pub fn is_recoverable(&self) -> (recoverable: bool)
        ensures
            recoverable == !(self@ is AlreadyExists),
    {
        match self {
            DirectoryError::AlreadyExists => false,
            _ => true,
        }
    }
}

} // verus!
