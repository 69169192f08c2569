//! The login state machine: one attempt after another until the directory
//! service accepts a user.
//!
//! An attempt asks for a username, looks the account up, asks for a password
//! if the account has one, and has the directory check it. Whatever goes wrong
//! on the way, the next thing asked for is a username again, never a password
//! alone.

use crate::directory::{DirectoryError, DirectoryErrorView};
use crate::error::{Error, ErrorView};
use crate::text::{prompt_line, prompt_text, strip_line, strip_newlines};
use crate::user::{User, UserView};
use vstd::prelude::*;
use vstd::string::*;

verus! {

/// One attempt at a login: what has been entered and found so far, and where
/// the attempt stands.
///
/// An attempt lives for one retry cycle. When the directory turns it down it
/// is discarded, and a fresh one takes its place at the username prompt.
#[derive(Debug, PartialEq, Eq)]
pub enum LoginAttempt {
    /// The username prompt is showing.
    AwaitingUsername,
    /// The directory is looking up the entered name.
    AwaitingUser { username: String },
    /// The account has a password and the password prompt is showing.
    AwaitingPassword { user: User },
    /// The directory is checking the candidate password.
    AwaitingVerdict { user: User },
    /// The directory accepted the password: the login is over.
    Authenticated { user: User },
    /// The login cannot go on.
    Failed { error: Error },
}

/// The mathematical content of a [`LoginAttempt`].
pub ghost enum LoginAttemptView {
    AwaitingUsername,
    AwaitingUser { username: Seq<char> },
    AwaitingPassword { user: UserView },
    AwaitingVerdict { user: UserView },
    Authenticated { user: UserView },
    Failed { error: ErrorView },
}

impl View for LoginAttempt {
    type V = LoginAttemptView;

    open spec fn view(&self) -> LoginAttemptView {
        match self {
            LoginAttempt::AwaitingUsername => LoginAttemptView::AwaitingUsername,
            LoginAttempt::AwaitingUser { username } => LoginAttemptView::AwaitingUser {
                username: username@,
            },
            LoginAttempt::AwaitingPassword { user } => LoginAttemptView::AwaitingPassword {
                user: user@,
            },
            LoginAttempt::AwaitingVerdict { user } => LoginAttemptView::AwaitingVerdict {
                user: user@,
            },
            LoginAttempt::Authenticated { user } => LoginAttemptView::Authenticated {
                user: user@,
            },
            LoginAttempt::Failed { error } => LoginAttemptView::Failed { error: error@ },
        }
    }
}

/// The result of the operation that the machine asked for last.
#[derive(Debug, PartialEq, Eq)]
pub enum LoginEvent {
    /// The line read at the username prompt, as entered.
    UsernameRead(String),
    /// The directory found the account.
    UserFound(User),
    /// The directory did not return an account.
    UserLookupFailed(DirectoryError),
    /// The password read at the password prompt.
    PasswordRead(String),
    /// The directory accepted the password.
    PasswordAccepted,
    /// The directory did not accept the password.
    PasswordRefused(DirectoryError),
}

/// The mathematical content of a [`LoginEvent`].
pub ghost enum LoginEventView {
    UsernameRead(Seq<char>),
    UserFound(UserView),
    UserLookupFailed(DirectoryErrorView),
    PasswordRead(Seq<char>),
    PasswordAccepted,
    PasswordRefused(DirectoryErrorView),
}

impl View for LoginEvent {
    type V = LoginEventView;

    open spec fn view(&self) -> LoginEventView {
        match self {
            LoginEvent::UsernameRead(line) => LoginEventView::UsernameRead(line@),
            LoginEvent::UserFound(user) => LoginEventView::UserFound(user@),
            LoginEvent::UserLookupFailed(reason) => LoginEventView::UserLookupFailed(reason@),
            LoginEvent::PasswordRead(password) => LoginEventView::PasswordRead(password@),
            LoginEvent::PasswordAccepted => LoginEventView::PasswordAccepted,
            LoginEvent::PasswordRefused(reason) => LoginEventView::PasswordRefused(reason@),
        }
    }
}

/// The result of a lookup, as the login takes it: the account, or the reason
/// for which there is none.
pub open spec fn lookup_event(reply: Result<User, DirectoryError>) -> LoginEventView {
    match reply {
        Ok(user) => LoginEventView::UserFound(user@),
        Err(reason) => LoginEventView::UserLookupFailed(reason@),
    }
}

/// The result of a password check, as the login takes it: the acceptance, or
/// the reason for the refusal.
pub open spec fn verdict_event(reply: Result<(), DirectoryError>) -> LoginEventView {
    match reply {
        Ok(_) => LoginEventView::PasswordAccepted,
        Err(reason) => LoginEventView::PasswordRefused(reason@),
    }
}

impl LoginEvent {
    /// Turns the directory's answer to a lookup into the result to report.
    pub fn fetched(reply: Result<User, DirectoryError>) -> (event: LoginEvent)
        ensures
            event@ == lookup_event(reply),
    {
        match reply {
            Ok(user) => LoginEvent::UserFound(user),
            Err(reason) => LoginEvent::UserLookupFailed(reason),
        }
    }

    /// Turns the directory's answer to a password check into the result to
    /// report.
    pub fn verified(reply: Result<(), DirectoryError>) -> (event: LoginEvent)
        ensures
            event@ == verdict_event(reply),
    {
        match reply {
            Ok(_) => LoginEvent::PasswordAccepted,
            Err(reason) => LoginEvent::PasswordRefused(reason),
        }
    }
}

/// The operation that the machine asks for next.
#[derive(Debug, PartialEq, Eq)]
pub enum LoginCommand {
    /// Show the username prompt and read one line.
    PromptUsername,
    /// Ask the directory for the account of this name.
    FetchUser { username: String },
    /// Show the password prompt and read the password without echo.
    PromptPassword,
    /// Ask the directory whether this is the password of this uid.
    VerifyPassword { uid: u32, password: String },
}

/// The mathematical content of a [`LoginCommand`].
pub ghost enum LoginCommandView {
    PromptUsername,
    FetchUser { username: Seq<char> },
    PromptPassword,
    VerifyPassword { uid: u32, password: Seq<char> },
}

impl View for LoginCommand {
    type V = LoginCommandView;

    open spec fn view(&self) -> LoginCommandView {
        match self {
            LoginCommand::PromptUsername => LoginCommandView::PromptUsername,
            LoginCommand::FetchUser { username } => LoginCommandView::FetchUser {
                username: username@,
            },
            LoginCommand::PromptPassword => LoginCommandView::PromptPassword,
            LoginCommand::VerifyPassword { uid, password } => LoginCommandView::VerifyPassword {
                uid: *uid,
                password: password@,
            },
        }
    }
}

/// How the attempt that received the last result stands after it.
#[derive(Debug, PartialEq, Eq)]
pub enum Outcome {
    /// The attempt goes on.
    Pending,
    /// The attempt succeeded for this user.
    Authenticated(User),
    /// The directory turned the attempt down; the attempt is discarded.
    Rejected(DirectoryError),
}

/// The mathematical content of an [`Outcome`].
pub ghost enum OutcomeView {
    Pending,
    Authenticated(UserView),
    Rejected(DirectoryErrorView),
}

impl View for Outcome {
    type V = OutcomeView;

    open spec fn view(&self) -> OutcomeView {
        match self {
            Outcome::Pending => OutcomeView::Pending,
            Outcome::Authenticated(user) => OutcomeView::Authenticated(user@),
            Outcome::Rejected(reason) => OutcomeView::Rejected(reason@),
        }
    }
}

/// One step of the machine: the attempt as it stands now, what became of the
/// attempt that received the result, and the operation to perform next, if the
/// login goes on.
#[derive(Debug, PartialEq, Eq)]
pub struct LoginStep {
    pub state: LoginAttempt,
    pub outcome: Outcome,
    pub command: Option<LoginCommand>,
}

/// The mathematical content of a [`LoginStep`].
pub ghost struct LoginStepView {
    pub state: LoginAttemptView,
    pub outcome: OutcomeView,
    pub command: Option<LoginCommandView>,
}

impl View for LoginStep {
    type V = LoginStepView;

    open spec fn view(&self) -> LoginStepView {
        LoginStepView {
            state: self.state@,
            outcome: self.outcome@,
            command: match self.command {
                Some(command) => Some(command@),
                None => None,
            },
        }
    }
}

/// The label of the username prompt.
pub open spec fn username_label() -> Seq<char> {
    "Username"@
}

/// The label of the password prompt.
pub open spec fn password_label() -> Seq<char> {
    "password"@
}

/// The start of a login: a fresh attempt, and the username prompt as the first
/// operation.
pub open spec fn login_start() -> LoginStepView {
    LoginStepView {
        state: LoginAttemptView::AwaitingUsername,
        outcome: OutcomeView::Pending,
        command: Some(LoginCommandView::PromptUsername),
    }
}

/// What follows when the directory turns an attempt down: a fresh attempt that
/// starts at the username prompt, unless the answer is one that no login can
/// cause, which ends the login for good.
pub open spec fn login_rejected(reason: DirectoryErrorView) -> LoginStepView {
    if reason is AlreadyExists {
        LoginStepView {
            state: LoginAttemptView::Failed { error: ErrorView::Userd(reason) },
            outcome: OutcomeView::Rejected(reason),
            command: None,
        }
    } else {
        LoginStepView {
            state: LoginAttemptView::AwaitingUsername,
            outcome: OutcomeView::Rejected(reason),
            command: Some(LoginCommandView::PromptUsername),
        }
    }
}

/// What follows a result that the operation in progress cannot produce.
pub open spec fn login_out_of_order() -> LoginStepView {
    LoginStepView {
        state: LoginAttemptView::Failed { error: ErrorView::OutOfOrder },
        outcome: OutcomeView::Pending,
        command: None,
    }
}

/// The transition function of the login machine.
pub open spec fn login_step(state: LoginAttemptView, event: LoginEventView) -> LoginStepView {
    match state {
        LoginAttemptView::AwaitingUsername => match event {
            LoginEventView::UsernameRead(line) => LoginStepView {
                state: LoginAttemptView::AwaitingUser { username: strip_newlines(line) },
                outcome: OutcomeView::Pending,
                command: Some(LoginCommandView::FetchUser { username: strip_newlines(line) }),
            },
            _ => login_out_of_order(),
        },
        LoginAttemptView::AwaitingUser { username } => match event {
            LoginEventView::UserFound(user) => if user.password_set {
                LoginStepView {
                    state: LoginAttemptView::AwaitingPassword { user },
                    outcome: OutcomeView::Pending,
                    command: Some(LoginCommandView::PromptPassword),
                }
            } else {
                LoginStepView {
                    state: LoginAttemptView::AwaitingVerdict { user },
                    outcome: OutcomeView::Pending,
                    command: Some(
                        LoginCommandView::VerifyPassword {
                            uid: user.uid,
                            password: Seq::<char>::empty(),
                        },
                    ),
                }
            },
            LoginEventView::UserLookupFailed(reason) => login_rejected(reason),
            _ => login_out_of_order(),
        },
        LoginAttemptView::AwaitingPassword { user } => match event {
            LoginEventView::PasswordRead(password) => LoginStepView {
                state: LoginAttemptView::AwaitingVerdict { user },
                outcome: OutcomeView::Pending,
                command: Some(LoginCommandView::VerifyPassword { uid: user.uid, password }),
            },
            _ => login_out_of_order(),
        },
        LoginAttemptView::AwaitingVerdict { user } => match event {
            LoginEventView::PasswordAccepted => LoginStepView {
                state: LoginAttemptView::Authenticated { user },
                outcome: OutcomeView::Authenticated(user),
                command: None,
            },
            LoginEventView::PasswordRefused(reason) => login_rejected(reason),
            _ => login_out_of_order(),
        },
        LoginAttemptView::Authenticated { user } => LoginStepView {
            state: LoginAttemptView::Authenticated { user },
            outcome: OutcomeView::Authenticated(user),
            command: None,
        },
        LoginAttemptView::Failed { error } => LoginStepView {
            state: LoginAttemptView::Failed { error },
            outcome: OutcomeView::Pending,
            command: None,
        },
    }
}

impl LoginCommand {
    /// The prompt to show for this command: the label, a colon and a space.
    /// A command that reads nothing from the terminal has no prompt.
    pub fn prompt(&self) -> (text: Option<String>)
        ensures
            match self@ {
                LoginCommandView::PromptUsername => text is Some && text->0@ == prompt_line(
                    username_label(),
                ),
                LoginCommandView::PromptPassword => text is Some && text->0@ == prompt_line(
                    password_label(),
                ),
                _ => text is None,
            },
    {
        match self {
            LoginCommand::PromptUsername => Some(prompt_text("Username")),
            LoginCommand::PromptPassword => Some(prompt_text("password")),
            _ => None,
        }
    }
}

impl LoginStep {
    /// Starts a login.
    pub fn start() -> (step: LoginStep)
        ensures
            step@ == login_start(),
    {
        LoginStep {
            state: LoginAttempt::AwaitingUsername,
            outcome: Outcome::Pending,
            command: Some(LoginCommand::PromptUsername),
        }
    }

    fn rejected(reason: DirectoryError) -> (step: LoginStep)
        ensures
            step@ == login_rejected(reason@),
    {
        if reason.is_recoverable() {
            LoginStep {
                state: LoginAttempt::AwaitingUsername,
                outcome: Outcome::Rejected(reason),
                command: Some(LoginCommand::PromptUsername),
            }
        } else {
            LoginStep {
                state: LoginAttempt::Failed { error: Error::Userd(reason.clone()) },
                outcome: Outcome::Rejected(reason),
                command: None,
            }
        }
    }

    fn out_of_order() -> (step: LoginStep)
        ensures
            step@ == login_out_of_order(),
    {
        LoginStep {
            state: LoginAttempt::Failed { error: Error::OutOfOrder },
            outcome: Outcome::Pending,
            command: None,
        }
    }
}

impl LoginAttempt {
    /// Takes the result of the operation asked for last and decides what comes
    /// next.
    pub fn step(self, event: LoginEvent) -> (next: LoginStep)
        ensures
            next@ == login_step(self@, event@),
    {
        match self {
            LoginAttempt::AwaitingUsername => match event {
                LoginEvent::UsernameRead(line) => {
                    let username = strip_line(line.as_str());
                    LoginStep {
                        state: LoginAttempt::AwaitingUser { username: username.clone() },
                        outcome: Outcome::Pending,
                        command: Some(LoginCommand::FetchUser { username }),
                    }
                },
                _ => LoginStep::out_of_order(),
            },
            LoginAttempt::AwaitingUser { username } => match event {
                LoginEvent::UserFound(user) => {
                    if user.password_set {
                        LoginStep {
                            state: LoginAttempt::AwaitingPassword { user },
                            outcome: Outcome::Pending,
                            command: Some(LoginCommand::PromptPassword),
                        }
                    } else {
                        let uid = user.uid;
                        LoginStep {
                            state: LoginAttempt::AwaitingVerdict { user },
                            outcome: Outcome::Pending,
                            command: Some(
                                LoginCommand::VerifyPassword { uid, password: String::new() },
                            ),
                        }
                    }
                },
                LoginEvent::UserLookupFailed(reason) => LoginStep::rejected(reason),
                _ => LoginStep::out_of_order(),
            },
            LoginAttempt::AwaitingPassword { user } => match event {
                LoginEvent::PasswordRead(password) => {
                    let uid = user.uid;
                    LoginStep {
                        state: LoginAttempt::AwaitingVerdict { user },
                        outcome: Outcome::Pending,
                        command: Some(LoginCommand::VerifyPassword { uid, password }),
                    }
                },
                _ => LoginStep::out_of_order(),
            },
            LoginAttempt::AwaitingVerdict { user } => match event {
                LoginEvent::PasswordAccepted => {
                    let subject = user.clone();
                    LoginStep {
                        state: LoginAttempt::Authenticated { user },
                        outcome: Outcome::Authenticated(subject),
                        command: None,
                    }
                },
                LoginEvent::PasswordRefused(reason) => LoginStep::rejected(reason),
                _ => LoginStep::out_of_order(),
            },
            LoginAttempt::Authenticated { user } => {
                let subject = user.clone();
                LoginStep {
                    state: LoginAttempt::Authenticated { user },
                    outcome: Outcome::Authenticated(subject),
                    command: None,
                }
            },
            LoginAttempt::Failed { error } => LoginStep {
                state: LoginAttempt::Failed { error },
                outcome: Outcome::Pending,
                command: None,
            },
        }
    }
}

} // verus!
