//! A minimal interactive login manager, as a pure decision core.
//!
//! The library decides; the program around it acts. Every blocking operation
//! of a login session (prompting, a directory round trip, opening the terminal,
//! creating the session, changing identity, launching the shell) is a
//! [`manager::Command`] that the library hands out, and its result comes back
//! as a [`manager::Event`]. The order in which these operations may happen is
//! fixed by [`manager::Manager::step`] and proved in [`laws`].

pub mod directory;
pub mod error;
pub mod laws;
pub mod login;
pub mod manager;
pub mod text;
pub mod user;

pub use directory::DirectoryError;
pub use error::{Error, Operation, OsFailure, SupervisorError};
pub use login::{LoginAttempt, LoginCommand, LoginEvent, LoginStep, Outcome};
pub use manager::{Command, Event, Manager, Mode, Notice, Phase, Session, Step};
pub use user::{ExecutionContext, User};
