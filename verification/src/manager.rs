//! The login manager as a whole: start-up, then session after session.
//!
//! One outer iteration is a login, the establishment of a session on the
//! terminal, the descent to the user's identity and the launch of the user's
//! shell, in that order and each exactly once. [`Manager::step`] takes the
//! result of the operation asked for last and names the next one; the caller
//! performs it and reports back.

use crate::directory::{directory_error_text, DirectoryError, DirectoryErrorView};
use crate::error::{
    Error, ErrorView, Operation, OsFailure, OsFailureView, SupervisorError, SupervisorErrorView,
};
use crate::login::{
    login_step, LoginCommand, LoginCommandView, LoginEvent, LoginEventView, LoginAttempt,
    LoginAttemptView, LoginStep, LoginStepView, Outcome, OutcomeView,
};
use crate::text::{decimal_value, is_decimal, parse_decimal};
use crate::user::{context_of, ExecutionContext, ExecutionContextView, User, UserView};
use vstd::prelude::*;
use vstd::string::*;

verus! {

/// The terminal device that sessions are established on.
pub open spec fn terminal_device() -> Seq<char> {
    "/dev/tty0"@
}

/// The local socket at which the directory service listens.
pub open spec fn directory_socket() -> Seq<char> {
    "/tmp/ipc/services/userd.sock"@
}

/// What the manager does once a shell has been launched.
#[derive(Debug, PartialEq, Eq, Clone, Copy)]
pub enum Mode {
    /// Wait for the shell to end, then serve the next login; never exit.
    Supervised,
    /// Exit with success as soon as the shell is launched, without waiting.
    SingleShot,
}

/// The handle of an established session: the descriptor of the terminal and
/// the identifier of the session that the process leads.
///
/// A session belongs to one outer iteration. It cannot be copied, and the
/// descent to the user's identity uses it up.
#[derive(Debug, PartialEq, Eq)]
pub struct Session {
    pub terminal: i32,
    pub id: i32,
}

/// The operation in progress, with what the following ones will need.
#[derive(Debug, PartialEq, Eq)]
pub enum Phase {
    /// Connecting to the directory service.
    Connecting { supervisor: u32 },
    /// Telling the supervisor that the manager is ready.
    Notifying,
    /// A login is under way.
    Login { login: LoginAttempt },
    /// Opening the terminal device for the authenticated user.
    OpeningTerminal { user: User },
    /// Creating a new session, with the terminal open.
    CreatingSession { user: User, terminal: i32 },
    /// Making the terminal the controlling terminal of the new session.
    BindingTerminal { user: User, session: Session },
    /// Changing the identity of the process to that of the user.
    ChangingIdentity { user: User, session: Session },
    /// Launching the user's shell.
    Launching,
    /// Waiting for the shell to end.
    Waiting,
    /// The manager is done and exits with success.
    Finished,
    /// The manager has failed and aborts.
    Failed { error: Error },
}

/// The mathematical content of a [`Phase`].
pub ghost enum PhaseView {
    Connecting { supervisor: u32 },
    Notifying,
    Login { login: LoginAttemptView },
    OpeningTerminal { user: UserView },
    CreatingSession { user: UserView, terminal: i32 },
    BindingTerminal { user: UserView, session: Session },
    ChangingIdentity { user: UserView, session: Session },
    Launching,
    Waiting,
    Finished,
    Failed { error: ErrorView },
}

impl View for Phase {
    type V = PhaseView;

    open spec fn view(&self) -> PhaseView {
        match self {
            Phase::Connecting { supervisor } => PhaseView::Connecting { supervisor: *supervisor },
            Phase::Notifying => PhaseView::Notifying,
            Phase::Login { login } => PhaseView::Login { login: login@ },
            Phase::OpeningTerminal { user } => PhaseView::OpeningTerminal { user: user@ },
            Phase::CreatingSession { user, terminal } => PhaseView::CreatingSession {
                user: user@,
                terminal: *terminal,
            },
            Phase::BindingTerminal { user, session } => PhaseView::BindingTerminal {
                user: user@,
                session: *session,
            },
            Phase::ChangingIdentity { user, session } => PhaseView::ChangingIdentity {
                user: user@,
                session: *session,
            },
            Phase::Launching => PhaseView::Launching,
            Phase::Waiting => PhaseView::Waiting,
            Phase::Finished => PhaseView::Finished,
            Phase::Failed { error } => PhaseView::Failed { error: error@ },
        }
    }
}

/// The state of the login manager.
///
/// A manager comes into being by [`Manager::boot`] and changes by
/// [`Manager::step`], and in no other way: a manager that waits for the launch
/// of a shell has been through the login, the session and the descent before.
#[derive(Debug, PartialEq, Eq)]
pub struct Manager {
    mode: Mode,
    phase: Phase,
}

/// The mathematical content of a [`Manager`].
pub ghost struct ManagerView {
    pub mode: Mode,
    pub phase: PhaseView,
}

impl View for Manager {
    type V = ManagerView;

    closed spec fn view(&self) -> ManagerView {
        ManagerView { mode: self.mode, phase: self.phase@ }
    }
}

/// The result of the operation that the manager asked for last.
#[derive(Debug, PartialEq, Eq)]
pub enum Event {
    /// The connection to the directory service stands.
    Connected,
    /// The directory service could not be reached.
    ConnectFailed(String),
    /// The supervisor has been told.
    Notified,
    /// The supervisor could not be told.
    NotifyFailed(String),
    /// The result of an operation of the login.
    Login(LoginEvent),
    /// The terminal device is open, under this descriptor.
    TerminalOpened(i32),
    /// The process leads a new session, with this identifier.
    SessionCreated(i32),
    /// The terminal is the controlling terminal of the session.
    TerminalBound,
    /// The process runs under the user's identity.
    IdentityChanged,
    /// The shell is running.
    ShellSpawned,
    /// The shell has ended. Its status is not reported: nothing depends on it.
    ShellExited,
    /// The operating system refused the operation, for the reason described.
    OsFailed(String),
}

/// The mathematical content of an [`Event`].
pub ghost enum EventView {
    Connected,
    ConnectFailed(Seq<char>),
    Notified,
    NotifyFailed(Seq<char>),
    Login(LoginEventView),
    TerminalOpened(i32),
    SessionCreated(i32),
    TerminalBound,
    IdentityChanged,
    ShellSpawned,
    ShellExited,
    OsFailed(Seq<char>),
}

impl View for Event {
    type V = EventView;

    open spec fn view(&self) -> EventView {
        match self {
            Event::Connected => EventView::Connected,
            Event::ConnectFailed(detail) => EventView::ConnectFailed(detail@),
            Event::Notified => EventView::Notified,
            Event::NotifyFailed(detail) => EventView::NotifyFailed(detail@),
            Event::Login(event) => EventView::Login(event@),
            Event::TerminalOpened(terminal) => EventView::TerminalOpened(*terminal),
            Event::SessionCreated(id) => EventView::SessionCreated(*id),
            Event::TerminalBound => EventView::TerminalBound,
            Event::IdentityChanged => EventView::IdentityChanged,
            Event::ShellSpawned => EventView::ShellSpawned,
            Event::ShellExited => EventView::ShellExited,
            Event::OsFailed(detail) => EventView::OsFailed(detail@),
        }
    }
}

/// The operation that the manager asks for next.
#[derive(Debug, PartialEq, Eq)]
pub enum Command {
    /// Connect to the directory service at this socket.
    Connect { socket: String },
    /// Tell the supervising process, of this identifier, that the manager is
    /// ready.
    Notify { supervisor: u32 },
    /// Perform an operation of the login.
    Login(LoginCommand),
    /// Open this terminal device for reading and writing.
    OpenTerminal { device: String },
    /// Create a new session and lead it.
    CreateSession,
    /// Make this terminal the controlling terminal, and standard input,
    /// output and error.
    BindTerminal { terminal: i32 },
    /// Change the identity of the process to this uid, for good.
    SetIdentity { uid: u32 },
    /// Launch this shell in this working directory, with this environment.
    SpawnShell { shell: String, directory: String, environment: ExecutionContext },
    /// Wait for the shell to end, and disregard how it ended.
    AwaitShell,
    /// Exit with success.
    Exit,
    /// Abort for this reason.
    Abort { error: Error },
}

/// The mathematical content of a [`Command`].
pub ghost enum CommandView {
    Connect { socket: Seq<char> },
    Notify { supervisor: u32 },
    Login(LoginCommandView),
    OpenTerminal { device: Seq<char> },
    CreateSession,
    BindTerminal { terminal: i32 },
    SetIdentity { uid: u32 },
    SpawnShell { shell: Seq<char>, directory: Seq<char>, environment: ExecutionContextView },
    AwaitShell,
    Exit,
    Abort { error: ErrorView },
}

impl View for Command {
    type V = CommandView;

    open spec fn view(&self) -> CommandView {
        match self {
            Command::Connect { socket } => CommandView::Connect { socket: socket@ },
            Command::Notify { supervisor } => CommandView::Notify { supervisor: *supervisor },
            Command::Login(command) => CommandView::Login(command@),
            Command::OpenTerminal { device } => CommandView::OpenTerminal { device: device@ },
            Command::CreateSession => CommandView::CreateSession,
            Command::BindTerminal { terminal } => CommandView::BindTerminal {
                terminal: *terminal,
            },
            Command::SetIdentity { uid } => CommandView::SetIdentity { uid: *uid },
            Command::SpawnShell { shell, directory, environment } => CommandView::SpawnShell {
                shell: shell@,
                directory: directory@,
                environment: environment@,
            },
            Command::AwaitShell => CommandView::AwaitShell,
            Command::Exit => CommandView::Exit,
            Command::Abort { error } => CommandView::Abort { error: error@ },
        }
    }
}

/// What to show before the next operation is performed.
#[derive(Debug, PartialEq, Eq)]
pub enum Notice {
    /// Nothing.
    Nothing,
    /// The reason for which the directory turned the last attempt down.
    Rejected(DirectoryError),
    /// A blank line, which sets the session apart from the login above it.
    Separator,
    /// The supervisor could not be told that the manager is ready, for the
    /// reason described; the manager goes on regardless.
    Warning(String),
}

/// The mathematical content of a [`Notice`].
pub ghost enum NoticeView {
    Nothing,
    Rejected(DirectoryErrorView),
    Separator,
    Warning(Seq<char>),
}

impl View for Notice {
    type V = NoticeView;

    open spec fn view(&self) -> NoticeView {
        match self {
            Notice::Nothing => NoticeView::Nothing,
            Notice::Rejected(reason) => NoticeView::Rejected(reason@),
            Notice::Separator => NoticeView::Separator,
            Notice::Warning(detail) => NoticeView::Warning(detail@),
        }
    }
}

/// The line that a notice shows, without its line break, if it shows one.
pub open spec fn notice_text(notice: NoticeView) -> Option<Seq<char>> {
    match notice {
        NoticeView::Nothing => None,
        NoticeView::Rejected(reason) => Some(directory_error_text(reason)),
        NoticeView::Separator => Some(Seq::<char>::empty()),
        NoticeView::Warning(detail) => Some("Failed to signal service daemon: "@ + detail),
    }
}

impl Notice {
    /// The line to show for this notice, without its line break.
    pub fn text(&self) -> (line: Option<String>)
        ensures
            match notice_text(self@) {
                Some(text) => line is Some && line->0@ == text,
                None => line is None,
            },
    {
        match self {
            Notice::Nothing => None,
            Notice::Rejected(reason) => Some(reason.message()),
            Notice::Separator => Some(String::new()),
            Notice::Warning(detail) => Some(
                "Failed to signal service daemon: ".to_owned().concat(detail.as_str()),
            ),
        }
    }
}

/// One step of the manager: its state now, what to show, and the operation to
/// perform next.
#[derive(Debug, PartialEq, Eq)]
pub struct Step {
    pub manager: Manager,
    pub notice: Notice,
    pub command: Command,
}

/// The mathematical content of a [`Step`].
pub ghost struct StepView {
    pub manager: ManagerView,
    pub notice: NoticeView,
    pub command: CommandView,
}

impl View for Step {
    type V = StepView;

    open spec fn view(&self) -> StepView {
        StepView { manager: self.manager@, notice: self.notice@, command: self.command@ }
    }
}

/// The manager fails: it aborts for the given reason, now and at every later
/// step.
pub open spec fn failing(mode: Mode, error: ErrorView) -> StepView {
    StepView {
        manager: ManagerView { mode, phase: PhaseView::Failed { error } },
        notice: NoticeView::Nothing,
        command: CommandView::Abort { error },
    }
}

/// A login begins, with the username prompt.
pub open spec fn entering_login(mode: Mode, notice: NoticeView) -> StepView {
    StepView {
        manager: ManagerView {
            mode,
            phase: PhaseView::Login { login: LoginAttemptView::AwaitingUsername },
        },
        notice,
        command: CommandView::Login(LoginCommandView::PromptUsername),
    }
}

/// An operating-system operation failed: the manager aborts.
pub open spec fn os_failing(mode: Mode, operation: Operation, description: Seq<char>) -> StepView {
    failing(mode, ErrorView::Nix(OsFailureView { operation, description }))
}

/// Whether `text` names a process: a decimal numeral within the range of
/// process identifiers.
pub open spec fn names_process(text: Seq<char>) -> bool {
    is_decimal(text) && decimal_value(text) <= u32::MAX
}

/// The first step of the manager, from the value of the start-up parameter
/// that names the supervisor.
///
/// Without a supervisor there is no start: the manager aborts before anything
/// is shown. With one, the first operation is the connection to the directory
/// service.
pub open spec fn boot_step(mode: Mode, supervisor: Option<Seq<char>>) -> StepView {
    match supervisor {
        None => failing(mode, ErrorView::Serviced(SupervisorErrorView::Missing)),
        Some(text) => if names_process(text) {
            StepView {
                manager: ManagerView {
                    mode,
                    phase: PhaseView::Connecting { supervisor: decimal_value(text) as u32 },
                },
                notice: NoticeView::Nothing,
                command: CommandView::Connect { socket: directory_socket() },
            }
        } else {
            failing(mode, ErrorView::Serviced(SupervisorErrorView::NotNumeric(text)))
        },
    }
}

/// What the manager makes of a step of the login.
///
/// An authenticated user ends the login and starts the session, with the
/// opening of the terminal. A failed login fails the manager. Anything else is
/// the login going on.
pub open spec fn after_login(mode: Mode, login: LoginStepView) -> StepView {
    match login.state {
        LoginAttemptView::Authenticated { user } => StepView {
            manager: ManagerView { mode, phase: PhaseView::OpeningTerminal { user } },
            notice: NoticeView::Separator,
            command: CommandView::OpenTerminal { device: terminal_device() },
        },
        LoginAttemptView::Failed { error } => failing(mode, error),
        _ => match login.command {
            Some(command) => StepView {
                manager: ManagerView { mode, phase: PhaseView::Login { login: login.state } },
                notice: match login.outcome {
                    OutcomeView::Rejected(reason) => NoticeView::Rejected(reason),
                    _ => NoticeView::Nothing,
                },
                command: CommandView::Login(command),
            },
            None => failing(mode, ErrorView::OutOfOrder),
        },
    }
}

/// The transition function of the manager.
pub open spec fn manager_step(manager: ManagerView, event: EventView) -> StepView {
    let mode = manager.mode;
    match manager.phase {
        PhaseView::Connecting { supervisor } => match event {
            EventView::Connected => StepView {
                manager: ManagerView { mode, phase: PhaseView::Notifying },
                notice: NoticeView::Nothing,
                command: CommandView::Notify { supervisor },
            },
            EventView::ConnectFailed(detail) => failing(mode, ErrorView::IpcError(detail)),
            _ => failing(mode, ErrorView::OutOfOrder),
        },
        PhaseView::Notifying => match event {
            EventView::Notified => entering_login(mode, NoticeView::Nothing),
            EventView::NotifyFailed(detail) => entering_login(mode, NoticeView::Warning(detail)),
            _ => failing(mode, ErrorView::OutOfOrder),
        },
        PhaseView::Login { login } => match event {
            EventView::Login(event) => after_login(mode, login_step(login, event)),
            _ => failing(mode, ErrorView::OutOfOrder),
        },
        PhaseView::OpeningTerminal { user } => match event {
            EventView::TerminalOpened(terminal) => StepView {
                manager: ManagerView { mode, phase: PhaseView::CreatingSession { user, terminal } },
                notice: NoticeView::Nothing,
                command: CommandView::CreateSession,
            },
            EventView::OsFailed(detail) => os_failing(mode, Operation::OpenTerminal, detail),
            _ => failing(mode, ErrorView::OutOfOrder),
        },
        PhaseView::CreatingSession { user, terminal } => match event {
            EventView::SessionCreated(id) => StepView {
                manager: ManagerView {
                    mode,
                    phase: PhaseView::BindingTerminal { user, session: Session { terminal, id } },
                },
                notice: NoticeView::Nothing,
                command: CommandView::BindTerminal { terminal },
            },
            EventView::OsFailed(detail) => os_failing(mode, Operation::CreateSession, detail),
            _ => failing(mode, ErrorView::OutOfOrder),
        },
        PhaseView::BindingTerminal { user, session } => match event {
            EventView::TerminalBound => StepView {
                manager: ManagerView { mode, phase: PhaseView::ChangingIdentity { user, session } },
                notice: NoticeView::Nothing,
                command: CommandView::SetIdentity { uid: user.uid },
            },
            EventView::OsFailed(detail) => os_failing(mode, Operation::BindTerminal, detail),
            _ => failing(mode, ErrorView::OutOfOrder),
        },
        PhaseView::ChangingIdentity { user, session } => match event {
            EventView::IdentityChanged => StepView {
                manager: ManagerView { mode, phase: PhaseView::Launching },
                notice: NoticeView::Nothing,
                command: CommandView::SpawnShell {
                    shell: user.shell,
                    directory: user.home,
                    environment: context_of(user),
                },
            },
            EventView::OsFailed(detail) => os_failing(mode, Operation::SetIdentity, detail),
            _ => failing(mode, ErrorView::OutOfOrder),
        },
        PhaseView::Launching => match event {
            EventView::ShellSpawned => match mode {
                Mode::Supervised => StepView {
                    manager: ManagerView { mode, phase: PhaseView::Waiting },
                    notice: NoticeView::Nothing,
                    command: CommandView::AwaitShell,
                },
                Mode::SingleShot => StepView {
                    manager: ManagerView { mode, phase: PhaseView::Finished },
                    notice: NoticeView::Nothing,
                    command: CommandView::Exit,
                },
            },
            EventView::OsFailed(detail) => os_failing(mode, Operation::SpawnShell, detail),
            _ => failing(mode, ErrorView::OutOfOrder),
        },
        PhaseView::Waiting => match event {
            EventView::ShellExited => entering_login(mode, NoticeView::Nothing),
            EventView::OsFailed(detail) => entering_login(mode, NoticeView::Nothing),
            _ => failing(mode, ErrorView::OutOfOrder),
        },
        PhaseView::Finished => StepView {
            manager: ManagerView { mode, phase: PhaseView::Finished },
            notice: NoticeView::Nothing,
            command: CommandView::Exit,
        },
        PhaseView::Failed { error } => failing(mode, error),
    }
}

impl Step {
    fn failing(mode: Mode, error: Error) -> (step: Step)
        ensures
            step@ == failing(mode, error@),
    {
        let reason = error.clone();
        Step {
            manager: Manager { mode, phase: Phase::Failed { error } },
            notice: Notice::Nothing,
            command: Command::Abort { error: reason },
        }
    }

    fn out_of_order(mode: Mode) -> (step: Step)
        ensures
            step@ == failing(mode, ErrorView::OutOfOrder),
    {
        Step::failing(mode, Error::OutOfOrder)
    }

    fn os_failing(mode: Mode, operation: Operation, description: String) -> (step: Step)
        ensures
            step@ == os_failing(mode, operation, description@),
    {
        Step::failing(mode, Error::Nix(OsFailure { operation, description }))
    }

    fn entering_login(mode: Mode, notice: Notice) -> (step: Step)
        ensures
            step@ == entering_login(mode, notice@),
    {
        Step {
            manager: Manager {
                mode,
                phase: Phase::Login { login: LoginAttempt::AwaitingUsername },
            },
            notice,
            command: Command::Login(LoginCommand::PromptUsername),
        }
    }

    fn after_login(mode: Mode, login: LoginStep) -> (step: Step)
        ensures
            step@ == after_login(mode, login@),
    {
        let LoginStep { state, outcome, command } = login;
        match state {
            LoginAttempt::Authenticated { user } => Step {
                manager: Manager { mode, phase: Phase::OpeningTerminal { user } },
                notice: Notice::Separator,
                command: Command::OpenTerminal { device: "/dev/tty0".to_owned() },
            },
            LoginAttempt::Failed { error } => Step::failing(mode, error),
            state => match command {
                Some(command) => Step {
                    manager: Manager { mode, phase: Phase::Login { login: state } },
                    notice: match outcome {
                        Outcome::Rejected(reason) => Notice::Rejected(reason),
                        _ => Notice::Nothing,
                    },
                    command: Command::Login(command),
                },
                None => Step::out_of_order(mode),
            },
        }
    }
}

impl Manager {
    /// A manager holds a login only while the login goes on: a login that is
    /// over has been turned into a session or into a failure.
    #[verifier::type_invariant]
    spec fn holds_no_finished_login(self) -> bool {
        self.phase matches Phase::Login { login } ==> !(login is Authenticated) && !(login
            is Failed)
    }

    /// What the manager does once a shell has been launched.
    pub fn mode(&self) -> (mode: Mode)
        ensures
            mode == self@.mode,
    {
        self.mode
    }

    /// The operation in progress.
    pub fn phase(&self) -> (phase: &Phase)
        ensures
            phase@ == self@.phase,
    {
        &self.phase
    }

    /// Starts the manager, given the start-up parameter that names the
    /// supervisor, if it is set.
    pub fn boot(mode: Mode, supervisor: Option<String>) -> (step: Step)
        ensures
            step@ == boot_step(
                mode,
                match supervisor {
                    Some(text) => Some(text@),
                    None => None,
                },
            ),
    {
        match supervisor {
            None => Step::failing(mode, Error::Serviced(SupervisorError::Missing)),
            Some(text) => match parse_decimal(text.as_str()) {
                Some(supervisor) => Step {
                    manager: Manager { mode, phase: Phase::Connecting { supervisor } },
                    notice: Notice::Nothing,
                    command: Command::Connect {
                        socket: "/tmp/ipc/services/userd.sock".to_owned(),
                    },
                },
                None => Step::failing(mode, Error::Serviced(SupervisorError::NotNumeric(text))),
            },
        }
    }

    /// Takes the result of the operation asked for last and decides what comes
    /// next.
    pub fn step(self, event: Event) -> (next: Step)
        ensures
            next@ == manager_step(self@, event@),
    {
        let mode = self.mode;
        match self.phase {
            Phase::Connecting { supervisor } => match event {
                Event::Connected => Step {
                    manager: Manager { mode, phase: Phase::Notifying },
                    notice: Notice::Nothing,
                    command: Command::Notify { supervisor },
                },
                Event::ConnectFailed(detail) => Step::failing(mode, Error::IpcError(detail)),
                _ => Step::out_of_order(mode),
            },
            Phase::Notifying => match event {
                Event::Notified => Step::entering_login(mode, Notice::Nothing),
                Event::NotifyFailed(detail) => Step::entering_login(mode, Notice::Warning(detail)),
                _ => Step::out_of_order(mode),
            },
            Phase::Login { login } => match event {
                Event::Login(event) => Step::after_login(mode, login.step(event)),
                _ => Step::out_of_order(mode),
            },
            Phase::OpeningTerminal { user } => match event {
                Event::TerminalOpened(terminal) => Step {
                    manager: Manager { mode, phase: Phase::CreatingSession { user, terminal } },
                    notice: Notice::Nothing,
                    command: Command::CreateSession,
                },
                Event::OsFailed(detail) => Step::os_failing(mode, Operation::OpenTerminal, detail),
                _ => Step::out_of_order(mode),
            },
            Phase::CreatingSession { user, terminal } => match event {
                Event::SessionCreated(id) => Step {
                    manager: Manager {
                        mode,
                        phase: Phase::BindingTerminal { user, session: Session { terminal, id } },
                    },
                    notice: Notice::Nothing,
                    command: Command::BindTerminal { terminal },
                },
                Event::OsFailed(detail) => Step::os_failing(mode, Operation::CreateSession, detail),
                _ => Step::out_of_order(mode),
            },
            Phase::BindingTerminal { user, session } => match event {
                Event::TerminalBound => {
                    let uid = user.uid;
                    Step {
                        manager: Manager { mode, phase: Phase::ChangingIdentity { user, session } },
                        notice: Notice::Nothing,
                        command: Command::SetIdentity { uid },
                    }
                },
                Event::OsFailed(detail) => Step::os_failing(mode, Operation::BindTerminal, detail),
                _ => Step::out_of_order(mode),
            },
            Phase::ChangingIdentity { user, session } => match event {
                Event::IdentityChanged => {
                    let environment = ExecutionContext::for_user(&user);
                    Step {
                        manager: Manager { mode, phase: Phase::Launching },
                        notice: Notice::Nothing,
                        command: Command::SpawnShell {
                            shell: user.shell,
                            directory: user.home,
                            environment,
                        },
                    }
                },
                Event::OsFailed(detail) => Step::os_failing(mode, Operation::SetIdentity, detail),
                _ => Step::out_of_order(mode),
            },
            Phase::Launching => match event {
                Event::ShellSpawned => match mode {
                    Mode::Supervised => Step {
                        manager: Manager { mode, phase: Phase::Waiting },
                        notice: Notice::Nothing,
                        command: Command::AwaitShell,
                    },
                    Mode::SingleShot => Step {
                        manager: Manager { mode, phase: Phase::Finished },
                        notice: Notice::Nothing,
                        command: Command::Exit,
                    },
                },
                Event::OsFailed(detail) => Step::os_failing(mode, Operation::SpawnShell, detail),
                _ => Step::out_of_order(mode),
            },
            Phase::Waiting => match event {
                Event::ShellExited => Step::entering_login(mode, Notice::Nothing),
                Event::OsFailed(_) => Step::entering_login(mode, Notice::Nothing),
                _ => Step::out_of_order(mode),
            },
            Phase::Finished => Step {
                manager: Manager { mode, phase: Phase::Finished },
                notice: Notice::Nothing,
                command: Command::Exit,
            },
            Phase::Failed { error } => Step::failing(mode, error),
        }
    }
}

} // verus!
