use login_manager::{
    Command, DirectoryError, Error, Event, ExecutionContext, LoginCommand, LoginEvent, LoginAttempt, Manager,
    Mode, Notice, Operation, OsFailure, Phase, Session, Step, SupervisorError, User,
};

/// An account of the directory stub, with the password that it accepts.
struct Account {
    user: User,
    password: String,
}

/// Everything around the manager: a directory with a fixed set of accounts, a
/// terminal at which a fixed list of lines is typed, and an operating system
/// that can be told to refuse one operation. It records what it is asked to do.
struct World {
    accounts: Vec<Account>,
    typed: Vec<String>,
    directory_down: bool,
    supervisor_deaf: bool,
    refuses: Option<Operation>,
    shown: Vec<String>,
    performed: Vec<String>,
    fetched: Vec<String>,
    verified: Vec<(u32, String)>,
    launched: Vec<(String, String, ExecutionContext)>,
    identity: Vec<u32>,
    notified: Vec<u32>,
}

fn world(accounts: Vec<Account>, typed: &[&str]) -> World {
    World {
        accounts,
        typed: typed.iter().rev().map(|line| line.to_string()).collect(),
        directory_down: false,
        supervisor_deaf: false,
        refuses: None,
        shown: Vec::new(),
        performed: Vec::new(),
        fetched: Vec::new(),
        verified: Vec::new(),
        launched: Vec::new(),
        identity: Vec::new(),
        notified: Vec::new(),
    }
}

fn alice() -> Account {
    Account { user: User::new(1000, "alice", "/home/alice", "/bin/bash", true), password: "hunter2".to_string() }
}

fn bob() -> Account {
    Account { user: User::new(1001, "bob", "/home/bob", "/bin/sh", false), password: String::new() }
}

impl World {
    fn fetch_user(&mut self, name: &str) -> Result<User, DirectoryError> {
        self.fetched.push(name.to_string());
        match self.accounts.iter().find(|account| account.user.username == name) {
            Some(account) => Ok(account.user.clone()),
            None => Err(DirectoryError::NoSuchUser),
        }
    }

    fn verify_password(&mut self, uid: u32, password: &str) -> Result<(), DirectoryError> {
        self.verified.push((uid, password.to_string()));
        match self.accounts.iter().find(|account| account.user.uid == uid) {
            Some(account) if account.password == password => Ok(()),
            Some(_) => Err(DirectoryError::WrongPassword),
            None => Err(DirectoryError::NoSuchUser),
        }
    }

    fn os(&mut self, operation: Operation, name: &str, done: Event) -> Event {
        self.performed.push(name.to_string());
        if self.refuses == Some(operation) {
            Event::OsFailed("EPERM: Operation not permitted".to_string())
        } else {
            done
        }
    }

    /// Performs one operation and reports its result, or `None` where the
    /// manager has to wait for ever: nobody types any more, or the program is
    /// over.
    fn perform(&mut self, command: &Command) -> Option<Event> {
        match command {
            Command::Connect { socket } => {
                self.performed.push(format!("connect {socket}"));
                Some(if self.directory_down {
                    Event::ConnectFailed("connection refused".to_string())
                } else {
                    Event::Connected
                })
            }
            Command::Notify { supervisor } => {
                self.notified.push(*supervisor);
                Some(if self.supervisor_deaf {
                    Event::NotifyFailed("no such process".to_string())
                } else {
                    Event::Notified
                })
            }
            Command::Login(login) => {
                if let Some(prompt) = login.prompt() {
                    self.shown.push(prompt);
                }
                let event = match login {
                    LoginCommand::PromptUsername => LoginEvent::UsernameRead(format!("{}\n", self.typed.pop()?)),
                    LoginCommand::PromptPassword => LoginEvent::PasswordRead(self.typed.pop()?),
                    LoginCommand::FetchUser { username } => LoginEvent::fetched(self.fetch_user(username)),
                    LoginCommand::VerifyPassword { uid, password } => {
                        LoginEvent::verified(self.verify_password(*uid, password))
                    }
                };
                Some(Event::Login(event))
            }
            Command::OpenTerminal { device } => {
                Some(self.os(Operation::OpenTerminal, &format!("open {device}"), Event::TerminalOpened(7)))
            }
            Command::CreateSession => Some(self.os(Operation::CreateSession, "setsid", Event::SessionCreated(4242))),
            Command::BindTerminal { terminal } => {
                Some(self.os(Operation::BindTerminal, &format!("login_tty {terminal}"), Event::TerminalBound))
            }
            Command::SetIdentity { uid } => {
                let result = self.os(Operation::SetIdentity, &format!("setuid {uid}"), Event::IdentityChanged);
                if result == Event::IdentityChanged {
                    self.identity.push(*uid);
                }
                Some(result)
            }
            Command::SpawnShell { shell, directory, environment } => {
                let result = self.os(Operation::SpawnShell, &format!("spawn {shell}"), Event::ShellSpawned);
                if result == Event::ShellSpawned {
                    self.launched.push((
                        shell.clone(),
                        directory.clone(),
                        ExecutionContext { home: environment.home.clone(), user: environment.user.clone() },
                    ));
                }
                Some(result)
            }
            Command::AwaitShell => {
                self.performed.push("wait".to_string());
                Some(Event::ShellExited)
            }
            Command::Exit | Command::Abort { .. } => None,
        }
    }

    fn show(&mut self, notice: &Notice) {
        if let Some(line) = notice.text() {
            self.shown.push(format!("{line}\n"));
        }
    }
}

/// Runs the manager in `world` until it has to wait for ever, and returns the
/// step at which it stands.
fn run(mode: Mode, supervisor: Option<&str>, world: &mut World) -> Step {
    let mut step = Manager::boot(mode, supervisor.map(|text| text.to_string()));
    loop {
        world.show(&step.notice);
        match world.perform(&step.command) {
            Some(event) => step = step.manager.step(event),
            None => return step,
        }
    }
}

fn at_username_prompt(step: &Step) -> bool {
    *step.manager.phase() == Phase::Login { login: LoginAttempt::AwaitingUsername }
        && step.command == Command::Login(LoginCommand::PromptUsername)
}

/// The step at which a manager stands that was started with supervisor 1 and
/// has been told these results.
fn after(mode: Mode, events: Vec<Event>) -> Step {
    let mut step = Manager::boot(mode, Some("1".to_string()));
    for event in events {
        step = step.manager.step(event);
    }
    step
}

/// The results that take a manager from its start to the given phase of a
/// session for bob: 2 is the username prompt, 5 the opening of the terminal,
/// 6 the creation of the session, 7 the binding of the terminal, 8 the change
/// of identity, 9 the launch of the shell and 10 what follows the launch.
fn results_up_to(phase: usize) -> Vec<Event> {
    let all = vec![
        Event::Connected,
        Event::Notified,
        Event::Login(LoginEvent::UsernameRead("bob\n".to_string())),
        Event::Login(LoginEvent::UserFound(bob().user)),
        Event::Login(LoginEvent::PasswordAccepted),
        Event::TerminalOpened(5),
        Event::SessionCreated(99),
        Event::TerminalBound,
        Event::IdentityChanged,
        Event::ShellSpawned,
    ];
    all.into_iter().take(phase).collect()
}

#[test]
fn right_password_authenticates_alice() {
    let mut world = world(vec![alice(), bob()], &["alice", "hunter2"]);
    let step = run(Mode::SingleShot, Some("1"), &mut world);
    assert_eq!(step.command, Command::Exit);
    assert_eq!(world.fetched, vec!["alice"]);
    assert_eq!(world.verified, vec![(1000, "hunter2".to_string())]);
    assert_eq!(world.identity, vec![1000]);
    assert_eq!(world.shown, vec!["Username: ", "password: ", "\n"]);
}

#[test]
fn wrong_password_returns_to_the_username_prompt() {
    let mut world = world(vec![alice(), bob()], &["alice", "wrong"]);
    let step = run(Mode::Supervised, Some("1"), &mut world);
    assert!(at_username_prompt(&step));
    assert_eq!(step.notice, Notice::Rejected(DirectoryError::WrongPassword));
    assert_eq!(world.verified, vec![(1000, "wrong".to_string())]);
    assert_eq!(world.shown, vec!["Username: ", "password: ", "Wrong password\n", "Username: "]);
    assert!(world.identity.is_empty());
    assert!(world.launched.is_empty());
}

#[test]
fn second_attempt_asks_for_the_username_again() {
    let mut world = world(vec![alice()], &["alice", "wrong", "alice", "hunter2"]);
    let step = run(Mode::SingleShot, Some("1"), &mut world);
    assert_eq!(step.command, Command::Exit);
    assert_eq!(world.fetched, vec!["alice", "alice"]);
    assert_eq!(world.verified, vec![(1000, "wrong".to_string()), (1000, "hunter2".to_string())]);
    assert_eq!(
        world.shown,
        vec!["Username: ", "password: ", "Wrong password\n", "Username: ", "password: ", "\n"]
    );
}

#[test]
fn account_without_password_is_not_prompted() {
    let mut world = world(vec![alice(), bob()], &["bob"]);
    let step = run(Mode::SingleShot, Some("1"), &mut world);
    assert_eq!(step.command, Command::Exit);
    assert_eq!(world.fetched, vec!["bob"]);
    assert_eq!(world.verified, vec![(1001, String::new())]);
    assert_eq!(world.shown, vec!["Username: ", "\n"]);
    assert_eq!(world.identity, vec![1001]);
}

#[test]
fn no_supervisor_no_prompt() {
    let mut world = world(vec![alice()], &["alice", "hunter2"]);
    let step = run(Mode::Supervised, None, &mut world);
    assert_eq!(step.command, Command::Abort { error: Error::Serviced(SupervisorError::Missing) });
    assert_eq!(*step.manager.phase(), Phase::Failed { error: Error::Serviced(SupervisorError::Missing) });
    assert_eq!(step.notice, Notice::Nothing);
    assert!(world.shown.is_empty());
    assert!(world.performed.is_empty());
    assert!(world.fetched.is_empty());
}

#[test]
fn supervisor_that_is_no_number_no_prompt() {
    for text in ["", "init", "-1", "12 ", "4294967296"] {
        let mut world = world(vec![alice()], &["alice", "hunter2"]);
        let step = run(Mode::Supervised, Some(text), &mut world);
        let error = Error::Serviced(SupervisorError::NotNumeric(text.to_string()));
        assert_eq!(step.command, Command::Abort { error });
        assert!(world.shown.is_empty());
        assert!(world.performed.is_empty());
    }
}

#[test]
fn unknown_user_is_reported_and_asked_again() {
    let mut world = world(vec![alice(), bob()], &["eve"]);
    let step = run(Mode::Supervised, Some("1"), &mut world);
    assert!(at_username_prompt(&step));
    assert_eq!(step.notice, Notice::Rejected(DirectoryError::NoSuchUser));
    assert_eq!(world.fetched, vec!["eve"]);
    assert!(world.verified.is_empty());
    assert_eq!(world.shown, vec!["Username: ", "No such user\n", "Username: "]);
}

#[test]
fn start_up_connects_then_notifies_then_prompts() {
    let mut world = world(vec![], &[]);
    let step = run(Mode::Supervised, Some("314"), &mut world);
    assert!(at_username_prompt(&step));
    assert_eq!(world.performed, vec!["connect /tmp/ipc/services/userd.sock"]);
    assert_eq!(world.notified, vec![314]);
    assert_eq!(world.shown, vec!["Username: "]);
}

#[test]
fn first_operation_is_the_connection() {
    let step = Manager::boot(Mode::Supervised, Some("1".to_string()));
    assert_eq!(step.manager.mode(), Mode::Supervised);
    assert_eq!(*step.manager.phase(), Phase::Connecting { supervisor: 1 });
    assert_eq!(step.notice, Notice::Nothing);
    assert_eq!(step.command, Command::Connect { socket: "/tmp/ipc/services/userd.sock".to_string() });
}

#[test]
fn unreachable_directory_is_fatal() {
    let mut world = world(vec![alice()], &["alice"]);
    world.directory_down = true;
    let step = run(Mode::Supervised, Some("1"), &mut world);
    assert_eq!(step.command, Command::Abort { error: Error::IpcError("connection refused".to_string()) });
    assert!(world.notified.is_empty());
    assert!(world.shown.is_empty());
}

#[test]
fn deaf_supervisor_is_only_reported() {
    let mut world = world(vec![bob()], &["bob"]);
    world.supervisor_deaf = true;
    let step = run(Mode::SingleShot, Some("1"), &mut world);
    assert_eq!(step.command, Command::Exit);
    assert_eq!(
        world.shown,
        vec!["Failed to signal service daemon: no such process\n", "Username: ", "\n"]
    );
}

#[test]
fn session_operations_come_in_order() {
    let mut world = world(vec![alice()], &["alice", "hunter2"]);
    let step = run(Mode::Supervised, Some("1"), &mut world);
    assert!(at_username_prompt(&step));
    assert_eq!(
        world.performed,
        vec![
            "connect /tmp/ipc/services/userd.sock",
            "open /dev/tty0",
            "setsid",
            "login_tty 7",
            "setuid 1000",
            "spawn /bin/bash",
            "wait",
        ]
    );
}

#[test]
fn shell_gets_home_and_user_of_the_authenticated_user() {
    let mut world = world(vec![alice(), bob()], &["alice", "hunter2"]);
    run(Mode::SingleShot, Some("1"), &mut world);
    assert_eq!(
        world.launched,
        vec![(
            "/bin/bash".to_string(),
            "/home/alice".to_string(),
            ExecutionContext { home: "/home/alice".to_string(), user: "alice".to_string() },
        )]
    );
}

#[test]
fn execution_context_is_derived_from_the_user() {
    let user = User::new(1001, "bob", "/home/bob", "/bin/sh", false);
    assert_eq!(
        ExecutionContext::for_user(&user),
        ExecutionContext { home: "/home/bob".to_string(), user: "bob".to_string() }
    );
}

#[test]
fn three_iterations_three_descents_three_shells() {
    let typed = ["alice", "hunter2", "bob", "eve", "alice", "nope", "alice", "hunter2"];
    let mut world = world(vec![alice(), bob()], &typed);
    let step = run(Mode::Supervised, Some("1"), &mut world);
    assert!(at_username_prompt(&step));
    assert_eq!(world.identity, vec![1000, 1001, 1000]);
    assert_eq!(world.launched.len(), 3);
    assert_eq!(world.launched[1].2, ExecutionContext { home: "/home/bob".to_string(), user: "bob".to_string() });
    let count = |name: &str| world.performed.iter().filter(|done| done.starts_with(name)).count();
    assert_eq!(count("open"), 3);
    assert_eq!(count("setsid"), 3);
    assert_eq!(count("login_tty"), 3);
    assert_eq!(count("setuid"), 3);
    assert_eq!(count("spawn"), 3);
    assert_eq!(count("wait"), 3);
    assert_eq!(count("connect"), 1);
    assert_eq!(world.notified.len(), 1);
    let session: Vec<&str> = world.performed[1..]
        .iter()
        .map(|done| done.split(' ').next().unwrap_or(""))
        .collect();
    let cycle = ["open", "setsid", "login_tty", "setuid", "spawn", "wait"];
    for (at, done) in session.iter().enumerate() {
        assert_eq!(*done, cycle[at % cycle.len()]);
    }
}

#[test]
fn single_shot_exits_after_one_launch_without_waiting() {
    let mut world = world(vec![alice(), bob()], &["bob", "alice", "hunter2"]);
    let step = run(Mode::SingleShot, Some("1"), &mut world);
    assert_eq!(step.manager.mode(), Mode::SingleShot);
    assert_eq!(*step.manager.phase(), Phase::Finished);
    assert_eq!(step.command, Command::Exit);
    assert_eq!(world.launched.len(), 1);
    assert!(!world.performed.iter().any(|done| done == "wait"));
    assert_eq!(world.fetched, vec!["bob"]);
}

#[test]
fn every_os_failure_is_fatal() {
    let cases = [
        (Operation::OpenTerminal, 2, "Nix Error: EPERM: Operation not permitted"),
        (Operation::CreateSession, 3, "Nix Error: EPERM: Operation not permitted"),
        (Operation::BindTerminal, 4, "Nix Error: EPERM: Operation not permitted"),
        (Operation::SetIdentity, 5, "Failed to set UID: EPERM: Operation not permitted"),
        (Operation::SpawnShell, 6, "Failed to launch shell: EPERM: Operation not permitted"),
    ];
    for (operation, performed, message) in cases {
        let mut world = world(vec![alice()], &["alice", "hunter2", "alice", "hunter2"]);
        world.refuses = Some(operation);
        let step = run(Mode::Supervised, Some("1"), &mut world);
        let error = Error::Nix(OsFailure { operation, description: "EPERM: Operation not permitted".to_string() });
        assert_eq!(error.message(), message);
        assert_eq!(*step.manager.phase(), Phase::Failed { error: error.clone() });
        assert_eq!(step.command, Command::Abort { error });
        assert_eq!(world.performed.len(), performed);
        assert!(world.launched.is_empty());
        assert_eq!(world.fetched.len(), 1);
    }
}

#[test]
fn no_shell_without_a_changed_identity() {
    let mut world = world(vec![alice()], &["alice", "hunter2"]);
    world.refuses = Some(Operation::SetIdentity);
    run(Mode::Supervised, Some("1"), &mut world);
    assert!(world.identity.is_empty());
    assert!(!world.performed.iter().any(|done| done.starts_with("spawn")));
}

#[test]
fn failed_manager_keeps_aborting() {
    let step = after(Mode::Supervised, vec![Event::Notified]);
    assert_eq!(*step.manager.phase(), Phase::Failed { error: Error::OutOfOrder });
    let step = step.manager.step(Event::Connected);
    assert_eq!(*step.manager.phase(), Phase::Failed { error: Error::OutOfOrder });
    assert_eq!(step.command, Command::Abort { error: Error::OutOfOrder });
    let step = step.manager.step(Event::Login(LoginEvent::UsernameRead("alice\n".to_string())));
    assert_eq!(step.command, Command::Abort { error: Error::OutOfOrder });
    assert_eq!(step.notice, Notice::Nothing);
}

#[test]
fn finished_manager_keeps_exiting() {
    let step = after(Mode::SingleShot, results_up_to(10));
    assert_eq!(*step.manager.phase(), Phase::Finished);
    assert_eq!(step.command, Command::Exit);
    let step = step.manager.step(Event::ShellExited);
    assert_eq!(*step.manager.phase(), Phase::Finished);
    assert_eq!(step.command, Command::Exit);
}

#[test]
fn each_result_leads_to_the_next_phase() {
    let bob = || bob().user;
    let session = || Session { terminal: 5, id: 99 };
    let expected = vec![
        (Phase::Connecting { supervisor: 1 }, Command::Connect { socket: "/tmp/ipc/services/userd.sock".to_string() }),
        (Phase::Notifying, Command::Notify { supervisor: 1 }),
        (Phase::Login { login: LoginAttempt::AwaitingUsername }, Command::Login(LoginCommand::PromptUsername)),
        (
            Phase::Login { login: LoginAttempt::AwaitingUser { username: "bob".to_string() } },
            Command::Login(LoginCommand::FetchUser { username: "bob".to_string() }),
        ),
        (
            Phase::Login { login: LoginAttempt::AwaitingVerdict { user: bob() } },
            Command::Login(LoginCommand::VerifyPassword { uid: 1001, password: String::new() }),
        ),
        (Phase::OpeningTerminal { user: bob() }, Command::OpenTerminal { device: "/dev/tty0".to_string() }),
        (Phase::CreatingSession { user: bob(), terminal: 5 }, Command::CreateSession),
        (Phase::BindingTerminal { user: bob(), session: session() }, Command::BindTerminal { terminal: 5 }),
        (Phase::ChangingIdentity { user: bob(), session: session() }, Command::SetIdentity { uid: 1001 }),
        (
            Phase::Launching,
            Command::SpawnShell {
                shell: "/bin/sh".to_string(),
                directory: "/home/bob".to_string(),
                environment: ExecutionContext { home: "/home/bob".to_string(), user: "bob".to_string() },
            },
        ),
        (Phase::Waiting, Command::AwaitShell),
    ];
    for (results, (phase, command)) in expected.into_iter().enumerate() {
        let step = after(Mode::Supervised, results_up_to(results));
        assert_eq!(*step.manager.phase(), phase);
        assert_eq!(step.command, command);
        assert_eq!(step.manager.mode(), Mode::Supervised);
        let notice = if results == 5 { Notice::Separator } else { Notice::Nothing };
        assert_eq!(step.notice, notice);
    }
}

#[test]
fn result_out_of_place_fails_the_manager() {
    let cases = vec![
        (0, Event::Notified),
        (0, Event::OsFailed("EIO".to_string())),
        (1, Event::Connected),
        (1, Event::OsFailed("EIO".to_string())),
        (2, Event::ShellExited),
        (2, Event::OsFailed("EIO".to_string())),
        (2, Event::Login(LoginEvent::PasswordAccepted)),
        (3, Event::Login(LoginEvent::UsernameRead("bob\n".to_string()))),
        (5, Event::SessionCreated(1)),
        (5, Event::Login(LoginEvent::PasswordAccepted)),
        (6, Event::TerminalOpened(8)),
        (7, Event::IdentityChanged),
        (8, Event::TerminalBound),
        (8, Event::ShellSpawned),
        (9, Event::IdentityChanged),
        (9, Event::ShellExited),
        (10, Event::ShellSpawned),
        (10, Event::Connected),
    ];
    for (results, event) in cases {
        let step = after(Mode::Supervised, results_up_to(results)).manager.step(event);
        assert_eq!(*step.manager.phase(), Phase::Failed { error: Error::OutOfOrder });
        assert_eq!(step.command, Command::Abort { error: Error::OutOfOrder });
        assert_eq!(step.notice, Notice::Nothing);
    }
}

#[test]
fn existing_account_answer_aborts_the_manager() {
    let step = after(Mode::Supervised, results_up_to(3))
        .manager
        .step(Event::Login(LoginEvent::UserLookupFailed(DirectoryError::AlreadyExists)));
    let error = Error::Userd(DirectoryError::AlreadyExists);
    assert_eq!(error.message(), "Userd error: User already exists");
    assert_eq!(*step.manager.phase(), Phase::Failed { error: error.clone() });
    assert_eq!(step.command, Command::Abort { error });
}

#[test]
fn lost_directory_is_reported_and_the_login_goes_on() {
    let lost = || DirectoryError::Transport("connection lost".to_string());
    let step = after(Mode::Supervised, results_up_to(3))
        .manager
        .step(Event::Login(LoginEvent::UserLookupFailed(lost())));
    assert!(at_username_prompt(&step));
    assert_eq!(step.notice, Notice::Rejected(lost()));
    assert_eq!(step.notice.text(), Some("connection lost".to_string()));
}

#[test]
fn failed_wait_is_disregarded_like_the_exit_status() {
    let step = after(Mode::Supervised, results_up_to(10))
        .manager
        .step(Event::OsFailed("ECHILD: No child processes".to_string()));
    assert!(at_username_prompt(&step));
    assert_eq!(step.notice, Notice::Nothing);
}

#[test]
fn ended_shell_starts_the_next_login() {
    let step = after(Mode::Supervised, results_up_to(10)).manager.step(Event::ShellExited);
    assert!(at_username_prompt(&step));
    assert_eq!(step.notice, Notice::Nothing);
}

#[test]
fn notices_show_one_line() {
    assert_eq!(Notice::Nothing.text(), None);
    assert_eq!(Notice::Separator.text(), Some(String::new()));
    assert_eq!(Notice::Rejected(DirectoryError::NoSuchUser).text(), Some("No such user".to_string()));
    assert_eq!(
        Notice::Warning("timed out".to_string()).text(),
        Some("Failed to signal service daemon: timed out".to_string())
    );
}

#[test]
fn session_handle_holds_descriptor_and_identifier() {
    let step = after(Mode::Supervised, results_up_to(7));
    assert_eq!(
        *step.manager.phase(),
        Phase::BindingTerminal { user: bob().user, session: Session { terminal: 5, id: 99 } }
    );
    assert_eq!(step.command, Command::BindTerminal { terminal: 5 });
}
