//! What holds of every run of the login manager.
//!
//! A run is a start state and the results that the caller reports, one after
//! the other. The laws below are stated over [`state_at`] and [`command_at`],
//! the state before and the operation asked for at each step of a run, and
//! hold whatever results are reported: refusals, failures and results that
//! are out of place included.

use crate::directory::DirectoryErrorView;
use crate::error::{ErrorView, SupervisorErrorView};
use crate::login::{
    login_step, LoginCommandView, LoginEventView, LoginAttemptView, LoginStepView, OutcomeView,
};
use crate::manager::{
    boot_step, manager_step, names_process, CommandView, EventView, ManagerView, Mode, NoticeView,
    PhaseView, Session, StepView,
};
use crate::text::strip_newlines;
use crate::user::{context_of, UserView};
use vstd::prelude::*;

verus! {

/// The state of the manager before it takes the result numbered `k`.
pub open spec fn state_at(start: ManagerView, events: Seq<EventView>, k: nat) -> ManagerView
    decreases k,
{
    if k == 0 {
        start
    } else {
        manager_step(state_at(start, events, (k - 1) as nat), events[k - 1]).manager
    }
}

/// The step that the manager takes on the result numbered `k`.
pub open spec fn step_at(start: ManagerView, events: Seq<EventView>, k: nat) -> StepView {
    manager_step(state_at(start, events, k), events[k as int])
}

/// The operation that the manager asks for in answer to the result numbered `k`.
pub open spec fn command_at(start: ManagerView, events: Seq<EventView>, k: nat) -> CommandView {
    step_at(start, events, k).command
}

/// Whether a login in this state still has an operation to ask for.
pub open spec fn login_goes_on(login: LoginAttemptView) -> bool {
    !(login is Authenticated) && !(login is Failed)
}

/// Whether `command` is the operation that a manager in `phase` waits for.
pub open spec fn befits(phase: PhaseView, command: CommandView) -> bool {
    match phase {
        PhaseView::Connecting { supervisor } => command is Connect,
        PhaseView::Notifying => command is Notify,
        PhaseView::Login { login } => login_goes_on(login) && match command {
            CommandView::Login(command) => login_befits(login, command),
            _ => false,
        },
        PhaseView::OpeningTerminal { user } => command is OpenTerminal,
        PhaseView::CreatingSession { user, terminal } => command is CreateSession,
        PhaseView::BindingTerminal { user, session } => command == (CommandView::BindTerminal {
            terminal: session.terminal,
        }),
        PhaseView::ChangingIdentity { user, session } => command == (CommandView::SetIdentity {
            uid: user.uid,
        }),
        PhaseView::Launching => command is SpawnShell,
        PhaseView::Waiting => command is AwaitShell,
        PhaseView::Finished => command is Exit,
        PhaseView::Failed { error } => command == (CommandView::Abort { error }),
    }
}

/// Whether `command` is the operation that a login in state `login` waits for.
pub open spec fn login_befits(login: LoginAttemptView, command: LoginCommandView) -> bool {
    match login {
        LoginAttemptView::AwaitingUsername => command is PromptUsername,
        LoginAttemptView::AwaitingUser { username } => command == (LoginCommandView::FetchUser {
            username,
        }),
        LoginAttemptView::AwaitingPassword { user } => command is PromptPassword,
        LoginAttemptView::AwaitingVerdict { user } => match command {
            LoginCommandView::VerifyPassword { uid, password } => uid == user.uid,
            _ => false,
        },
        LoginAttemptView::Authenticated { user } => false,
        LoginAttemptView::Failed { error } => false,
    }
}

/// Every step of the login leaves it either over, with nothing more to ask
/// for, or in a state that waits for exactly the operation it asks for.
pub proof fn lemma_login_step_befits(login: LoginAttemptView, event: LoginEventView)
    ensures
        ({
            let step = login_step(login, event);
            match step.command {
                Some(command) => login_goes_on(step.state) && login_befits(step.state, command),
                None => !login_goes_on(step.state),
            }
        }),
{
}

/// Every step of the manager leaves it in a phase that waits for exactly the
/// operation that the step asks for, and in the mode it was in.
pub proof fn lemma_step_befits(manager: ManagerView, event: EventView)
    ensures
        befits(manager_step(manager, event).manager.phase, manager_step(manager, event).command),
        manager_step(manager, event).manager.mode == manager.mode,
{
    match manager.phase {
        PhaseView::Login { login } => match event {
            EventView::Login(event) => {
                lemma_login_step_befits(login, event);
            },
            _ => {},
        },
        _ => {},
    }
}

/// At every step of a run but the first, the manager is in the phase that
/// waits for the operation it asked for at the step before, and the mode
/// never changes.
pub proof fn lemma_run_befits(start: ManagerView, events: Seq<EventView>, k: nat)
    ensures
        state_at(start, events, k).mode == start.mode,
        k >= 1 ==> befits(
            state_at(start, events, k).phase,
            command_at(start, events, (k - 1) as nat),
        ),
    decreases k,
{
    if k >= 1 {
        lemma_run_befits(start, events, (k - 1) as nat);
        lemma_step_befits(state_at(start, events, (k - 1) as nat), events[k - 1]);
    }
}

/// Each operation has one cause: the success of the operation before it.
///
/// The connection to the directory service is never asked for again once the
/// manager runs, the supervisor is told only once the connection stands, the
/// terminal is opened only when the directory accepts a password, a
/// session is created only once the terminal is open, the terminal is bound
/// only to a session just created, the identity changes only once the session
/// is established, the shell is launched only once the identity has changed,
/// and it is waited for only once it runs.
pub proof fn lemma_cause_of_command(manager: ManagerView, event: EventView)
    ensures
        ({
            let step = manager_step(manager, event);
            &&& !(step.command is Connect)
            &&& step.command is Notify <==> manager.phase is Connecting && event is Connected
            &&& step.command is OpenTerminal <==> manager.phase is Login && event is Login && (
            login_step(manager.phase->login, event->Login_0).state is Authenticated)
            &&& step.command is CreateSession <==> manager.phase is OpeningTerminal
                && event is TerminalOpened
            &&& step.command is BindTerminal <==> manager.phase is CreatingSession
                && event is SessionCreated
            &&& step.command is SetIdentity <==> manager.phase is BindingTerminal
                && event is TerminalBound
            &&& step.command is SpawnShell <==> manager.phase is ChangingIdentity
                && event is IdentityChanged
            &&& step.command is AwaitShell <==> manager.phase is Launching && event is ShellSpawned
                && manager.mode == Mode::Supervised
            &&& step.command is Exit <==> manager.phase is Finished || (manager.phase is Launching
                && event is ShellSpawned && manager.mode == Mode::SingleShot)
        }),
{
    match manager.phase {
        PhaseView::Login { login } => match event {
            EventView::Login(event) => {
                lemma_login_step_befits(login, event);
            },
            _ => {},
        },
        _ => {},
    }
}

/// Whether a run may start in `manager`: the manager is connecting to the
/// directory service, or has failed before it could.
pub open spec fn fresh(manager: ManagerView) -> bool {
    manager.phase is Connecting || manager.phase is Failed
}

/// The manager starts fresh, whatever the start-up parameter holds.
pub proof fn lemma_boot_is_fresh(mode: Mode, supervisor: Option<Seq<char>>)
    ensures
        fresh(boot_step(mode, supervisor).manager),
        boot_step(mode, supervisor).manager.mode == mode,
        befits(boot_step(mode, supervisor).manager.phase, boot_step(mode, supervisor).command),
{
}

/// The start-up runs in one order: the connection to the directory service,
/// then the word to the supervisor, then the first username prompt.
///
/// A directory service that cannot be reached ends the program at once. A
/// supervisor that cannot be told does not: the failure is shown as a warning
/// and the login begins all the same.
pub proof fn lemma_start_up(mode: Mode, supervisor: u32, detail: Seq<char>)
    ensures
        ({
            let connecting = ManagerView { mode, phase: PhaseView::Connecting { supervisor } };
            let notifying = ManagerView { mode, phase: PhaseView::Notifying };
            let prompting = ManagerView {
                mode,
                phase: PhaseView::Login { login: LoginAttemptView::AwaitingUsername },
            };
            let prompt = CommandView::Login(LoginCommandView::PromptUsername);
            &&& manager_step(connecting, EventView::Connected) == (StepView {
                manager: notifying,
                notice: NoticeView::Nothing,
                command: CommandView::Notify { supervisor },
            })
            &&& manager_step(connecting, EventView::ConnectFailed(detail)) == (StepView {
                manager: ManagerView {
                    mode,
                    phase: PhaseView::Failed { error: ErrorView::IpcError(detail) },
                },
                notice: NoticeView::Nothing,
                command: CommandView::Abort { error: ErrorView::IpcError(detail) },
            })
            &&& manager_step(notifying, EventView::Notified) == (StepView {
                manager: prompting,
                notice: NoticeView::Nothing,
                command: prompt,
            })
            &&& manager_step(notifying, EventView::NotifyFailed(detail)) == (StepView {
                manager: prompting,
                notice: NoticeView::Warning(detail),
                command: prompt,
            })
        }),
{
}

/// Without a supervisor nothing is ever shown and nothing is ever asked for:
/// the manager aborts at once, and every later step aborts again, for the same
/// reason.
pub proof fn theorem_no_start_without_supervisor(
    mode: Mode,
    supervisor: Option<Seq<char>>,
    events: Seq<EventView>,
    k: nat,
)
    requires
        supervisor matches Some(text) ==> !names_process(text),
    ensures
        ({
            let boot = boot_step(mode, supervisor);
            let error = ErrorView::Serviced(
                match supervisor {
                    Some(text) => SupervisorErrorView::NotNumeric(text),
                    None => SupervisorErrorView::Missing,
                },
            );
            &&& boot.command == (CommandView::Abort { error })
            &&& boot.notice is Nothing
            &&& state_at(boot.manager, events, k).phase == (PhaseView::Failed { error })
            &&& command_at(boot.manager, events, k) == (CommandView::Abort { error })
            &&& step_at(boot.manager, events, k).notice is Nothing
        }),
    decreases k,
{
    if k >= 1 {
        theorem_no_start_without_supervisor(mode, supervisor, events, (k - 1) as nat);
    }
}

/// An unknown name leads back to the username prompt.
///
/// When the directory knows no account of the entered name, the attempt is
/// rejected for that reason and the next operation is the username prompt: no
/// password is asked for.
pub proof fn lemma_unknown_user_restarts(username: Seq<char>)
    ensures
        login_step(
            LoginAttemptView::AwaitingUser { username },
            LoginEventView::UserLookupFailed(DirectoryErrorView::NoSuchUser),
        ) == (LoginStepView {
            state: LoginAttemptView::AwaitingUsername,
            outcome: OutcomeView::Rejected(DirectoryErrorView::NoSuchUser),
            command: Some(LoginCommandView::PromptUsername),
        }),
{
}

/// An account without a password is never asked for one.
///
/// When the account that the directory returns has no password set, the next
/// operation is the check of the empty password for the uid of that account.
pub proof fn lemma_no_password_no_prompt(username: Seq<char>, user: UserView)
    requires
        !user.password_set,
    ensures
        login_step(
            LoginAttemptView::AwaitingUser { username },
            LoginEventView::UserFound(user),
        ) == (LoginStepView {
            state: LoginAttemptView::AwaitingVerdict { user },
            outcome: OutcomeView::Pending,
            command: Some(
                LoginCommandView::VerifyPassword { uid: user.uid, password: Seq::<char>::empty() },
            ),
        }),
{
}

/// A wrong password leads back to the username prompt, not to the password
/// prompt.
pub proof fn lemma_wrong_password_restarts(user: UserView)
    ensures
        login_step(
            LoginAttemptView::AwaitingVerdict { user },
            LoginEventView::PasswordRefused(DirectoryErrorView::WrongPassword),
        ) == (LoginStepView {
            state: LoginAttemptView::AwaitingUsername,
            outcome: OutcomeView::Rejected(DirectoryErrorView::WrongPassword),
            command: Some(LoginCommandView::PromptUsername),
        }),
{
}

/// Every rejection starts a fresh attempt at the username prompt, and nothing
/// else does.
///
/// Whatever the state and the result: if the directory turns the attempt down,
/// for a reason that a login can cause, the login is back at the username
/// prompt; and the username prompt is asked for only then.
pub proof fn lemma_rejection_restarts(login: LoginAttemptView, event: LoginEventView)
    ensures
        ({
            let step = login_step(login, event);
            &&& step.outcome matches OutcomeView::Rejected(reason) ==> {
                &&& login is AwaitingUser && event == LoginEventView::UserLookupFailed(reason)
                    || login is AwaitingVerdict && event == LoginEventView::PasswordRefused(
                    reason,
                )
                &&& !(reason is AlreadyExists) ==> step.state is AwaitingUsername && step.command
                    == Some(LoginCommandView::PromptUsername)
                &&& reason is AlreadyExists ==> step.state is Failed && step.command is None
            }
            &&& step.command == Some(LoginCommandView::PromptUsername) ==> step.outcome is Rejected
        }),
{
}

/// The directory is asked for an account only when a name has just been
/// entered, and for that name, without its line break: no answer of the
/// directory is kept from one attempt to the next.
pub proof fn lemma_cause_of_lookup(login: LoginAttemptView, event: LoginEventView)
    ensures
        ({
            let step = login_step(login, event);
            &&& step.command is Some && step.command->0 is FetchUser <==> login is AwaitingUsername
                && event is UsernameRead
            &&& login is AwaitingUsername && event is UsernameRead ==> step.command == Some(
                LoginCommandView::FetchUser { username: strip_newlines(event->UsernameRead_0) },
            )
            &&& step.state is AwaitingUsername ==> step.outcome is Rejected
        }),
{
}

/// The password prompt has one cause: the directory has just returned an
/// account that has a password.
pub proof fn lemma_cause_of_password_prompt(login: LoginAttemptView, event: LoginEventView)
    ensures
        login_step(login, event).command == Some(LoginCommandView::PromptPassword) <==> (
        login is AwaitingUser && event is UserFound && (event->UserFound_0).password_set),
{
}

/// A password is checked only for an account that the directory has returned
/// in the same attempt, and only for the uid of that account.
pub proof fn lemma_cause_of_verification(login: LoginAttemptView, event: LoginEventView)
    ensures
        ({
            let step = login_step(login, event);
            &&& step.state matches LoginAttemptView::AwaitingPassword { user } ==> login
                is AwaitingUser && event == LoginEventView::UserFound(user) && user.password_set
            &&& step.state matches LoginAttemptView::AwaitingVerdict { user } ==> {
                ||| login is AwaitingUser && event == LoginEventView::UserFound(user)
                    && !user.password_set && step.command == Some(
                    LoginCommandView::VerifyPassword {
                        uid: user.uid,
                        password: Seq::<char>::empty(),
                    },
                )
                ||| login == (LoginAttemptView::AwaitingPassword { user }) && event is PasswordRead
                    && step.command == Some(
                    LoginCommandView::VerifyPassword {
                        uid: user.uid,
                        password: event->PasswordRead_0,
                    },
                )
            }
            &&& step.command is Some && step.command->0 is VerifyPassword ==> step.state
                is AwaitingVerdict
        }),
{
}

/// A user is authenticated only by the directory accepting a password that it
/// was asked to check for that user.
pub proof fn lemma_cause_of_authentication(login: LoginAttemptView, event: LoginEventView)
    ensures
        ({
            let step = login_step(login, event);
            &&& step.outcome matches OutcomeView::Authenticated(user) ==> step.state == (
            LoginAttemptView::Authenticated { user })
            &&& step.state matches LoginAttemptView::Authenticated { user } ==> {
                ||| login == (LoginAttemptView::AwaitingVerdict { user })
                    && event is PasswordAccepted
                ||| login == (LoginAttemptView::Authenticated { user })
            }
        }),
{
}

/// No refusal by the directory ends the program.
///
/// If the directory turns an attempt down, for a reason that a login can
/// cause, the manager shows the reason and asks for a username: it stays in
/// the login.
pub proof fn lemma_rejection_is_survived(manager: ManagerView, event: EventView)
    requires
        manager.phase is Login,
        event is Login,
        login_step(manager.phase->login, event->Login_0).outcome is Rejected,
        !(login_step(manager.phase->login, event->Login_0).outcome->Rejected_0 is AlreadyExists),
    ensures
        manager_step(manager, event) == (StepView {
            manager: ManagerView {
                mode: manager.mode,
                phase: PhaseView::Login { login: LoginAttemptView::AwaitingUsername },
            },
            notice: NoticeView::Rejected(
                login_step(manager.phase->login, event->Login_0).outcome->Rejected_0,
            ),
            command: CommandView::Login(LoginCommandView::PromptUsername),
        }),
{
    lemma_rejection_restarts(manager.phase->login, event->Login_0);
}

/// Every failure of an operating-system operation of a session is fatal: the
/// manager aborts and asks for nothing else. Only the wait for the shell
/// cannot fail the manager: however it ends, the next login begins.
pub proof fn lemma_os_failure_is_fatal(manager: ManagerView, detail: Seq<char>)
    ensures
        ({
            let step = manager_step(manager, EventView::OsFailed(detail));
            &&& !(manager.phase is Waiting) && !(manager.phase is Finished) ==> step.manager.phase
                is Failed && step.command is Abort
            &&& manager.phase is Waiting ==> step.command == CommandView::Login(
                LoginCommandView::PromptUsername,
            )
        }),
{
}

/// A session is established in full before the identity changes.
///
/// Whenever the manager asks for the change of identity, the three operations
/// before it were the opening of the terminal, the creation of the session and
/// the binding of the terminal, in this order, and each of them succeeded. The
/// terminal that was bound is the one that was opened for this session, and
/// the session that the manager holds is made of that terminal and of the
/// session just created: nothing of an earlier session is used again.
pub proof fn theorem_session_precedes_descent(
    start: ManagerView,
    events: Seq<EventView>,
    k: nat,
)
    requires
        fresh(start),
        k < events.len(),
        command_at(start, events, k) is SetIdentity,
    ensures
        k >= 3,
        command_at(start, events, (k - 3) as nat) is OpenTerminal,
        events[k - 2] is TerminalOpened,
        command_at(start, events, (k - 2) as nat) is CreateSession,
        events[k - 1] is SessionCreated,
        command_at(start, events, (k - 1) as nat) == (CommandView::BindTerminal {
            terminal: events[k - 2]->TerminalOpened_0,
        }),
        events[k as int] is TerminalBound,
        state_at(start, events, k).phase is BindingTerminal,
        state_at(start, events, k).phase->BindingTerminal_session == (Session {
            terminal: events[k - 2]->TerminalOpened_0,
            id: events[k - 1]->SessionCreated_0,
        }),
{
    lemma_cause_of_command(state_at(start, events, k), events[k as int]);
    assert(k >= 1);
    let k1 = (k - 1) as nat;
    lemma_run_befits(start, events, k);
    lemma_cause_of_command(state_at(start, events, k1), events[k1 as int]);
    assert(k1 >= 1);
    let k2 = (k1 - 1) as nat;
    lemma_run_befits(start, events, k1);
    lemma_cause_of_command(state_at(start, events, k2), events[k2 as int]);
    assert(k2 >= 1);
    let k3 = (k2 - 1) as nat;
    lemma_run_befits(start, events, k2);
}

/// Exactly one launch of the shell follows each change of identity.
///
/// The shell is launched only in answer to the success of the change of
/// identity asked for at the step before; and after a change of identity was
/// asked for, the next operation is the launch of the shell if the change
/// succeeded, and the abort of the program if it did not.
pub proof fn theorem_launch_follows_descent(start: ManagerView, events: Seq<EventView>, k: nat)
    requires
        fresh(start),
        k < events.len(),
    ensures
        command_at(start, events, k) is SpawnShell ==> k >= 1 && command_at(
            start,
            events,
            (k - 1) as nat,
        ) is SetIdentity && events[k as int] is IdentityChanged,
        command_at(start, events, k) is SetIdentity && k + 1 < events.len() ==> if events[k as int
            + 1] is IdentityChanged {
            command_at(start, events, k + 1) is SpawnShell
        } else {
            command_at(start, events, k + 1) is Abort
        },
{
    lemma_cause_of_command(state_at(start, events, k), events[k as int]);
    if command_at(start, events, k) is SpawnShell {
        assert(k >= 1);
        lemma_run_befits(start, events, k);
    }
    if command_at(start, events, k) is SetIdentity {
        lemma_run_befits(start, events, k + 1);
        lemma_cause_of_command(state_at(start, events, k + 1), events[k as int + 1]);
    }
}

/// One if the flag holds, zero if not.
pub open spec fn tally(flag: bool) -> nat {
    if flag {
        1
    } else {
        0
    }
}

/// Whether this step establishes a session: the binding of the terminal, the
/// last of the three operations, has succeeded.
pub open spec fn establishes(manager: ManagerView, event: EventView) -> bool {
    manager.phase is BindingTerminal && event is TerminalBound
}

/// Whether this step completes an outer iteration: the shell that was waited
/// for has ended, or, where the manager serves a single login, the shell has
/// been launched.
pub open spec fn completes(manager: ManagerView, event: EventView) -> bool {
    ||| manager.phase is Waiting && (event is ShellExited || event is OsFailed)
    ||| manager.phase is Launching && manager.mode == Mode::SingleShot && event is ShellSpawned
}

/// The number of sessions established in the first `k` steps of a run.
pub open spec fn sessions_established(start: ManagerView, events: Seq<EventView>, k: nat) -> nat
    decreases k,
{
    if k == 0 {
        0
    } else {
        sessions_established(start, events, (k - 1) as nat) + tally(
            establishes(state_at(start, events, (k - 1) as nat), events[k - 1]),
        )
    }
}

/// The number of changes of identity asked for in the first `k` steps of a run.
pub open spec fn identity_changes(start: ManagerView, events: Seq<EventView>, k: nat) -> nat
    decreases k,
{
    if k == 0 {
        0
    } else {
        identity_changes(start, events, (k - 1) as nat) + tally(
            command_at(start, events, (k - 1) as nat) is SetIdentity,
        )
    }
}

/// The number of launches of a shell asked for in the first `k` steps of a run.
pub open spec fn shells_launched(start: ManagerView, events: Seq<EventView>, k: nat) -> nat
    decreases k,
{
    if k == 0 {
        0
    } else {
        shells_launched(start, events, (k - 1) as nat) + tally(
            command_at(start, events, (k - 1) as nat) is SpawnShell,
        )
    }
}

/// The number of outer iterations completed in the first `k` steps of a run.
pub open spec fn iterations_completed(start: ManagerView, events: Seq<EventView>, k: nat) -> nat
    decreases k,
{
    if k == 0 {
        0
    } else {
        iterations_completed(start, events, (k - 1) as nat) + tally(
            completes(state_at(start, events, (k - 1) as nat), events[k - 1]),
        )
    }
}

/// Whether no iteration is under way in `phase`: the manager is starting up,
/// in a login, or done.
pub open spec fn between_sessions(phase: PhaseView) -> bool {
    phase is Connecting || phase is Notifying || phase is Login || phase is Finished
}

/// How the counts of a run stand to each other in a given phase, after
/// `iterations` completed iterations.
///
/// Each change of identity answers one established session. Between sessions
/// all counts equal the number of completed iterations; within a session the
/// operations that have been asked for are one ahead; and a manager that has
/// failed may have failed within a session.
pub open spec fn accounted(
    phase: PhaseView,
    iterations: nat,
    sessions: nat,
    changes: nat,
    launches: nat,
) -> bool {
    &&& changes == sessions
    &&& match phase {
        PhaseView::ChangingIdentity { user, session } => changes == iterations + 1 && launches
            == iterations,
        PhaseView::Launching => changes == iterations + 1 && launches == iterations + 1,
        PhaseView::Waiting => changes == iterations + 1 && launches == iterations + 1,
        PhaseView::Failed { error } => iterations <= launches <= changes <= iterations + 1,
        _ => changes == iterations && launches == iterations,
    }
}

/// Across N completed iterations there are exactly N changes of identity,
/// N established sessions and N launches of a shell.
///
/// At every point of every run the counts are accounted for; so whenever the
/// manager is between sessions, each of the three counts is the number of
/// iterations completed.
pub proof fn theorem_one_descent_per_iteration(start: ManagerView, events: Seq<EventView>, k: nat)
    requires
        fresh(start),
        k <= events.len(),
    ensures
        accounted(
            state_at(start, events, k).phase,
            iterations_completed(start, events, k),
            sessions_established(start, events, k),
            identity_changes(start, events, k),
            shells_launched(start, events, k),
        ),
        between_sessions(state_at(start, events, k).phase) ==> {
            &&& identity_changes(start, events, k) == iterations_completed(start, events, k)
            &&& sessions_established(start, events, k) == iterations_completed(start, events, k)
            &&& shells_launched(start, events, k) == iterations_completed(start, events, k)
        },
    decreases k,
{
    if k >= 1 {
        let j = (k - 1) as nat;
        theorem_one_descent_per_iteration(start, events, j);
        lemma_cause_of_command(state_at(start, events, j), events[j as int]);
        lemma_step_befits(state_at(start, events, j), events[j as int]);
        lemma_run_befits(start, events, j);
    }
}

/// The shell runs as the user whose password the directory has just accepted.
///
/// Whenever the manager asks for the launch of a shell, the four steps before
/// it were the acceptance of a password by the directory and the three
/// operations of the session; the directory had returned the account in that
/// same attempt, directly before the check if the account has no password and
/// with only the password prompt in between if it has one; the directory had
/// been asked to check the password for the uid of that account; the identity
/// asked for was that uid; and the shell, its working directory and its
/// environment are the shell, the home directory and [`context_of`] that
/// account.
pub proof fn theorem_shell_belongs_to_authenticated_user(
    start: ManagerView,
    events: Seq<EventView>,
    k: nat,
)
    requires
        fresh(start),
        k < events.len(),
        command_at(start, events, k) is SpawnShell,
    ensures
        k >= 6,
        ({
            let verdict = state_at(start, events, (k - 4) as nat).phase;
            &&& verdict is Login
            &&& verdict->login is AwaitingVerdict
            &&& ({
                let user = verdict->login->AwaitingVerdict_user;
                &&& {
                    ||| {
                        &&& !user.password_set
                        &&& events[k - 5] == EventView::Login(LoginEventView::UserFound(user))
                    }
                    ||| {
                        &&& user.password_set
                        &&& k >= 7
                        &&& events[k - 6] == EventView::Login(LoginEventView::UserFound(user))
                        &&& command_at(start, events, (k - 6) as nat) == CommandView::Login(
                            LoginCommandView::PromptPassword,
                        )
                        &&& events[k - 5] is Login
                        &&& events[k - 5]->Login_0 is PasswordRead
                    }
                }
                &&& command_at(start, events, (k - 5) as nat) is Login
                &&& command_at(start, events, (k - 5) as nat)->Login_0 is VerifyPassword
                &&& command_at(start, events, (k - 5) as nat)->Login_0->uid == user.uid
                &&& events[k - 4] == EventView::Login(LoginEventView::PasswordAccepted)
                &&& step_at(start, events, (k - 4) as nat).notice is Separator
                &&& command_at(start, events, (k - 1) as nat) == (CommandView::SetIdentity {
                    uid: user.uid,
                })
                &&& command_at(start, events, k) == (CommandView::SpawnShell {
                    shell: user.shell,
                    directory: user.home,
                    environment: context_of(user),
                })
            })
        }),
{
    theorem_launch_follows_descent(start, events, k);
    let k1 = (k - 1) as nat;
    theorem_session_precedes_descent(start, events, k1);
    let k2 = (k - 2) as nat;
    let k3 = (k - 3) as nat;
    let k4 = (k - 4) as nat;
    lemma_cause_of_command(state_at(start, events, k), events[k as int]);
    lemma_cause_of_command(state_at(start, events, k1), events[k1 as int]);
    lemma_cause_of_command(state_at(start, events, k2), events[k2 as int]);
    lemma_cause_of_command(state_at(start, events, k3), events[k3 as int]);
    lemma_cause_of_command(state_at(start, events, k4), events[k4 as int]);
    let verdict = state_at(start, events, k4).phase;
    assert(verdict is Login);
    assert(k4 >= 1);
    lemma_run_befits(start, events, k4);
    lemma_cause_of_authentication(verdict->login, events[k4 as int]->Login_0);
    let user = verdict->login->AwaitingVerdict_user;
    let k5 = (k4 - 1) as nat;
    lemma_login_has_a_past(state_at(start, events, k5), events[k5 as int]);
    lemma_cause_of_verification(
        state_at(start, events, k5).phase->login,
        events[k5 as int]->Login_0,
    );
    assert(k5 >= 1);
    lemma_run_befits(start, events, k5);
    if !(events[k5 as int] == EventView::Login(LoginEventView::UserFound(user))) {
        let k6 = (k5 - 1) as nat;
        lemma_login_has_a_past(state_at(start, events, k6), events[k6 as int]);
        lemma_cause_of_verification(
            state_at(start, events, k6).phase->login,
            events[k6 as int]->Login_0,
        );
        assert(k6 >= 1);
    }
}

/// A login that is past the username prompt got there by a step of the login.
pub proof fn lemma_login_has_a_past(manager: ManagerView, event: EventView)
    ensures
        ({
            let step = manager_step(manager, event);
            step.manager.phase is Login && !(step.manager.phase->login is AwaitingUsername) ==> {
                &&& manager.phase is Login
                &&& event is Login
                &&& step.manager.phase->login == login_step(
                    manager.phase->login,
                    event->Login_0,
                ).state
                &&& step.command is Login
                &&& Some(step.command->Login_0) == login_step(
                    manager.phase->login,
                    event->Login_0,
                ).command
            }
        }),
{
}

} // verus!
