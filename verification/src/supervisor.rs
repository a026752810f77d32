//! The supervisor that runs the stock binary and restarts it at a project map
//! when a session asks for it: its decisions, one event at a time.
use vstd::prelude::*;
use vstd::string::StringExecFns;
use crate::control::RestartRequest;
use crate::state::opt_bytes;
use crate::text::{join, join_path, push_decimal, push_str, str_bytes, decimal, utf8};

verus! {

/// How long the supervisor waits between two polls of its socket, in ms.
pub const ACCEPT_POLL_MS: u64 = 50;

/// How long the supervisor lets a session finish its reply before restarting
/// it, in ms.
pub const RESTART_DELAY_MS: u64 = 750;

/// How often a terminated child is checked before it is killed.
pub const TERMINATE_CHECKS: u32 = 60;

/// How long the supervisor waits between two such checks, in ms.
pub const TERMINATE_POLL_MS: u64 = 50;

/// The signal that the handler recorded, taken from its slot (`raw` is what the
/// slot held; 0 means none).
pub fn pending(raw: i32) -> (r: Option<i32>)
    ensures
        r == (if raw == 0 {
            None
        } else {
            Some(raw)
        }),
{
    if raw == 0 {
        None
    } else {
        Some(raw)
    }
}

/// The exit status to report for a child that exited with `code` (none when it
/// was killed by a signal): the code, else 1.
pub fn exit_status(code: Option<i32>) -> (r: i32)
    ensures
        r == (match code {
            Some(c) => c,
            None => 1,
        }),
{
    match code {
        Some(c) => c,
        None => 1,
    }
}

/// What the supervisor does once its child has exited: return the child's
/// status, unless a signal is pending (`raw_signal` is what the signal slot held
/// when it was taken), in which case it goes on serving.
pub fn after_child_exit(code: Option<i32>, raw_signal: i32) -> (r: Option<i32>)
    ensures
        r == (if raw_signal == 0 {
            Some(
                match code {
                    Some(c) => c,
                    None => 1,
                },
            )
        } else {
            None
        }),
{
    match pending(raw_signal) {
        None => Some(exit_status(code)),
        Some(_) => None,
    }
}

/// What an attempt to accept a connection on the supervisor's socket gave.
pub enum AcceptOutcome {
    /// A connection whose text is a restart request.
    Request(RestartRequest),
    /// A connection whose text is not a restart request.
    Garbage,
    /// No connection is waiting.
    WouldBlock,
    /// Accepting failed.
    Failed,
}

/// Where the supervisor stands while its child runs: which report it awaits.
#[derive(Debug, Clone, Copy, PartialEq, Eq)]
pub enum ServeState {
    /// What the signal slot held.
    AwaitSignal,
    /// That the pending signal was sent on to the child.
    AwaitKill,
    /// Whether the child has exited, and with what code.
    AwaitChild,
    /// What the signal slot held once the child had exited with this code.
    AwaitExitSignal(Option<i32>),
    /// What an accept on the socket gave.
    AwaitAccept,
    /// That the wait between two polls is over.
    AwaitSleep,
}

/// What the program reports of the work that it did for the last action.
pub enum ServeEvent {
    /// The signal slot was taken; it held this (0 means none).
    Signal(i32),
    /// The child was checked: `None` while it runs, else the code it exited with
    /// (`None` inside when a signal ended it).
    Child(Option<Option<i32>>),
    /// An accept was tried on the socket.
    Accepted(AcceptOutcome),
    /// A kill or a wait is done.
    Done,
}

/// The work that the supervisor asks of the program next.
pub enum ServeAction {
    /// Take the signal slot and report what it held.
    ReadSignal,
    /// Send this signal to the child.
    Kill(i32),
    /// Check whether the child has exited.
    CheckChild,
    /// Try to accept a connection on the socket.
    Accept,
    /// Wait this many ms.
    Sleep(u64),
    /// Stop, reporting this exit status.
    Exit(i32),
    /// Wait [`RESTART_DELAY_MS`], terminate the child and start a fresh one with
    /// this request.
    Restart(RestartRequest),
    /// Stop with the error of the accept.
    Fail,
}

/// The action whose report a state awaits.
pub open spec fn awaited(state: ServeState) -> ServeAction {
    match state {
        ServeState::AwaitSignal => ServeAction::ReadSignal,
        ServeState::AwaitKill => ServeAction::ReadSignal,
        ServeState::AwaitChild => ServeAction::CheckChild,
        ServeState::AwaitExitSignal(_) => ServeAction::ReadSignal,
        ServeState::AwaitAccept => ServeAction::Accept,
        ServeState::AwaitSleep => ServeAction::Sleep(ACCEPT_POLL_MS),
    }
}

/// One step of the supervisor while its child runs. A pending signal is sent on
/// to the child; then, once the child has exited, its status is returned unless
/// a signal is pending; then a connection is accepted: a restart request
/// restarts the session, other text is ignored, no connection means a wait of
/// [`ACCEPT_POLL_MS`], and a failed accept stops the supervisor. A report that
/// does not answer what the state awaits leaves the state as it is and asks
/// again for the work that it awaits. After `Exit`, `Restart` and `Fail` the
/// loop ends, and a new one starts from the first state.
pub open spec fn serve_next(state: ServeState, event: ServeEvent) -> (ServeState, ServeAction) {
    match (state, event) {
        (ServeState::AwaitSignal, ServeEvent::Signal(raw)) => if raw == 0 {
            (ServeState::AwaitChild, ServeAction::CheckChild)
        } else {
            (ServeState::AwaitKill, ServeAction::Kill(raw))
        },
        (ServeState::AwaitKill, ServeEvent::Done) => (ServeState::AwaitChild, ServeAction::CheckChild),
        (ServeState::AwaitChild, ServeEvent::Child(status)) => match status {
            None => (ServeState::AwaitAccept, ServeAction::Accept),
            Some(code) => (ServeState::AwaitExitSignal(code), ServeAction::ReadSignal),
        },
        (ServeState::AwaitExitSignal(code), ServeEvent::Signal(raw)) => if raw == 0 {
            (
                ServeState::AwaitSignal,
                ServeAction::Exit(
                    match code {
                        Some(c) => c,
                        None => 1,
                    },
                ),
            )
        } else {
            (ServeState::AwaitAccept, ServeAction::Accept)
        },
        (ServeState::AwaitAccept, ServeEvent::Accepted(outcome)) => match outcome {
            AcceptOutcome::Request(req) => (ServeState::AwaitSignal, ServeAction::Restart(req)),
            AcceptOutcome::Garbage => (ServeState::AwaitSignal, ServeAction::ReadSignal),
            AcceptOutcome::WouldBlock => (ServeState::AwaitSleep, ServeAction::Sleep(ACCEPT_POLL_MS)),
            AcceptOutcome::Failed => (ServeState::AwaitSignal, ServeAction::Fail),
        },
        (ServeState::AwaitSleep, ServeEvent::Done) => (ServeState::AwaitSignal, ServeAction::ReadSignal),
        _ => (state, awaited(state)),
    }
}

/// The first state and action of the supervisor once a child has been started.
pub fn serve_start() -> (r: (ServeState, ServeAction))
    ensures
        r == (ServeState::AwaitSignal, ServeAction::ReadSignal),
{
    (ServeState::AwaitSignal, ServeAction::ReadSignal)
}

fn awaited_action(state: ServeState) -> (r: ServeAction)
    ensures
        r == awaited(state),
{
    match state {
        ServeState::AwaitSignal => ServeAction::ReadSignal,
        ServeState::AwaitKill => ServeAction::ReadSignal,
        ServeState::AwaitChild => ServeAction::CheckChild,
        ServeState::AwaitExitSignal(_) => ServeAction::ReadSignal,
        ServeState::AwaitAccept => ServeAction::Accept,
        ServeState::AwaitSleep => ServeAction::Sleep(ACCEPT_POLL_MS),
    }
}

/// Decides the supervisor's next state and action from its state and the report
/// of the work just done (see [`serve_next`]).
pub fn serve_step(state: ServeState, event: ServeEvent) -> (r: (ServeState, ServeAction))
    ensures
        r == serve_next(state, event),
{
    match (state, event) {
        (ServeState::AwaitSignal, ServeEvent::Signal(raw)) => match pending(raw) {
            None => (ServeState::AwaitChild, ServeAction::CheckChild),
            Some(sig) => (ServeState::AwaitKill, ServeAction::Kill(sig)),
        },
        (ServeState::AwaitKill, ServeEvent::Done) => (ServeState::AwaitChild, ServeAction::CheckChild),
        (ServeState::AwaitChild, ServeEvent::Child(status)) => match status {
            None => (ServeState::AwaitAccept, ServeAction::Accept),
            Some(code) => (ServeState::AwaitExitSignal(code), ServeAction::ReadSignal),
        },
        (ServeState::AwaitExitSignal(code), ServeEvent::Signal(raw)) => match after_child_exit(
            code,
            raw,
        ) {
            Some(status) => (ServeState::AwaitSignal, ServeAction::Exit(status)),
            None => (ServeState::AwaitAccept, ServeAction::Accept),
        },
        (ServeState::AwaitAccept, ServeEvent::Accepted(outcome)) => match outcome {
            AcceptOutcome::Request(req) => (ServeState::AwaitSignal, ServeAction::Restart(req)),
            AcceptOutcome::Garbage => (ServeState::AwaitSignal, ServeAction::ReadSignal),
            AcceptOutcome::WouldBlock => (ServeState::AwaitSleep, ServeAction::Sleep(ACCEPT_POLL_MS)),
            AcceptOutcome::Failed => (ServeState::AwaitSignal, ServeAction::Fail),
        },
        (ServeState::AwaitSleep, ServeEvent::Done) => (ServeState::AwaitSignal, ServeAction::ReadSignal),
        (state, _) => (state, awaited_action(state)),
    }
}

/// A signal taken while the child runs is sent on to it before anything else
/// happens; once the child has exited, the supervisor stops with the child's
/// status (1 when a signal ended it) when no signal is pending, and goes on
/// serving when one is.
pub proof fn signals_reach_the_child(raw: i32, code: Option<i32>)
    ensures
        raw != 0 ==> serve_next(ServeState::AwaitSignal, ServeEvent::Signal(raw)) == (
            ServeState::AwaitKill,
            ServeAction::Kill(raw),
        ),
        serve_next(ServeState::AwaitExitSignal(code), ServeEvent::Signal(0)).1 == ServeAction::Exit(
            match code {
                Some(c) => c,
                None => 1,
            },
        ),
        raw != 0 ==> serve_next(ServeState::AwaitExitSignal(code), ServeEvent::Signal(raw)).1
            == ServeAction::Accept,
{
}

/// Every exit of the child is acted on, whether it exited with a code or was
/// ended by a signal: the supervisor then looks at the signal slot, and with no
/// signal pending stops with the child's code, or 1 when it had none. A child
/// that still runs leads to the socket being polled.
pub proof fn child_exit_is_acted_on(code: Option<i32>)
    ensures
        serve_next(ServeState::AwaitChild, ServeEvent::Child(Some(code))) == (
            ServeState::AwaitExitSignal(code),
            ServeAction::ReadSignal,
        ),
        serve_next(
            serve_next(ServeState::AwaitChild, ServeEvent::Child(Some(code))).0,
            ServeEvent::Signal(0),
        ).1 == ServeAction::Exit(
            match code {
                Some(c) => c,
                None => 1,
            },
        ),
        serve_next(ServeState::AwaitChild, ServeEvent::Child(None)) == (
            ServeState::AwaitAccept,
            ServeAction::Accept,
        ),
{
}

/// What an accept gives is acted on: a restart request restarts the session
/// with that request, other text is dropped and the loop goes on at once, no
/// connection means a wait of [`ACCEPT_POLL_MS`] before the loop goes on, and a
/// failed accept stops the supervisor. A forwarded signal is followed by a
/// check of the child.
pub proof fn accept_outcomes_are_acted_on(req: RestartRequest)
    ensures
        serve_next(ServeState::AwaitAccept, ServeEvent::Accepted(AcceptOutcome::Request(req))).1
            == ServeAction::Restart(req),
        serve_next(ServeState::AwaitAccept, ServeEvent::Accepted(AcceptOutcome::Garbage)) == (
            ServeState::AwaitSignal,
            ServeAction::ReadSignal,
        ),
        serve_next(ServeState::AwaitAccept, ServeEvent::Accepted(AcceptOutcome::WouldBlock)) == (
            ServeState::AwaitSleep,
            ServeAction::Sleep(ACCEPT_POLL_MS),
        ),
        serve_next(ServeState::AwaitSleep, ServeEvent::Done) == (
            ServeState::AwaitSignal,
            ServeAction::ReadSignal,
        ),
        serve_next(ServeState::AwaitAccept, ServeEvent::Accepted(AcceptOutcome::Failed)).1
            == ServeAction::Fail,
        serve_next(ServeState::AwaitKill, ServeEvent::Done) == (
            ServeState::AwaitChild,
            ServeAction::CheckChild,
        ),
        ACCEPT_POLL_MS == 50,
{
}

/// What to do while a terminated child has not exited yet.
#[derive(Debug, Clone, Copy, PartialEq, Eq)]
pub enum TerminateStep {
    /// It exited: done.
    Done,
    /// Wait [`TERMINATE_POLL_MS`] and check again.
    WaitAndCheck,
    /// Wait [`TERMINATE_POLL_MS`], then kill it and wait for it.
    WaitAndKill,
}

/// After the `check`-th check (counting from 1) of a child sent `SIGTERM`, which
/// found that it `exited` or not: done, check again, or kill it after the last
/// of [`TERMINATE_CHECKS`] checks.
pub fn terminate_step(check: u32, exited: bool) -> (r: TerminateStep)
    ensures
        exited ==> r == TerminateStep::Done,
        !exited && check < TERMINATE_CHECKS ==> r == TerminateStep::WaitAndCheck,
        !exited && check >= TERMINATE_CHECKS ==> r == TerminateStep::WaitAndKill,
{
    if exited {
        TerminateStep::Done
    } else if check < TERMINATE_CHECKS {
        TerminateStep::WaitAndCheck
    } else {
        TerminateStep::WaitAndKill
    }
}

/// The last argument of a restarted session: its first prompt.
pub open spec fn restart_prompt(map: Seq<char>) -> Seq<char> {
    "Read "@ + map
        + ". Treat it as a map, inspect Git and the referenced raw logs, and continue the unfinished work from HEAD."@
}

/// The arguments of a session restarted for `req`:
/// `-C <cwd> --model <model> <prompt>`.
pub fn restart_args(req: &RestartRequest) -> (r: Vec<String>)
    ensures
        r@.len() == 5,
        r@[0]@ == "-C"@,
        r@[1]@ == req.cwd@,
        r@[2]@ == "--model"@,
        r@[3]@ == req.model@,
        r@[4]@ == restart_prompt(req.map@),
{
    let mut prompt = String::from_str("Read ");
    prompt.append(req.map.as_str());
    prompt.append(
        ". Treat it as a map, inspect Git and the referenced raw logs, and continue the unfinished work from HEAD.",
    );
    let mut r: Vec<String> = Vec::new();
    r.push(String::from_str("-C"));
    r.push(req.cwd.clone());
    r.push(String::from_str("--model"));
    r.push(req.model.clone());
    r.push(prompt);
    r
}

/// Why the stock binary may not be run.
#[derive(Debug, Clone, Copy, PartialEq, Eq)]
pub enum StockError {
    /// It is not a file with an execute bit.
    NotExecutable,
    /// It resolves to the supervisor itself.
    Recursion,
}

impl StockError {
    /// The message reported for the error.
    pub fn message(&self) -> (r: &'static str)
        ensures
            r@ == match self {
                StockError::NotExecutable => "stock codex is not executable"@,
                StockError::Recursion => "codex supervisor recursion"@,
            },
    {
        match self {
            StockError::NotExecutable => "stock codex is not executable",
            StockError::Recursion => "codex supervisor recursion",
        }
    }
}

/// Whether a file with permission bits `mode` may be executed by someone.
pub fn executable(mode: u32) -> (r: bool)
    ensures
        r == (mode & 0o111u32 != 0),
{
    mode & 0o111u32 != 0
}

/// Checks the resolved stock binary: it must be a file with an execute bit set
/// in `mode`, and not the supervisor itself.
pub fn check_stock(is_file: bool, mode: u32, is_self: bool) -> (r: Result<(), StockError>)
    ensures
        (!is_file || mode & 0o111u32 == 0) ==> r == Err::<(), StockError>(StockError::NotExecutable),
        (is_file && mode & 0o111u32 != 0 && is_self) ==> r == Err::<(), StockError>(
            StockError::Recursion,
        ),
        (is_file && mode & 0o111u32 != 0 && !is_self) ==> r is Ok,
{
    if !is_file || !executable(mode) {
        return Err(StockError::NotExecutable);
    }
    if is_self {
        return Err(StockError::Recursion);
    }
    Ok(())
}

/// The supervisor's state directory: `$XDG_STATE_HOME`, else
/// `$HOME/.local/state`, else `/tmp`, with `compactveteran` joined.
pub open spec fn state_path_spec(xdg_state_home: Option<Seq<u8>>, home: Option<Seq<u8>>) -> Seq<u8> {
    let base = match xdg_state_home {
        Some(x) => x,
        None => match home {
            Some(h) => join_path(h, utf8(".local/state"@)),
            None => utf8("/tmp"@),
        },
    };
    join_path(base, utf8("compactveteran"@))
}

/// The supervisor's state directory from `XDG_STATE_HOME` and `HOME`.
pub fn state_path(xdg_state_home: Option<Vec<u8>>, home: Option<Vec<u8>>) -> (r: Vec<u8>)
    ensures
        r@ == state_path_spec(opt_bytes(xdg_state_home), opt_bytes(home)),
{
    let base = match xdg_state_home {
        Some(x) => x,
        None => match home {
            Some(h) => join(h.as_slice(), str_bytes(".local/state").as_slice()),
            None => str_bytes("/tmp"),
        },
    };
    join(base.as_slice(), str_bytes("compactveteran").as_slice())
}

/// The socket of the supervisor with process id `pid`: `<state>/run/<pid>.sock`.
pub fn socket_path(state: &[u8], pid: u32) -> (r: Vec<u8>)
    ensures
        r@ == join_path(join_path(state@, utf8("run"@)), decimal(pid as nat) + utf8(".sock"@)),
{
    let run = join(state, str_bytes("run").as_slice());
    let mut name: Vec<u8> = Vec::new();
    push_decimal(&mut name, pid as u64);
    push_str(&mut name, ".sock");
    join(run.as_slice(), name.as_slice())
}

} // verus!
