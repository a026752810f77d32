//! The per-project lock file that keeps two checkpoints of one repository apart.
use vstd::prelude::*;
use crate::text::{join, join_path, push_bytes, push_decimal, push_str, str_bytes, decimal, utf8};

verus! {

/// How old (in seconds) a lock may get before another process may take it over.
pub const STALE_AFTER_SECS: u64 = 600;

/// The bytes of a lock record: `{"created_at":<created_at>,"pid":<pid>}`, both
/// numbers in decimal.
pub open spec fn lock_record_bytes(pid: u32, created_at: u64) -> Seq<u8> {
    utf8("{\"created_at\":"@) + decimal(created_at as nat) + utf8(",\"pid\":"@) + decimal(pid as nat)
        + utf8("}"@)
}

/// The `pid` and `created_at` numbers that `serde_json` reads from the bytes of a
/// lock file (each `None` when absent, not an unsigned integer, or when the bytes
/// are not JSON).
pub uninterp spec fn lock_record_fields(on_disk: Seq<u8>) -> (Option<u64>, Option<u64>);

/// Builds a `serde_json::Value` object with the two fields and renders it with
/// `Value::to_string`. Trusted, as `serde_json`'s `Map` (a `BTreeMap`, so its
/// keys come in order), its compact `Display` and its integer writer show, to
/// return the text whose bytes are [`lock_record_bytes`], and that `serde_json`
/// reads the same two numbers back from those bytes.
#[verifier::external_body]
fn lock_record_text(pid: u32, created_at: u64) -> (r: String)
    ensures
        utf8(r@) == lock_record_bytes(pid, created_at),
        lock_record_fields(utf8(r@)) == (Some(pid as u64), Some(created_at)),
{
    let mut m = serde_json::Map::new();
    m.insert("pid".to_string(), serde_json::Value::from(pid));
    m.insert("created_at".to_string(), serde_json::Value::from(created_at));
    serde_json::Value::Object(m).to_string()
}

/// Calls `serde_json::from_slice::<Value>` and reads `pid` and `created_at` with
/// `Value::as_u64`. Trusted to return [`lock_record_fields`] of its argument.
#[verifier::external_body]
fn parse_lock_record(on_disk: &[u8]) -> (r: (Option<u64>, Option<u64>))
    ensures
        r == lock_record_fields(on_disk@),
{
    match serde_json::from_slice::<serde_json::Value>(on_disk) {
        Ok(v) => (v["pid"].as_u64(), v["created_at"].as_u64()),
        Err(_) => (None, None),
    }
}

/// The lock file of the project named `hash`: `<dir>/locks/<hash>.lock`.
pub open spec fn lock_file(dir: Seq<u8>, hash: Seq<u8>) -> Seq<u8> {
    join_path(join_path(dir, utf8("locks"@)), hash + utf8(".lock"@))
}

/// The directory that holds the lock files.
pub fn lock_dir(dir: &[u8]) -> (r: Vec<u8>)
    ensures
        r@ == join_path(dir@, utf8("locks"@)),
{
    join(dir, str_bytes("locks").as_slice())
}

/// The lock file of the project named `hash`, under the state directory `dir`.
pub fn lock_path(dir: &[u8], hash: &[u8]) -> (r: Vec<u8>)
    ensures
        r@ == lock_file(dir@, hash@),
{
    let d = lock_dir(dir);
    let mut name: Vec<u8> = Vec::new();
    push_bytes(&mut name, hash);
    push_str(&mut name, ".lock");
    join(d.as_slice(), name.as_slice())
}

/// The holder recorded in a lock file: its pid and creation time, each 0 when it
/// cannot be read.
pub open spec fn holder_of(on_disk: Seq<u8>) -> (u64, u64) {
    let f = lock_record_fields(on_disk);
    (
        match f.0 {
            Some(p) => p,
            None => 0,
        },
        match f.1 {
            Some(t) => t,
            None => 0,
        },
    )
}

/// The holder recorded in the lock file whose bytes are `on_disk`.
pub fn recorded_holder(on_disk: &[u8]) -> (r: (u64, u64))
    ensures
        r == holder_of(on_disk@),
{
    let f = parse_lock_record(on_disk);
    (
        match f.0 {
            Some(p) => p,
            None => 0,
        },
        match f.1 {
            Some(t) => t,
            None => 0,
        },
    )
}

/// `a - b`, or 0 when `b` is larger.
pub open spec fn saturating_diff(a: u64, b: u64) -> u64 {
    if a > b {
        (a - b) as u64
    } else {
        0
    }
}

/// A lock may be taken over when its holder pid is unknown (0), no longer
/// running, or when it is older than [`STALE_AFTER_SECS`] seconds.
pub open spec fn stale_spec(holder_pid: u64, holder_created: u64, holder_running: bool, now: u64) -> bool {
    holder_pid == 0 || !holder_running || saturating_diff(now, holder_created) > STALE_AFTER_SECS
}

/// Whether a lock held by `holder_pid` since `holder_created` may be taken over at
/// `now`; `holder_running` tells whether `/proc/<holder_pid>` exists.
pub fn is_stale(holder_pid: u64, holder_created: u64, holder_running: bool, now: u64) -> (r: bool)
    ensures
        r == stale_spec(holder_pid, holder_created, holder_running, now),
{
    let age = if now > holder_created {
        now - holder_created
    } else {
        0
    };
    holder_pid == 0 || !holder_running || age > STALE_AFTER_SECS
}

/// Why a lock could not be taken.
#[derive(Debug, Clone, Copy, PartialEq, Eq)]
pub enum LockError {
    /// Another process holds the lock and it is not stale.
    Active,
}

impl LockError {
    /// The message reported for the error.
    pub fn message(&self) -> (r: &'static str)
        ensures
            r@ == "project lock active"@,
    {
        "project lock active"
    }
}

/// Whether the lock file that already exists may be taken over: refused while
/// the lock is not stale (see [`stale_spec`]).
pub fn may_take_over(holder_pid: u64, holder_created: u64, holder_running: bool, now: u64) -> (r:
    Result<(), LockError>)
    ensures
        r is Ok <==> stale_spec(holder_pid, holder_created, holder_running, now),
        r is Err ==> r == Err::<(), LockError>(LockError::Active),
{
    if is_stale(holder_pid, holder_created, holder_running, now) {
        Ok(())
    } else {
        Err(LockError::Active)
    }
}

/// Where taking a project lock stands: which report it awaits.
#[derive(Debug, Clone, Copy, PartialEq, Eq)]
pub enum LockState {
    /// Whether the lock file could be created anew.
    Create,
    /// The bytes of the lock file that was already there.
    ReadHolder,
    /// Whether the recorded holder (its pid and creation time) still runs.
    CheckHolder(u64, u64),
    /// That the stale lock file was removed.
    Remove,
    /// Whether the lock file could be created anew after the removal.
    Recreate,
    /// That the record was written.
    Write,
    /// The lock is held.
    Held,
}

/// What the program reports of the work that it did for the last action.
pub enum LockEvent {
    /// The lock file was created anew.
    Created,
    /// The lock file already exists.
    AlreadyExists,
    /// The lock file was read and holds these bytes.
    Read(Vec<u8>),
    /// `/proc/<pid>` of the holder exists (`true`) or not.
    HolderRunning(bool),
    /// The lock file was removed.
    Removed,
    /// The record was written into the lock file.
    Written,
}

/// The work that taking the lock asks of the program next.
#[derive(Debug, Clone, Copy, PartialEq, Eq)]
pub enum LockAction {
    /// Create the lock file, failing if it exists.
    CreateNew,
    /// Read the lock file.
    ReadFile,
    /// Check whether the process with this pid runs (see [`proc_path`]).
    CheckProc(u64),
    /// Remove the lock file.
    RemoveFile,
    /// Write the holder's record ([`ProjectLock::record`]) into the lock file.
    WriteRecord,
    /// The lock is taken.
    Taken,
    /// Stop: the lock is held by another process.
    Refuse(LockError),
    /// Stop with the error of the last creation.
    Fail,
}

/// The action whose report a state awaits.
pub open spec fn lock_awaited(state: LockState) -> LockAction {
    match state {
        LockState::Create => LockAction::CreateNew,
        LockState::ReadHolder => LockAction::ReadFile,
        LockState::CheckHolder(pid, _) => LockAction::CheckProc(pid),
        LockState::Remove => LockAction::RemoveFile,
        LockState::Recreate => LockAction::CreateNew,
        LockState::Write => LockAction::WriteRecord,
        LockState::Held => LockAction::Taken,
    }
}

/// One step of taking the lock at time `now`. The lock file is created anew and
/// the record written into it; where it exists, its holder is read: a lock with
/// no holder pid is taken over at once, else `/proc/<pid>` is checked, and a
/// lock that is not stale (see [`stale_spec`]) is refused. A stale one is
/// removed and created anew, and a second creation that finds the file there
/// fails. A report that does not answer what the state awaits leaves the state
/// as it is and asks again for the work that it awaits.
pub open spec fn lock_next(state: LockState, event: LockEvent, now: u64) -> (LockState, LockAction) {
    match (state, event) {
        (LockState::Create, LockEvent::Created) => (LockState::Write, LockAction::WriteRecord),
        (LockState::Create, LockEvent::AlreadyExists) => (LockState::ReadHolder, LockAction::ReadFile),
        (LockState::ReadHolder, LockEvent::Read(bytes)) => {
            let (pid, created) = holder_of(bytes@);
            if pid == 0 {
                (LockState::Remove, LockAction::RemoveFile)
            } else {
                (LockState::CheckHolder(pid, created), LockAction::CheckProc(pid))
            }
        },
        (LockState::CheckHolder(pid, created), LockEvent::HolderRunning(running)) => if stale_spec(
            pid,
            created,
            running,
            now,
        ) {
            (LockState::Remove, LockAction::RemoveFile)
        } else {
            (state, LockAction::Refuse(LockError::Active))
        },
        (LockState::Remove, LockEvent::Removed) => (LockState::Recreate, LockAction::CreateNew),
        (LockState::Recreate, LockEvent::Created) => (LockState::Write, LockAction::WriteRecord),
        (LockState::Recreate, LockEvent::AlreadyExists) => (state, LockAction::Fail),
        (LockState::Write, LockEvent::Written) => (LockState::Held, LockAction::Taken),
        _ => (state, lock_awaited(state)),
    }
}

/// The first state and action of taking the lock.
pub fn lock_start() -> (r: (LockState, LockAction))
    ensures
        r == (LockState::Create, LockAction::CreateNew),
{
    (LockState::Create, LockAction::CreateNew)
}

fn lock_awaited_action(state: LockState) -> (r: LockAction)
    ensures
        r == lock_awaited(state),
{
    match state {
        LockState::Create => LockAction::CreateNew,
        LockState::ReadHolder => LockAction::ReadFile,
        LockState::CheckHolder(pid, _) => LockAction::CheckProc(pid),
        LockState::Remove => LockAction::RemoveFile,
        LockState::Recreate => LockAction::CreateNew,
        LockState::Write => LockAction::WriteRecord,
        LockState::Held => LockAction::Taken,
    }
}

/// `/proc/<pid>`, whose existence tells whether a process is running.
pub fn proc_path(pid: u64) -> (r: Vec<u8>)
    ensures
        r@ == utf8("/proc/"@) + decimal(pid as nat),
{
    let mut r = str_bytes("/proc/");
    push_decimal(&mut r, pid);
    r
}

/// A project lock held by this process.
pub struct ProjectLock {
    path: Vec<u8>,
    pid: u32,
    created_at: u64,
}

impl ProjectLock {
    /// The lock file.
    pub closed spec fn file(&self) -> Seq<u8> {
        self.path@
    }

    /// The pid of the holder.
    pub closed spec fn holder(&self) -> u32 {
        self.pid
    }

    /// When the lock was taken, in seconds since the Unix epoch.
    pub closed spec fn since(&self) -> u64 {
        self.created_at
    }

    /// Decides the next state and action of taking the lock at time `now` from the
    /// state and the report of the work just done (see [`lock_next`]).
    pub fn acquire(state: LockState, event: LockEvent, now: u64) -> (r: (LockState, LockAction))
        ensures
            r == lock_next(state, event, now),
    {
        match (state, event) {
            (LockState::Create, LockEvent::Created) => (LockState::Write, LockAction::WriteRecord),
            (LockState::Create, LockEvent::AlreadyExists) => (LockState::ReadHolder, LockAction::ReadFile),
            (LockState::ReadHolder, LockEvent::Read(bytes)) => {
                let (pid, created) = recorded_holder(bytes.as_slice());
                if pid == 0 {
                    (LockState::Remove, LockAction::RemoveFile)
                } else {
                    (LockState::CheckHolder(pid, created), LockAction::CheckProc(pid))
                }
            },
            (LockState::CheckHolder(pid, created), LockEvent::HolderRunning(running)) => {
                match may_take_over(pid, created, running, now) {
                    Ok(()) => (LockState::Remove, LockAction::RemoveFile),
                    Err(e) => (state, LockAction::Refuse(e)),
                }
            },
            (LockState::Remove, LockEvent::Removed) => (LockState::Recreate, LockAction::CreateNew),
            (LockState::Recreate, LockEvent::Created) => (LockState::Write, LockAction::WriteRecord),
            (LockState::Recreate, LockEvent::AlreadyExists) => (state, LockAction::Fail),
            (LockState::Write, LockEvent::Written) => (LockState::Held, LockAction::Taken),
            (state, _) => (state, lock_awaited_action(state)),
        }
    }

    /// The lock at `path`, held by `pid` since `created_at`: what taking it
    /// gives once [`ProjectLock::acquire`] has answered [`LockAction::Taken`].
    pub fn held(path: Vec<u8>, pid: u32, created_at: u64) -> (r: ProjectLock)
        ensures
            r.file() == path@,
            r.holder() == pid,
            r.since() == created_at,
    {
        ProjectLock { path, pid, created_at }
    }

    /// The lock file.
    pub fn path(&self) -> (r: &Vec<u8>)
        ensures
            r@ == self.file(),
    {
        &self.path
    }

    /// The record that the holder writes into the lock file.
    pub fn record(&self) -> (r: String)
        ensures
            utf8(r@) == lock_record_bytes(self.holder(), self.since()),
            lock_record_fields(utf8(r@)) == (Some(self.holder() as u64), Some(self.since())),
    {
        let r = lock_record_text(self.pid, self.created_at);
        proof {
            own_record_refuses_others(*self, utf8(r@));
        }
        r
    }

    /// Whether the lock file (whose bytes are `on_disk`) still records this lock,
    /// so that releasing it may remove the file.
    pub fn owns(&self, on_disk: &[u8]) -> (r: bool)
        ensures
            r == (lock_record_fields(on_disk@) == (Some(self.holder() as u64), Some(self.since()))),
    {
        let f = parse_lock_record(on_disk);
        match (f.0, f.1) {
            (Some(p), Some(t)) => p == self.pid as u64 && t == self.created_at,
            _ => false,
        }
    }
}

/// Once a lock's record has been written, nobody else takes the lock while its
/// holder runs and it is at most [`STALE_AFTER_SECS`] seconds old: reading the
/// lock file gives the holder's pid and time, and the check of that holder,
/// found running, refuses the lock.
pub proof fn own_record_refuses_others(lock: ProjectLock, on_disk: Seq<u8>)
    requires
        lock_record_fields(on_disk) == (Some(lock.holder() as u64), Some(lock.since())),
    ensures
        holder_of(on_disk) == (lock.holder() as u64, lock.since()),
        forall|bytes: Vec<u8>, now: u64|
            bytes@ == on_disk && lock.holder() != 0 ==> #[trigger] lock_next(
                LockState::ReadHolder,
                LockEvent::Read(bytes),
                now,
            ) == (
                LockState::CheckHolder(lock.holder() as u64, lock.since()),
                LockAction::CheckProc(lock.holder() as u64),
            ),
        forall|now: u64|
            lock.holder() != 0 && now <= lock.since() + STALE_AFTER_SECS ==> #[trigger] lock_next(
                LockState::CheckHolder(lock.holder() as u64, lock.since()),
                LockEvent::HolderRunning(true),
                now,
            ).1 == LockAction::Refuse(LockError::Active),
{
}

/// A lock whose holder still runs and took it at most [`STALE_AFTER_SECS`]
/// seconds ago is never taken over: taking the lock is refused, and its file is
/// left alone.
pub proof fn live_recent_lock_is_respected(holder_pid: u64, holder_created: u64, now: u64)
    requires
        holder_pid != 0,
        now <= holder_created + STALE_AFTER_SECS,
    ensures
        !stale_spec(holder_pid, holder_created, true, now),
        lock_next(LockState::CheckHolder(holder_pid, holder_created), LockEvent::HolderRunning(true), now).1
            == LockAction::Refuse(LockError::Active),
{
}

/// A lock whose holder has exited may always be taken over: its file is
/// removed, to be created anew.
pub proof fn dead_holder_lock_is_stale(holder_pid: u64, holder_created: u64, now: u64)
    ensures
        stale_spec(holder_pid, holder_created, false, now),
        lock_next(LockState::CheckHolder(holder_pid, holder_created), LockEvent::HolderRunning(false), now)
            == (LockState::Remove, LockAction::RemoveFile),
{
}

} // verus!
