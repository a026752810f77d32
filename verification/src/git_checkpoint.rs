//! The local Git checkpoint taken at the end of every Sol pass: the sequence of
//! Git commands and the decision taken on each of their outputs.
use vstd::prelude::*;
use crate::guard::{guard, lines_pass};
use crate::state::SessionState;
use crate::text::{copy_range, is_boundary, push_bytes, str_bytes, utf8};

verus! {

/// Where a checkpoint ended up.
pub struct Checkpoint {
    /// The project map that was written.
    pub map_path: Vec<u8>,
    /// The canonical root of the repository.
    pub root: Vec<u8>,
}

/// Why a checkpoint was refused.
#[derive(Debug, Clone, Copy, PartialEq, Eq)]
pub enum CheckpointError {
    /// HEAD is detached: there is no current branch.
    DetachedHead,
    /// A changed path has a credential-like file name.
    CredentialFilename,
    /// `git diff --cached --quiet` neither found changes nor reported none.
    DiffFailed,
    /// The working tree is still not clean after the commit.
    NotClean,
    /// An outcome arrived that the current phase does not wait for.
    OutOfOrder,
}

impl CheckpointError {
    /// The message reported for the error.
    pub fn message(&self) -> (r: &'static str)
        ensures
            r@ == match self {
                CheckpointError::DetachedHead => "detached HEAD"@,
                CheckpointError::CredentialFilename => "credential filename guard"@,
                CheckpointError::DiffFailed => "git diff failed"@,
                CheckpointError::NotClean => "working tree not clean"@,
                CheckpointError::OutOfOrder => "checkpoint steps out of order"@,
            },
    {
        match self {
            CheckpointError::DetachedHead => "detached HEAD",
            CheckpointError::CredentialFilename => "credential filename guard",
            CheckpointError::DiffFailed => "git diff failed",
            CheckpointError::NotClean => "working tree not clean",
            CheckpointError::OutOfOrder => "checkpoint steps out of order",
        }
    }
}

/// What the checkpoint waits for.
#[derive(Debug, Clone, Copy, PartialEq, Eq)]
pub enum CheckpointPhase {
    /// The output of `git branch --show-current`.
    Branch,
    /// The output of the first `git status`.
    Status,
    /// The output of `git add -A`.
    Add,
    /// The exit code of `git diff --cached --quiet`.
    Diff,
    /// The output of `git commit`.
    Commit,
    /// The output of the final `git status`.
    Recheck,
    /// Nothing: the checkpoint succeeded.
    Done,
    /// Nothing: the checkpoint was refused.
    Failed,
}

/// The outcome of the last command.
pub enum CheckpointEvent {
    /// The trimmed standard output of a Git command that succeeded.
    Output(String),
    /// The exit code of `git diff --cached --quiet` (none when it was killed).
    DiffExit(Option<i32>),
}

/// The text of a [`CheckpointEvent`].
pub enum CheckpointEventView {
    Output(Seq<char>),
    DiffExit(Option<i32>),
}

impl View for CheckpointEvent {
    type V = CheckpointEventView;

    open spec fn view(&self) -> CheckpointEventView {
        match self {
            CheckpointEvent::Output(s) => CheckpointEventView::Output(s@),
            CheckpointEvent::DiffExit(c) => CheckpointEventView::DiffExit(*c),
        }
    }
}

/// What to do next.
pub enum GitStep {
    /// Run `git -C <root>` with these arguments and report its output.
    Run(Vec<Vec<u8>>),
    /// Run `git -C <root> diff --cached --quiet` and report its exit code.
    DiffCached,
    /// Record the session in its project and write the project map.
    Finish,
    /// Stop: the checkpoint is refused.
    Fail(CheckpointError),
}

/// The bytes of a [`GitStep`].
pub enum GitStepView {
    Run(Seq<Seq<u8>>),
    DiffCached,
    Finish,
    Fail(CheckpointError),
}

impl View for GitStep {
    type V = GitStepView;

    open spec fn view(&self) -> GitStepView {
        match self {
            GitStep::Run(args) => GitStepView::Run(args_view(args@)),
            GitStep::DiffCached => GitStepView::DiffCached,
            GitStep::Finish => GitStepView::Finish,
            GitStep::Fail(e) => GitStepView::Fail(*e),
        }
    }
}

pub open spec fn branch_args() -> Seq<Seq<u8>> {
    seq![utf8("branch"@), utf8("--show-current"@)]
}

pub open spec fn status_args() -> Seq<Seq<u8>> {
    seq![utf8("status"@), utf8("--porcelain"@), utf8("--untracked-files=all"@)]
}

pub open spec fn add_args() -> Seq<Seq<u8>> {
    seq![utf8("add"@), utf8("-A"@)]
}

pub open spec fn commit_args(message: Seq<u8>) -> Seq<Seq<u8>> {
    seq![
        utf8("-c"@),
        utf8("user.name=CompactVeteran"@),
        utf8("-c"@),
        utf8("user.email=compactveteran@localhost"@),
        utf8("commit"@),
        utf8("-m"@),
        message,
    ]
}

/// The id a checkpoint is named after: the latest turn id when it is set and not
/// empty, else the session id.
pub open spec fn checkpoint_id_spec(s: crate::state::SessionStateView) -> Seq<char> {
    if s.latest_turn_id is Some && s.latest_turn_id->0.len() > 0 {
        s.latest_turn_id->0
    } else {
        s.session_id
    }
}

/// The length of the id prefix that goes into the commit message.
pub open spec fn id_cut(id: Seq<char>) -> int {
    if utf8(id).len() < 12 {
        utf8(id).len() as int
    } else {
        12
    }
}

/// `compactveteran: checkpoint <first 12 bytes of the id>`.
pub open spec fn checkpoint_message_spec(id: Seq<char>) -> Seq<u8> {
    utf8("compactveteran: checkpoint "@) + utf8(id).subrange(0, id_cut(id))
}

/// The id a checkpoint of the session `s` is named after.
pub fn checkpoint_id(s: &SessionState) -> (r: &str)
    ensures
        r@ == checkpoint_id_spec(s@),
{
    match &s.latest_turn_id {
        Some(t) => {
            if !t.as_str().is_empty() {
                return t.as_str();
            }
        },
        None => {},
    }
    s.session_id.as_str()
}

/// The commit message of a checkpoint named after `id`. The cut at 12 bytes must
/// not split a character.
pub fn checkpoint_message(id: &str) -> (r: Vec<u8>)
    requires
        is_boundary(utf8(id@), id_cut(id@)),
    ensures
        r@ == checkpoint_message_spec(id@),
{
    let b = str_bytes(id);
    let n = if b.len() < 12 {
        b.len()
    } else {
        12
    };
    let mut m = str_bytes("compactveteran: checkpoint ");
    let head = copy_range(b.as_slice(), 0, n);
    push_bytes(&mut m, head.as_slice());
    m
}

/// The phase and step that follow `ev` in `phase`.
pub open spec fn step_spec(phase: CheckpointPhase, message: Seq<u8>, ev: CheckpointEventView) -> (
    CheckpointPhase,
    GitStepView,
) {
    match (phase, ev) {
        (CheckpointPhase::Branch, CheckpointEventView::Output(o)) => {
            if o.len() == 0 {
                (CheckpointPhase::Failed, GitStepView::Fail(CheckpointError::DetachedHead))
            } else {
                (CheckpointPhase::Status, GitStepView::Run(status_args()))
            }
        },
        (CheckpointPhase::Status, CheckpointEventView::Output(o)) => {
            if !lines_pass(utf8(o), 0) {
                (CheckpointPhase::Failed, GitStepView::Fail(CheckpointError::CredentialFilename))
            } else if o.len() > 0 {
                (CheckpointPhase::Add, GitStepView::Run(add_args()))
            } else {
                (CheckpointPhase::Recheck, GitStepView::Run(status_args()))
            }
        },
        (CheckpointPhase::Add, CheckpointEventView::Output(_)) => {
            (CheckpointPhase::Diff, GitStepView::DiffCached)
        },
        (CheckpointPhase::Diff, CheckpointEventView::DiffExit(code)) => {
            if code == Some(1i32) {
                (CheckpointPhase::Commit, GitStepView::Run(commit_args(message)))
            } else if code != Some(0i32) {
                (CheckpointPhase::Failed, GitStepView::Fail(CheckpointError::DiffFailed))
            } else {
                (CheckpointPhase::Recheck, GitStepView::Run(status_args()))
            }
        },
        (CheckpointPhase::Commit, CheckpointEventView::Output(_)) => {
            (CheckpointPhase::Recheck, GitStepView::Run(status_args()))
        },
        (CheckpointPhase::Recheck, CheckpointEventView::Output(o)) => {
            if o.len() > 0 {
                (CheckpointPhase::Failed, GitStepView::Fail(CheckpointError::NotClean))
            } else {
                (CheckpointPhase::Done, GitStepView::Finish)
            }
        },
        _ => (CheckpointPhase::Failed, GitStepView::Fail(CheckpointError::OutOfOrder)),
    }
}

/// A checkpoint in progress.
pub struct CheckpointRun {
    /// What it waits for.
    pub phase: CheckpointPhase,
    /// The commit message it would use.
    pub message: Vec<u8>,
}

/// The bytes of a list of arguments.
pub open spec fn args_view(v: Seq<Vec<u8>>) -> Seq<Seq<u8>> {
    v.map_values(|a: Vec<u8>| a@)
}

fn push_arg(v: &mut Vec<Vec<u8>>, a: &str)
    ensures
        args_view(final(v)@) == args_view(old(v)@).push(utf8(a@)),
{
    v.push(str_bytes(a));
    assert(args_view(v@) =~= args_view(old(v)@).push(utf8(a@)));
}

fn status_step() -> (r: GitStep)
    ensures
        r@ == GitStepView::Run(status_args()),
{
    let mut a: Vec<Vec<u8>> = Vec::new();
    assert(args_view(a@) =~= Seq::<Seq<u8>>::empty());
    push_arg(&mut a, "status");
    push_arg(&mut a, "--porcelain");
    push_arg(&mut a, "--untracked-files=all");
    assert(args_view(a@) =~= status_args());
    GitStep::Run(a)
}

fn add_step() -> (r: GitStep)
    ensures
        r@ == GitStepView::Run(add_args()),
{
    let mut a: Vec<Vec<u8>> = Vec::new();
    assert(args_view(a@) =~= Seq::<Seq<u8>>::empty());
    push_arg(&mut a, "add");
    push_arg(&mut a, "-A");
    assert(args_view(a@) =~= add_args());
    GitStep::Run(a)
}

fn commit_step(message: &Vec<u8>) -> (r: GitStep)
    ensures
        r@ == GitStepView::Run(commit_args(message@)),
{
    let mut a: Vec<Vec<u8>> = Vec::new();
    assert(args_view(a@) =~= Seq::<Seq<u8>>::empty());
    push_arg(&mut a, "-c");
    push_arg(&mut a, "user.name=CompactVeteran");
    push_arg(&mut a, "-c");
    push_arg(&mut a, "user.email=compactveteran@localhost");
    push_arg(&mut a, "commit");
    push_arg(&mut a, "-m");
    let ghost a0 = args_view(a@);
    let m = copy_range(message.as_slice(), 0, message.len());
    assert(m@ =~= message@);
    a.push(m);
    assert(args_view(a@) =~= a0.push(message@));
    assert(args_view(a@) =~= commit_args(message@));
    GitStep::Run(a)
}

/// Starts a checkpoint that commits with `message`: it first asks for the
/// current branch.
pub fn start(message: Vec<u8>) -> (r: (CheckpointRun, GitStep))
    ensures
        r.0.phase == CheckpointPhase::Branch,
        r.0.message@ == message@,
        r.1@ == GitStepView::Run(branch_args()),
{
    let mut a: Vec<Vec<u8>> = Vec::new();
    assert(args_view(a@) =~= Seq::<Seq<u8>>::empty());
    push_arg(&mut a, "branch");
    push_arg(&mut a, "--show-current");
    assert(args_view(a@) =~= branch_args());
    (CheckpointRun { phase: CheckpointPhase::Branch, message }, GitStep::Run(a))
}

/// Takes the outcome `ev` of the last step and decides the next one.
pub fn run(state: CheckpointRun, ev: &CheckpointEvent) -> (r: (CheckpointRun, GitStep))
    ensures
        (r.0.phase, r.1@) == step_spec(state.phase, state.message@, ev@),
        r.0.message@ == state.message@,
{
    let message = state.message;
    match (state.phase, ev) {
        (CheckpointPhase::Branch, CheckpointEvent::Output(o)) => {
            if o.as_str().is_empty() {
                (
                    CheckpointRun { phase: CheckpointPhase::Failed, message },
                    GitStep::Fail(CheckpointError::DetachedHead),
                )
            } else {
                (CheckpointRun { phase: CheckpointPhase::Status, message }, status_step())
            }
        },
        (CheckpointPhase::Status, CheckpointEvent::Output(o)) => {
            if guard(o.as_str()).is_err() {
                (
                    CheckpointRun { phase: CheckpointPhase::Failed, message },
                    GitStep::Fail(CheckpointError::CredentialFilename),
                )
            } else if !o.as_str().is_empty() {
                (CheckpointRun { phase: CheckpointPhase::Add, message }, add_step())
            } else {
                (CheckpointRun { phase: CheckpointPhase::Recheck, message }, status_step())
            }
        },
        (CheckpointPhase::Add, CheckpointEvent::Output(_)) => {
            (CheckpointRun { phase: CheckpointPhase::Diff, message }, GitStep::DiffCached)
        },
        (CheckpointPhase::Diff, CheckpointEvent::DiffExit(code)) => {
            if *code == Some(1i32) {
                let step = commit_step(&message);
                (CheckpointRun { phase: CheckpointPhase::Commit, message }, step)
            } else if *code != Some(0i32) {
                (
                    CheckpointRun { phase: CheckpointPhase::Failed, message },
                    GitStep::Fail(CheckpointError::DiffFailed),
                )
            } else {
                (CheckpointRun { phase: CheckpointPhase::Recheck, message }, status_step())
            }
        },
        (CheckpointPhase::Commit, CheckpointEvent::Output(_)) => {
            (CheckpointRun { phase: CheckpointPhase::Recheck, message }, status_step())
        },
        (CheckpointPhase::Recheck, CheckpointEvent::Output(o)) => {
            if !o.as_str().is_empty() {
                (
                    CheckpointRun { phase: CheckpointPhase::Failed, message },
                    GitStep::Fail(CheckpointError::NotClean),
                )
            } else {
                (CheckpointRun { phase: CheckpointPhase::Done, message }, GitStep::Finish)
            }
        },
        _ => (
            CheckpointRun { phase: CheckpointPhase::Failed, message },
            GitStep::Fail(CheckpointError::OutOfOrder),
        ),
    }
}

/// The phase and the last step after the outcomes `evs`, from the start.
pub open spec fn replay(message: Seq<u8>, evs: Seq<CheckpointEventView>) -> (
    CheckpointPhase,
    GitStepView,
)
    decreases evs.len(),
{
    if evs.len() == 0 {
        (CheckpointPhase::Branch, GitStepView::Run(branch_args()))
    } else {
        step_spec(replay(message, evs.drop_last()).0, message, evs.last())
    }
}

/// A non-empty status listing that the credential guard lets through.
pub open spec fn passing_status(ev: CheckpointEventView) -> bool {
    ev matches CheckpointEventView::Output(o) && o.len() > 0 && lines_pass(utf8(o), 0)
}

/// The phases in which a commit is being prepared.
pub open spec fn committing(ph: CheckpointPhase) -> bool {
    ph == CheckpointPhase::Add || ph == CheckpointPhase::Diff || ph == CheckpointPhase::Commit
}

proof fn lemma_committing_after_guard(message: Seq<u8>, evs: Seq<CheckpointEventView>)
    ensures
        committing(replay(message, evs).0) ==> exists|j: int|
            0 <= j < evs.len() && #[trigger] passing_status(evs[j]),
    decreases evs.len(),
{
    if evs.len() > 0 {
        let prev = evs.drop_last();
        lemma_committing_after_guard(message, prev);
        if committing(replay(message, evs).0) {
            if committing(replay(message, prev).0) {
                let j = choose|j: int| 0 <= j < prev.len() && #[trigger] passing_status(prev[j]);
                assert(evs[j] == prev[j]);
                assert(passing_status(evs[j]));
            } else {
                assert(passing_status(evs[evs.len() - 1]));
            }
        }
    }
}

/// A commit is only ever asked for after a status listing with changes passed
/// the credential guard.
pub proof fn commit_only_after_guard(message: Seq<u8>, evs: Seq<CheckpointEventView>)
    requires
        replay(message, evs).1 == GitStepView::Run(commit_args(message)),
    ensures
        exists|j: int| 0 <= j < evs.len() && #[trigger] passing_status(evs[j]),
{
    if evs.len() == 0 {
        assert(branch_args().len() != commit_args(message).len());
    } else {
        let ph = replay(message, evs.drop_last()).0;
        assert(status_args().len() != commit_args(message).len());
        assert(add_args().len() != commit_args(message).len());
        assert(committing(replay(message, evs).0));
        lemma_committing_after_guard(message, evs);
    }
}

/// A checkpoint only finishes on a clean working tree: the outcome that finishes
/// it is an empty final status listing.
pub proof fn finish_only_when_clean(message: Seq<u8>, evs: Seq<CheckpointEventView>)
    requires
        replay(message, evs).1 == GitStepView::Finish,
    ensures
        evs.len() > 0,
        replay(message, evs.drop_last()).0 == CheckpointPhase::Recheck,
        evs.last() == CheckpointEventView::Output(Seq::<char>::empty()),
{
    if evs.len() > 0 {
        if let CheckpointEventView::Output(o) = evs.last() {
            assert(o =~= Seq::<char>::empty());
        }
    }
}

} // verus!
