//! Session and project state: where it is kept, how a hook payload is merged
//! into a session, and how a session is recorded in its project.
use vstd::prelude::*;
use crate::hook_input::{clone_opt, filled, is_filled, opt_eq, opt_view, HookInput, HookInputView};
use crate::text::{copy_range, join, join_path, push_str, str_bytes, str_eq, utf8};

verus! {

/// What the plugin remembers of one session.
pub struct SessionState {
    pub session_id: String,
    pub latest_turn_id: Option<String>,
    pub latest_prompt: Option<String>,
    pub transcript_path: Option<String>,
    pub cwd: Option<String>,
    pub model: Option<String>,
    pub last_assistant_message: Option<String>,
    pub prompt_turn_id: Option<String>,
    pub completed_turn_id: Option<String>,
}

/// A session listed in a project's lineage.
pub struct SessionRef {
    pub session_id: String,
    pub transcript_path: Option<String>,
}

/// What the plugin remembers of one project (one Git root).
pub struct ProjectState {
    pub canonical_root: String,
    pub sessions: Vec<SessionRef>,
    pub objective: Option<String>,
    pub last_assistant_result: Option<String>,
    pub prompt_pending: bool,
}

/// The text of a [`SessionState`].
pub struct SessionStateView {
    pub session_id: Seq<char>,
    pub latest_turn_id: Option<Seq<char>>,
    pub latest_prompt: Option<Seq<char>>,
    pub transcript_path: Option<Seq<char>>,
    pub cwd: Option<Seq<char>>,
    pub model: Option<Seq<char>>,
    pub last_assistant_message: Option<Seq<char>>,
    pub prompt_turn_id: Option<Seq<char>>,
    pub completed_turn_id: Option<Seq<char>>,
}

/// The text of a [`SessionRef`].
pub struct SessionRefView {
    pub session_id: Seq<char>,
    pub transcript_path: Option<Seq<char>>,
}

/// The text of a [`ProjectState`].
pub struct ProjectStateView {
    pub canonical_root: Seq<char>,
    pub sessions: Seq<SessionRefView>,
    pub objective: Option<Seq<char>>,
    pub last_assistant_result: Option<Seq<char>>,
    pub prompt_pending: bool,
}

impl View for SessionState {
    type V = SessionStateView;

    open spec fn view(&self) -> SessionStateView {
        SessionStateView {
            session_id: self.session_id@,
            latest_turn_id: opt_view(self.latest_turn_id),
            latest_prompt: opt_view(self.latest_prompt),
            transcript_path: opt_view(self.transcript_path),
            cwd: opt_view(self.cwd),
            model: opt_view(self.model),
            last_assistant_message: opt_view(self.last_assistant_message),
            prompt_turn_id: opt_view(self.prompt_turn_id),
            completed_turn_id: opt_view(self.completed_turn_id),
        }
    }
}

impl View for SessionRef {
    type V = SessionRefView;

    open spec fn view(&self) -> SessionRefView {
        SessionRefView { session_id: self.session_id@, transcript_path: opt_view(self.transcript_path) }
    }
}

impl View for ProjectState {
    type V = ProjectStateView;

    open spec fn view(&self) -> ProjectStateView {
        ProjectStateView {
            canonical_root: self.canonical_root@,
            sessions: self.sessions@.map_values(|r: SessionRef| r@),
            objective: opt_view(self.objective),
            last_assistant_result: opt_view(self.last_assistant_result),
            prompt_pending: self.prompt_pending,
        }
    }
}

/// Why state could not be loaded or merged.
#[derive(Debug, Clone, Copy, PartialEq, Eq)]
pub enum StateError {
    /// The hook payload carries no (or an empty) session id.
    MissingSessionId,
}

impl StateError {
    /// The message reported for the error.
    pub fn message(&self) -> (r: &'static str)
        ensures
            r@ == "missing session_id"@,
    {
        "missing session_id"
    }
}

/// A session with only its id known.
pub open spec fn fresh_session(id: Seq<char>) -> SessionStateView {
    SessionStateView {
        session_id: id,
        latest_turn_id: None,
        latest_prompt: None,
        transcript_path: None,
        cwd: None,
        model: None,
        last_assistant_message: None,
        prompt_turn_id: None,
        completed_turn_id: None,
    }
}

/// `new` when it is filled, else `old`.
pub open spec fn or_keep(new: Option<Seq<char>>, old: Option<Seq<char>>) -> Option<Seq<char>> {
    if filled(new) {
        new
    } else {
        old
    }
}

/// The session `s` after the payload `i` has been merged into it: every filled
/// field of the payload replaces the session's; a filled prompt also records the
/// turn it was given in, and a filled assistant message the turn it completed.
pub open spec fn apply_hook(s: SessionStateView, i: HookInputView) -> SessionStateView {
    SessionStateView {
        session_id: s.session_id,
        latest_turn_id: or_keep(i.turn_id, s.latest_turn_id),
        latest_prompt: or_keep(i.prompt, s.latest_prompt),
        prompt_turn_id: if filled(i.prompt) {
            i.turn_id
        } else {
            s.prompt_turn_id
        },
        last_assistant_message: or_keep(i.last_assistant_message, s.last_assistant_message),
        completed_turn_id: if filled(i.last_assistant_message) {
            i.turn_id
        } else {
            s.completed_turn_id
        },
        transcript_path: or_keep(i.transcript_path, s.transcript_path),
        cwd: or_keep(i.cwd, s.cwd),
        model: or_keep(i.model, s.model),
    }
}

/// The result of merging the payload `i` into the stored session `stored`.
pub open spec fn merge_spec(i: HookInputView, stored: Option<SessionStateView>) -> Result<
    SessionStateView,
    StateError,
> {
    if !filled(i.session_id) {
        Err(StateError::MissingSessionId)
    } else {
        let base = match stored {
            Some(s) => s,
            None => fresh_session(i.session_id->0),
        };
        Ok(apply_hook(base, i))
    }
}

/// The view of an optional session.
pub open spec fn opt_session_view(o: Option<SessionState>) -> Option<SessionStateView> {
    match o {
        Some(s) => Some(s@),
        None => None,
    }
}

/// The view of a merge result.
pub open spec fn session_result_view(r: Result<SessionState, StateError>) -> Result<
    SessionStateView,
    StateError,
> {
    match r {
        Ok(s) => Ok(s@),
        Err(e) => Err(e),
    }
}

/// The session id of a hook payload, which must be present and not empty.
pub fn hook_session_id(i: &HookInput) -> (r: Result<String, StateError>)
    ensures
        r is Ok <==> filled(i@.session_id),
        r matches Ok(id) ==> Some(id@) == i@.session_id,
        r matches Err(e) ==> e == StateError::MissingSessionId,
{
    match &i.session_id {
        Some(s) => {
            if s.as_str().is_empty() {
                Err(StateError::MissingSessionId)
            } else {
                Ok(s.clone())
            }
        },
        None => Err(StateError::MissingSessionId),
    }
}

/// Merges the hook payload `i` into the session `stored` that was loaded for its
/// session id (`None` when there was none yet).
pub fn merge_hook(i: &HookInput, stored: Option<SessionState>) -> (r: Result<
    SessionState,
    StateError,
>)
    ensures
        session_result_view(r) == merge_spec(i@, opt_session_view(stored)),
{
    let id = match hook_session_id(i) {
        Ok(id) => id,
        Err(e) => return Err(e),
    };
    let mut s = match stored {
        Some(s) => s,
        None => SessionState {
            session_id: id,
            latest_turn_id: None,
            latest_prompt: None,
            transcript_path: None,
            cwd: None,
            model: None,
            last_assistant_message: None,
            prompt_turn_id: None,
            completed_turn_id: None,
        },
    };
    if is_filled(&i.turn_id) {
        s.latest_turn_id = clone_opt(&i.turn_id);
    }
    if is_filled(&i.prompt) {
        s.latest_prompt = clone_opt(&i.prompt);
        s.prompt_turn_id = clone_opt(&i.turn_id);
    }
    if is_filled(&i.last_assistant_message) {
        s.last_assistant_message = clone_opt(&i.last_assistant_message);
        s.completed_turn_id = clone_opt(&i.turn_id);
    }
    if is_filled(&i.transcript_path) {
        s.transcript_path = clone_opt(&i.transcript_path);
    }
    if is_filled(&i.cwd) {
        s.cwd = clone_opt(&i.cwd);
    }
    if is_filled(&i.model) {
        s.model = clone_opt(&i.model);
    }
    Ok(s)
}

/// The index of the first session of `sessions` with id `id`, or -1.
pub open spec fn find_session(sessions: Seq<SessionRefView>, id: Seq<char>) -> int
    decreases sessions.len(),
{
    if sessions.len() == 0 {
        -1
    } else if find_session(sessions.drop_last(), id) >= 0 {
        find_session(sessions.drop_last(), id)
    } else if sessions.last().session_id == id {
        sessions.len() - 1
    } else {
        -1
    }
}

pub proof fn lemma_find_session(sessions: Seq<SessionRefView>, id: Seq<char>)
    ensures
        -1 <= find_session(sessions, id) < sessions.len(),
        find_session(sessions, id) >= 0 ==> sessions[find_session(sessions, id)].session_id == id,
        forall|j: int|
            0 <= j < sessions.len() && (find_session(sessions, id) < 0 || j < find_session(
                sessions,
                id,
            )) ==> sessions[j].session_id != id,
    decreases sessions.len(),
{
    if sessions.len() > 0 {
        let init = sessions.drop_last();
        lemma_find_session(init, id);
        assert forall|j: int| 0 <= j < init.len() implies init[j] == sessions[j] by {}
    }
}

/// The lineage of a project after the session `s` was recorded: the first entry
/// with its id gets its transcript path, or a new entry is added at the end.
pub open spec fn lineage_after(sessions: Seq<SessionRefView>, s: SessionStateView) -> Seq<
    SessionRefView,
> {
    let k = find_session(sessions, s.session_id);
    if k >= 0 {
        sessions.update(
            k,
            SessionRefView { session_id: sessions[k].session_id, transcript_path: s.transcript_path },
        )
    } else {
        sessions.push(SessionRefView { session_id: s.session_id, transcript_path: s.transcript_path })
    }
}

/// Whether a recorded prompt is still waiting for its answer, judged from the
/// session alone: it was given in a known turn, and that turn has not completed.
pub open spec fn prompt_open(s: SessionStateView) -> bool {
    s.prompt_turn_id is Some && s.prompt_turn_id != s.completed_turn_id
}

/// The project `p` after recording the session `s` under the root `root`.
pub open spec fn record_spec(p: ProjectStateView, root: Seq<char>, s: SessionStateView) -> ProjectStateView {
    let objective = if filled(s.latest_prompt) {
        s.latest_prompt
    } else {
        p.objective
    };
    let pending1 = if filled(s.latest_prompt) {
        prompt_open(s)
    } else {
        p.prompt_pending
    };
    let result = if filled(s.last_assistant_message) {
        s.last_assistant_message
    } else {
        p.last_assistant_result
    };
    let pending = if filled(s.last_assistant_message) && (s.latest_prompt is None
        || s.completed_turn_id == s.prompt_turn_id) {
        false
    } else {
        pending1
    };
    ProjectStateView {
        canonical_root: root,
        sessions: lineage_after(p.sessions, s),
        objective,
        last_assistant_result: result,
        prompt_pending: pending,
    }
}

/// A project with nothing recorded yet.
pub open spec fn empty_project() -> ProjectStateView {
    ProjectStateView {
        canonical_root: Seq::empty(),
        sessions: Seq::empty(),
        objective: None,
        last_assistant_result: None,
        prompt_pending: false,
    }
}

/// The view of an optional project (`None` reads as an empty project).
pub open spec fn project_or_empty(o: Option<ProjectState>) -> ProjectStateView {
    match o {
        Some(p) => p@,
        None => empty_project(),
    }
}

/// An empty project.
pub fn empty_project_state() -> (r: ProjectState)
    ensures
        r@ == empty_project(),
{
    let r = ProjectState {
        canonical_root: String::new(),
        sessions: Vec::new(),
        objective: None,
        last_assistant_result: None,
        prompt_pending: false,
    };
    assert(r@.sessions =~= Seq::<SessionRefView>::empty());
    r
}

impl Default for ProjectState {
    /// A project with nothing recorded yet.
    fn default() -> (r: ProjectState)
        ensures
            r@ == empty_project(),
    {
        empty_project_state()
    }
}

impl Default for SessionState {
    /// A session with an empty id and nothing recorded.
    fn default() -> (r: SessionState)
        ensures
            r@ == fresh_session(Seq::empty()),
    {
        SessionState {
            session_id: String::new(),
            latest_turn_id: None,
            latest_prompt: None,
            transcript_path: None,
            cwd: None,
            model: None,
            last_assistant_message: None,
            prompt_turn_id: None,
            completed_turn_id: None,
        }
    }
}

fn find_session_index(sessions: &Vec<SessionRef>, id: &String) -> (r: Option<usize>)
    ensures
        match r {
            Some(k) => k < sessions@.len() && k as int == find_session(
                sessions@.map_values(|x: SessionRef| x@),
                id@,
            ),
            None => find_session(sessions@.map_values(|x: SessionRef| x@), id@) < 0,
        },
{
    let ghost views = sessions@.map_values(|x: SessionRef| x@);
    proof {
        lemma_find_session(views, id@);
    }
    let mut k: usize = 0;
    while k < sessions.len()
        invariant
            k <= sessions@.len(),
            views == sessions@.map_values(|x: SessionRef| x@),
            -1 <= find_session(views, id@) < views.len(),
            find_session(views, id@) >= 0 ==> views[find_session(views, id@)].session_id == id@,
            forall|j: int|
                0 <= j < views.len() && (find_session(views, id@) < 0 || j < find_session(
                    views,
                    id@,
                )) ==> views[j].session_id != id@,
            forall|j: int| 0 <= j < k ==> views[j].session_id != id@,
        decreases sessions@.len() - k,
    {
        if str_eq(sessions[k].session_id.as_str(), id.as_str()) {
            assert(views[k as int].session_id == id@);
            return Some(k);
        }
        k = k + 1;
    }
    None
}

/// Records the session `s` in the project `loaded` (an empty project when there
/// was none yet) whose canonical root is `root`.
pub fn record_project_session(loaded: Option<ProjectState>, root: &str, s: &SessionState) -> (r:
    ProjectState)
    ensures
        r@ == record_spec(project_or_empty(loaded), root@, s@),
{
    let mut x = match loaded {
        Some(p) => p,
        None => empty_project_state(),
    };
    let ghost x0 = x@;
    let found = find_session_index(&x.sessions, &s.session_id);
    match found {
        Some(k) => {
            let id = x.sessions[k].session_id.clone();
            x.sessions.set(k, SessionRef { session_id: id, transcript_path: clone_opt(&s.transcript_path) });
        },
        None => {
            x.sessions.push(
                SessionRef {
                    session_id: s.session_id.clone(),
                    transcript_path: clone_opt(&s.transcript_path),
                },
            );
        },
    }
    assert(x@.sessions =~= lineage_after(x0.sessions, s@));
    x.canonical_root = root.to_owned();
    if is_filled(&s.latest_prompt) {
        x.objective = clone_opt(&s.latest_prompt);
        x.prompt_pending = s.prompt_turn_id.is_some() && !opt_eq(
            &s.prompt_turn_id,
            &s.completed_turn_id,
        );
    }
    if is_filled(&s.last_assistant_message) {
        x.last_assistant_result = clone_opt(&s.last_assistant_message);
        if s.latest_prompt.is_none() {
            x.prompt_pending = false;
        } else if opt_eq(&s.completed_turn_id, &s.prompt_turn_id) {
            x.prompt_pending = false;
        }
    }
    x
}


/// The ids in a lineage are pairwise distinct.
pub open spec fn distinct_sessions(sessions: Seq<SessionRefView>) -> bool {
    forall|a: int, b: int|
        0 <= a < b < sessions.len() ==> sessions[a].session_id != sessions[b].session_id
}

/// A payload delivered twice is merged as if it came once.
pub proof fn merge_is_idempotent(i: HookInputView, stored: Option<SessionStateView>)
    requires
        merge_spec(i, stored) is Ok,
    ensures
        merge_spec(i, Some(merge_spec(i, stored)->Ok_0)) == merge_spec(i, stored),
{
    let s1 = merge_spec(i, stored)->Ok_0;
    assert(apply_hook(s1, i) == s1);
}

/// Merging never forgets: the session id stays, and every field that held text
/// before still holds text afterwards.
pub proof fn merge_keeps_recorded_fields(i: HookInputView, stored: SessionStateView)
    requires
        filled(i.session_id),
    ensures
        ({
            let r = merge_spec(i, Some(stored))->Ok_0;
            &&& r.session_id == stored.session_id
            &&& filled(stored.latest_turn_id) ==> filled(r.latest_turn_id)
            &&& filled(stored.latest_prompt) ==> filled(r.latest_prompt)
            &&& filled(stored.last_assistant_message) ==> filled(r.last_assistant_message)
            &&& filled(stored.transcript_path) ==> filled(r.transcript_path)
            &&& filled(stored.cwd) ==> filled(r.cwd)
            &&& filled(stored.model) ==> filled(r.model)
        }),
{
}

/// While a prompt is recorded, the project's pending flag says exactly whether
/// the prompt's turn has not completed yet.
pub proof fn pending_follows_prompt_turn(p: ProjectStateView, root: Seq<char>, s: SessionStateView)
    requires
        filled(s.latest_prompt),
    ensures
        record_spec(p, root, s).prompt_pending == prompt_open(s),
{
}

/// A prompt is answered once: when the assistant's final message arrives in the
/// turn in which the prompt was given, the project no longer shows the prompt
/// as pending, whatever it showed before.
pub proof fn answered_prompt_is_not_pending(
    i: HookInputView,
    stored: SessionStateView,
    p: ProjectStateView,
    root: Seq<char>,
)
    requires
        filled(i.session_id),
        filled(i.last_assistant_message),
        !filled(i.prompt),
        stored.prompt_turn_id == i.turn_id,
    ensures
        !record_spec(p, root, merge_spec(i, Some(stored))->Ok_0).prompt_pending,
{
}

/// Merging records what the payload brings: each filled field of the payload
/// replaces the session's, a filled prompt is recorded with the turn it was
/// given in, a filled assistant message with the turn it completed, and a field
/// that the payload leaves empty keeps what the session held.
pub proof fn merge_records_payload(i: HookInputView, stored: Option<SessionStateView>)
    requires
        filled(i.session_id),
    ensures
        ({
            let r = merge_spec(i, stored)->Ok_0;
            let base = match stored {
                Some(s) => s,
                None => fresh_session(i.session_id->0),
            };
            &&& merge_spec(i, stored) is Ok
            &&& r.session_id == base.session_id
            &&& filled(i.prompt) ==> r.latest_prompt == i.prompt && r.prompt_turn_id == i.turn_id
            &&& !filled(i.prompt) ==> r.latest_prompt == base.latest_prompt && r.prompt_turn_id
                == base.prompt_turn_id
            &&& filled(i.last_assistant_message) ==> r.last_assistant_message
                == i.last_assistant_message && r.completed_turn_id == i.turn_id
            &&& !filled(i.last_assistant_message) ==> r.last_assistant_message
                == base.last_assistant_message && r.completed_turn_id == base.completed_turn_id
            &&& filled(i.turn_id) ==> r.latest_turn_id == i.turn_id
            &&& !filled(i.turn_id) ==> r.latest_turn_id == base.latest_turn_id
            &&& filled(i.transcript_path) ==> r.transcript_path == i.transcript_path
            &&& !filled(i.transcript_path) ==> r.transcript_path == base.transcript_path
            &&& filled(i.cwd) ==> r.cwd == i.cwd
            &&& !filled(i.cwd) ==> r.cwd == base.cwd
            &&& filled(i.model) ==> r.model == i.model
            &&& !filled(i.model) ==> r.model == base.model
        }),
{
}

/// A payload is merged exactly when it names its session: with no session id
/// (or an empty one) the merge is refused.
pub proof fn merge_needs_session_id(i: HookInputView, stored: Option<SessionStateView>)
    ensures
        merge_spec(i, stored) is Ok <==> filled(i.session_id),
        !filled(i.session_id) ==> merge_spec(i, stored) == Err::<SessionStateView, StateError>(
            StateError::MissingSessionId,
        ),
{
}

/// Recording a session keeps every other session of the lineage where it was:
/// the lineage only grows, each entry keeps its id, and an entry of another
/// session is left as it was.
pub proof fn record_keeps_other_sessions(p: ProjectStateView, root: Seq<char>, s: SessionStateView)
    ensures
        ({
            let l = record_spec(p, root, s).sessions;
            &&& p.sessions.len() <= l.len()
            &&& forall|j: int|
                0 <= j < p.sessions.len() ==> (#[trigger] l[j]).session_id
                    == p.sessions[j].session_id
            &&& forall|j: int|
                0 <= j < p.sessions.len() && p.sessions[j].session_id != s.session_id ==> #[trigger] l[j]
                    == p.sessions[j]
        }),
{
    lemma_find_session(p.sessions, s.session_id);
}

/// Recording a session keeps the project up to date with it: the latest
/// non-empty prompt becomes the objective (an empty one leaves the objective as
/// it was), the latest non-empty assistant message becomes the last result, and
/// the root is the one given.
pub proof fn record_follows_session(p: ProjectStateView, root: Seq<char>, s: SessionStateView)
    ensures
        filled(s.latest_prompt) ==> record_spec(p, root, s).objective == s.latest_prompt,
        !filled(s.latest_prompt) ==> record_spec(p, root, s).objective == p.objective,
        filled(s.last_assistant_message) ==> record_spec(p, root, s).last_assistant_result
            == s.last_assistant_message,
        !filled(s.last_assistant_message) ==> record_spec(p, root, s).last_assistant_result
            == p.last_assistant_result,
        record_spec(p, root, s).canonical_root == root,
{
}

/// A new prompt is pending until it is answered: once a prompt given in a known
/// turn, other than the last completed one, is merged and the session recorded,
/// the project's objective is that prompt and it shows as pending, whatever the
/// project showed before.
pub proof fn new_prompt_is_pending(
    i: HookInputView,
    stored: Option<SessionStateView>,
    p: ProjectStateView,
    root: Seq<char>,
)
    requires
        filled(i.session_id),
        filled(i.prompt),
        !filled(i.last_assistant_message),
        i.turn_id is Some,
        i.turn_id != (match stored {
            Some(s) => s.completed_turn_id,
            None => None,
        }),
    ensures
        record_spec(p, root, merge_spec(i, stored)->Ok_0).objective == i.prompt,
        record_spec(p, root, merge_spec(i, stored)->Ok_0).prompt_pending,
{
}

/// Recording the same session twice leaves the project as recording it once.
pub proof fn record_is_idempotent(p: ProjectStateView, root: Seq<char>, s: SessionStateView)
    ensures
        record_spec(record_spec(p, root, s), root, s) == record_spec(p, root, s),
{
    let l1 = lineage_after(p.sessions, s);
    lemma_find_session(p.sessions, s.session_id);
    lemma_find_session(l1, s.session_id);
    let k = find_session(p.sessions, s.session_id);
    if k >= 0 {
        assert(l1[k].session_id == s.session_id);
        assert(find_session(l1, s.session_id) == k);
    } else {
        assert(l1[p.sessions.len() as int].session_id == s.session_id);
        assert(find_session(l1, s.session_id) == p.sessions.len());
    }
    assert(lineage_after(l1, s) =~= l1);
}

/// After recording, the session is listed in the lineage with its transcript.
pub proof fn recorded_session_is_listed(p: ProjectStateView, root: Seq<char>, s: SessionStateView)
    ensures
        ({
            let l = record_spec(p, root, s).sessions;
            let k = find_session(l, s.session_id);
            &&& 0 <= k < l.len()
            &&& l[k].transcript_path == s.transcript_path
        }),
{
    record_is_idempotent(p, root, s);
    let l1 = lineage_after(p.sessions, s);
    lemma_find_session(p.sessions, s.session_id);
    lemma_find_session(l1, s.session_id);
    let k = find_session(p.sessions, s.session_id);
    if k >= 0 {
        assert(l1[k].session_id == s.session_id);
    } else {
        assert(l1[p.sessions.len() as int].session_id == s.session_id);
    }
}

/// Recording keeps the ids of a lineage distinct, and only ever adds the one id.
pub proof fn record_keeps_lineage_distinct(p: ProjectStateView, root: Seq<char>, s: SessionStateView)
    requires
        distinct_sessions(p.sessions),
    ensures
        distinct_sessions(record_spec(p, root, s).sessions),
        record_spec(p, root, s).sessions.len() <= p.sessions.len() + 1,
{
    lemma_find_session(p.sessions, s.session_id);
}

/// The state directory: `$XDG_STATE_HOME/compactveteran`, else
/// `$HOME/.local/state/compactveteran`; none when neither variable is set.
pub open spec fn dir_spec(xdg_state_home: Option<Seq<u8>>, home: Option<Seq<u8>>) -> Option<Seq<u8>> {
    match xdg_state_home {
        Some(x) => Some(join_path(x, utf8("compactveteran"@))),
        None => match home {
            Some(h) => Some(
                join_path(join_path(h, utf8(".local/state"@)), utf8("compactveteran"@)),
            ),
            None => None,
        },
    }
}

/// The view of an optional byte string.
pub open spec fn opt_bytes(o: Option<Vec<u8>>) -> Option<Seq<u8>> {
    match o {
        Some(v) => Some(v@),
        None => None,
    }
}

/// The state directory from the values of `XDG_STATE_HOME` and `HOME`.
pub fn dir(xdg_state_home: Option<Vec<u8>>, home: Option<Vec<u8>>) -> (r: Option<Vec<u8>>)
    ensures
        opt_bytes(r) == dir_spec(opt_bytes(xdg_state_home), opt_bytes(home)),
{
    let name = str_bytes("compactveteran");
    match xdg_state_home {
        Some(x) => Some(join(x.as_slice(), name.as_slice())),
        None => match home {
            Some(h) => {
                let state = join(h.as_slice(), str_bytes(".local/state").as_slice());
                Some(join(state.as_slice(), name.as_slice()))
            },
            None => None,
        },
    }
}

/// The file that holds a session: `<dir>/sessions/<id>.json`.
pub open spec fn session_file(dir: Seq<u8>, id: Seq<char>) -> Seq<u8> {
    join_path(join_path(dir, utf8("sessions"@)), utf8(id) + utf8(".json"@))
}

/// The file to load the session `id` from, under the state directory `dir`;
/// an empty id is refused.
pub fn load_session(dir: &[u8], id: &str) -> (r: Result<Vec<u8>, StateError>)
    ensures
        id@.len() == 0 ==> r == Err::<Vec<u8>, StateError>(StateError::MissingSessionId),
        id@.len() > 0 ==> (r matches Ok(p) && p@ == session_file(dir@, id@)),
{
    if id.is_empty() {
        return Err(StateError::MissingSessionId);
    }
    let sessions = join(dir, str_bytes("sessions").as_slice());
    let mut name = str_bytes(id);
    push_str(&mut name, ".json");
    Ok(join(sessions.as_slice(), name.as_slice()))
}

/// The file that holds a project: `<dir>/projects/<root hash>.json`.
pub open spec fn project_file(dir: Seq<u8>, root_hash: Seq<u8>) -> Seq<u8> {
    join_path(join_path(dir, utf8("projects"@)), root_hash + utf8(".json"@))
}

/// The file to load the project with root hash `root_hash` from.
pub fn load_project(dir: &[u8], root_hash: &[u8]) -> (r: Vec<u8>)
    ensures
        r@ == project_file(dir@, root_hash@),
{
    let projects = join(dir, str_bytes("projects").as_slice());
    let mut name = copy_range(root_hash, 0, root_hash.len());
    push_str(&mut name, ".json");
    join(projects.as_slice(), name.as_slice())
}

} // verus!
