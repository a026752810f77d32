//! The payload that the host hands to a hook, and the routing of a hook call.
use vstd::prelude::*;
use crate::text::str_eq;

verus! {

/// The view of an optional text field.
pub open spec fn opt_view(o: Option<String>) -> Option<Seq<char>> {
    match o {
        Some(s) => Some(s@),
        None => None,
    }
}

/// A field that is present and not empty.
pub open spec fn filled(o: Option<Seq<char>>) -> bool {
    o is Some && o->0.len() > 0
}

/// A copy of an optional text field.
pub fn clone_opt(o: &Option<String>) -> (r: Option<String>)
    ensures
        opt_view(r) == opt_view(*o),
{
    match o {
        Some(s) => Some(s.clone()),
        None => None,
    }
}

/// Whether an optional text field is present and not empty.
pub fn is_filled(o: &Option<String>) -> (r: bool)
    ensures
        r == filled(opt_view(*o)),
{
    match o {
        Some(s) => !s.as_str().is_empty(),
        None => false,
    }
}

/// Whether two optional text fields hold the same text (or are both absent).
pub fn opt_eq(a: &Option<String>, b: &Option<String>) -> (r: bool)
    ensures
        r == (opt_view(*a) == opt_view(*b)),
{
    match (a, b) {
        (Some(x), Some(y)) => str_eq(x.as_str(), y.as_str()),
        (None, None) => true,
        _ => false,
    }
}

/// The JSON object that the host writes to a hook's standard input.
pub struct HookInput {
    pub session_id: Option<String>,
    pub turn_id: Option<String>,
    pub agent_id: Option<String>,
    pub agent_type: Option<String>,
    pub transcript_path: Option<String>,
    pub cwd: Option<String>,
    pub model: Option<String>,
    pub prompt: Option<String>,
    pub trigger: Option<String>,
    pub last_assistant_message: Option<String>,
}

/// The text of the fields of a [`HookInput`].
pub struct HookInputView {
    pub session_id: Option<Seq<char>>,
    pub turn_id: Option<Seq<char>>,
    pub agent_id: Option<Seq<char>>,
    pub agent_type: Option<Seq<char>>,
    pub transcript_path: Option<Seq<char>>,
    pub cwd: Option<Seq<char>>,
    pub model: Option<Seq<char>>,
    pub prompt: Option<Seq<char>>,
    pub trigger: Option<Seq<char>>,
    pub last_assistant_message: Option<Seq<char>>,
}

impl View for HookInput {
    type V = HookInputView;

    open spec fn view(&self) -> HookInputView {
        HookInputView {
            session_id: opt_view(self.session_id),
            turn_id: opt_view(self.turn_id),
            agent_id: opt_view(self.agent_id),
            agent_type: opt_view(self.agent_type),
            transcript_path: opt_view(self.transcript_path),
            cwd: opt_view(self.cwd),
            model: opt_view(self.model),
            prompt: opt_view(self.prompt),
            trigger: opt_view(self.trigger),
            last_assistant_message: opt_view(self.last_assistant_message),
        }
    }
}

impl Default for HookInput {
    /// A payload with every field absent.
    fn default() -> (r: HookInput)
        ensures
            r@ == (HookInputView {
                session_id: None,
                turn_id: None,
                agent_id: None,
                agent_type: None,
                transcript_path: None,
                cwd: None,
                model: None,
                prompt: None,
                trigger: None,
                last_assistant_message: None,
            }),
    {
        HookInput::empty()
    }
}

/// The model whose root sessions the plugin looks after.
pub open spec fn sol_model() -> Seq<char> {
    "gpt-5.6-sol"@
}

/// A hook call made by a root Sol session (not by a sub-agent).
pub open spec fn sol_root(i: HookInputView) -> bool {
    &&& i.model == Some(sol_model())
    &&& i.agent_id is None
    &&& i.agent_type is None
}

impl HookInput {
    /// A payload with every field absent (what an unreadable payload becomes).
    pub fn empty() -> (r: HookInput)
        ensures
            r@.session_id is None,
            r@.turn_id is None,
            r@.agent_id is None,
            r@.agent_type is None,
            r@.transcript_path is None,
            r@.cwd is None,
            r@.model is None,
            r@.prompt is None,
            r@.trigger is None,
            r@.last_assistant_message is None,
    {
        HookInput {
            session_id: None,
            turn_id: None,
            agent_id: None,
            agent_type: None,
            transcript_path: None,
            cwd: None,
            model: None,
            prompt: None,
            trigger: None,
            last_assistant_message: None,
        }
    }

    /// Whether the hook was called by a root Sol session: the model is
    /// `gpt-5.6-sol` and neither an agent id nor an agent type is given.
    pub fn is_sol_root(&self) -> (r: bool)
        ensures
            r == sol_root(self@),
    {
        let model_is_sol = match &self.model {
            Some(m) => str_eq(m.as_str(), "gpt-5.6-sol"),
            None => false,
        };
        model_is_sol && self.agent_id.is_none() && self.agent_type.is_none()
    }
}

/// What a hook call does.
#[derive(Debug, Clone, Copy, PartialEq, Eq)]
pub enum HookRoute {
    /// Not a root Sol session: let the host go on and do nothing.
    PassThrough,
    /// A prompt or a session start: record the session state and go on.
    SaveState,
    /// Any other hook: take a checkpoint; on success, stop the host's own
    /// compaction when `stop_compaction` is set (the pre-compaction hook).
    Checkpoint { stop_compaction: bool },
}

/// The route of a hook call of kind `kind` (the first argument after `hook`).
pub open spec fn hook_route_spec(kind: Seq<char>, i: HookInputView) -> HookRoute {
    if !sol_root(i) {
        HookRoute::PassThrough
    } else if kind == "prompt"@ || kind == "session-start"@ {
        HookRoute::SaveState
    } else {
        HookRoute::Checkpoint { stop_compaction: kind == "precompact"@ }
    }
}

/// Decides what a hook call of kind `kind` with payload `i` does.
pub fn hook_route(kind: &str, i: &HookInput) -> (r: HookRoute)
    ensures
        r == hook_route_spec(kind@, i@),
{
    if !i.is_sol_root() {
        HookRoute::PassThrough
    } else if str_eq(kind, "prompt") || str_eq(kind, "session-start") {
        HookRoute::SaveState
    } else {
        HookRoute::Checkpoint { stop_compaction: str_eq(kind, "precompact") }
    }
}

/// Hooks of sub-agents and of other models are never acted on.
pub proof fn only_sol_roots_are_handled(kind: Seq<char>, i: HookInputView)
    requires
        !sol_root(i),
    ensures
        hook_route_spec(kind, i) == HookRoute::PassThrough,
{
}

/// The pre-compaction hook of a root Sol session checkpoints and stops the
/// host's own compaction; every other checkpointing hook lets the host go on.
pub proof fn only_precompact_stops_compaction(kind: Seq<char>, i: HookInputView)
    requires
        sol_root(i),
    ensures
        hook_route_spec(kind, i) == (HookRoute::Checkpoint { stop_compaction: true }) <==> kind
            == "precompact"@,
{
    reveal_strlit("precompact");
    reveal_strlit("prompt");
    reveal_strlit("session-start");
    if kind == "precompact"@ {
        assert(kind.len() != "prompt"@.len());
        assert(kind.len() != "session-start"@.len());
    }
}

/// The reply that lets the host go on.
pub fn continue_reply() -> (r: &'static str)
    ensures
        r@ == "{\"continue\":true}"@,
{
    "{\"continue\":true}"
}

/// The reply after a successful checkpoint: before a compaction it stops the
/// host's own compaction (the session is restarted at its map instead);
/// otherwise it lets the host go on.
pub fn checkpoint_reply(stop_compaction: bool) -> (r: &'static str)
    ensures
        stop_compaction ==> r@
            == "{\"continue\":false,\"stopReason\":\"Context compaction dodged.\",\"systemMessage\":\"Context compaction dodged.\"}"@,
        !stop_compaction ==> r@ == "{\"continue\":true}"@,
{
    if stop_compaction {
        "{\"continue\":false,\"stopReason\":\"Context compaction dodged.\",\"systemMessage\":\"Context compaction dodged.\"}"
    } else {
        continue_reply()
    }
}

} // verus!
