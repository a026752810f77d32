use compactveteran::hook_input::HookInput;
use compactveteran::state::{
    dir, load_project, load_session, merge_hook, record_project_session, ProjectState,
    SessionRef, SessionState, StateError,
};

fn s(x: &str) -> Option<String> {
    Some(x.to_string())
}

fn input() -> HookInput {
    HookInput::empty()
}

fn session(id: &str) -> SessionState {
    SessionState {
        session_id: id.to_string(),
        latest_turn_id: None,
        latest_prompt: None,
        transcript_path: None,
        cwd: None,
        model: None,
        last_assistant_message: None,
        prompt_turn_id: None,
        completed_turn_id: None,
    }
}

#[test]
fn merge_requires_session_id() {
    let i = input();
    assert!(matches!(merge_hook(&i, None), Err(StateError::MissingSessionId)));
    let mut i = input();
    i.session_id = s("");
    assert!(matches!(merge_hook(&i, None), Err(StateError::MissingSessionId)));
    assert_eq!(StateError::MissingSessionId.message(), "missing session_id");
}

#[test]
fn merge_prompt_records_turn() {
    let mut i = input();
    i.session_id = s("sess-1");
    i.turn_id = s("t1");
    i.prompt = s("fix the build");
    i.cwd = s("/repo");
    i.model = s("gpt-5.6-sol");
    let m = merge_hook(&i, None).unwrap();
    assert_eq!(m.session_id, "sess-1");
    assert_eq!(m.latest_turn_id, s("t1"));
    assert_eq!(m.latest_prompt, s("fix the build"));
    assert_eq!(m.prompt_turn_id, s("t1"));
    assert_eq!(m.completed_turn_id, None);
    assert_eq!(m.cwd, s("/repo"));
    assert_eq!(m.model, s("gpt-5.6-sol"));
}

#[test]
fn merge_keeps_fields_that_the_payload_leaves_empty() {
    let mut stored = session("sess-1");
    stored.latest_prompt = s("old prompt");
    stored.cwd = s("/repo");
    let mut i = input();
    i.session_id = s("sess-1");
    i.prompt = s("");
    i.cwd = None;
    i.last_assistant_message = s("done");
    i.turn_id = s("t2");
    let m = merge_hook(&i, Some(stored)).unwrap();
    assert_eq!(m.latest_prompt, s("old prompt"));
    assert_eq!(m.cwd, s("/repo"));
    assert_eq!(m.last_assistant_message, s("done"));
    assert_eq!(m.completed_turn_id, s("t2"));
}

#[test]
fn merge_twice_is_merge_once() {
    let mut i = input();
    i.session_id = s("a");
    i.turn_id = s("t");
    i.prompt = s("p");
    let once = merge_hook(&i, None).unwrap();
    let once_copy = merge_hook(&i, None).unwrap();
    let twice = merge_hook(&i, Some(once)).unwrap();
    assert_eq!(twice.latest_prompt, once_copy.latest_prompt);
    assert_eq!(twice.prompt_turn_id, once_copy.prompt_turn_id);
    assert_eq!(twice.latest_turn_id, once_copy.latest_turn_id);
}

#[test]
fn record_adds_then_updates_lineage() {
    let mut st = session("s1");
    st.transcript_path = s("/t/1.jsonl");
    let p = record_project_session(None, "/repo", &st);
    assert_eq!(p.canonical_root, "/repo");
    assert_eq!(p.sessions.len(), 1);
    st.transcript_path = s("/t/1b.jsonl");
    let p = record_project_session(Some(p), "/repo", &st);
    assert_eq!(p.sessions.len(), 1);
    assert_eq!(p.sessions[0].transcript_path, s("/t/1b.jsonl"));
    let other = session("s2");
    let p = record_project_session(Some(p), "/repo", &other);
    assert_eq!(p.sessions.len(), 2);
    assert_eq!(p.sessions[1].session_id, "s2");
    assert_eq!(p.sessions[1].transcript_path, None);
}

#[test]
fn prompt_is_pending_until_its_turn_completes() {
    let mut st = session("s1");
    st.latest_prompt = s("ship it");
    st.prompt_turn_id = s("t1");
    let p = record_project_session(None, "/r", &st);
    assert!(p.prompt_pending);
    assert_eq!(p.objective, s("ship it"));
    // The stop hook of the same turn answers the prompt.
    st.last_assistant_message = s("shipped");
    st.completed_turn_id = s("t1");
    let p = record_project_session(Some(p), "/r", &st);
    assert!(!p.prompt_pending);
    assert_eq!(p.last_assistant_result, s("shipped"));
}

#[test]
fn answered_prompt_through_hooks_is_not_pending() {
    let mut prompt = input();
    prompt.session_id = s("s");
    prompt.turn_id = s("t9");
    prompt.prompt = s("do x");
    let st = merge_hook(&prompt, None).unwrap();
    let p = record_project_session(None, "/r", &st);
    assert!(p.prompt_pending);
    let mut stop = input();
    stop.session_id = s("s");
    stop.turn_id = s("t9");
    stop.last_assistant_message = s("did x");
    let st = merge_hook(&stop, Some(st)).unwrap();
    let p = record_project_session(Some(p), "/r", &st);
    assert!(!p.prompt_pending);
}

#[test]
fn assistant_message_without_prompt_clears_pending() {
    let loaded = ProjectState {
        canonical_root: "/old".to_string(),
        sessions: vec![SessionRef { session_id: "x".to_string(), transcript_path: None }],
        objective: s("earlier"),
        last_assistant_result: None,
        prompt_pending: true,
    };
    let mut st = session("y");
    st.last_assistant_message = s("reply");
    let p = record_project_session(Some(loaded), "/new", &st);
    assert!(!p.prompt_pending);
    assert_eq!(p.objective, s("earlier"));
    assert_eq!(p.canonical_root, "/new");
}

#[test]
fn record_twice_is_record_once() {
    let mut st = session("s1");
    st.latest_prompt = s("p");
    st.prompt_turn_id = s("t");
    let a = record_project_session(None, "/r", &st);
    let b = record_project_session(Some(record_project_session(None, "/r", &st)), "/r", &st);
    assert_eq!(a.sessions.len(), b.sessions.len());
    assert_eq!(a.prompt_pending, b.prompt_pending);
    assert_eq!(a.objective, b.objective);
}

#[test]
fn state_dir_prefers_xdg() {
    assert_eq!(dir(Some(b"/x".to_vec()), Some(b"/h".to_vec())), Some(b"/x/compactveteran".to_vec()));
    assert_eq!(dir(None, Some(b"/h".to_vec())), Some(b"/h/.local/state/compactveteran".to_vec()));
    assert_eq!(dir(Some(b"/x/".to_vec()), None), Some(b"/x/compactveteran".to_vec()));
    assert_eq!(dir(None, None), None);
}

#[test]
fn session_and_project_files() {
    assert_eq!(load_session(b"/st", "abc").unwrap(), b"/st/sessions/abc.json".to_vec());
    assert!(matches!(load_session(b"/st", ""), Err(StateError::MissingSessionId)));
    assert_eq!(load_project(b"/st", b"ff00"), b"/st/projects/ff00.json".to_vec());
}

#[test]
fn defaults_are_empty() {
    let p = ProjectState::default();
    assert!(p.sessions.is_empty());
    assert!(!p.prompt_pending);
    let st = SessionState::default();
    assert_eq!(st.session_id, "");
    let i = HookInput::default();
    assert!(i.session_id.is_none() && i.model.is_none());
}
