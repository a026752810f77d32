use compactveteran::digest::{root_hash, sha256_hex};
use compactveteran::git_checkpoint::{
    checkpoint_id, checkpoint_message, run, start, CheckpointError, CheckpointEvent,
    CheckpointPhase, CheckpointRun, GitStep,
};
use compactveteran::state::SessionState;

fn args(step: &GitStep) -> Vec<String> {
    match step {
        GitStep::Run(a) => a.iter().map(|x| String::from_utf8(x.clone()).unwrap()).collect(),
        _ => panic!("expected a git command"),
    }
}

fn out(s: &str) -> CheckpointEvent {
    CheckpointEvent::Output(s.to_string())
}

fn session(turn: Option<&str>) -> SessionState {
    SessionState {
        session_id: "0123456789abcdef-session".to_string(),
        latest_turn_id: turn.map(|t| t.to_string()),
        latest_prompt: None,
        transcript_path: None,
        cwd: None,
        model: None,
        last_assistant_message: None,
        prompt_turn_id: None,
        completed_turn_id: None,
    }
}

#[test]
fn message_uses_turn_id_prefix() {
    let s = session(Some("turn-000000000042"));
    let id = checkpoint_id(&s);
    assert_eq!(id, "turn-000000000042");
    assert_eq!(checkpoint_message(id), b"compactveteran: checkpoint turn-0000000".to_vec());
    let s = session(Some(""));
    assert_eq!(checkpoint_id(&s), "0123456789abcdef-session");
    let s = session(None);
    assert_eq!(checkpoint_message(checkpoint_id(&s)), b"compactveteran: checkpoint 0123456789ab".to_vec());
    assert_eq!(checkpoint_message("t1"), b"compactveteran: checkpoint t1".to_vec());
}

fn begin() -> (CheckpointRun, GitStep) {
    start(b"compactveteran: checkpoint t1".to_vec())
}

#[test]
fn dirty_tree_is_committed_then_finished() {
    let (st, step) = begin();
    assert_eq!(args(&step), vec!["branch", "--show-current"]);
    let (st, step) = run(st, &out("main"));
    assert_eq!(args(&step), vec!["status", "--porcelain", "--untracked-files=all"]);
    let (st, step) = run(st, &out(" M src/lib.rs"));
    assert_eq!(args(&step), vec!["add", "-A"]);
    let (st, step) = run(st, &out(""));
    assert!(matches!(step, GitStep::DiffCached));
    let (st, step) = run(st, &CheckpointEvent::DiffExit(Some(1)));
    assert_eq!(
        args(&step),
        vec![
            "-c",
            "user.name=CompactVeteran",
            "-c",
            "user.email=compactveteran@localhost",
            "commit",
            "-m",
            "compactveteran: checkpoint t1"
        ]
    );
    let (st, step) = run(st, &out("[main abc] msg"));
    assert_eq!(args(&step), vec!["status", "--porcelain", "--untracked-files=all"]);
    let (st, step) = run(st, &out(""));
    assert!(matches!(step, GitStep::Finish));
    assert_eq!(st.phase, CheckpointPhase::Done);
}

#[test]
fn clean_tree_skips_commit() {
    let (st, _) = begin();
    let (st, _) = run(st, &out("main"));
    let (st, step) = run(st, &out(""));
    assert_eq!(args(&step), vec!["status", "--porcelain", "--untracked-files=all"]);
    assert_eq!(st.phase, CheckpointPhase::Recheck);
    let (_, step) = run(st, &out(""));
    assert!(matches!(step, GitStep::Finish));
}

#[test]
fn staged_nothing_goes_to_recheck() {
    let (st, _) = begin();
    let (st, _) = run(st, &out("main"));
    let (st, _) = run(st, &out("?? x"));
    let (st, _) = run(st, &out(""));
    let (st, step) = run(st, &CheckpointEvent::DiffExit(Some(0)));
    assert_eq!(st.phase, CheckpointPhase::Recheck);
    assert_eq!(args(&step), vec!["status", "--porcelain", "--untracked-files=all"]);
}

#[test]
fn refusals() {
    let (st, _) = begin();
    let (_, step) = run(st, &out(""));
    assert!(matches!(step, GitStep::Fail(CheckpointError::DetachedHead)));

    let (st, _) = begin();
    let (st, _) = run(st, &out("main"));
    let (_, step) = run(st, &out("?? .env"));
    assert!(matches!(step, GitStep::Fail(CheckpointError::CredentialFilename)));

    let (st, _) = begin();
    let (st, _) = run(st, &out("main"));
    let (st, _) = run(st, &out("?? a"));
    let (st, _) = run(st, &out(""));
    let (_, step) = run(st, &CheckpointEvent::DiffExit(None));
    assert!(matches!(step, GitStep::Fail(CheckpointError::DiffFailed)));

    let (st, _) = begin();
    let (st, _) = run(st, &out("main"));
    let (st, _) = run(st, &out(""));
    let (_, step) = run(st, &out("?? appeared"));
    assert!(matches!(step, GitStep::Fail(CheckpointError::NotClean)));

    let (st, _) = begin();
    let (st, step) = run(st, &CheckpointEvent::DiffExit(Some(1)));
    assert!(matches!(step, GitStep::Fail(CheckpointError::OutOfOrder)));
    assert_eq!(st.phase, CheckpointPhase::Failed);
}

#[test]
fn error_messages() {
    assert_eq!(CheckpointError::DetachedHead.message(), "detached HEAD");
    assert_eq!(CheckpointError::CredentialFilename.message(), "credential filename guard");
    assert_eq!(CheckpointError::DiffFailed.message(), "git diff failed");
    assert_eq!(CheckpointError::NotClean.message(), "working tree not clean");
}

#[test]
fn digests_are_lower_hex_sha256() {
    assert_eq!(
        sha256_hex(b""),
        b"e3b0c44298fc1c149afbf4c8996fb92427ae41e4649b934ca495991b7852b855".to_vec()
    );
    assert_eq!(
        root_hash("abc"),
        b"ba7816bf8f01cfea414140de5dae2223b00361a396177a9cb410ff61f20015ad".to_vec()
    );
}
