use compactveteran::project_map::{clip, transcript_to_read, MapError, MapInputs, MAP_LIMIT};
use compactveteran::state::{ProjectState, SessionRef, SessionState};

const MARKER: &str = "\n[clipped; full text is in the raw transcript]\n";

fn session() -> SessionState {
    SessionState {
        session_id: "sess".to_string(),
        latest_turn_id: None,
        latest_prompt: Some("prompt text".to_string()),
        transcript_path: Some("/t.jsonl".to_string()),
        cwd: None,
        model: None,
        last_assistant_message: Some("message text".to_string()),
        prompt_turn_id: None,
        completed_turn_id: None,
    }
}

fn project(pending: bool, n: usize) -> ProjectState {
    ProjectState {
        canonical_root: "/repo".to_string(),
        sessions: (0..n)
            .map(|k| SessionRef {
                session_id: format!("s{k}"),
                transcript_path: if k % 2 == 0 { Some(format!("/t{k}")) } else { None },
            })
            .collect(),
        objective: Some("the objective".to_string()),
        last_assistant_result: None,
        prompt_pending: pending,
    }
}

fn inputs(transcript: Option<Vec<u8>>) -> MapInputs {
    MapInputs {
        root: "/repo".to_string(),
        branch: "main".to_string(),
        head: "abc123".to_string(),
        clean: true,
        recent_commits: "abc123 first".to_string(),
        transcript,
        sources: vec!["/repo/README.md".to_string()],
    }
}

#[test]
fn clip_keeps_short_text() {
    assert_eq!(clip("hello", 10), b"hello".to_vec());
    assert_eq!(clip("hello", 5), b"hello".to_vec());
}

#[test]
fn clip_cuts_the_middle() {
    let s = "a".repeat(200);
    let c = clip(&s, 147);
    // room = 147 - 47 = 100, head 50, tail 50.
    let expected = format!("{}{}{}", "a".repeat(50), MARKER, "a".repeat(50));
    assert_eq!(MARKER.len(), 47);
    assert_eq!(c, expected.into_bytes());
    assert!(c.len() <= 147);
}

#[test]
fn clip_respects_char_boundaries() {
    let s = "é".repeat(100); // 200 bytes
    let c = clip(&s, 58); // room 11: head 5 -> 4, tail 7 -> 6
    let text = String::from_utf8(c.clone()).expect("valid UTF-8");
    assert_eq!(text, format!("{}{}{}", "é".repeat(2), MARKER, "é".repeat(3)));
    assert!(c.len() <= 58);
}

#[test]
fn clip_with_tiny_limit_keeps_only_marker() {
    let c = clip("abcdefghij", 3);
    assert_eq!(c, MARKER.as_bytes().to_vec());
}

#[test]
fn map_has_every_section() {
    let m = compactveteran::project_map::write(&inputs(Some(b"abc".to_vec())), &session(), &project(true, 5)).unwrap();
    let text = String::from_utf8(m).unwrap();
    assert!(text.starts_with("# CompactVeteran handoff\n\n## Scope\n\n- canonical root: /repo\n- branch: main\n- HEAD: abc123\n- clean: true\n- current session: sess\n- transcript: /t.jsonl\n- transcript prefix bytes: 3\n- transcript prefix SHA256: ba7816bf8f01cfea414140de5dae2223b00361a396177a9cb410ff61f20015ad\n- prompt state: pending\n\n## Objective\n\nthe objective\n\n## Cursor\n\nmessage text\n\n## Next action\n\nAnswer the Objective exactly once."));
    assert!(text.contains("## Recent commits\n\n```text\nabc123 first\n```\n\n## Sources\n\n- /repo/README.md\n\n## Recovery pointers\n\n- transcript: /t.jsonl\n- transcript prefix bytes: 3\n"));
    assert!(text.ends_with("### Session lineage\n\n- s2\t/t2\n- s3\t\n- s4\t/t4\n"));
}

#[test]
fn map_of_answered_prompt_says_completed() {
    let m = compactveteran::project_map::write(&inputs(None), &session(), &project(false, 1)).unwrap();
    let text = String::from_utf8(m).unwrap();
    assert!(text.contains("- transcript prefix bytes: 0\n- transcript prefix SHA256: missing\n- prompt state: completed\n"));
    assert!(text.contains("## Next action\n\nThe Objective is already answered. Do not answer or restart it."));
    assert!(text.ends_with("- s0\t/t0\n"));
}

#[test]
fn map_falls_back_to_session_prompt() {
    let mut p = project(false, 0);
    p.objective = Some(String::new());
    let m = compactveteran::project_map::write(&inputs(None), &session(), &p).unwrap();
    let text = String::from_utf8(m).unwrap();
    assert!(text.contains("## Objective\n\nprompt text\n\n## Cursor"));
}

#[test]
fn map_too_large_is_refused() {
    let mut inp = inputs(None);
    inp.recent_commits = "x".repeat(MAP_LIMIT);
    assert!(matches!(compactveteran::project_map::write(&inp, &session(), &project(true, 0)), Err(MapError::TooLarge)));
    assert_eq!(MapError::TooLarge.message(), "project map exceeds 16384 bytes");
}

#[test]
fn long_objective_is_clipped_in_map() {
    let mut p = project(true, 0);
    p.objective = Some("o".repeat(10000));
    let text = String::from_utf8(compactveteran::project_map::write(&inputs(None), &session(), &p).unwrap()).unwrap();
    assert!(text.contains("[clipped; full text is in the raw transcript]"));
}

#[test]
fn transcript_read_only_when_path_set() {
    let mut s = session();
    assert_eq!(transcript_to_read(&s), Some("/t.jsonl".to_string()));
    s.transcript_path = Some(String::new());
    assert_eq!(transcript_to_read(&s), None);
    s.transcript_path = None;
    assert_eq!(transcript_to_read(&s), None);
}
