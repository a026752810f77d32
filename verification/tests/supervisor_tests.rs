use compactveteran::control::{handoff_prompt, RestartRequest};
use compactveteran::supervisor::{
    after_child_exit, check_stock, exit_status, pending, restart_args, serve_start, serve_step,
    socket_path, state_path, terminate_step, AcceptOutcome, ServeAction, ServeEvent, ServeState,
    StockError, TerminateStep,
};

fn req() -> RestartRequest {
    RestartRequest {
        map: "/h/project-maps/ab.md".to_string(),
        cwd: "/repo".to_string(),
        model: "gpt-5.6-sol".to_string(),
    }
}

#[test]
fn restart_arguments() {
    assert_eq!(
        restart_args(&req()),
        vec![
            "-C".to_string(),
            "/repo".to_string(),
            "--model".to_string(),
            "gpt-5.6-sol".to_string(),
            "Read /h/project-maps/ab.md. Treat it as a map, inspect Git and the referenced raw logs, and continue the unfinished work from HEAD.".to_string(),
        ]
    );
}

#[test]
fn handoff_prompt_text() {
    assert_eq!(
        handoff_prompt("/m.md"),
        "Read /m.md. Use its Objective, Cursor, and Next action. Continue immediately from local HEAD. Open a referenced raw log only if a specific ambiguity blocks the next action."
    );
}

#[test]
fn signals_and_exit() {
    assert_eq!(pending(0), None);
    assert_eq!(pending(15), Some(15));
    assert_eq!(exit_status(Some(3)), 3);
    assert_eq!(exit_status(None), 1);
    assert_eq!(after_child_exit(Some(0), 0), Some(0));
    assert_eq!(after_child_exit(None, 0), Some(1));
    assert_eq!(after_child_exit(Some(0), 2), None);
}

#[test]
fn accept_decisions() {
    let (s, a) = serve_step(ServeState::AwaitAccept, ServeEvent::Accepted(AcceptOutcome::Request(req())));
    assert_eq!(s, ServeState::AwaitSignal);
    match a {
        ServeAction::Restart(r) => assert_eq!(r.cwd, "/repo"),
        _ => panic!("expected a restart"),
    }
    let (s, a) = serve_step(ServeState::AwaitAccept, ServeEvent::Accepted(AcceptOutcome::Garbage));
    assert_eq!(s, ServeState::AwaitSignal);
    assert!(matches!(a, ServeAction::ReadSignal));
    let (s, a) = serve_step(ServeState::AwaitAccept, ServeEvent::Accepted(AcceptOutcome::WouldBlock));
    assert_eq!(s, ServeState::AwaitSleep);
    assert!(matches!(a, ServeAction::Sleep(50)));
    let (_, a) = serve_step(ServeState::AwaitAccept, ServeEvent::Accepted(AcceptOutcome::Failed));
    assert!(matches!(a, ServeAction::Fail));
    let (s, a) = serve_step(ServeState::AwaitSleep, ServeEvent::Done);
    assert_eq!(s, ServeState::AwaitSignal);
    assert!(matches!(a, ServeAction::ReadSignal));
}

#[test]
fn serve_forwards_signals_then_watches_the_child() {
    let (s, a) = serve_start();
    assert_eq!(s, ServeState::AwaitSignal);
    assert!(matches!(a, ServeAction::ReadSignal));
    let (s, a) = serve_step(s, ServeEvent::Signal(15));
    assert_eq!(s, ServeState::AwaitKill);
    assert!(matches!(a, ServeAction::Kill(15)));
    let (s, a) = serve_step(s, ServeEvent::Done);
    assert_eq!(s, ServeState::AwaitChild);
    assert!(matches!(a, ServeAction::CheckChild));
    let (s, a) = serve_step(s, ServeEvent::Child(None));
    assert_eq!(s, ServeState::AwaitAccept);
    assert!(matches!(a, ServeAction::Accept));
    let (s, a) = serve_step(ServeState::AwaitSignal, ServeEvent::Signal(0));
    assert_eq!(s, ServeState::AwaitChild);
    assert!(matches!(a, ServeAction::CheckChild));
}

#[test]
fn serve_exits_with_the_child_unless_signalled() {
    let (s, a) = serve_step(ServeState::AwaitChild, ServeEvent::Child(Some(Some(3))));
    assert_eq!(s, ServeState::AwaitExitSignal(Some(3)));
    assert!(matches!(a, ServeAction::ReadSignal));
    let (_, a) = serve_step(s, ServeEvent::Signal(0));
    assert!(matches!(a, ServeAction::Exit(3)));
    let (_, a) = serve_step(ServeState::AwaitExitSignal(None), ServeEvent::Signal(0));
    assert!(matches!(a, ServeAction::Exit(1)));
    let (s, a) = serve_step(ServeState::AwaitExitSignal(Some(0)), ServeEvent::Signal(2));
    assert_eq!(s, ServeState::AwaitAccept);
    assert!(matches!(a, ServeAction::Accept));
    // A report that does not fit asks again for the awaited work.
    let (s, a) = serve_step(ServeState::AwaitChild, ServeEvent::Done);
    assert_eq!(s, ServeState::AwaitChild);
    assert!(matches!(a, ServeAction::CheckChild));
}

#[test]
fn terminate_checks_sixty_times_then_kills() {
    assert_eq!(terminate_step(1, true), TerminateStep::Done);
    assert_eq!(terminate_step(1, false), TerminateStep::WaitAndCheck);
    assert_eq!(terminate_step(59, false), TerminateStep::WaitAndCheck);
    assert_eq!(terminate_step(60, false), TerminateStep::WaitAndKill);
}

#[test]
fn stock_binary_checks() {
    assert_eq!(check_stock(true, 0o755, false), Ok(()));
    assert_eq!(check_stock(true, 0o644, false), Err(StockError::NotExecutable));
    assert_eq!(check_stock(false, 0o755, false), Err(StockError::NotExecutable));
    assert_eq!(check_stock(true, 0o700, true), Err(StockError::Recursion));
    assert!(compactveteran::supervisor::executable(0o100));
    assert!(!compactveteran::supervisor::executable(0o666));
    assert_eq!(StockError::Recursion.message(), "codex supervisor recursion");
    assert_eq!(StockError::NotExecutable.message(), "stock codex is not executable");
}

#[test]
fn supervisor_paths() {
    assert_eq!(state_path(None, None), b"/tmp/compactveteran".to_vec());
    assert_eq!(state_path(None, Some(b"/home/u".to_vec())), b"/home/u/.local/state/compactveteran".to_vec());
    assert_eq!(state_path(Some(b"/x".to_vec()), Some(b"/home/u".to_vec())), b"/x/compactveteran".to_vec());
    assert_eq!(socket_path(b"/x/compactveteran", 1234), b"/x/compactveteran/run/1234.sock".to_vec());
}
