use compactveteran::project_lock::{
    is_stale, lock_path, lock_start, may_take_over, proc_path, recorded_holder,
    LockAction, LockError, LockEvent, LockState, ProjectLock,
};

#[test]
fn lock_file_location() {
    assert_eq!(lock_path(b"/st", b"abcd"), b"/st/locks/abcd.lock".to_vec());
    assert_eq!(proc_path(4242), b"/proc/4242".to_vec());
}

#[test]
fn record_round_trips() {
    let l = ProjectLock::held(b"/st/locks/a.lock".to_vec(), 77, 1_700_000_000);
    let rec = l.record();
    assert_eq!(rec, "{\"created_at\":1700000000,\"pid\":77}");
    assert!(l.owns(rec.as_bytes()));
    assert_eq!(recorded_holder(rec.as_bytes()), (77, 1_700_000_000));
    assert_eq!(l.path(), &b"/st/locks/a.lock".to_vec());
}

#[test]
fn foreign_or_broken_record_is_not_owned() {
    let l = ProjectLock::held(b"/l".to_vec(), 77, 10);
    assert!(!l.owns(b"{\"pid\":78,\"created_at\":10}"));
    assert!(!l.owns(b"{\"pid\":77,\"created_at\":11}"));
    assert!(!l.owns(b"not json"));
    assert_eq!(recorded_holder(b"not json"), (0, 0));
    assert_eq!(recorded_holder(b"{\"pid\":-3}"), (0, 0));
}

#[test]
fn staleness() {
    assert!(!is_stale(10, 1000, true, 1600));
    assert!(is_stale(10, 1000, true, 1601));
    assert!(is_stale(10, 1000, false, 1000));
    assert!(is_stale(0, 1000, true, 1000));
    // A clock that went backwards does not make a lock stale.
    assert!(!is_stale(10, 5000, true, 1000));
    assert_eq!(may_take_over(10, 1000, true, 1100), Err(LockError::Active));
    assert_eq!(may_take_over(10, 1000, false, 1100), Ok(()));
    assert_eq!(LockError::Active.message(), "project lock active");
}

#[test]
fn lock_steps_for_a_fresh_file() {
    let (s, a) = lock_start();
    assert_eq!((s, a), (LockState::Create, LockAction::CreateNew));
    let (s, a) = ProjectLock::acquire(s, LockEvent::Created, 100);
    assert_eq!((s, a), (LockState::Write, LockAction::WriteRecord));
    let (s, a) = ProjectLock::acquire(s, LockEvent::Written, 100);
    assert_eq!((s, a), (LockState::Held, LockAction::Taken));
}

#[test]
fn lock_steps_for_a_held_file() {
    let (s, a) = ProjectLock::acquire(LockState::Create, LockEvent::AlreadyExists, 1100);
    assert_eq!((s, a), (LockState::ReadHolder, LockAction::ReadFile));
    let rec = b"{\"created_at\":1000,\"pid\":42}".to_vec();
    let (s, a) = ProjectLock::acquire(s, LockEvent::Read(rec.clone()), 1100);
    assert_eq!((s, a), (LockState::CheckHolder(42, 1000), LockAction::CheckProc(42)));
    // A live holder of a recent lock keeps it.
    let (_, a) = ProjectLock::acquire(s, LockEvent::HolderRunning(true), 1100);
    assert_eq!(a, LockAction::Refuse(LockError::Active));
    // An old lock is taken over even while its holder runs.
    let (s2, a) = ProjectLock::acquire(s, LockEvent::HolderRunning(true), 1601);
    assert_eq!((s2, a), (LockState::Remove, LockAction::RemoveFile));
    let (s, a) = ProjectLock::acquire(s2, LockEvent::Removed, 1601);
    assert_eq!((s, a), (LockState::Recreate, LockAction::CreateNew));
    let (_, a) = ProjectLock::acquire(s, LockEvent::AlreadyExists, 1601);
    assert_eq!(a, LockAction::Fail);
    let (s, a) = ProjectLock::acquire(s, LockEvent::Created, 1601);
    assert_eq!((s, a), (LockState::Write, LockAction::WriteRecord));
    // An unreadable record has no holder and is taken over at once.
    let (s, a) = ProjectLock::acquire(LockState::ReadHolder, LockEvent::Read(b"junk".to_vec()), 5);
    assert_eq!((s, a), (LockState::Remove, LockAction::RemoveFile));
}

#[test]
fn own_record_keeps_others_out() {
    let l = ProjectLock::held(b"/st/locks/a.lock".to_vec(), 4242, 1000);
    let rec = l.record().into_bytes();
    let (s, a) = ProjectLock::acquire(LockState::ReadHolder, LockEvent::Read(rec), 1300);
    assert_eq!((s, a), (LockState::CheckHolder(4242, 1000), LockAction::CheckProc(4242)));
    let (_, a) = ProjectLock::acquire(s, LockEvent::HolderRunning(true), 1600);
    assert_eq!(a, LockAction::Refuse(LockError::Active));
}
