use huber::error::EngineError;
use huber::lock::{lock_file_action, process_lock, LockFileAction, OperationLock};

#[test]
fn lock_file_is_created_once() {
    assert_eq!(lock_file_action(false), LockFileAction::Create);
    assert_eq!(lock_file_action(true), LockFileAction::Open);
}

#[test]
fn granted_attempt_goes_on() {
    assert_eq!(process_lock("/tmp/huber.lock", true), Ok(()));
}

#[test]
fn refused_attempt_is_already_running() {
    assert_eq!(
        process_lock("/tmp/huber.lock", false),
        Err(EngineError::AlreadyRunning { lock_path: "/tmp/huber.lock".to_string() })
    );
}

#[test]
fn second_acquisition_fails_until_release() {
    let mut lock = OperationLock::new("/tmp/huber.lock");
    assert!(!lock.is_held());
    assert_eq!(lock.acquire(), Ok(()));
    assert!(lock.is_held());
    assert_eq!(
        lock.acquire(),
        Err(EngineError::AlreadyRunning { lock_path: "/tmp/huber.lock".to_string() })
    );
    assert!(lock.is_held());
    lock.release();
    assert!(!lock.is_held());
    assert_eq!(lock.acquire(), Ok(()));
}
