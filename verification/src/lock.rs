//! The exclusive operation lock: at most one mutating operation at a time.
//!
//! The lock is advisory and lives at a path of the file system. This module
//! holds what is decided about it: what to do with the lock file, what a
//! refused attempt means, and the record of whether the lock is held.

use vstd::prelude::*;
use vstd::string::*;
use crate::error::{EngineError, EngineErrorView};

verus! {

/// How the lock file is to be opened.
#[derive(Clone, Copy, Debug, PartialEq, Eq, Structural)]
pub enum LockFileAction {
    /// The file does not exist yet: create it.
    Create,
    /// The file exists: open it.
    Open,
}

/// The lock file is created on the first attempt and opened on every later one.
pub fn lock_file_action(present: bool) -> (r: LockFileAction)
    ensures
        present ==> r == LockFileAction::Open,
        !present ==> r == LockFileAction::Create,
{
    if present {
        LockFileAction::Open
    } else {
        LockFileAction::Create
    }
}

/// What an attempt to take the lock at `lock_path` without waiting means:
/// the operation may go on if the attempt was granted, and otherwise another
/// process is running one.
pub fn process_lock(lock_path: &str, granted: bool) -> (r: Result<(), EngineError>)
    ensures
        granted ==> r is Ok,
        !granted ==> r is Err && r->Err_0@ == (EngineErrorView::AlreadyRunning {
            lock_path: lock_path@,
        }),
{
    if granted {
        Ok(())
    } else {
        Err(EngineError::AlreadyRunning { lock_path: String::from_str(lock_path) })
    }
}

/// The lock of one path, and whether an operation holds it.
#[derive(Debug)]
pub struct OperationLock {
    pub path: String,
    pub held: bool,
}

/// The mathematical value of a lock.
pub struct OperationLockView {
    pub path: Seq<char>,
    pub held: bool,
}

impl View for OperationLock {
    type V = OperationLockView;

    open spec fn view(&self) -> OperationLockView {
        OperationLockView { path: self.path@, held: self.held }
    }
}

/// The lock after an attempt to take it: held, whoever held it before.
pub open spec fn after_acquire(l: OperationLockView) -> OperationLockView {
    OperationLockView { path: l.path, held: true }
}

/// What an attempt to take the lock answers: nothing if it was free, and
/// that an operation is running if it was held.
pub open spec fn acquire_error(l: OperationLockView) -> Option<EngineErrorView> {
    if l.held {
        Some(EngineErrorView::AlreadyRunning { lock_path: l.path })
    } else {
        None
    }
}

/// The lock after it was given back: free.
pub open spec fn after_release(l: OperationLockView) -> OperationLockView {
    OperationLockView { path: l.path, held: false }
}

impl OperationLock {
    /// A free lock at the path.
    pub fn new(path: &str) -> (r: Self)
        ensures
            r@ == (OperationLockView { path: path@, held: false }),
    {
        OperationLock { path: String::from_str(path), held: false }
    }

    /// Whether an operation holds the lock.
    pub fn is_held(&self) -> (r: bool)
        ensures
            r == self@.held,
    {
        self.held
    }

    /// Takes the lock without waiting: fails at once while it is held.
    pub fn acquire(&mut self) -> (r: Result<(), EngineError>)
        ensures
            final(self)@ == after_acquire(old(self)@),
            match acquire_error(old(self)@) {
                Some(e) => r is Err && r->Err_0@ == e,
                None => r is Ok,
            },
    {
        if self.held {
            Err(EngineError::AlreadyRunning { lock_path: self.path.clone() })
        } else {
            self.held = true;
            Ok(())
        }
    }

    /// Gives the lock back.
    pub fn release(&mut self)
        ensures
            final(self)@ == after_release(old(self)@),
    {
        self.held = false;
    }
}

/// While one acquisition is outstanding a second one fails with
/// `AlreadyRunning` and changes nothing; once the first is released the next
/// one succeeds.
pub proof fn lemma_lock_exclusive(l: OperationLockView)
    requires
        !l.held,
    ensures
        acquire_error(l) is None,
        acquire_error(after_acquire(l)) == Some(EngineErrorView::AlreadyRunning { lock_path: l.path }),
        after_acquire(after_acquire(l)) == after_acquire(l),
        acquire_error(after_release(after_acquire(l))) is None,
{
}

} // verus!
