//! The installer state machine: install, uninstall and upgrade, one step per
//! outside result.
//!
//! The machine decides; its caller acts. Each method takes the result of the
//! work that the last action asked for, moves the machine on and answers with
//! the next action. The phases follow one another as
//! `Idle`, `LockAcquired`, `Resolved`, `Downloaded`, `Verified`, `Applied`,
//! `StateUpdated`, `Idle`; `Failed` can follow any of them, and the machine
//! rests in each. The install-state store changes in one step only: when the
//! new store is on durable storage. A method called out of turn changes
//! nothing and answers [`Action::Nothing`].

use vstd::prelude::*;
use vstd::string::*;
use crate::error::{EngineError, EngineErrorView};
use crate::lock::{after_acquire, after_release, process_lock, OperationLock, OperationLockView};
use crate::package::{resolve, Package};
use crate::plan::{
    expanded_commands,
    expanded_commands_of,
    first_candidate,
    has_candidate,
    pick,
    plan,
    plan_of,
    version_of,
    Job,
    JobKind,
    JobView,
};
use crate::state::{InstallStateStore, InstalledPackageState, InstalledStateView};
use crate::store::PackageStore;
use crate::text::{as_opt_str, clone_opt_strings, opt_view, opt_views, str_eq, views};

verus! {

/// Where a mutation stands.
#[derive(Clone, Copy, Debug, PartialEq, Eq, Structural)]
pub enum Phase {
    Idle,
    LockAcquired,
    Resolved,
    Downloaded,
    Verified,
    Applied,
    StateUpdated,
    Failed,
}

/// A mutation that a caller asks for.
#[derive(Debug)]
pub enum Operation {
    Install { name: String, version: Option<String> },
    Uninstall { name: String },
    Upgrade { name: String },
}

/// The mathematical value of an operation.
pub enum OperationView {
    Install { name: Seq<char>, version: Option<Seq<char>> },
    Uninstall { name: Seq<char> },
    Upgrade { name: Seq<char> },
}

impl View for Operation {
    type V = OperationView;

    open spec fn view(&self) -> OperationView {
        match *self {
            Operation::Install { name, version } => OperationView::Install {
                name: name@,
                version: opt_view(version),
            },
            Operation::Uninstall { name } => OperationView::Uninstall { name: name@ },
            Operation::Upgrade { name } => OperationView::Upgrade { name: name@ },
        }
    }
}

/// What the caller is to do next.
#[derive(Debug, PartialEq, Eq)]
pub enum Action {
    /// Fetch the artifact at the address, then call `downloaded`.
    Download { url: String },
    /// Compute the digest of the fetched artifact, then call `verified`.
    Digest,
    /// Run the commands, or where there are none do the built-in work of the
    /// kind; then call `applied`.
    Apply { kind: JobKind, name: String, version: String, commands: Option<Vec<String>> },
    /// Write the staged install-state store to durable storage, then call
    /// `persisted`.
    Persist,
    /// Give the lock of the file system back, then call `released`.
    Release,
    /// The operation is over, the lock is free, and any fetched artifact of a
    /// failed operation is to be discarded.
    Finish { result: Result<(), EngineError> },
    /// The call was out of turn.
    Nothing,
}

/// The mathematical value of an action.
pub enum ActionView {
    Download { url: Seq<char> },
    Digest,
    Apply { kind: JobKind, name: Seq<char>, version: Seq<char>, commands: Option<Seq<Seq<char>>> },
    Persist,
    Release,
    Finish { result: Result<(), EngineErrorView> },
    Nothing,
}

impl View for Action {
    type V = ActionView;

    open spec fn view(&self) -> ActionView {
        match *self {
            Action::Download { url } => ActionView::Download { url: url@ },
            Action::Digest => ActionView::Digest,
            Action::Apply { kind, name, version, commands } => ActionView::Apply {
                kind,
                name: name@,
                version: version@,
                commands: opt_views(commands),
            },
            Action::Persist => ActionView::Persist,
            Action::Release => ActionView::Release,
            Action::Finish { result } => ActionView::Finish {
                result: match result {
                    Ok(_) => Ok(()),
                    Err(e) => Err(e@),
                },
            },
            Action::Nothing => ActionView::Nothing,
        }
    }
}

/// How the work of an `Apply` action ended.
#[derive(Debug)]
pub enum ApplyOutcome {
    /// The work was done. For an install or an upgrade, the package stands
    /// under `root` with these executables linked.
    Done { root: String, executables: Vec<String>, installed_at: u64 },
    /// The command did not succeed, and the ones after it were not run.
    Failed { command: String },
}

/// The mathematical value of an outcome.
pub enum ApplyOutcomeView {
    Done { root: Seq<char>, executables: Seq<Seq<char>>, installed_at: u64 },
    Failed { command: Seq<char> },
}

impl View for ApplyOutcome {
    type V = ApplyOutcomeView;

    open spec fn view(&self) -> ApplyOutcomeView {
        match *self {
            ApplyOutcome::Done { root, executables, installed_at } => ApplyOutcomeView::Done {
                root: root@,
                executables: views(executables@),
                installed_at,
            },
            ApplyOutcome::Failed { command } => ApplyOutcomeView::Failed { command: command@ },
        }
    }
}

/// The installer: its phase, the lock, the install-state store, and what it
/// is working on.
#[derive(Debug)]
pub struct Installer {
    pub phase: Phase,
    pub lock: OperationLock,
    pub states: InstallStateStore,
    /// The operation that holds the lock and is not resolved yet.
    pub pending: Option<Operation>,
    /// The resolved mutation under way.
    pub job: Option<Job>,
    /// The store as the finished work leaves it, until it is written.
    pub staged: Option<InstallStateStore>,
}

/// The mathematical value of an installer.
pub struct InstallerView {
    pub phase: Phase,
    pub lock: OperationLockView,
    pub states: Map<Seq<char>, InstalledStateView>,
    pub pending: Option<OperationView>,
    pub job: Option<JobView>,
    pub staged: Option<Map<Seq<char>, InstalledStateView>>,
}

/// The view of an optional operation.
pub open spec fn pending_view(p: Option<Operation>) -> Option<OperationView> {
    match p {
        Some(op) => Some(op@),
        None => None,
    }
}

/// The view of an optional job.
pub open spec fn job_view(j: Option<Job>) -> Option<JobView> {
    match j {
        Some(job) => Some(job@),
        None => None,
    }
}

/// The view of an optional store.
pub open spec fn staged_view(s: Option<InstallStateStore>) -> Option<
    Map<Seq<char>, InstalledStateView>,
> {
    match s {
        Some(store) => Some(store@),
        None => None,
    }
}

impl View for Installer {
    type V = InstallerView;

    open spec fn view(&self) -> InstallerView {
        InstallerView {
            phase: self.phase,
            lock: self.lock@,
            states: self.states@,
            pending: pending_view(self.pending),
            job: job_view(self.job),
            staged: staged_view(self.staged),
        }
    }
}

/// The machine after a failure: the lock is free, nothing is under way, and
/// the install-state store is as it was.
pub open spec fn failed(m: InstallerView) -> InstallerView {
    InstallerView {
        phase: Phase::Failed,
        lock: after_release(m.lock),
        states: m.states,
        pending: None,
        job: None,
        staged: None,
    }
}

/// The machine after an operation that ended well: idle, with the lock free.
pub open spec fn finished(m: InstallerView) -> InstallerView {
    InstallerView {
        phase: Phase::Idle,
        lock: after_release(m.lock),
        states: m.states,
        pending: None,
        job: None,
        staged: None,
    }
}

/// The failure of an operation as a step of the machine.
pub open spec fn fail_with(m: InstallerView, e: EngineErrorView) -> (InstallerView, ActionView) {
    (failed(m), ActionView::Finish { result: Err(e) })
}

/// The action that asks for the work of a job.
pub open spec fn apply_action(j: JobView) -> ActionView {
    ActionView::Apply { kind: j.kind, name: j.name, version: j.version, commands: j.commands }
}

/// The step that follows planning: a failure, or the first download.
pub open spec fn proceed_of(m: InstallerView, planned: Result<JobView, EngineErrorView>) -> (
    InstallerView,
    ActionView,
) {
    match planned {
        Err(e) => fail_with(m, e),
        Ok(j) => (
            InstallerView {
                phase: Phase::Resolved,
                lock: m.lock,
                states: m.states,
                pending: None,
                job: Some(j),
                staged: None,
            },
            ActionView::Download { url: j.urls[0] },
        ),
    }
}

/// Whether the store records the name at the version.
pub open spec fn installed_at(
    states: Map<Seq<char>, InstalledStateView>,
    name: Seq<char>,
    version: Seq<char>,
) -> bool {
    states.contains_key(name) && states[name].version == version
}

/// The commands that remove an installed version: those of the recipe that
/// the store has for it on this platform, where it has one.
pub open spec fn removal_commands_of(
    manifests: Seq<Package>,
    name: Seq<char>,
    version: Seq<char>,
    os: Seq<char>,
    arch: Seq<char>,
) -> Result<Option<Seq<Seq<char>>>, Seq<char>> {
    if has_candidate(manifests, name, Some(version)) {
        match resolve(manifests[first_candidate(manifests, name, Some(version))].targets@, os, arch) {
            Some(m) => expanded_commands_of(JobKind::Uninstall, m, version, os, arch),
            None => Ok(None),
        }
    } else {
        Ok(None)
    }
}

/// Taking the lock for an operation. While the machine holds the lock
/// nothing changes and the attempt fails; so it does, and the machine is
/// `Failed`, when the lock was not granted; otherwise the lock is held and the
/// operation is pending.
pub open spec fn acquire_of(m: InstallerView, op: OperationView, granted: bool) -> (
    InstallerView,
    Option<EngineErrorView>,
) {
    if m.lock.held {
        (m, Some(EngineErrorView::AlreadyRunning { lock_path: m.lock.path }))
    } else if !granted {
        (failed(m), Some(EngineErrorView::AlreadyRunning { lock_path: m.lock.path }))
    } else {
        (
            InstallerView {
                phase: Phase::LockAcquired,
                lock: after_acquire(m.lock),
                states: m.states,
                pending: Some(op),
                job: None,
                staged: None,
            },
            None,
        )
    }
}

/// Resolving the pending operation against the manifests and the platform.
/// An install of a version that the store records already ends well at once,
/// whatever the manifests hold; so does an install or upgrade whose newest
/// version is the recorded one.
pub open spec fn resolve_of(m: InstallerView, manifests: Seq<Package>, os: Seq<char>, arch: Seq<char>) -> (
    InstallerView,
    ActionView,
) {
    if m.phase != Phase::LockAcquired || m.pending is None {
        (m, ActionView::Nothing)
    } else {
        match m.pending->Some_0 {
            OperationView::Install { name, version } => {
                if version is Some && installed_at(m.states, name, version->Some_0) {
                    (finished(m), ActionView::Finish { result: Ok(()) })
                } else if !has_candidate(manifests, name, version) {
                    fail_with(m, EngineErrorView::NotFound { name })
                } else {
                    let p = manifests[first_candidate(manifests, name, version)];
                    let v = version_of(p, version);
                    if installed_at(m.states, name, v) {
                        (finished(m), ActionView::Finish { result: Ok(()) })
                    } else {
                        proceed_of(m, plan_of(JobKind::Install, name, v, p, os, arch))
                    }
                }
            },
            OperationView::Uninstall { name } => {
                if !m.states.contains_key(name) {
                    fail_with(m, EngineErrorView::NotInstalled { name })
                } else {
                    let v = m.states[name].version;
                    match removal_commands_of(manifests, name, v, os, arch) {
                        Err(command) => fail_with(
                            m,
                            EngineErrorView::CommandExecutionFailed { command },
                        ),
                        Ok(commands) => {
                            let j = JobView {
                                kind: JobKind::Uninstall,
                                name,
                                version: v,
                                checksum: None,
                                urls: Seq::empty(),
                                commands,
                            };
                            (
                                InstallerView {
                                    phase: Phase::Verified,
                                    lock: m.lock,
                                    states: m.states,
                                    pending: None,
                                    job: Some(j),
                                    staged: None,
                                },
                                apply_action(j),
                            )
                        },
                    }
                }
            },
            OperationView::Upgrade { name } => {
                if !m.states.contains_key(name) {
                    fail_with(m, EngineErrorView::NotInstalled { name })
                } else if !has_candidate(manifests, name, None) {
                    fail_with(m, EngineErrorView::NotFound { name })
                } else {
                    let p = manifests[first_candidate(manifests, name, None)];
                    let v = version_of(p, None);
                    if installed_at(m.states, name, v) {
                        (finished(m), ActionView::Finish { result: Ok(()) })
                    } else {
                        proceed_of(m, plan_of(JobKind::Upgrade, name, v, p, os, arch))
                    }
                }
            },
        }
    }
}

/// The end of a download. A fetched artifact is to be digested; after a
/// failed fetch the next address is tried, and with none left the operation
/// fails.
pub open spec fn downloaded_of(m: InstallerView, retrieved: bool) -> (InstallerView, ActionView) {
    if m.phase != Phase::Resolved || m.job is None || m.job->Some_0.urls.len() == 0 {
        (m, ActionView::Nothing)
    } else {
        let j = m.job->Some_0;
        if retrieved {
            (
                InstallerView {
                    phase: Phase::Downloaded,
                    lock: m.lock,
                    states: m.states,
                    pending: m.pending,
                    job: m.job,
                    staged: m.staged,
                },
                ActionView::Digest,
            )
        } else if j.urls.len() == 1 {
            fail_with(m, EngineErrorView::ArtifactUnavailable { name: j.name })
        } else {
            (
                InstallerView {
                    phase: Phase::Resolved,
                    lock: m.lock,
                    states: m.states,
                    pending: m.pending,
                    job: Some(
                        JobView {
                            kind: j.kind,
                            name: j.name,
                            version: j.version,
                            checksum: j.checksum,
                            urls: j.urls.drop_first(),
                            commands: j.commands,
                        },
                    ),
                    staged: m.staged,
                },
                ActionView::Download { url: j.urls[1] },
            )
        }
    }
}

/// The digest of the fetched artifact. Where the recipe gives a checksum
/// and the digest differs from it the operation fails; otherwise the work of
/// the job is asked for.
pub open spec fn verified_of(m: InstallerView, digest: Seq<char>) -> (InstallerView, ActionView) {
    if m.phase != Phase::Downloaded || m.job is None {
        (m, ActionView::Nothing)
    } else {
        let j = m.job->Some_0;
        if j.checksum is Some && j.checksum->Some_0 != digest {
            fail_with(
                m,
                EngineErrorView::ChecksumMismatch { expected: j.checksum->Some_0, actual: digest },
            )
        } else {
            (
                InstallerView {
                    phase: Phase::Verified,
                    lock: m.lock,
                    states: m.states,
                    pending: m.pending,
                    job: m.job,
                    staged: m.staged,
                },
                apply_action(j),
            )
        }
    }
}

/// The record that a finished install or upgrade leaves.
pub open spec fn record_of(j: JobView, root: Seq<char>, executables: Seq<Seq<char>>, installed_at: u64) -> InstalledStateView {
    InstalledStateView { name: j.name, version: j.version, root, executables, installed_at }
}

/// The store as the finished work of a job leaves it: an uninstall removes
/// the record of the name, an install or upgrade puts the new one.
pub open spec fn updated_states(
    states: Map<Seq<char>, InstalledStateView>,
    j: JobView,
    root: Seq<char>,
    executables: Seq<Seq<char>>,
    installed_at: u64,
) -> Map<Seq<char>, InstalledStateView> {
    if j.kind == JobKind::Uninstall {
        states.remove(j.name)
    } else {
        states.insert(j.name, record_of(j, root, executables, installed_at))
    }
}

/// The end of the work of a job. A failed command fails the operation;
/// finished work stages the store that it leaves, to be written. The store
/// itself is as it was either way.
pub open spec fn applied_of(m: InstallerView, outcome: ApplyOutcomeView) -> (InstallerView, ActionView) {
    if m.phase != Phase::Verified || m.job is None {
        (m, ActionView::Nothing)
    } else {
        let j = m.job->Some_0;
        match outcome {
            ApplyOutcomeView::Failed { command } => fail_with(
                m,
                EngineErrorView::CommandExecutionFailed { command },
            ),
            ApplyOutcomeView::Done { root, executables, installed_at } => (
                InstallerView {
                    phase: Phase::Applied,
                    lock: m.lock,
                    states: m.states,
                    pending: None,
                    job: m.job,
                    staged: Some(updated_states(m.states, j, root, executables, installed_at)),
                },
                ActionView::Persist,
            ),
        }
    }
}

/// The end of the write of the staged store. Once it is on durable storage
/// it is the store; a failed write fails the operation and leaves the store
/// as it was.
pub open spec fn persisted_of(m: InstallerView, written: bool) -> (InstallerView, ActionView) {
    if m.phase != Phase::Applied || m.job is None || m.staged is None {
        (m, ActionView::Nothing)
    } else if written {
        (
            InstallerView {
                phase: Phase::StateUpdated,
                lock: m.lock,
                states: m.staged->Some_0,
                pending: None,
                job: None,
                staged: None,
            },
            ActionView::Release,
        )
    } else {
        fail_with(m, EngineErrorView::StateNotPersisted { name: m.job->Some_0.name })
    }
}

/// The lock of the file system is given back: the operation ends well.
pub open spec fn released_of(m: InstallerView) -> (InstallerView, ActionView) {
    if m.phase != Phase::StateUpdated {
        (m, ActionView::Nothing)
    } else {
        (finished(m), ActionView::Finish { result: Ok(()) })
    }
}

/// The view of a planning result.
pub open spec fn planned_view(r: Result<Job, EngineError>) -> Result<JobView, EngineErrorView> {
    match r {
        Ok(j) => Ok(j@),
        Err(e) => Err(e@),
    }
}

/// The action that asks for the work of a job.
fn apply_for(job: &Job) -> (a: Action)
    ensures
        a@ == apply_action(job@),
{
    Action::Apply {
        kind: job.kind,
        name: job.name.clone(),
        version: job.version.clone(),
        commands: clone_opt_strings(&job.commands),
    }
}

/// The version that an instance is installed at when none is asked for.
fn own_version(p: &Package) -> (v: String)
    ensures
        v@ == version_of(*p, None),
{
    match &p.version {
        Some(pv) => pv.clone(),
        None => String::new(),
    }
}

/// The commands that remove an installed version on a platform.
fn removal_commands(manifests: &Vec<Package>, name: &str, version: &str, os: &str, arch: &str) -> (r:
    Result<Option<Vec<String>>, String>)
    ensures
        match removal_commands_of(manifests@, name@, version@, os@, arch@) {
            Ok(x) => r is Ok && opt_views(r->Ok_0) == x,
            Err(c) => r is Err && r->Err_0@ == c,
        },
{
    match pick(manifests, name, Some(version)) {
        None => Ok(None),
        Some(p) => match p.target(os, arch) {
            Err(_) => Ok(None),
            Ok(m) => expanded_commands(JobKind::Uninstall, &m, version, os, arch),
        },
    }
}

impl Installer {
    /// The store has at most one record per name, the lock is held exactly
    /// while an operation is under way, and each phase has what it works on.
    pub open spec fn wf(&self) -> bool {
        &&& self.states.wf()
        &&& self.lock.held == (self.phase != Phase::Idle && self.phase != Phase::Failed)
        &&& (self.phase == Phase::LockAcquired ==> self.pending is Some)
        &&& (self.phase == Phase::Resolved || self.phase == Phase::Downloaded || self.phase
            == Phase::Verified || self.phase == Phase::Applied ==> self.job is Some)
        &&& (self.phase == Phase::Resolved ==> self.job->Some_0.urls.len() > 0)
        &&& (self.phase == Phase::Applied ==> self.staged is Some)
        &&& (self.staged matches Some(store) ==> store.wf())
    }

    /// An idle installer over the lock at a path and a store.
    pub fn new(lock_path: &str, states: InstallStateStore) -> (r: Self)
        requires
            states.wf(),
        ensures
            r.wf(),
            r@ == (InstallerView {
                phase: Phase::Idle,
                lock: OperationLockView { path: lock_path@, held: false },
                states: states@,
                pending: None,
                job: None,
                staged: None,
            }),
    {
        Installer {
            phase: Phase::Idle,
            lock: OperationLock::new(lock_path),
            states,
            pending: None,
            job: None,
            staged: None,
        }
    }

    /// Where the machine stands.
    pub fn phase(&self) -> (r: Phase)
        ensures
            r == self.phase,
    {
        self.phase
    }

    /// What is installed.
    pub fn states(&self) -> (r: &InstallStateStore)
        ensures
            *r == self.states,
    {
        &self.states
    }

    /// Gives the lock back and forgets what was under way.
    fn reset(&mut self, phase: Phase)
        requires
            old(self).states.wf(),
            phase == Phase::Idle || phase == Phase::Failed,
        ensures
            final(self).wf(),
            final(self)@ == (InstallerView {
                phase,
                lock: after_release(old(self)@.lock),
                states: old(self)@.states,
                pending: None,
                job: None,
                staged: None,
            }),
    {
        self.phase = phase;
        self.lock.release();
        self.pending = None;
        self.job = None;
        self.staged = None;
    }

    /// Ends the operation with a failure.
    fn fail(&mut self, e: EngineError) -> (a: Action)
        requires
            old(self).states.wf(),
        ensures
            final(self).wf(),
            (final(self)@, a@) == fail_with(old(self)@, e@),
    {
        self.reset(Phase::Failed);
        Action::Finish { result: Err(e) }
    }

    /// Ends the operation well.
    fn finish(&mut self) -> (a: Action)
        requires
            old(self).states.wf(),
        ensures
            final(self).wf(),
            final(self)@ == finished(old(self)@),
            a@ == (ActionView::Finish { result: Ok(()) }),
    {
        self.reset(Phase::Idle);
        Action::Finish { result: Ok(()) }
    }

    /// Whether the store records the name at the version.
    fn has_version(&self, name: &str, version: &str) -> (r: bool)
        requires
            self.states.wf(),
        ensures
            r == installed_at(self.states@, name@, version@),
    {
        match self.states.get(name) {
            Some(s) => str_eq(s.version.as_str(), version),
            None => false,
        }
    }

    /// Starts on a planned job, or fails with the reason why none was planned.
    fn proceed(&mut self, planned: Result<Job, EngineError>) -> (a: Action)
        requires
            old(self).states.wf(),
            old(self).lock.held,
            planned matches Ok(j) ==> j.urls.len() > 0,
        ensures
            final(self).wf(),
            (final(self)@, a@) == proceed_of(old(self)@, planned_view(planned)),
    {
        match planned {
            Err(e) => self.fail(e),
            Ok(job) => {
                let url = job.urls[0].clone();
                self.phase = Phase::Resolved;
                self.pending = None;
                self.job = Some(job);
                self.staged = None;
                Action::Download { url }
            },
        }
    }

    /// Takes the lock for an operation; `granted` says whether the lock of
    /// the file system was granted.
    pub fn acquire(&mut self, op: Operation, granted: bool) -> (r: Result<(), EngineError>)
        requires
            old(self).wf(),
        ensures
            final(self).wf(),
            final(self)@ == acquire_of(old(self)@, op@, granted).0,
            match acquire_of(old(self)@, op@, granted).1 {
                Some(e) => r is Err && r->Err_0@ == e,
                None => r is Ok,
            },
    {
        if self.lock.is_held() {
            return Err(EngineError::AlreadyRunning { lock_path: self.lock.path.clone() });
        }
        match process_lock(self.lock.path.as_str(), granted) {
            Err(e) => {
                self.reset(Phase::Failed);
                Err(e)
            },
            Ok(_) => {
                let _ = self.lock.acquire();
                self.phase = Phase::LockAcquired;
                self.pending = Some(op);
                self.job = None;
                self.staged = None;
                Ok(())
            },
        }
    }

    /// Resolves a pending install.
    fn resolve_install(
        &mut self,
        store: &PackageStore,
        name: String,
        version: Option<String>,
        os: &str,
        arch: &str,
    ) -> (a: Action)
        requires
            old(self).states.wf(),
            old(self).lock.held,
            old(self).phase == Phase::LockAcquired,
        ensures
            final(self).wf(),
            (final(self)@, a@) == resolve_of(
                InstallerView {
                    phase: old(self)@.phase,
                    lock: old(self)@.lock,
                    states: old(self)@.states,
                    pending: Some(OperationView::Install { name: name@, version: opt_view(version) }),
                    job: old(self)@.job,
                    staged: old(self)@.staged,
                },
                store.manifests@,
                os@,
                arch@,
            ),
    {
        if let Some(asked) = &version {
            if self.has_version(name.as_str(), asked.as_str()) {
                return self.finish();
            }
        }
        match pick(&store.manifests, name.as_str(), as_opt_str(&version)) {
            None => self.fail(EngineError::NotFound { name }),
            Some(p) => {
                let v = match &version {
                    Some(v) => v.clone(),
                    None => own_version(p),
                };
                if self.has_version(name.as_str(), v.as_str()) {
                    self.finish()
                } else {
                    let planned = plan(JobKind::Install, name.as_str(), v.as_str(), p, os, arch);
                    self.proceed(planned)
                }
            },
        }
    }

    /// Resolves a pending uninstall.
    fn resolve_uninstall(&mut self, store: &PackageStore, name: String, os: &str, arch: &str) -> (a:
        Action)
        requires
            old(self).states.wf(),
            old(self).lock.held,
            old(self).phase == Phase::LockAcquired,
        ensures
            final(self).wf(),
            (final(self)@, a@) == resolve_of(
                InstallerView {
                    phase: old(self)@.phase,
                    lock: old(self)@.lock,
                    states: old(self)@.states,
                    pending: Some(OperationView::Uninstall { name: name@ }),
                    job: old(self)@.job,
                    staged: old(self)@.staged,
                },
                store.manifests@,
                os@,
                arch@,
            ),
    {
        let version = match self.states.get(name.as_str()) {
            Some(s) => s.version.clone(),
            None => {
                return self.fail(EngineError::NotInstalled { name });
            },
        };
        match removal_commands(&store.manifests, name.as_str(), version.as_str(), os, arch) {
            Err(command) => self.fail(EngineError::CommandExecutionFailed { command }),
            Ok(commands) => {
                let job = Job {
                    kind: JobKind::Uninstall,
                    name,
                    version,
                    checksum: None,
                    urls: Vec::new(),
                    commands,
                };
                assert(views(job.urls@) =~= Seq::<Seq<char>>::empty());
                let action = apply_for(&job);
                self.phase = Phase::Verified;
                self.pending = None;
                self.job = Some(job);
                self.staged = None;
                action
            },
        }
    }

    /// Resolves a pending upgrade.
    fn resolve_upgrade(&mut self, store: &PackageStore, name: String, os: &str, arch: &str) -> (a:
        Action)
        requires
            old(self).states.wf(),
            old(self).lock.held,
            old(self).phase == Phase::LockAcquired,
        ensures
            final(self).wf(),
            (final(self)@, a@) == resolve_of(
                InstallerView {
                    phase: old(self)@.phase,
                    lock: old(self)@.lock,
                    states: old(self)@.states,
                    pending: Some(OperationView::Upgrade { name: name@ }),
                    job: old(self)@.job,
                    staged: old(self)@.staged,
                },
                store.manifests@,
                os@,
                arch@,
            ),
    {
        if self.states.get(name.as_str()).is_none() {
            return self.fail(EngineError::NotInstalled { name });
        }
        match pick(&store.manifests, name.as_str(), None) {
            None => self.fail(EngineError::NotFound { name }),
            Some(p) => {
                let v = own_version(p);
                if self.has_version(name.as_str(), v.as_str()) {
                    self.finish()
                } else {
                    let planned = plan(JobKind::Upgrade, name.as_str(), v.as_str(), p, os, arch);
                    self.proceed(planned)
                }
            },
        }
    }

    /// Resolves the pending operation against a store, for a platform.
    pub fn resolve(&mut self, store: &PackageStore, os: &str, arch: &str) -> (a: Action)
        requires
            old(self).wf(),
        ensures
            final(self).wf(),
            (final(self)@, a@) == resolve_of(old(self)@, store.manifests@, os@, arch@),
    {
        match self.phase {
            Phase::LockAcquired => {},
            _ => {
                return Action::Nothing;
            },
        }
        let op = match self.pending.take() {
            Some(op) => op,
            None => {
                return Action::Nothing;
            },
        };
        match op {
            Operation::Install { name, version } => self.resolve_install(
                store,
                name,
                version,
                os,
                arch,
            ),
            Operation::Uninstall { name } => self.resolve_uninstall(store, name, os, arch),
            Operation::Upgrade { name } => self.resolve_upgrade(store, name, os, arch),
        }
    }

    /// Takes the end of a download; `retrieved` says whether the artifact
    /// was fetched.
    pub fn downloaded(&mut self, retrieved: bool) -> (a: Action)
        requires
            old(self).wf(),
        ensures
            final(self).wf(),
            (final(self)@, a@) == downloaded_of(old(self)@, retrieved),
    {
        match self.phase {
            Phase::Resolved => {},
            _ => {
                return Action::Nothing;
            },
        }
        let mut job = match self.job.take() {
            Some(j) => j,
            None => {
                return Action::Nothing;
            },
        };
        if job.urls.len() == 0 {
            self.job = Some(job);
            return Action::Nothing;
        }
        if retrieved {
            self.job = Some(job);
            self.phase = Phase::Downloaded;
            return Action::Digest;
        }
        if job.urls.len() == 1 {
            return self.fail(EngineError::ArtifactUnavailable { name: job.name });
        }
        let ghost before = job.urls@;
        job.urls.remove(0);
        assert(views(job.urls@) =~= views(before).drop_first());
        let url = job.urls[0].clone();
        self.job = Some(job);
        Action::Download { url }
    }

    /// Takes the digest of the fetched artifact.
    pub fn verified(&mut self, digest: &str) -> (a: Action)
        requires
            old(self).wf(),
        ensures
            final(self).wf(),
            (final(self)@, a@) == verified_of(old(self)@, digest@),
    {
        match self.phase {
            Phase::Downloaded => {},
            _ => {
                return Action::Nothing;
            },
        }
        let job = match self.job.take() {
            Some(j) => j,
            None => {
                return Action::Nothing;
            },
        };
        let mismatch = match &job.checksum {
            Some(c) => !str_eq(c.as_str(), digest),
            None => false,
        };
        if mismatch {
            let expected = match job.checksum {
                Some(c) => c,
                None => String::new(),
            };
            return self.fail(
                EngineError::ChecksumMismatch { expected, actual: String::from_str(digest) },
            );
        }
        let action = apply_for(&job);
        self.job = Some(job);
        self.phase = Phase::Verified;
        action
    }

    /// The store as it stands once the pending write has succeeded.
    pub fn staged(&self) -> (r: &Option<InstallStateStore>)
        ensures
            *r == self.staged,
    {
        &self.staged
    }

    /// Takes the end of the work of the job.
    pub fn applied(&mut self, outcome: ApplyOutcome) -> (a: Action)
        requires
            old(self).wf(),
        ensures
            final(self).wf(),
            (final(self)@, a@) == applied_of(old(self)@, outcome@),
    {
        match self.phase {
            Phase::Verified => {},
            _ => {
                return Action::Nothing;
            },
        }
        let job = match self.job.take() {
            Some(j) => j,
            None => {
                return Action::Nothing;
            },
        };
        match outcome {
            ApplyOutcome::Failed { command } => self.fail(
                EngineError::CommandExecutionFailed { command },
            ),
            ApplyOutcome::Done { root, executables, installed_at } => {
                let mut staged = self.states.clone();
                match job.kind {
                    JobKind::Uninstall => {
                        staged.delete(job.name.as_str());
                    },
                    _ => {
                        staged.put(
                            InstalledPackageState {
                                name: job.name.clone(),
                                version: job.version.clone(),
                                root,
                                executables,
                                installed_at,
                            },
                        );
                    },
                }
                self.phase = Phase::Applied;
                self.pending = None;
                self.job = Some(job);
                self.staged = Some(staged);
                Action::Persist
            },
        }
    }

    /// Takes the end of the write of the staged store; `written` says
    /// whether it is on durable storage.
    pub fn persisted(&mut self, written: bool) -> (a: Action)
        requires
            old(self).wf(),
        ensures
            final(self).wf(),
            (final(self)@, a@) == persisted_of(old(self)@, written),
    {
        match self.phase {
            Phase::Applied => {},
            _ => {
                return Action::Nothing;
            },
        }
        let job = match self.job.take() {
            Some(j) => j,
            None => {
                return Action::Nothing;
            },
        };
        let staged = match self.staged.take() {
            Some(s) => s,
            None => {
                self.job = Some(job);
                return Action::Nothing;
            },
        };
        if written {
            self.states = staged;
            self.phase = Phase::StateUpdated;
            self.pending = None;
            Action::Release
        } else {
            self.fail(EngineError::StateNotPersisted { name: job.name })
        }
    }

    /// Takes the news that the lock of the file system was given back.
    pub fn released(&mut self) -> (a: Action)
        requires
            old(self).wf(),
        ensures
            final(self).wf(),
            (final(self)@, a@) == released_of(old(self)@),
    {
        match self.phase {
            Phase::StateUpdated => self.finish(),
            _ => Action::Nothing,
        }
    }
}

/// Installing a version that the store records already is a success without
/// a download: from a machine that holds no lock, the request takes the lock
/// and ends at once, whatever the manifests hold. No download is asked for,
/// the store is as it was, and the lock is free again.
pub proof fn lemma_install_recorded(
    m: InstallerView,
    name: Seq<char>,
    version: Seq<char>,
    manifests: Seq<Package>,
    os: Seq<char>,
    arch: Seq<char>,
)
    requires
        !m.lock.held,
        installed_at(m.states, name, version),
    ensures
        ({
            let request = OperationView::Install { name, version: Some(version) };
            let locked = acquire_of(m, request, true);
            let answer = resolve_of(locked.0, manifests, os, arch);
            &&& locked.1 is None
            &&& answer.1 == (ActionView::Finish { result: Ok(()) })
            &&& answer.0.states == m.states
            &&& answer.0.phase == Phase::Idle
            &&& !answer.0.lock.held
        }),
{
}

/// Installing a package a second time at the same version changes nothing.
/// Let a first install of a job end well, its store be written and the lock
/// given back. A second request for the same name and version, once it holds
/// the lock, ends at once with success: no download is asked for, and the
/// store is what the first install left.
pub proof fn lemma_install_twice(
    m: InstallerView,
    outcome: ApplyOutcomeView,
    manifests: Seq<Package>,
    os: Seq<char>,
    arch: Seq<char>,
)
    requires
        m.phase == Phase::Verified,
        m.lock.held,
        m.job is Some,
        m.job->Some_0.kind == JobKind::Install,
        outcome is Done,
    ensures
        ({
            let j = m.job->Some_0;
            let staged = applied_of(m, outcome).0;
            let recorded = persisted_of(staged, true).0;
            let idle = released_of(recorded).0;
            let again = OperationView::Install { name: j.name, version: Some(j.version) };
            let locked = acquire_of(idle, again, true);
            let second = resolve_of(locked.0, manifests, os, arch);
            &&& installed_at(recorded.states, j.name, j.version)
            &&& idle.phase == Phase::Idle && !idle.lock.held
            &&& locked.1 is None
            &&& second.1 == (ActionView::Finish { result: Ok(()) })
            &&& second.0.states == recorded.states
            &&& second.0.phase == Phase::Idle && !second.0.lock.held
        }),
{
}

/// A checksum mismatch fails the operation and leaves the install-state
/// store as it was: no record is made, and an earlier record of the name
/// stays untouched.
pub proof fn lemma_checksum_mismatch(m: InstallerView, digest: Seq<char>)
    requires
        m.phase == Phase::Downloaded,
        m.job is Some,
        m.job->Some_0.checksum is Some,
        m.job->Some_0.checksum->Some_0 != digest,
    ensures
        verified_of(m, digest).1 == (ActionView::Finish {
            result: Err(
                EngineErrorView::ChecksumMismatch {
                    expected: m.job->Some_0.checksum->Some_0,
                    actual: digest,
                },
            ),
        }),
        verified_of(m, digest).0.states == m.states,
        verified_of(m, digest).0.phase == Phase::Failed,
        !verified_of(m, digest).0.lock.held,
{
}

/// Uninstalling a package that has no record fails with `NotInstalled`: no
/// work is asked for, and the store is as it was.
pub proof fn lemma_uninstall_absent(
    m: InstallerView,
    name: Seq<char>,
    manifests: Seq<Package>,
    os: Seq<char>,
    arch: Seq<char>,
)
    requires
        m.phase == Phase::LockAcquired,
        m.pending == Some(OperationView::Uninstall { name }),
        !m.states.contains_key(name),
    ensures
        resolve_of(m, manifests, os, arch).1 == (ActionView::Finish {
            result: Err(EngineErrorView::NotInstalled { name }),
        }),
        resolve_of(m, manifests, os, arch).0.states == m.states,
        resolve_of(m, manifests, os, arch).0.phase == Phase::Failed,
        !resolve_of(m, manifests, os, arch).0.lock.held,
{
}

/// While an operation holds the lock, taking it for another fails with
/// `AlreadyRunning` and changes nothing; once the operation has ended, well
/// or not, the lock can be taken again.
pub proof fn lemma_one_operation_at_a_time(m: InstallerView, op: OperationView, granted: bool)
    ensures
        m.lock.held ==> acquire_of(m, op, granted) == (
            m,
            Some(EngineErrorView::AlreadyRunning { lock_path: m.lock.path }),
        ),
        !granted ==> acquire_of(m, op, granted).1 == Some(
            EngineErrorView::AlreadyRunning { lock_path: m.lock.path },
        ),
        acquire_of(finished(m), op, true).1 is None,
        acquire_of(failed(m), op, true).1 is None,
        acquire_of(finished(m), op, true).0.lock.held,
{
}

/// The install-state store changes in one step only: when the store that
/// finished work has staged is on durable storage. Every other step, and
/// every failure, a failed write among them, leaves it as it was.
pub proof fn lemma_store_changes_only_when_persisted(
    m: InstallerView,
    op: OperationView,
    granted: bool,
    manifests: Seq<Package>,
    os: Seq<char>,
    arch: Seq<char>,
    retrieved: bool,
    digest: Seq<char>,
    outcome: ApplyOutcomeView,
)
    ensures
        acquire_of(m, op, granted).0.states == m.states,
        resolve_of(m, manifests, os, arch).0.states == m.states,
        downloaded_of(m, retrieved).0.states == m.states,
        verified_of(m, digest).0.states == m.states,
        applied_of(m, outcome).0.states == m.states,
        persisted_of(m, false).0.states == m.states,
        released_of(m).0.states == m.states,
        failed(m).states == m.states,
{
}

/// What the write of the staged store makes of the store: exactly what the
/// finished work of the job left, and nothing before the write has succeeded.
pub proof fn lemma_persisted_store(m: InstallerView, outcome: ApplyOutcomeView)
    requires
        m.phase == Phase::Verified,
        m.job is Some,
        outcome is Done,
    ensures
        ({
            let j = m.job->Some_0;
            let staged = applied_of(m, outcome).0;
            let left = updated_states(
                m.states,
                j,
                outcome->Done_root,
                outcome->Done_executables,
                outcome->Done_installed_at,
            );
            &&& staged.phase == Phase::Applied
            &&& persisted_of(staged, true) == (
                InstallerView {
                    phase: Phase::StateUpdated,
                    lock: m.lock,
                    states: left,
                    pending: None,
                    job: None,
                    staged: None,
                },
                ActionView::Release,
            )
            &&& persisted_of(staged, false) == fail_with(
                staged,
                EngineErrorView::StateNotPersisted { name: j.name },
            )
            &&& persisted_of(staged, false).0.states == m.states
        }),
{
}

/// Every failure frees the lock: a step that ends an operation leaves the
/// machine idle or failed, with the lock free and nothing under way.
pub proof fn lemma_finish_frees_lock(
    m: InstallerView,
    manifests: Seq<Package>,
    os: Seq<char>,
    arch: Seq<char>,
    retrieved: bool,
    digest: Seq<char>,
    outcome: ApplyOutcomeView,
    written: bool,
)
    ensures
        ends_free(resolve_of(m, manifests, os, arch)),
        ends_free(downloaded_of(m, retrieved)),
        ends_free(verified_of(m, digest)),
        ends_free(applied_of(m, outcome)),
        ends_free(persisted_of(m, written)),
        ends_free(released_of(m)),
{
}

/// Whether a step that answers `Finish` leaves the lock free, no job under
/// way, and the machine idle after success and failed after a failure.
pub open spec fn ends_free(step: (InstallerView, ActionView)) -> bool {
    step.1 matches ActionView::Finish { result } ==> {
        &&& !step.0.lock.held
        &&& step.0.job is None
        &&& step.0.pending is None
        &&& step.0.staged is None
        &&& (result is Ok ==> step.0.phase == Phase::Idle)
        &&& (result is Err ==> step.0.phase == Phase::Failed)
    }
}

} // verus!
