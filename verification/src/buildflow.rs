//! Single-build-at-a-time process lifecycle.
//!
//! The engine guarantees that at most one primary build/run process is live
//! at any instant. Killing, spawning and waiting are outside work performed
//! by the caller; the decisions between those steps live here, in
//! [`BuildManager::step`]: a verified transition function from the current
//! lifecycle state and the outcome of the last outside step to the next
//! state and the next step to perform.

use vstd::prelude::*;
use crate::error::Error;

verus! {

/// Where the build lifecycle stands between two outside steps.
#[derive(Clone, Copy, Debug, PartialEq, Eq, Structural)]
pub enum BuildPhase {
    /// No build attempt is in progress.
    Idle,
    /// A kill of the stale recorded process was requested; remembers whether
    /// the build attempt that requested it needs the secondary build step.
    Killing { need_secondary: bool },
    /// The secondary build command is running to completion.
    SecondaryRunning,
    /// The primary build command is being spawned.
    PrimarySpawning,
}

/// The outcome of an outside step, reported back to the lifecycle.
#[derive(Debug)]
pub enum BuildEvent {
    /// A change was detected and a build was requested.
    Start { need_secondary: bool },
    /// The stale recorded process was killed.
    KillSucceeded,
    /// The stale recorded process could not be killed; holds the message.
    KillFailed { message: String },
    /// The secondary build command ran to completion.
    SecondaryFinished,
    /// The secondary build command could not be spawned; holds the message.
    SecondarySpawnFailed { message: String },
    /// Waiting for the secondary build's captured output failed; holds the
    /// message.
    SecondaryWaitFailed { message: String },
    /// The primary build command was spawned; holds its process id.
    PrimarySpawned { pid: u64 },
    /// The primary build command could not be spawned; holds the message.
    PrimarySpawnFailed { message: String },
    /// The application is shutting down.
    ShutdownRequested,
}

/// The next outside step the caller must perform.
#[derive(Debug)]
pub enum BuildAction {
    /// Nothing to perform; the lifecycle is at rest.
    Wait,
    /// Kill the process with this id, then report the outcome.
    Kill { pid: u64 },
    /// Run the secondary build command to completion, capture its output,
    /// then report the outcome.
    RunSecondary,
    /// Spawn the primary build command with piped output streams, then
    /// report the outcome.
    SpawnPrimary,
    /// The build attempt failed; report this error and return to rest.
    Fail { error: Error },
}

/// The build lifecycle state: the recorded live process, if any, and the
/// phase of the attempt in progress.
#[derive(Debug)]
pub struct BuildManager {
    /// The process id of the live primary build, if one is recorded.
    pub current: Option<u64>,
    /// The phase of the build attempt in progress.
    pub phase: BuildPhase,
}

impl BuildManager {
    /// The lifecycle's well-formedness: while an attempt is past the kill
    /// phase no process is recorded, and while a kill is pending one is.
    pub open spec fn wf(self) -> bool {
        match self.phase {
            BuildPhase::Idle => true,
            BuildPhase::Killing { .. } => self.current is Some,
            BuildPhase::SecondaryRunning => self.current is None,
            BuildPhase::PrimarySpawning => self.current is None,
        }
    }

    /// The phase and action that begin a build attempt once no stale
    /// process remains recorded.
    pub open spec fn spec_proceed(self, need_secondary: bool) -> (BuildManager, BuildAction) {
        if need_secondary {
            (
                BuildManager { phase: BuildPhase::SecondaryRunning, ..self },
                BuildAction::RunSecondary,
            )
        } else {
            (
                BuildManager { phase: BuildPhase::PrimarySpawning, ..self },
                BuildAction::SpawnPrimary,
            )
        }
    }

    /// The full transition relation of the lifecycle. An event that does not
    /// belong to the current phase changes nothing.
    pub open spec fn spec_step(self, event: BuildEvent) -> (BuildManager, BuildAction) {
        match (self.phase, event) {
            (BuildPhase::Idle, BuildEvent::Start { need_secondary }) => {
                match self.current {
                    Some(pid) => (
                        BuildManager { phase: BuildPhase::Killing { need_secondary }, ..self },
                        BuildAction::Kill { pid },
                    ),
                    None => self.spec_proceed(need_secondary),
                }
            },
            (BuildPhase::Killing { need_secondary }, BuildEvent::KillSucceeded) => {
                BuildManager { current: None, ..self }.spec_proceed(need_secondary)
            },
            (BuildPhase::Killing { .. }, BuildEvent::KillFailed { message }) => {
                // The stale handle is deliberately left recorded: the next
                // detected change will attempt the kill again.
                (
                    BuildManager { phase: BuildPhase::Idle, ..self },
                    BuildAction::Fail { error: Error::StdIo(message) },
                )
            },
            (BuildPhase::SecondaryRunning, BuildEvent::SecondaryFinished) => {
                (
                    BuildManager { phase: BuildPhase::PrimarySpawning, ..self },
                    BuildAction::SpawnPrimary,
                )
            },
            (BuildPhase::SecondaryRunning, BuildEvent::SecondarySpawnFailed { message }) => {
                (
                    BuildManager { phase: BuildPhase::Idle, ..self },
                    BuildAction::Fail { error: Error::BuildFailed(message) },
                )
            },
            (BuildPhase::SecondaryRunning, BuildEvent::SecondaryWaitFailed { message }) => {
                (
                    BuildManager { phase: BuildPhase::Idle, ..self },
                    BuildAction::Fail { error: Error::StdIo(message) },
                )
            },
            (BuildPhase::PrimarySpawning, BuildEvent::PrimarySpawned { pid }) => {
                (
                    BuildManager { current: Some(pid), phase: BuildPhase::Idle },
                    BuildAction::Wait,
                )
            },
            (BuildPhase::PrimarySpawning, BuildEvent::PrimarySpawnFailed { message }) => {
                (
                    BuildManager { phase: BuildPhase::Idle, ..self },
                    BuildAction::Fail { error: Error::BuildFailed(message) },
                )
            },
            (_, BuildEvent::ShutdownRequested) => {
                // On shutdown the recorded process is killed best-effort; the
                // handle stays recorded and no outcome is awaited.
                match self.current {
                    Some(pid) => (self, BuildAction::Kill { pid }),
                    None => (self, BuildAction::Wait),
                }
            },
            _ => (self, BuildAction::Wait),
        }
    }

    /// A lifecycle with nothing recorded and nothing in progress.
    pub fn new() -> (r: BuildManager)
        ensures
            r.current is None,
            r.phase is Idle,
            r.wf(),
    {
        BuildManager { current: None, phase: BuildPhase::Idle }
    }

    /// Feed the outcome of the last outside step to the lifecycle; the
    /// caller must perform the returned action and report its outcome.
    pub fn step(&mut self, event: BuildEvent) -> (r: BuildAction)
        requires
            old(self).wf(),
        ensures
            (*final(self), r) == old(self).spec_step(event),
            final(self).wf(),
    {
        proof {
            lemma_step_single_live(*self, event);
        }
        let next = match (self.phase, event) {
            (BuildPhase::Idle, BuildEvent::Start { need_secondary }) => {
                match self.current {
                    Some(pid) => (
                        BuildManager {
                            phase: BuildPhase::Killing { need_secondary },
                            current: self.current,
                        },
                        BuildAction::Kill { pid },
                    ),
                    None => self.proceed(need_secondary),
                }
            },
            (BuildPhase::Killing { need_secondary }, BuildEvent::KillSucceeded) => {
                BuildManager { current: None, phase: self.phase }.proceed(need_secondary)
            },
            (BuildPhase::Killing { .. }, BuildEvent::KillFailed { message }) => {
                (
                    BuildManager { phase: BuildPhase::Idle, current: self.current },
                    BuildAction::Fail { error: Error::StdIo(message) },
                )
            },
            (BuildPhase::SecondaryRunning, BuildEvent::SecondaryFinished) => {
                (
                    BuildManager { phase: BuildPhase::PrimarySpawning, current: self.current },
                    BuildAction::SpawnPrimary,
                )
            },
            (BuildPhase::SecondaryRunning, BuildEvent::SecondarySpawnFailed { message }) => {
                (
                    BuildManager { phase: BuildPhase::Idle, current: self.current },
                    BuildAction::Fail { error: Error::BuildFailed(message) },
                )
            },
            (BuildPhase::SecondaryRunning, BuildEvent::SecondaryWaitFailed { message }) => {
                (
                    BuildManager { phase: BuildPhase::Idle, current: self.current },
                    BuildAction::Fail { error: Error::StdIo(message) },
                )
            },
            (BuildPhase::PrimarySpawning, BuildEvent::PrimarySpawned { pid }) => {
                (
                    BuildManager { current: Some(pid), phase: BuildPhase::Idle },
                    BuildAction::Wait,
                )
            },
            (BuildPhase::PrimarySpawning, BuildEvent::PrimarySpawnFailed { message }) => {
                (
                    BuildManager { phase: BuildPhase::Idle, current: self.current },
                    BuildAction::Fail { error: Error::BuildFailed(message) },
                )
            },
            (_, BuildEvent::ShutdownRequested) => {
                match self.current {
                    Some(pid) => (
                        BuildManager { current: self.current, phase: self.phase },
                        BuildAction::Kill { pid },
                    ),
                    None => (
                        BuildManager { current: self.current, phase: self.phase },
                        BuildAction::Wait,
                    ),
                }
            },
            _ => (
                BuildManager { current: self.current, phase: self.phase },
                BuildAction::Wait,
            ),
        };
        *self = next.0;
        next.1
    }

    /// Begin the build steps proper, once no stale process is recorded.
    fn proceed(&self, need_secondary: bool) -> (r: (BuildManager, BuildAction))
        ensures
            r == self.spec_proceed(need_secondary),
    {
        if need_secondary {
            (
                BuildManager { phase: BuildPhase::SecondaryRunning, current: self.current },
                BuildAction::RunSecondary,
            )
        } else {
            (
                BuildManager { phase: BuildPhase::PrimarySpawning, current: self.current },
                BuildAction::SpawnPrimary,
            )
        }
    }
}

/// At most one build process is ever recorded as current: a well-formed
/// lifecycle stays well-formed, a step never exchanges one recorded process
/// id for another, and a new id is recorded only from a state in which none
/// is current.
pub proof fn lemma_step_single_live(s: BuildManager, event: BuildEvent)
    requires
        s.wf(),
    ensures
        s.spec_step(event).0.wf(),
        s.current is Some && s.spec_step(event).0.current is Some ==> s.spec_step(
            event,
        ).0.current == s.current,
        s.current is None && s.spec_step(event).0.current is Some ==> s.phase
            is PrimarySpawning && event is PrimarySpawned,
{
}

/// A build request made while a process is recorded as current always
/// attempts to terminate that process before anything else: the returned
/// action is a kill of the recorded id, and the id stays recorded until the
/// kill is confirmed.
pub proof fn lemma_kill_before_spawn(s: BuildManager, need_secondary: bool)
    requires
        s.wf(),
        s.phase is Idle,
        s.current is Some,
    ensures
        ({
            let (s2, action) = s.spec_step(BuildEvent::Start { need_secondary });
            &&& action == (BuildAction::Kill { pid: s.current->0 })
            &&& s2.current == s.current
            &&& s2.phase == (BuildPhase::Killing { need_secondary })
        }),
{
}

} // verus!
