//! The process supervisor: the single piece of mutable lifecycle state for
//! the worker process, with the decision logic of every start and stop
//! attempt. The operating-system work itself — spawning, the grace-window
//! sleep, killing — happens outside; its outcome is handed in as a value, and
//! every state transition here is exact.

use vstd::prelude::*;

use crate::resolver::{
    apply_credential, app_dir_view, credential_name, env_view, resolve, resolve_spec,
    strings_view, LaunchSpec, Platform, ResolutionError, RunMode,
};

verus! {

/// Why a start attempt failed. None of these is fatal: the supervisor stays
/// usable after any of them.
#[derive(Debug, Clone, PartialEq, Eq)]
pub enum StartError {
    /// A worker is already supervised; no duplicate is launched.
    AlreadyRunning,
    /// The command resolver could not produce a command line.
    ResolutionFailed(ResolutionError),
    /// The operating system refused to spawn; the message is the OS error.
    SpawnFailed(String),
    /// The process exited within the grace window, with this exit code.
    ExitedImmediately(Option<i32>),
}

/// Why a stop attempt failed.
#[derive(Debug, Clone, PartialEq, Eq)]
pub enum StopError {
    /// No worker is supervised.
    NotRunning,
    /// The termination request failed; the message is the OS error. The
    /// supervisor's state is rolled back, so the worker still counts as
    /// running.
    KillFailed(String),
}

/// What came of launching the worker and probing its liveness: spawn refused,
/// exited within the grace window, or still alive after it.
#[derive(Debug, Clone, PartialEq, Eq)]
pub enum SpawnOutcome<H> {
    /// The spawn itself failed; the message is the OS error.
    Failed(String),
    /// The process exited within the grace window, with this exit code.
    ExitedEarly(Option<i32>),
    /// The process was still alive after the grace window; this is its handle.
    Alive(H),
}

/// The abstract state of the supervisor: the running flag and the handle it
/// holds, if any.
pub struct SupervisorModel<H> {
    /// Whether the supervisor believes a worker is active.
    pub running: bool,
    /// The handle of the supervised worker, if one is held.
    pub handle: Option<H>,
}

impl<H> SupervisorModel<H> {
    /// The supervisor's invariant: the running flag is true exactly when a
    /// handle is held. The two are only ever changed together.
    pub open spec fn inv(self) -> bool {
        self.running == (self.handle is Some)
    }
}

/// One start or stop attempt, seen abstractly: what the outside world
/// reported back while the supervisor's lock was held.
pub enum SupervisorEvent<H> {
    /// A start attempt that got as far as launching, with its outcome.
    StartAttempt(SpawnOutcome<H>),
    /// A stop attempt; the payload says whether the kill succeeded.
    StopAttempt(bool),
}

/// The state transition of one attempt. A start attempt on a running
/// supervisor, a failed spawn, an early exit, a stop attempt on an idle
/// supervisor and a failed kill all leave the state unchanged; only a live
/// spawn records the handle and only a successful kill releases it.
pub open spec fn step<H>(m: SupervisorModel<H>, e: SupervisorEvent<H>) -> SupervisorModel<H> {
    match e {
        SupervisorEvent::StartAttempt(outcome) => {
            if m.running {
                m
            } else {
                match outcome {
                    SpawnOutcome::Alive(h) => SupervisorModel { running: true, handle: Some(h) },
                    _ => m,
                }
            }
        },
        SupervisorEvent::StopAttempt(killed) => {
            if !m.running {
                m
            } else if killed {
                SupervisorModel { running: false, handle: None }
            } else {
                m
            }
        },
    }
}

/// The state after a whole sequence of attempts, applied in order.
pub open spec fn run_steps<H>(
    m: SupervisorModel<H>,
    events: Seq<SupervisorEvent<H>>,
) -> SupervisorModel<H>
    decreases events.len(),
{
    if events.len() == 0 {
        m
    } else {
        run_steps(step(m, events[0]), events.drop_first())
    }
}

/// One attempt preserves the invariant.
pub proof fn lemma_step_preserves_inv<H>(m: SupervisorModel<H>, e: SupervisorEvent<H>)
    requires
        m.inv(),
    ensures
        step(m, e).inv(),
{
}

/// For every sequence of start and stop attempts, whatever their outcomes,
/// the invariant holds afterwards: the running flag is true exactly when a
/// handle is held.
pub proof fn lemma_inv_preserved_by_any_sequence<H>(
    m: SupervisorModel<H>,
    events: Seq<SupervisorEvent<H>>,
)
    requires
        m.inv(),
    ensures
        run_steps(m, events).inv(),
    decreases events.len(),
{
    if events.len() > 0 {
        lemma_step_preserves_inv(m, events[0]);
        lemma_inv_preserved_by_any_sequence(step(m, events[0]), events.drop_first());
    }
}

/// A stop attempt whose kill fails leaves the state exactly as it was: the
/// rollback restores the handle and the running flag together.
pub proof fn lemma_failed_kill_rolls_back<H>(m: SupervisorModel<H>)
    requires
        m.inv(),
        m.running,
    ensures
        step(m, SupervisorEvent::StopAttempt(false)) == m,
{
}

/// A start attempt on a running supervisor changes nothing, whatever its
/// outcome reports.
pub proof fn lemma_start_while_running_changes_nothing<H>(
    m: SupervisorModel<H>,
    outcome: SpawnOutcome<H>,
)
    requires
        m.running,
    ensures
        step(m, SupervisorEvent::StartAttempt(outcome)) == m,
{
}

/// A stop attempt on an idle supervisor changes nothing, whether or not a
/// kill was reported to have succeeded.
pub proof fn lemma_stop_while_idle_changes_nothing<H>(m: SupervisorModel<H>, killed: bool)
    requires
        !m.running,
    ensures
        step(m, SupervisorEvent::StopAttempt(killed)) == m,
{
}

/// From an idle state, a start whose worker survives the grace window,
/// followed by a stop whose kill succeeds, returns the supervisor exactly to
/// the state it started from.
pub proof fn lemma_start_stop_round_trip<H>(m: SupervisorModel<H>, h: H)
    requires
        m.inv(),
        !m.running,
    ensures
        step(
            step(m, SupervisorEvent::StartAttempt(SpawnOutcome::Alive(h))),
            SupervisorEvent::StopAttempt(true),
        ) == m,
{
}

/// The supervisor of the single worker process. It exclusively owns the
/// worker's handle; callers only act on it through the operations here.
///
/// Every operation preserves the invariant that the running flag is true
/// exactly when a handle is held, and `new` establishes it, so the invariant
/// holds after any sequence of calls.
pub struct Supervisor<H> {
    handle: Option<H>,
    running: bool,
}

impl<H> View for Supervisor<H> {
    type V = SupervisorModel<H>;

    closed spec fn view(&self) -> SupervisorModel<H> {
        SupervisorModel { running: self.running, handle: self.handle }
    }
}

impl<H> Supervisor<H> {
    /// A fresh supervisor: no worker tracked, not running.
    pub fn new() -> (r: Self)
        ensures
            r@ == (SupervisorModel::<H> { running: false, handle: None }),
            r@.inv(),
    {
        Supervisor { handle: None, running: false }
    }

    /// Whether the supervisor believes a worker is active. Read-only.
    pub fn status(&self) -> (r: bool)
        ensures
            r == self@.running,
    {
        self.running
    }

    /// The guard and resolution step of a start attempt: fails at once with
    /// `AlreadyRunning` if a worker is supervised, otherwise resolves the
    /// command line and applies the optional credential to the child's
    /// environment. Mutates nothing; the caller launches the result and hands
    /// the outcome to `apply_start`.
    pub fn prepare_start(
        &self,
        mode: RunMode,
        platform: Platform,
        app_data_dir: Option<String>,
        credential: Option<String>,
    ) -> (r: Result<LaunchSpec, StartError>)
        ensures
            self@.running ==> (r matches Err(e) && e is AlreadyRunning),
            !self@.running ==> match resolve_spec(mode, platform, app_dir_view(app_data_dir)) {
                Ok(p) => r matches Ok(ls) && ls.program@ == p.0 && strings_view(ls.args@) == p.1
                    && (match credential {
                    None => env_view(ls.env_overrides@).len() == 0,
                    Some(v) => env_view(ls.env_overrides@) == seq![(credential_name(), v@)],
                }),
                Err(re) => r matches Err(e) && e == StartError::ResolutionFailed(re),
            },
    {
        if self.running {
            return Err(StartError::AlreadyRunning);
        }
        match resolve(mode, platform, app_data_dir) {
            Err(re) => Err(StartError::ResolutionFailed(re)),
            Ok(ls) => {
                let ghost plain_env = ls.env_overrides@;
                let full = apply_credential(ls, credential);
                proof {
                    if credential is Some {
                        assert(env_view(plain_env).push(
                            (credential_name(), credential->0@),
                        ) =~= seq![(credential_name(), credential->0@)]);
                    }
                }
                Ok(full)
            },
        }
    }

    /// Records the outcome of a launch attempt. On a running supervisor the
    /// attempt fails with `AlreadyRunning` and changes nothing. Otherwise a
    /// refused spawn fails with `SpawnFailed`, a process that exited within
    /// the grace window fails with `ExitedImmediately` — neither is ever
    /// recorded as running — and only a live process is stored, which sets
    /// the running flag and the handle together.
    pub fn apply_start(&mut self, outcome: SpawnOutcome<H>) -> (r: Result<(), StartError>)
        ensures
            final(self)@ == step(old(self)@, SupervisorEvent::StartAttempt(outcome)),
            old(self)@.running ==> (r matches Err(e) && e is AlreadyRunning),
            !old(self)@.running ==> match outcome {
                SpawnOutcome::Failed(msg) => r matches Err(e) && (e matches
                    StartError::SpawnFailed(m) && m@ == msg@),
                SpawnOutcome::ExitedEarly(code) => r matches Err(e) && (e matches
                    StartError::ExitedImmediately(c) && c == code),
                SpawnOutcome::Alive(_) => r is Ok,
            },
            old(self)@.inv() ==> final(self)@.inv(),
    {
        if self.running {
            return Err(StartError::AlreadyRunning);
        }
        match outcome {
            SpawnOutcome::Failed(msg) => Err(StartError::SpawnFailed(msg)),
            SpawnOutcome::ExitedEarly(code) => Err(StartError::ExitedImmediately(code)),
            SpawnOutcome::Alive(h) => {
                self.handle = Some(h);
                self.running = true;
                Ok(())
            },
        }
    }

    /// The first half of a stop attempt: fails with `NotRunning` if no worker
    /// is supervised, otherwise releases the slot — flag and handle together —
    /// and hands the handle out for the caller to terminate. If the kill then
    /// fails, the caller restores the state with `rollback_stop`; if it
    /// succeeds, nothing more is needed.
    pub fn begin_stop(&mut self) -> (r: Result<H, StopError>)
        requires
            old(self)@.inv(),
        ensures
            final(self)@.inv(),
            !old(self)@.running ==> (r matches Err(e) && e is NotRunning)
                && final(self)@ == old(self)@,
            old(self)@.running ==> (r matches Ok(h) && old(self)@.handle == Some(h))
                && final(self)@ == (SupervisorModel::<H> { running: false, handle: None }),
    {
        if !self.running {
            return Err(StopError::NotRunning);
        }
        let taken = self.handle.take();
        self.running = false;
        match taken {
            Some(h) => Ok(h),
            None => {
                proof {
                    assert(false);
                }
                Err(StopError::NotRunning)
            },
        }
    }

    /// The rollback of a failed kill: puts the handle back and raises the
    /// running flag again, so the state never claims "not running" while a
    /// worker still exists. Valid exactly in the released state that
    /// `begin_stop` leaves behind.
    pub fn rollback_stop(&mut self, h: H)
        requires
            !old(self)@.running,
            old(self)@.handle is None,
        ensures
            final(self)@ == (SupervisorModel { running: true, handle: Some(h) }),
            final(self)@.inv(),
    {
        self.handle = Some(h);
        self.running = true;
    }
}

} // verus!
