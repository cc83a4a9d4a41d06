//! The worker-process supervisor's decisions.
//!
//! `BackendManager` owns the handle of at most one worker process, of whatever type
//! the caller uses for it. A start first reserves the slot, so that a second start,
//! whenever it comes, is refused until the slot is empty again; the caller spawns the
//! process and reports the outcome. Stopping hands the handle back for termination and
//! leaves the slot empty whatever termination reports. Liveness is probed by the
//! caller and combined here with whether a handle is held.

use vstd::prelude::*;
use vstd::string::StringExecFns;

verus! {

/// The pause, in milliseconds, between stopping and starting again on a restart, so
/// that the operating system releases the port.
pub const RESTART_GRACE_MS: u64 = 500;

/// Why a supervisor operation failed.
#[derive(Debug, PartialEq, Eq)]
pub enum BackendError {
    /// A worker is already held, or being started.
    AlreadyRunning,
    /// The worker could not be spawned, for the reason given.
    SpawnFailed(String),
    /// The worker could not be sent a termination signal, for the reason given.
    KillFailed(String),
    /// The supervisor's lock could not be taken, for the reason given.
    LockFailed(String),
}

impl BackendError {
    /// The text that the command layer reports for this error.
    pub fn message(&self) -> (r: String)
        ensures
            self is AlreadyRunning ==> r@ == "Backend is already running"@,
            self matches BackendError::SpawnFailed(e) ==> r@ == "Failed to start backend: "@ + e@,
            self matches BackendError::KillFailed(e) ==> r@ == "Failed to kill backend: "@ + e@,
            self matches BackendError::LockFailed(e) ==> r@ == e@,
    {
        match self {
            BackendError::AlreadyRunning => "Backend is already running".to_owned(),
            BackendError::SpawnFailed(e) => {
                let mut r = "Failed to start backend: ".to_owned();
                r.append(e.as_str());
                r
            },
            BackendError::KillFailed(e) => {
                let mut r = "Failed to kill backend: ".to_owned();
                r.append(e.as_str());
                r
            },
            BackendError::LockFailed(e) => e.clone(),
        }
    }
}

/// What the supervisor holds of its worker.
pub enum Slot<H> {
    /// No worker.
    Empty,
    /// A start is under way.
    Reserved,
    /// The handle of the worker that was started.
    Held(H),
}

/// The outcome of asking to start from a slot.
pub open spec fn start_outcome<H>(slot: Slot<H>) -> Result<(), BackendError> {
    if slot is Empty {
        Ok(())
    } else {
        Err(BackendError::AlreadyRunning)
    }
}

/// The slot after asking to start.
pub open spec fn after_start_request<H>(slot: Slot<H>) -> Slot<H> {
    if slot is Empty {
        Slot::Reserved
    } else {
        slot
    }
}

/// The slot after the spawn that a reservation was made for.
pub open spec fn after_spawn<H>(spawned: Result<H, String>) -> Slot<H> {
    match spawned {
        Ok(h) => Slot::Held(h),
        Err(_) => Slot::Empty,
    }
}

/// The slot after a stop.
pub open spec fn after_stop<H>(slot: Slot<H>) -> Slot<H> {
    if slot is Held {
        Slot::Empty
    } else {
        slot
    }
}

/// Whether the worker counts as running, given what a liveness probe of the held
/// process reported.
pub open spec fn running<H>(slot: Slot<H>, alive: bool) -> bool {
    slot is Held && alive
}

/// The status that the command layer reports.
pub struct BackendStatus {
    pub running: bool,
    pub port: u16,
}

/// The supervisor of one worker process, whose handle has type `H`.
pub struct BackendManager<H> {
    child: Option<H>,
    starting: bool,
    port: u16,
}

impl<H> BackendManager<H> {
    /// What the supervisor holds of its worker.
    pub closed spec fn slot(&self) -> Slot<H> {
        match self.child {
            Some(h) => Slot::Held(h),
            None => if self.starting {
                Slot::Reserved
            } else {
                Slot::Empty
            },
        }
    }

    /// The port that the worker is told to listen on.
    pub closed spec fn port_spec(&self) -> u16 {
        self.port
    }

    /// A supervisor with no worker, for the given port.
    pub fn new(port: u16) -> (r: Self)
        ensures
            r.slot() is Empty,
            r.port_spec() == port,
    {
        BackendManager { child: None, starting: false, port }
    }

    /// The port fixed at construction.
    pub fn get_port(&self) -> (r: u16)
        ensures
            r == self.port_spec(),
    {
        self.port
    }

    /// Asks to start a worker: succeeds, and reserves the slot, only where no worker is
    /// held or being started.
    pub fn begin_start(&mut self) -> (r: Result<(), BackendError>)
        ensures
            r == start_outcome(old(self).slot()),
            final(self).slot() == after_start_request(old(self).slot()),
            final(self).port_spec() == old(self).port_spec(),
    {
        if self.child.is_none() && !self.starting {
            self.starting = true;
            Ok(())
        } else {
            Err(BackendError::AlreadyRunning)
        }
    }

    /// Records the outcome of the spawn that `begin_start` reserved the slot for: the
    /// handle is held where it succeeded, and the slot is emptied where it failed.
    pub fn finish_start(&mut self, spawned: Result<H, String>) -> (r: Result<(), BackendError>)
        requires
            old(self).slot() is Reserved,
        ensures
            final(self).slot() == after_spawn(spawned),
            final(self).port_spec() == old(self).port_spec(),
            match spawned {
                Ok(_) => r is Ok,
                Err(e) => r == Err::<(), BackendError>(BackendError::SpawnFailed(e)),
            },
    {
        self.starting = false;
        match spawned {
            Ok(h) => {
                self.child = Some(h);
                Ok(())
            },
            Err(e) => Err(BackendError::SpawnFailed(e)),
        }
    }

    /// Hands out the held worker for termination, leaving the slot empty; nothing where
    /// no worker is held.
    pub fn take_child(&mut self) -> (r: Option<H>)
        ensures
            final(self).slot() == after_stop(old(self).slot()),
            final(self).port_spec() == old(self).port_spec(),
            match old(self).slot() {
                Slot::Held(h) => r == Some(h),
                _ => r is None,
            },
    {
        let taken = self.child.take();
        if taken.is_some() {
            self.starting = false;
        }
        taken
    }

    /// The held worker, to be probed for liveness.
    pub fn child(&self) -> (r: Option<&H>)
        ensures
            match self.slot() {
                Slot::Held(h) => r == Some(&h),
                _ => r is None,
            },
    {
        self.child.as_ref()
    }

    /// Whether the worker is running, given what probing the held process reported;
    /// `false` where no worker is held, whatever the probe said.
    pub fn is_running(&self, alive: bool) -> (r: bool)
        ensures
            r == running(self.slot(), alive),
    {
        self.child.is_some() && alive
    }

    /// The status to report, given what probing the held process reported.
    pub fn status(&self, alive: bool) -> (r: BackendStatus)
        ensures
            r.running == running(self.slot(), alive),
            r.port == self.port_spec(),
    {
        BackendStatus { running: self.is_running(alive), port: self.port }
    }
}

/// Where a restart stands: each stage names the work the caller does next.
pub enum RestartStage {
    /// Stop the worker.
    Stopping,
    /// Sleep for `RESTART_GRACE_MS`.
    Pausing,
    /// Start the worker.
    Starting,
    /// Return this outcome.
    Finished(Result<(), BackendError>),
}

/// The stage that follows `stage` once its work had `outcome`.
pub open spec fn next_stage(stage: RestartStage, outcome: Result<(), BackendError>) -> RestartStage {
    match stage {
        RestartStage::Stopping => match outcome {
            Ok(()) => RestartStage::Pausing,
            Err(e) => RestartStage::Finished(Err(e)),
        },
        RestartStage::Pausing => RestartStage::Starting,
        RestartStage::Starting => RestartStage::Finished(outcome),
        RestartStage::Finished(r) => RestartStage::Finished(r),
    }
}

/// Advances a restart: a failed stop ends it with that error, a successful stop is
/// followed by the pause, the pause by the start, and the start's outcome ends it.
pub fn restart_next(stage: RestartStage, outcome: Result<(), BackendError>) -> (r: RestartStage)
    ensures
        r == next_stage(stage, outcome),
{
    match stage {
        RestartStage::Stopping => match outcome {
            Ok(()) => RestartStage::Pausing,
            Err(e) => RestartStage::Finished(Err(e)),
        },
        RestartStage::Pausing => RestartStage::Starting,
        RestartStage::Starting => RestartStage::Finished(outcome),
        RestartStage::Finished(r) => RestartStage::Finished(r),
    }
}

/// Two starts on one supervisor with no worker: whichever asks first reserves the slot,
/// and the other is refused with `AlreadyRunning`, both while the first spawn is under
/// way and after it succeeded.
pub proof fn lemma_start_exclusive<H>(slot: Slot<H>, handle: H)
    requires
        slot is Empty,
    ensures
        start_outcome(slot) is Ok,
        after_start_request(slot) is Reserved,
        start_outcome(after_start_request(slot)) == Err::<(), BackendError>(BackendError::AlreadyRunning),
        start_outcome(after_spawn::<H>(Ok(handle))) == Err::<(), BackendError>(BackendError::AlreadyRunning),
{
}

/// A new supervisor is not running; after a successful start it is running exactly
/// while the process is alive; after a stop it is not running.
pub proof fn lemma_lifecycle<H>(port: u16, handle: H, alive: bool)
    ensures
        !running(Slot::<H>::Empty, alive),
        running(after_spawn::<H>(Ok(handle)), alive) == alive,
        !running(after_stop(after_spawn::<H>(Ok(handle))), alive),
{
}

/// A restart pauses only after a stop that succeeded, and starts only after the pause.
pub proof fn lemma_restart_order(stage: RestartStage, outcome: Result<(), BackendError>)
    ensures
        next_stage(stage, outcome) is Pausing ==> stage is Stopping && outcome is Ok,
        next_stage(stage, outcome) is Starting ==> stage is Pausing,
{
}

}
