//! The driver supervisor.
//!
//! One browser/automation driver process serves a whole run: the supervisor
//! decides which executable to use, owns the spawned process exclusively,
//! hands out capability handles (one logical page per worker) while the
//! process runs, and tears everything down exactly once — on success, on
//! partial failure, and on a fatal abort alike. The actual spawning, the
//! protocol traffic and the kill are performed by the unverified shell,
//! which mirrors every lifecycle step into this state machine.

use vstd::prelude::*;

verus! {

/// A failure that aborts the run before or besides any per-target work;
/// per-target failures are never one of these.
#[derive(Clone, Copy, Debug, PartialEq, Eq)]
pub enum FatalError {
    /// No driver executable was supplied and none could be discovered.
    DriverNotFound,
    /// A discovered executable could not be started.
    DriverSpawnFailure,
    /// The run's infrastructure failed, e.g. the output directory could not
    /// be created.
    SchedulerFatal,
}

impl FatalError {
    /// A short description of the failure, for the run's summary line.
    pub fn describe(&self) -> (r: &str)
        ensures
            self is DriverNotFound ==> r@ == "no driver executable found"@,
            self is DriverSpawnFailure ==> r@ == "the driver executable could not be started"@,
            self is SchedulerFatal ==> r@ == "the run's infrastructure failed"@,
    {
        match self {
            FatalError::DriverNotFound => "no driver executable found",
            FatalError::DriverSpawnFailure => "the driver executable could not be started",
            FatalError::SchedulerFatal => "the run's infrastructure failed",
        }
    }
}

/// Choose the driver executable: an explicitly supplied path wins, then an
/// environment override, then the first discovered well-known installation;
/// with none of the three the run aborts with `DriverNotFound` before any
/// work starts.
pub fn discover_driver(
    explicit: Option<String>,
    env_override: Option<String>,
    discovered: Vec<String>,
) -> (r: Result<String, FatalError>)
    ensures
        explicit is Some ==> r == Ok::<String, FatalError>(explicit->0),
        explicit is None && env_override is Some ==> r == Ok::<String, FatalError>(
            env_override->0,
        ),
        explicit is None && env_override is None && discovered@.len() > 0 ==> r == Ok::<
            String,
            FatalError,
        >(discovered@[0]),
        explicit is None && env_override is None && discovered@.len() == 0 ==> r == Err::<
            String,
            FatalError,
        >(FatalError::DriverNotFound),
{
    match explicit {
        Some(path) => Ok(path),
        None => match env_override {
            Some(path) => Ok(path),
            None => {
                let mut discovered = discovered;
                if discovered.len() > 0 {
                    Ok(discovered.remove(0))
                } else {
                    Err(FatalError::DriverNotFound)
                }
            },
        },
    }
}

/// Where the managed driver process stands in its life.
pub enum DriverPhase {
    /// Nothing spawned yet.
    Idle,
    /// The driver process is alive and serving capability handles.
    Running,
    /// The driver process was terminated and waited for. Terminal: a
    /// released supervisor accepts no further operation.
    Released,
}

/// The owner of the driver process's lifecycle. It counts what the shell
/// spawned and what it handed out, so that release provably leaves nothing
/// behind.
pub struct Supervisor {
    phase: DriverPhase,
    live_children: usize,
    open_handles: usize,
}

impl Supervisor {
    /// The lifecycle phase.
    pub closed spec fn phase(&self) -> DriverPhase {
        self.phase
    }

    /// How many spawned driver processes have not been terminated.
    pub closed spec fn live_children(&self) -> int {
        self.live_children as int
    }

    /// How many capability handles are open on the driver.
    pub closed spec fn open_handles(&self) -> int {
        self.open_handles as int
    }

    /// The lifecycle invariant: outside `Running` nothing is alive and
    /// nothing is handed out; while `Running`, exactly the one shared engine
    /// process lives.
    pub closed spec fn wf(&self) -> bool {
        &&& self.phase is Running ==> self.live_children == 1
        &&& !(self.phase is Running) ==> self.live_children == 0 && self.open_handles == 0
    }

    /// A supervisor that has spawned nothing.
    pub fn new() -> (s: Supervisor)
        ensures
            s.wf(),
            s.phase() is Idle,
            s.live_children() == 0,
            s.open_handles() == 0,
    {
        Supervisor { phase: DriverPhase::Idle, live_children: 0, open_handles: 0 }
    }

    /// Record that the one shared driver process was spawned. Allowed only
    /// once, from the idle state.
    pub fn record_spawn(&mut self)
        requires
            old(self).wf(),
            old(self).phase() is Idle,
        ensures
            final(self).wf(),
            final(self).phase() is Running,
            final(self).live_children() == 1,
            final(self).open_handles() == 0,
    {
        self.phase = DriverPhase::Running;
        self.live_children = 1;
    }

    /// Record that one capability handle (a logical page) was opened on the
    /// running driver.
    pub fn record_handle_opened(&mut self)
        requires
            old(self).wf(),
            old(self).phase() is Running,
            old(self).open_handles() < usize::MAX,
        ensures
            final(self).wf(),
            final(self).phase() is Running,
            final(self).live_children() == 1,
            final(self).open_handles() == old(self).open_handles() + 1,
    {
        self.open_handles = self.open_handles + 1;
    }

    /// Record the teardown: the driver process was terminated and waited
    /// for, and every handle died with it. Allowed exactly once, and leaves
    /// the terminal phase, so a process is never released twice and never
    /// survives its supervisor.
    pub fn release(&mut self)
        requires
            old(self).wf(),
            old(self).phase() is Running,
        ensures
            final(self).wf(),
            final(self).phase() is Released,
            final(self).live_children() == 0,
            final(self).open_handles() == 0,
    {
        self.phase = DriverPhase::Released;
        self.live_children = 0;
        self.open_handles = 0;
    }
}

impl Supervisor {
    /// Whether the driver process is alive and serving.
    pub fn is_running(&self) -> (r: bool)
        ensures
            r == self.phase() is Running,
    {
        matches!(self.phase, DriverPhase::Running)
    }

    /// Whether the teardown already happened.
    pub fn is_released(&self) -> (r: bool)
        ensures
            r == self.phase() is Released,
    {
        matches!(self.phase, DriverPhase::Released)
    }

    /// How many spawned driver processes have not been terminated.
    pub fn live_child_count(&self) -> (r: usize)
        ensures
            r as int == self.live_children(),
    {
        self.live_children
    }

    /// How many capability handles are open on the driver.
    pub fn open_handle_count(&self) -> (r: usize)
        ensures
            r as int == self.open_handles(),
    {
        self.open_handles
    }
}

/// After any run — success, partial failure, or fatal abort — a released
/// supervisor leaves zero driver children alive and zero handles open.
pub proof fn lemma_release_cleans_up(s: &Supervisor)
    requires
        s.wf(),
        s.phase() is Released,
    ensures
        s.live_children() == 0,
        s.open_handles() == 0,
{
}

} // verus!
