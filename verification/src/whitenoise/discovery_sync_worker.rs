//! The worker that rebuilds the discovery subscriptions. Requests that come
//! in quick succession are answered together.

use vstd::prelude::*;
use vstd::string::StringExecFns;

use super::error::{Result, WhitenoiseError};

verus! {

/// How long the worker waits for a further request after a rebuild, in
/// milliseconds.
pub const DEBOUNCE_WINDOW: u64 = 500;

/// What the worker is at.
#[derive(Clone, Copy, PartialEq, Eq, Structural, Debug)]
pub enum Phase {
    /// It waits for a request or for the shutdown.
    Idle,
    Rebuilding,
    /// It waits for a request or for the window to pass.
    Debouncing,
    Stopped,
}

/// What happens to the worker.
#[derive(Clone, Copy, PartialEq, Eq, Structural, Debug)]
pub enum WorkerEvent {
    /// The worker takes a request up.
    Notified,
    /// The rebuild ended, well or not.
    Rebuilt { failed: bool },
    WindowPassed,
    Shutdown,
}

/// The state of the worker.
#[derive(Clone, Copy, PartialEq, Eq, Structural, Debug)]
pub struct DiscoverySyncWorker {
    pub phase: Phase,
    /// A request waits. There is room for one.
    pub requested: bool,
    /// How many rebuilds have ended.
    pub generation: u64,
}

impl DiscoverySyncWorker {
    /// Whether `event` can happen now. A request that waits is taken up before
    /// the window can pass, and the shutdown is noticed only when idle.
    pub open spec fn can(self, event: WorkerEvent) -> bool {
        match event {
            WorkerEvent::Notified => self.requested && (self.phase is Idle || self.phase is Debouncing),
            WorkerEvent::Rebuilt { .. } => self.phase is Rebuilding && self.generation < u64::MAX,
            WorkerEvent::WindowPassed => self.phase is Debouncing && !self.requested,
            WorkerEvent::Shutdown => self.phase is Idle,
        }
    }

    pub open spec fn after(self, event: WorkerEvent) -> DiscoverySyncWorker {
        match event {
            WorkerEvent::Notified => DiscoverySyncWorker {
                phase: Phase::Rebuilding,
                requested: false,
                ..self
            },
            WorkerEvent::Rebuilt { .. } => DiscoverySyncWorker {
                phase: Phase::Debouncing,
                generation: (self.generation + 1) as u64,
                ..self
            },
            WorkerEvent::WindowPassed => DiscoverySyncWorker { phase: Phase::Idle, ..self },
            WorkerEvent::Shutdown => DiscoverySyncWorker { phase: Phase::Stopped, ..self },
        }
    }

    pub open spec fn with_request(self) -> DiscoverySyncWorker {
        DiscoverySyncWorker { requested: true, ..self }
    }

    pub fn new() -> (worker: DiscoverySyncWorker)
        ensures
            worker == (DiscoverySyncWorker {
                phase: Phase::Idle,
                requested: false,
                generation: 0,
            }),
    {
        DiscoverySyncWorker { phase: Phase::Idle, requested: false, generation: 0 }
    }

    /// Asks for a rebuild.
    pub fn request_rebuild(&mut self)
        ensures
            *final(self) == old(self).with_request(),
    {
        self.requested = true;
    }

    /// Asks for a rebuild and returns the generation that has to be passed for
    /// the wait to be over.
    pub fn request_rebuild_and_wait(&mut self) -> (current: u64)
        ensures
            *final(self) == old(self).with_request(),
            current == old(self).generation,
    {
        let current: u64 = self.generation;
        self.requested = true;
        current
    }

    /// Takes a step of the worker's loop.
    pub fn run_with(&mut self, event: WorkerEvent)
        requires
            old(self).can(event),
        ensures
            *final(self) == old(self).after(event),
    {
        match event {
            WorkerEvent::Notified => {
                self.phase = Phase::Rebuilding;
                self.requested = false;
            },
            WorkerEvent::Rebuilt { .. } => {
                self.phase = Phase::Debouncing;
                self.generation = self.generation + 1;
            },
            WorkerEvent::WindowPassed => {
                self.phase = Phase::Idle;
            },
            WorkerEvent::Shutdown => {
                self.phase = Phase::Stopped;
            },
        }
    }
}

/// Whether a wait that began at `current` is over when the generation is
/// `generation`, and how. `gone` says that no further generation can come.
pub fn wait_outcome(current: u64, generation: u64, gone: bool) -> (outcome: Option<Result<()>>)
    ensures
        current < generation ==> outcome == Some(Ok::<(), WhitenoiseError>(())),
        generation <= current && gone ==> (outcome matches Some(Err(WhitenoiseError::Other(m))) && m@
            == "Discovery sync worker stopped"@),
        generation <= current && !gone ==> outcome is None,
{
    if current < generation {
        Some(Ok(()))
    } else if gone {
        Some(Err(WhitenoiseError::Other(String::from_str("Discovery sync worker stopped"))))
    } else {
        None
    }
}

/// A run of the worker: each event can happen when it does. Requests come in
/// between as `None`.
pub open spec fn run_state(worker: DiscoverySyncWorker, run: Seq<Option<WorkerEvent>>) -> DiscoverySyncWorker
    decreases run.len(),
{
    if run.len() == 0 {
        worker
    } else {
        let before = run_state(worker, run.drop_last());
        match run.last() {
            None => before.with_request(),
            Some(event) => before.after(event),
        }
    }
}

pub open spec fn run_possible(worker: DiscoverySyncWorker, run: Seq<Option<WorkerEvent>>) -> bool
    decreases run.len(),
{
    run.len() == 0 || (run_possible(worker, run.drop_last()) && (run.last() matches Some(event)
        ==> run_state(worker, run.drop_last()).can(event)))
}

/// How many rebuilds end in a run.
pub open spec fn rebuilds(run: Seq<Option<WorkerEvent>>) -> nat
    decreases run.len(),
{
    if run.len() == 0 {
        0
    } else {
        let before = rebuilds(run.drop_last());
        if run.last() is Some && run.last()->0 is Rebuilt {
            before + 1
        } else {
            before
        }
    }
}

/// How many requests come in a run.
pub open spec fn requests(run: Seq<Option<WorkerEvent>>) -> nat
    decreases run.len(),
{
    if run.len() == 0 {
        0
    } else if run.last() is None {
        requests(run.drop_last()) + 1
    } else {
        requests(run.drop_last())
    }
}

/// Requests that come before the worker takes one up count as one.
pub proof fn requests_coalesce(worker: DiscoverySyncWorker, run: Seq<Option<WorkerEvent>>)
    requires
        run.len() > 0,
        forall|i: int| 0 <= i < run.len() ==> (#[trigger] run[i]) is None,
    ensures
        run_state(worker, run) == worker.with_request(),
    decreases run.len(),
{
    assert(run.last() is None);
    if run.len() > 1 {
        let before = run.drop_last();
        assert forall|i: int| 0 <= i < before.len() implies (#[trigger] before[i]) is None by {
            assert(before[i] == run[i]);
        }
        requests_coalesce(worker, before);
    } else {
        assert(run_state(worker, run.drop_last()) == worker);
    }
}

/// The generation counts the rebuilds that ended, well or not.
pub proof fn generation_counts_rebuilds(worker: DiscoverySyncWorker, run: Seq<Option<WorkerEvent>>)
    requires
        run_possible(worker, run),
    ensures
        run_state(worker, run).generation == worker.generation + rebuilds(run),
    decreases run.len(),
{
    if run.len() > 0 {
        generation_counts_rebuilds(worker, run.drop_last());
    }
}

/// There are no more rebuilds than requests, from a worker that has nothing
/// to do.
pub proof fn no_rebuild_without_request(worker: DiscoverySyncWorker, run: Seq<Option<WorkerEvent>>)
    requires
        worker.phase is Idle,
        !worker.requested,
        run_possible(worker, run),
    ensures
        rebuilds(run) <= requests(run),
{
    lemma_requests_balance(worker, run);
}

proof fn lemma_requests_balance(worker: DiscoverySyncWorker, run: Seq<Option<WorkerEvent>>)
    requires
        worker.phase is Idle,
        !worker.requested,
        run_possible(worker, run),
    ensures
        ({
            let now = run_state(worker, run);
            let waiting: nat = if now.requested {
                1
            } else {
                0
            };
            let running: nat = if now.phase is Rebuilding {
                1
            } else {
                0
            };
            rebuilds(run) + running + waiting <= requests(run)
        }),
    decreases run.len(),
{
    if run.len() > 0 {
        lemma_requests_balance(worker, run.drop_last());
    }
}

/// No request is lost while the worker runs: it waits until the worker takes
/// it up, and no window passes meanwhile.
pub proof fn requests_are_not_lost(worker: DiscoverySyncWorker, event: WorkerEvent)
    requires
        worker.requested,
        worker.can(event),
    ensures
        worker.after(event).requested || worker.after(event).phase is Rebuilding,
        event !is WindowPassed,
{
}

/// A wait ends exactly when a rebuild has ended since it began.
pub proof fn waits_end_with_a_rebuild(worker: DiscoverySyncWorker, run: Seq<Option<WorkerEvent>>)
    requires
        run_possible(worker.with_request(), run),
    ensures
        worker.generation < run_state(worker.with_request(), run).generation <==> rebuilds(run) > 0,
{
    generation_counts_rebuilds(worker.with_request(), run);
}

/// When each event can happen: a request is taken up while the worker waits, a
/// rebuild ends while it rebuilds, the window passes while nothing is
/// requested, and the shutdown is noticed while it is idle.
pub proof fn events_have_their_time(worker: DiscoverySyncWorker, failed: bool)
    ensures
        worker.can(WorkerEvent::Notified) <==> worker.requested && (worker.phase == Phase::Idle
            || worker.phase == Phase::Debouncing),
        worker.can(WorkerEvent::Rebuilt { failed }) <==> worker.phase == Phase::Rebuilding
            && worker.generation < u64::MAX,
        worker.can(WorkerEvent::WindowPassed) <==> worker.phase == Phase::Debouncing && !worker.requested,
        worker.can(WorkerEvent::Shutdown) <==> worker.phase == Phase::Idle,
{
}

/// What each event changes: a request that is taken up waits no longer and
/// starts a rebuild, the end of a rebuild is counted and opens the window, the
/// end of the window makes the worker idle and the shutdown stops it. A request
/// in between waits. Nothing else changes.
pub proof fn events_change_one_thing(worker: DiscoverySyncWorker, failed: bool)
    ensures
        ({
            let now = worker.after(WorkerEvent::Notified);
            now.phase == Phase::Rebuilding && !now.requested && now.generation == worker.generation
        }),
        worker.generation < u64::MAX ==> {
            let now = worker.after(WorkerEvent::Rebuilt { failed });
            now.phase == Phase::Debouncing && now.requested == worker.requested && now.generation
                == worker.generation + 1
        },
        ({
            let now = worker.after(WorkerEvent::WindowPassed);
            now.phase == Phase::Idle && now.requested == worker.requested && now.generation
                == worker.generation
        }),
        ({
            let now = worker.after(WorkerEvent::Shutdown);
            now.phase == Phase::Stopped && now.requested == worker.requested && now.generation
                == worker.generation
        }),
        ({
            let now = worker.with_request();
            now.phase == worker.phase && now.requested && now.generation == worker.generation
        }),
        DEBOUNCE_WINDOW == 500,
{
}

/// A failed rebuild leaves the worker as a good one does.
pub proof fn failures_do_not_stop_the_worker(worker: DiscoverySyncWorker)
    requires
        worker.can(WorkerEvent::Rebuilt { failed: true }),
    ensures
        worker.after(WorkerEvent::Rebuilt { failed: true }) == worker.after(
            WorkerEvent::Rebuilt { failed: false },
        ),
        worker.after(WorkerEvent::Rebuilt { failed: true }).phase is Debouncing,
{
}

} // verus!
