//! Async-to-main-thread bridge: a FIFO queue of units of work produced by
//! background tasks and drained on the host's main thread.
//!
//! The bridge is the sole synchronization point between the background
//! execution context and the host's main loop. Background code schedules a
//! task; the host's per-tick hook pumps the queue, which hands back the
//! tasks that were pending at that moment, in the order they were scheduled,
//! each exactly once. A task scheduled while a pumped batch is being executed
//! lands in the next batch, so a runaway producer cannot stall the main
//! thread. Shutdown drains the queue without delivering: every pending task
//! is handed back as cancelled, and nothing is delivered afterwards.

use vstd::prelude::*;

verus! {

/// Lifecycle of the bridge: freshly created, running (the background context
/// exists and work is accepted), or shut down (no work is accepted and
/// nothing is delivered any more).
#[derive(Clone, Copy, Debug, PartialEq, Eq, Structural)]
pub enum BridgeState {
    Created,
    Running,
    ShutDown,
}

/// Misuse of the bridge lifecycle.
#[derive(Clone, Copy, Debug, PartialEq, Eq, Structural)]
pub enum BridgeError {
    /// `initialize` was called on a bridge that is not freshly created;
    /// re-initializing without a prior shutdown is rejected rather than
    /// silently overwriting the background context.
    AlreadyInitialized,
    /// `schedule` was called while the bridge does not accept work.
    NotRunning,
}

/// The queue of pending main-thread tasks, together with the history of
/// everything already delivered to the main thread.
///
/// `delivered()` is ghost bookkeeping: it grows only in `pump`, by exactly
/// the batch that `pump` hands back, so any property of the exec interface
/// ("each task is delivered once, in FIFO order, never after shutdown") can
/// be read off the relation between `pending()` and `delivered()`.
pub struct Bridge<T> {
    state: BridgeState,
    queue: Vec<T>,
    history: Ghost<Seq<T>>,
}

impl<T> Bridge<T> {
    /// Lifecycle stage of this bridge.
    pub closed spec fn lifecycle(self) -> BridgeState {
        self.state
    }

    /// The tasks scheduled but not yet delivered nor cancelled, oldest first.
    pub closed spec fn pending(self) -> Seq<T> {
        self.queue@
    }

    /// Every task ever handed to the main thread by `pump`, in delivery
    /// order.
    pub closed spec fn delivered(self) -> Seq<T> {
        self.history@
    }

    /// Creates a bridge with no background context yet: it accepts no work
    /// until `initialize` succeeds.
    pub fn new() -> (b: Bridge<T>)
        ensures
            b.lifecycle() is Created,
            b.pending() =~= Seq::<T>::empty(),
            b.delivered() =~= Seq::<T>::empty(),
    {
        Bridge { state: BridgeState::Created, queue: Vec::new(), history: Ghost(Seq::empty()) }
    }

    /// Whether the bridge currently accepts and delivers work.
    pub fn is_running(&self) -> (b: bool)
        ensures
            b == (self.lifecycle() is Running),
    {
        match self.state {
            BridgeState::Running => true,
            _ => false,
        }
    }

    /// Creates the background execution context. Callable at most once per
    /// lifecycle: a second call, or a call after shutdown, is rejected and
    /// leaves the bridge untouched.
    pub fn initialize(&mut self) -> (r: Result<(), BridgeError>)
        ensures
            initialize_rel(*old(self), *final(self), r),
    {
        match self.state {
            BridgeState::Created => {
                self.state = BridgeState::Running;
                Ok(())
            },
            _ => Err(BridgeError::AlreadyInitialized),
        }
    }

    /// Schedules a task to run on the main thread during a later `pump`.
    /// Does not block; accepted only while the bridge is running.
    pub fn schedule(&mut self, task: T) -> (r: Result<(), BridgeError>)
        ensures
            schedule_rel(*old(self), *final(self), task, r),
    {
        match self.state {
            BridgeState::Running => {
                self.queue.push(task);
                Ok(())
            },
            _ => Err(BridgeError::NotRunning),
        }
    }

    /// Drains the queue on the main thread: hands back exactly the tasks
    /// pending at the moment of the call, oldest first, and records them as
    /// delivered. A task scheduled after this call returns — for instance by
    /// one of the handed-back tasks while it executes — belongs to the next
    /// pump, never to this batch. After shutdown, pump delivers nothing.
    pub fn pump(&mut self) -> (batch: Vec<T>)
        ensures
            pump_rel(*old(self), *final(self), batch@),
    {
        match self.state {
            BridgeState::Running => {
                let mut batch: Vec<T> = Vec::new();
                std::mem::swap(&mut batch, &mut self.queue);
                proof {
                    self.history@ = self.history@ + batch@;
                }
                batch
            },
            _ => Vec::new(),
        }
    }

    /// Stops accepting work and drains the queue without delivering: every
    /// pending task is handed back as cancelled so that whoever awaits it can
    /// be resolved rather than left to hang. Nothing is delivered by this
    /// call, and `pump_rel` guarantees nothing will be delivered afterwards.
    pub fn shutdown(&mut self) -> (cancelled: Vec<T>)
        ensures
            shutdown_rel(*old(self), *final(self), cancelled@),
    {
        self.state = BridgeState::ShutDown;
        let mut cancelled: Vec<T> = Vec::new();
        std::mem::swap(&mut cancelled, &mut self.queue);
        cancelled
    }
}

/// What `initialize` does: a freshly created bridge starts running; any
/// other bridge is left unchanged and the call reports the misuse.
pub open spec fn initialize_rel<T>(
    pre: Bridge<T>,
    post: Bridge<T>,
    r: Result<(), BridgeError>,
) -> bool {
    &&& post.pending() == pre.pending()
    &&& post.delivered() == pre.delivered()
    &&& if pre.lifecycle() is Created {
        post.lifecycle() is Running && r is Ok
    } else {
        post.lifecycle() == pre.lifecycle() && r == Result::<(), BridgeError>::Err(
            BridgeError::AlreadyInitialized,
        )
    }
}

/// What `schedule` does: while running, the task is appended to the pending
/// queue and nothing is delivered; otherwise the bridge is unchanged and the
/// caller is told the bridge does not accept work.
pub open spec fn schedule_rel<T>(
    pre: Bridge<T>,
    post: Bridge<T>,
    task: T,
    r: Result<(), BridgeError>,
) -> bool {
    &&& post.lifecycle() == pre.lifecycle()
    &&& post.delivered() == pre.delivered()
    &&& if pre.lifecycle() is Running {
        post.pending() == pre.pending().push(task) && r is Ok
    } else {
        post.pending() == pre.pending() && r == Result::<(), BridgeError>::Err(
            BridgeError::NotRunning,
        )
    }
}

/// What `pump` does: while running, the batch is exactly the pending queue
/// (a snapshot, oldest first), the queue is left empty, and the batch is
/// appended to the delivery history; otherwise nothing is handed back and
/// nothing changes.
pub open spec fn pump_rel<T>(pre: Bridge<T>, post: Bridge<T>, batch: Seq<T>) -> bool {
    &&& post.lifecycle() == pre.lifecycle()
    &&& if pre.lifecycle() is Running {
        &&& batch == pre.pending()
        &&& post.pending() == Seq::<T>::empty()
        &&& post.delivered() == pre.delivered() + batch
    } else {
        &&& batch == Seq::<T>::empty()
        &&& post.pending() == pre.pending()
        &&& post.delivered() == pre.delivered()
    }
}

/// What `shutdown` does: the bridge stops accepting work, every pending task
/// is handed back as cancelled, and the delivery history does not grow — a
/// task awaiting delivery is resolved by cancellation, never executed.
pub open spec fn shutdown_rel<T>(pre: Bridge<T>, post: Bridge<T>, cancelled: Seq<T>) -> bool {
    &&& post.lifecycle() is ShutDown
    &&& cancelled == pre.pending()
    &&& post.pending() == Seq::<T>::empty()
    &&& post.delivered() == pre.delivered()
}

/// FIFO delivery: scheduling task `a` and then task `b` from background code
/// makes the next pump hand them back with `a` immediately before `b`, at
/// the end of the batch, each exactly once; on an empty queue the batch is
/// exactly `[a, b]`.
pub proof fn lemma_fifo_callback_order<T>(
    b0: Bridge<T>,
    b1: Bridge<T>,
    b2: Bridge<T>,
    b3: Bridge<T>,
    a: T,
    b: T,
    batch: Seq<T>,
)
    requires
        b0.lifecycle() is Running,
        schedule_rel(b0, b1, a, Ok(())),
        schedule_rel(b1, b2, b, Ok(())),
        pump_rel(b2, b3, batch),
    ensures
        batch.len() == b0.pending().len() + 2,
        batch[batch.len() - 2] == a,
        batch[batch.len() - 1] == b,
        b3.delivered() == b0.delivered() + batch,
        b3.pending() == Seq::<T>::empty(),
        b0.pending().len() == 0 ==> batch =~= seq![a, b],
{
}

/// Pump snapshot semantics: a task scheduled between two pumps — in
/// particular, by a task of the first batch while it executes — is not part
/// of the first batch; the second pump delivers it. Starting from the first
/// pump, the second batch is exactly the tasks scheduled in between.
pub proof fn lemma_pump_snapshot<T>(
    b0: Bridge<T>,
    b1: Bridge<T>,
    b2: Bridge<T>,
    b3: Bridge<T>,
    c: T,
    batch1: Seq<T>,
    batch2: Seq<T>,
)
    requires
        b0.lifecycle() is Running,
        pump_rel(b0, b1, batch1),
        schedule_rel(b1, b2, c, Ok(())),
        pump_rel(b2, b3, batch2),
    ensures
        batch1 == b0.pending(),
        batch2 =~= seq![c],
        b3.delivered() == b0.delivered() + b0.pending() + seq![c],
{
    assert(batch2 =~= seq![c]);
    assert(b3.delivered() =~= b0.delivered() + b0.pending() + seq![c]);
}

/// Shutdown drains safely: shutting down while tasks are still pending hands
/// every one of them back as cancelled, delivers none of them, and a pump
/// after shutdown delivers nothing either — no task is executed after
/// shutdown, and none is left awaiting a pump that never comes.
pub proof fn lemma_shutdown_drains_safely<T>(
    b0: Bridge<T>,
    b1: Bridge<T>,
    b2: Bridge<T>,
    cancelled: Seq<T>,
    batch: Seq<T>,
)
    requires
        shutdown_rel(b0, b1, cancelled),
        pump_rel(b1, b2, batch),
    ensures
        cancelled == b0.pending(),
        b1.delivered() == b0.delivered(),
        batch =~= Seq::<T>::empty(),
        b2.delivered() == b0.delivered(),
        b2.pending() =~= Seq::<T>::empty(),
{
}

} // verus!
