//! Supervision of long-running listener and forwarding tasks.
//!
//! Every loop spawned around the engine (event relay, discovery relay and
//! the like) registers a handle here in spawn order.  Stopping the engine
//! — or shutting down — cancels every handle in reverse insertion order,
//! unconditionally and without waiting for the task's own teardown.  The
//! caller owns the actual task objects and aborts the ones whose handles
//! are returned.

use vstd::prelude::*;

verus! {

/// A cancellable reference to a running loop, tagged by the scheduler that
/// owns it: the multi-threaded asynchronous runtime or the single-threaded
/// cooperative user-interface scheduler.
#[derive(Debug, Clone, Copy, PartialEq, Eq, Structural)]
pub enum LoopingTaskHandle {
    /// A task on the asynchronous runtime, by task number.
    Tokio(u64),
    /// A task on the cooperative user-interface scheduler, by task number.
    Glib(u64),
}

/// What `stop_all` cancels: every registered handle, newest first.
pub open spec fn stop_all_cancelled(handles: Seq<LoopingTaskHandle>) -> Seq<LoopingTaskHandle> {
    handles.reverse()
}

/// What `stop_all` leaves registered: nothing.
pub open spec fn stop_all_remaining(handles: Seq<LoopingTaskHandle>) -> Seq<LoopingTaskHandle> {
    Seq::empty()
}

/// An ordered list of the handles of all running supervised tasks.
#[derive(Debug)]
pub struct TaskSupervisor {
    /// Registered handles, in spawn order.
    pub handles: Vec<LoopingTaskHandle>,
}

impl TaskSupervisor {
    /// A supervisor with no registered tasks.
    pub fn new() -> (r: Self)
        ensures
            r.handles@ == Seq::<LoopingTaskHandle>::empty(),
    {
        TaskSupervisor { handles: Vec::new() }
    }

    /// Registers a freshly spawned task's handle after all earlier ones.
    pub fn push(&mut self, handle: LoopingTaskHandle)
        ensures
            final(self).handles@ == old(self).handles@.push(handle),
    {
        self.handles.push(handle);
    }

    /// Number of registered handles.
    pub fn len(&self) -> (n: usize)
        ensures
            n == self.handles@.len(),
    {
        self.handles.len()
    }

    /// Unregisters every handle and returns them in reverse insertion
    /// order for the caller to cancel.  On an empty list this is a no-op
    /// that returns nothing, so stopping twice equals stopping once.
    pub fn stop_all(&mut self) -> (cancelled: Vec<LoopingTaskHandle>)
        ensures
            final(self).handles@ == stop_all_remaining(old(self).handles@),
            final(self).handles@.len() == 0,
            cancelled@ == stop_all_cancelled(old(self).handles@),
    {
        let ghost orig = self.handles@;
        let mut cancelled: Vec<LoopingTaskHandle> = Vec::new();
        loop
            invariant
                cancelled@.len() + self.handles@.len() == orig.len(),
                self.handles@ == orig.take(self.handles@.len() as int),
                forall|j: int| 0 <= j < cancelled@.len() ==> #[trigger] cancelled@[j] == orig[
                    orig.len() - 1 - j
                ],
            ensures
                self.handles@.len() == 0,
                cancelled@.len() == orig.len(),
                forall|j: int| 0 <= j < cancelled@.len() ==> #[trigger] cancelled@[j] == orig[
                    orig.len() - 1 - j
                ],
            decreases self.handles@.len(),
        {
            match self.handles.pop() {
                Option::Some(handle) => {
                    cancelled.push(handle);
                },
                Option::None => {
                    break ;
                },
            }
        }
        proof {
            assert(cancelled@ =~= stop_all_cancelled(orig));
        }
        cancelled
    }
}

/// After `stop_all` the handle list is empty; running `stop_all` again on
/// that empty list cancels nothing and leaves it empty — stopping twice
/// equals stopping once.
pub proof fn lemma_stop_all_idempotent(handles: Seq<LoopingTaskHandle>)
    ensures
        stop_all_remaining(handles).len() == 0,
        stop_all_remaining(stop_all_remaining(handles)) == stop_all_remaining(handles),
        stop_all_cancelled(stop_all_remaining(handles)) == Seq::<LoopingTaskHandle>::empty(),
{
    assert(stop_all_cancelled(stop_all_remaining(handles)) =~= Seq::<
        LoopingTaskHandle,
    >::empty());
}

} // verus!
