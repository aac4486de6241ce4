//! Progress tracking and the shutdown flush.
//!
//! A `ProgressTracker` holds the resume offset the run started from and a
//! counter of items whose full fetch-and-persist cycle has completed in
//! this run. The checkpoint value written to the durable store is always
//! `start_index + completed`. Both the periodic saver and the shutdown
//! handler compute the value through the same function, so a flush that
//! runs after exactly `m` completions writes `start_index + m` and nothing
//! else.

use vstd::prelude::*;

verus! {

/// Monotonic completed-item counter plus the run's resume offset.
pub struct ProgressTracker {
    /// Offset read from the checkpoint store when the run began.
    pub start_index: u64,
    /// Items that completed both fetch and persistence in this run.
    pub completed: u64,
}

/// What a shutdown flush reports: the checkpoint value it wrote and the
/// process exit code.
pub struct ShutdownReport {
    /// Checkpoint value flushed to the durable store.
    pub checkpoint: u64,
    /// Exit code of the process after a graceful shutdown.
    pub exit_code: u8,
}

impl ProgressTracker {
    /// The checkpoint value never overflows.
    pub open spec fn wf(self) -> bool {
        self.start_index + self.completed <= u64::MAX
    }

    /// Checkpoint value as a mathematical integer.
    pub open spec fn spec_checkpoint(self) -> int {
        self.start_index + self.completed
    }

    /// A tracker for a run resuming at `start_index`; nothing completed yet.
    pub fn new(start_index: u64) -> (t: ProgressTracker)
        ensures
            t.wf(),
            t.start_index == start_index,
            t.completed == 0,
    {
        ProgressTracker { start_index, completed: 0 }
    }

    /// Record that one more item finished its full fetch-and-persist
    /// cycle. The counter is strictly monotonic: it grows by exactly one
    /// per completed item and never decreases.
    pub fn record_completion(&mut self)
        requires
            old(self).wf(),
            old(self).start_index + old(self).completed + 1 <= u64::MAX,
        ensures
            final(self).wf(),
            final(self).start_index == old(self).start_index,
            final(self).completed == old(self).completed + 1,
            final(self).completed > old(self).completed,
    {
        self.completed = self.completed + 1;
    }

    /// The value every checkpoint write carries: the resume offset plus
    /// the number of items completed so far in this run.
    pub fn checkpoint_value(&self) -> (v: u64)
        requires
            self.wf(),
        ensures
            v == self.spec_checkpoint(),
    {
        self.start_index + self.completed
    }
}

/// The one flush the shutdown coordinator performs: it reports the current
/// checkpoint value — counting only items that had completed before the
/// signal was observed, never ones still in flight — and exit code 0.
pub fn shutdown_flush(tracker: &ProgressTracker) -> (r: ShutdownReport)
    requires
        tracker.wf(),
    ensures
        r.checkpoint == tracker.spec_checkpoint(),
        r.exit_code == 0,
{
    ShutdownReport { checkpoint: tracker.checkpoint_value(), exit_code: 0 }
}

/// The one flush operation: write the tracker's current checkpoint value
/// to the store's checkpoint row. The periodic saver and the shutdown
/// handler both go through this, so no other value is ever written.
pub fn flush_progress(tracker: &ProgressTracker, store: &mut crate::store::DurableStore)
    requires
        tracker.wf(),
        old(store).wf(),
    ensures
        final(store).wf(),
        final(store).movies@ == old(store).movies@,
        final(store).people@ == old(store).people@,
        final(store).roles@ == old(store).roles@,
        final(store).checkpoint == (if old(store).checkpoint is Some {
            Some((tracker.start_index + tracker.completed) as u64)
        } else {
            None::<u64>
        }),
{
    let value = tracker.checkpoint_value();
    store.update_progress(value);
}

/// Checkpoint-flush law: if a run that resumed at `start` is terminated
/// after exactly `m` items have completed, the flushed checkpoint value is
/// `start + m` and the process exits with code 0.
pub proof fn lemma_checkpoint_flush(t: ProgressTracker, r: ShutdownReport, m: u64)
    requires
        t.wf(),
        t.completed == m,
        r.checkpoint == t.spec_checkpoint(),
        r.exit_code == 0,
    ensures
        r.checkpoint == t.start_index + m,
        r.exit_code == 0,
{
}

} // verus!
