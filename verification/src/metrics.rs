//! Counters of the runtime and of each box.
//!
//! The counters are shared between handles and only ever grow. What a
//! counter holds at a given moment depends on the other handles, so reads
//! promise nothing; the arithmetic on what was read is specified exactly.

use std::sync::Arc;
use std::sync::atomic::AtomicU64;
use std::sync::atomic::Ordering;
use vstd::prelude::*;

verus! {

/// The boxes that run: those created, less those stopped, less those that
/// failed, and never below zero.
pub open spec fn running_boxes(created: u64, stopped: u64, failed: u64) -> u64 {
    if created - stopped - failed > 0 {
        (created - stopped - failed) as u64
    } else {
        0
    }
}

/// The number of running boxes for the given counts.
pub fn count_running(created: u64, stopped: u64, failed: u64) -> (r: u64)
    ensures
        r == running_boxes(created, stopped, failed),
{
    created.saturating_sub(stopped).saturating_sub(failed)
}

/// `Arc::clone` of the standard library: another pointer to the same
/// counter. The counter itself is not copied, so the clone stands for the
/// counter that the argument stands for.
#[verifier::external_body]
fn share_counter(counter: &Arc<AtomicU64>) -> (r: Arc<AtomicU64>)
    ensures
        r == *counter,
{
    Arc::clone(counter)
}

/// The counters of the runtime. A copy shares the counters.
pub struct RuntimeMetricsStorage {
    /// Boxes created since the runtime started.
    pub boxes_created: Arc<AtomicU64>,
    /// Boxes that failed to start.
    pub boxes_failed: Arc<AtomicU64>,
    /// Boxes stopped.
    pub boxes_stopped: Arc<AtomicU64>,
    /// Commands run, over all boxes.
    pub total_commands: Arc<AtomicU64>,
    /// Commands that failed to run, over all boxes.
    pub total_exec_errors: Arc<AtomicU64>,
}

impl RuntimeMetricsStorage {
    /// Counters at zero.
    pub fn new() -> RuntimeMetricsStorage {
        RuntimeMetricsStorage {
            boxes_created: Arc::new(AtomicU64::new(0)),
            boxes_failed: Arc::new(AtomicU64::new(0)),
            boxes_stopped: Arc::new(AtomicU64::new(0)),
            total_commands: Arc::new(AtomicU64::new(0)),
            total_exec_errors: Arc::new(AtomicU64::new(0)),
        }
    }

    /// Counts a box that was created.
    pub fn record_created(&self) {
        let _ = self.boxes_created.fetch_add(1, Ordering::Relaxed);
    }

    /// Counts a box that failed to start.
    pub fn record_failed(&self) {
        let _ = self.boxes_failed.fetch_add(1, Ordering::Relaxed);
    }

    /// Counts a box that was stopped.
    pub fn record_stopped(&self) {
        let _ = self.boxes_stopped.fetch_add(1, Ordering::Relaxed);
    }

    /// Counts a command, and its failure if it failed to run.
    pub fn record_command(&self, failed: bool) {
        let _ = self.total_commands.fetch_add(1, Ordering::Relaxed);
        if failed {
            let _ = self.total_exec_errors.fetch_add(1, Ordering::Relaxed);
        }
    }
}

impl Clone for RuntimeMetricsStorage {
    /// A copy that counts on the same five counters.
    fn clone(&self) -> (r: RuntimeMetricsStorage)
        ensures
            r == *self,
    {
        RuntimeMetricsStorage {
            boxes_created: share_counter(&self.boxes_created),
            boxes_failed: share_counter(&self.boxes_failed),
            boxes_stopped: share_counter(&self.boxes_stopped),
            total_commands: share_counter(&self.total_commands),
            total_exec_errors: share_counter(&self.total_exec_errors),
        }
    }
}

impl Default for RuntimeMetricsStorage {
    fn default() -> RuntimeMetricsStorage {
        RuntimeMetricsStorage::new()
    }
}

/// A handle for reading the counters of the runtime.
#[derive(Clone)]
pub struct RuntimeMetrics {
    storage: RuntimeMetricsStorage,
}

impl RuntimeMetrics {
    /// The counters that the handle reads.
    pub closed spec fn counters(&self) -> RuntimeMetricsStorage {
        self.storage
    }

    /// A handle that reads the given counters.
    pub fn new(storage: RuntimeMetricsStorage) -> (r: RuntimeMetrics)
        ensures
            r.counters() == storage,
    {
        RuntimeMetrics { storage }
    }

    /// Boxes created since the runtime started.
    pub fn boxes_created_total(&self) -> u64 {
        self.storage.boxes_created.load(Ordering::Relaxed)
    }

    /// Boxes that failed to start.
    pub fn boxes_failed_total(&self) -> u64 {
        self.storage.boxes_failed.load(Ordering::Relaxed)
    }

    /// Boxes stopped.
    pub fn boxes_stopped_total(&self) -> u64 {
        self.storage.boxes_stopped.load(Ordering::Relaxed)
    }

    /// The boxes that run now: [`count_running`] of the three counters as
    /// they are read, one after the other. Other handles may count
    /// between the reads, so nothing is promised of the number itself.
    pub fn num_running_boxes(&self) -> u64 {
        let created = self.boxes_created_total();
        let stopped = self.boxes_stopped_total();
        let failed = self.boxes_failed_total();
        count_running(created, stopped, failed)
    }

    /// Commands run, over all boxes.
    pub fn total_commands_executed(&self) -> u64 {
        self.storage.total_commands.load(Ordering::Relaxed)
    }

    /// Commands that failed to run, over all boxes.
    pub fn total_exec_errors(&self) -> u64 {
        self.storage.total_exec_errors.load(Ordering::Relaxed)
    }
}

/// With nothing stopped and nothing failed every box created runs; the
/// count never exceeds the boxes created; and it is zero when at least as
/// many boxes were stopped or failed as were created.
pub proof fn lemma_running_boxes_bounds(created: u64, stopped: u64, failed: u64)
    ensures
        running_boxes(created, 0, 0) == created,
        running_boxes(created, stopped, failed) <= created,
        stopped + failed >= created ==> running_boxes(created, stopped, failed) == 0,
        stopped + failed <= created ==> running_boxes(created, stopped, failed) == created
            - stopped - failed,
{
}

} // verus!
