//! Scheduling for a batch download under a fixed concurrency ceiling.
//!
//! The pool is the decision core of the batch downloader: it tracks the
//! state of every task, admits a new request only while fewer than the
//! ceiling are in flight, and records one terminal outcome per task, so a
//! failed task never starves callers waiting on a total completion count.
//! The caller performs the network and disk work: it asks `next_task` which
//! task may start, marks it with `start`, and reports the outcome with
//! `finish`, in any order the transfers happen to complete.

use vstd::prelude::*;

use crate::SyncError;

verus! {

/// The concurrency ceiling a batch uses when the caller does not pick one.
pub const DEFAULT_CONCURRENT_REQUESTS: usize = 4;

/// Where one download task stands.
#[derive(Clone, Copy, Debug, PartialEq, Eq, Structural)]
pub enum TaskState {
    Pending,
    InFlight,
    Succeeded,
    Failed,
}

/// One failed task of a batch: its index and the classified error.
#[derive(Clone, Copy, Debug, PartialEq, Eq, Structural)]
pub struct TaskFailure {
    pub index: usize,
    pub error: SyncError,
}

/// How often `t` occurs in `s`.
pub open spec fn count_matching(s: Seq<TaskState>, t: TaskState) -> int
    decreases s.len(),
{
    if s.len() == 0 {
        0
    } else {
        count_matching(s.drop_last(), t) + if s.last() == t {
            1int
        } else {
            0int
        }
    }
}

/// An occurrence count never exceeds the sequence length.
pub proof fn lemma_count_le_len(s: Seq<TaskState>, t: TaskState)
    ensures
        0 <= count_matching(s, t) <= s.len(),
    decreases s.len(),
{
    if s.len() > 0 {
        lemma_count_le_len(s.drop_last(), t);
    }
}

/// Extending a prefix by one element adds that element's occurrence.
proof fn lemma_count_take_step(s: Seq<TaskState>, t: TaskState, i: int)
    requires
        0 <= i < s.len(),
    ensures
        count_matching(s.take(i + 1), t) == count_matching(s.take(i), t) + if s[i] == t {
            1int
        } else {
            0int
        },
{
    assert(s.take(i + 1).drop_last() =~= s.take(i));
    assert(s.take(i + 1).last() == s[i]);
}

/// Replacing the element at `i` moves the counts by the old and new
/// elements' occurrences.
proof fn lemma_count_update(s: Seq<TaskState>, t: TaskState, i: int, v: TaskState)
    requires
        0 <= i < s.len(),
    ensures
        count_matching(s.update(i, v), t) == count_matching(s, t) + (if v == t {
            1int
        } else {
            0int
        }) - (if s[i] == t {
            1int
        } else {
            0int
        }),
    decreases s.len(),
{
    let su = s.update(i, v);
    if i == s.len() - 1 {
        assert(su.drop_last() =~= s.drop_last());
        assert(su.last() == v);
    } else {
        assert(su.drop_last() =~= s.drop_last().update(i, v));
        assert(su.last() == s.last());
        lemma_count_update(s.drop_last(), t, i, v);
    }
}

/// A count is zero exactly when no element matches.
pub proof fn lemma_count_zero(s: Seq<TaskState>, t: TaskState)
    ensures
        (count_matching(s, t) == 0) <==> (forall|i: int| 0 <= i < s.len() ==> s[i] != t),
    decreases s.len(),
{
    if s.len() > 0 {
        lemma_count_zero(s.drop_last(), t);
        lemma_count_le_len(s.drop_last(), t);
        assert(forall|i: int| 0 <= i < s.len() - 1 ==> s[i] == s.drop_last()[i]);
    }
}

/// When every element matches, the count is the length.
proof fn lemma_count_full(s: Seq<TaskState>, t: TaskState)
    requires
        forall|i: int| 0 <= i < s.len() ==> s[i] == t,
    ensures
        count_matching(s, t) == s.len(),
    decreases s.len(),
{
    if s.len() > 0 {
        lemma_count_full(s.drop_last(), t);
    }
}

/// The four task states partition a batch: their counts sum to its size.
pub proof fn lemma_count_partition(s: Seq<TaskState>)
    ensures
        count_matching(s, TaskState::Pending) + count_matching(s, TaskState::InFlight)
            + count_matching(s, TaskState::Succeeded) + count_matching(s, TaskState::Failed)
            == s.len(),
    decreases s.len(),
{
    if s.len() > 0 {
        lemma_count_partition(s.drop_last());
    }
}

/// Counts the tasks standing in state `t`.
fn count_state(states: &Vec<TaskState>, t: TaskState) -> (n: usize)
    ensures
        n == count_matching(states@, t),
{
    let mut n: usize = 0;
    let mut i: usize = 0;
    proof {
        assert(states@.take(0) =~= Seq::<TaskState>::empty());
    }
    while i < states.len()
        invariant
            i <= states@.len(),
            n <= i,
            n == count_matching(states@.take(i as int), t),
        decreases states@.len() - i,
    {
        proof {
            lemma_count_take_step(states@, t, i as int);
            lemma_count_le_len(states@.take(i + 1), t);
        }
        if states[i] == t {
            n = n + 1;
        }
        i = i + 1;
    }
    proof {
        assert(states@.take(states@.len() as int) =~= states@);
    }
    n
}

/// The aggregate outcome of a batch: how many tasks there were, how many
/// succeeded, and which failed with what error.
pub struct BatchReport {
    pub total: usize,
    pub succeeded: usize,
    pub failures: Vec<TaskFailure>,
}

impl BatchReport {
    /// Whether every task of the batch succeeded.
    pub fn all_succeeded(&self) -> (r: bool)
        ensures
            r == (self.failures@.len() == 0),
    {
        self.failures.len() == 0
    }
}

/// The task table of one batch download.
pub struct DownloadPool {
    states: Vec<TaskState>,
    ceiling: usize,
    failures: Vec<TaskFailure>,
}

impl DownloadPool {
    /// The per-task states, by task index.
    pub closed spec fn task_states(&self) -> Seq<TaskState> {
        self.states@
    }

    /// The concurrency ceiling the batch was opened with.
    pub closed spec fn ceiling_spec(&self) -> usize {
        self.ceiling
    }

    /// The failures recorded so far, in completion order.
    pub closed spec fn failures_spec(&self) -> Seq<TaskFailure> {
        self.failures@
    }

    /// The number of tasks in the batch.
    pub open spec fn total(&self) -> int {
        self.task_states().len() as int
    }

    /// Tasks not yet started.
    pub open spec fn pending(&self) -> int {
        count_matching(self.task_states(), TaskState::Pending)
    }

    /// Tasks started and not yet finished.
    pub open spec fn in_flight(&self) -> int {
        count_matching(self.task_states(), TaskState::InFlight)
    }

    /// Tasks finished successfully.
    pub open spec fn succeeded(&self) -> int {
        count_matching(self.task_states(), TaskState::Succeeded)
    }

    /// Tasks finished with an error.
    pub open spec fn failed(&self) -> int {
        count_matching(self.task_states(), TaskState::Failed)
    }

    /// Internal consistency: the ceiling is positive and respected, and the
    /// failure list carries exactly one entry per failed task.
    pub open spec fn wf(&self) -> bool {
        &&& self.ceiling_spec() >= 1
        &&& self.in_flight() <= self.ceiling_spec()
        &&& self.failures_spec().len() == self.failed()
        &&& forall|k: int|
            0 <= k < self.failures_spec().len() ==> self.failures_spec()[k].index
                < self.total() && self.task_states()[self.failures_spec()[k].index as int]
                == TaskState::Failed
        &&& forall|k1: int, k2: int|
            0 <= k1 < k2 < self.failures_spec().len() ==> self.failures_spec()[k1].index
                != self.failures_spec()[k2].index
    }

    /// Opens a batch of `n` tasks under the given concurrency ceiling.
    pub fn new(n: usize, ceiling: usize) -> (r: Self)
        requires
            ceiling >= 1,
        ensures
            r.wf(),
            r.total() == n,
            r.ceiling_spec() == ceiling,
            r.pending() == n,
            r.in_flight() == 0,
            r.succeeded() == 0,
            r.failed() == 0,
            r.failures_spec() == Seq::<TaskFailure>::empty(),
    {
        let mut states: Vec<TaskState> = Vec::new();
        let mut i: usize = 0;
        while i < n
            invariant
                i <= n,
                states@.len() == i,
                forall|j: int| 0 <= j < i ==> states@[j] == TaskState::Pending,
            decreases n - i,
        {
            states.push(TaskState::Pending);
            i = i + 1;
        }
        proof {
            lemma_count_full(states@, TaskState::Pending);
            lemma_count_zero(states@, TaskState::InFlight);
            lemma_count_zero(states@, TaskState::Succeeded);
            lemma_count_zero(states@, TaskState::Failed);
        }
        DownloadPool { states, ceiling, failures: Vec::new() }
    }

    /// Picks the task to start next: the first pending one, admitted only
    /// while fewer than the ceiling are in flight.  `None` means the batch
    /// has no admissible task right now: either the ceiling is reached or
    /// nothing is pending.
    pub fn next_task(&self) -> (r: Option<usize>)
        requires
            self.wf(),
        ensures
            r matches Some(i) ==> 0 <= i < self.total() && self.task_states()[i as int]
                == TaskState::Pending && self.in_flight() < self.ceiling_spec(),
            r is None ==> self.in_flight() == self.ceiling_spec() || self.pending() == 0,
    {
        let in_flight = count_state(&self.states, TaskState::InFlight);
        if in_flight >= self.ceiling {
            return None;
        }
        let mut i: usize = 0;
        while i < self.states.len()
            invariant
                i <= self.states@.len(),
                self.in_flight() < self.ceiling_spec(),
                forall|j: int| 0 <= j < i ==> self.states@[j] != TaskState::Pending,
            decreases self.states@.len() - i,
        {
            if self.states[i] == TaskState::Pending {
                return Some(i);
            }
            i = i + 1;
        }
        proof {
            lemma_count_zero(self.states@, TaskState::Pending);
        }
        None
    }

    /// Marks task `i` as started.  Admission requires a free slot under the
    /// ceiling, so at no point do more than `ceiling` tasks stand in
    /// flight.
    pub fn start(&mut self, i: usize)
        requires
            old(self).wf(),
            0 <= i < old(self).total(),
            old(self).task_states()[i as int] == TaskState::Pending,
            old(self).in_flight() < old(self).ceiling_spec(),
        ensures
            final(self).wf(),
            final(self).task_states() == old(self).task_states().update(
                i as int,
                TaskState::InFlight,
            ),
            final(self).ceiling_spec() == old(self).ceiling_spec(),
            final(self).failures_spec() == old(self).failures_spec(),
            final(self).total() == old(self).total(),
            final(self).pending() == old(self).pending() - 1,
            final(self).in_flight() == old(self).in_flight() + 1,
            final(self).succeeded() == old(self).succeeded(),
            final(self).failed() == old(self).failed(),
    {
        proof {
            lemma_count_update(self.states@, TaskState::Pending, i as int, TaskState::InFlight);
            lemma_count_update(self.states@, TaskState::InFlight, i as int, TaskState::InFlight);
            lemma_count_update(self.states@, TaskState::Succeeded, i as int, TaskState::InFlight);
            lemma_count_update(self.states@, TaskState::Failed, i as int, TaskState::InFlight);
        }
        self.states.set(i, TaskState::InFlight);
    }

    /// Records the terminal outcome of task `i`: success, or failure with
    /// its classified error.  Every task, failed or not, passes through
    /// here exactly once, so a finished batch reports one completion per
    /// task.
    pub fn finish(&mut self, i: usize, outcome: Result<(), SyncError>)
        requires
            old(self).wf(),
            0 <= i < old(self).total(),
            old(self).task_states()[i as int] == TaskState::InFlight,
        ensures
            final(self).wf(),
            final(self).ceiling_spec() == old(self).ceiling_spec(),
            final(self).total() == old(self).total(),
            final(self).pending() == old(self).pending(),
            final(self).in_flight() == old(self).in_flight() - 1,
            outcome is Ok ==> {
                &&& final(self).task_states() == old(self).task_states().update(
                    i as int,
                    TaskState::Succeeded,
                )
                &&& final(self).succeeded() == old(self).succeeded() + 1
                &&& final(self).failed() == old(self).failed()
                &&& final(self).failures_spec() == old(self).failures_spec()
            },
            outcome matches Err(e) ==> {
                &&& final(self).task_states() == old(self).task_states().update(
                    i as int,
                    TaskState::Failed,
                )
                &&& final(self).succeeded() == old(self).succeeded()
                &&& final(self).failed() == old(self).failed() + 1
                &&& final(self).failures_spec() == old(self).failures_spec().push(
                    TaskFailure { index: i, error: e },
                )
            },
    {
        match outcome {
            Ok(()) => {
                proof {
                    lemma_count_update(
                        self.states@,
                        TaskState::Pending,
                        i as int,
                        TaskState::Succeeded,
                    );
                    lemma_count_update(
                        self.states@,
                        TaskState::InFlight,
                        i as int,
                        TaskState::Succeeded,
                    );
                    lemma_count_update(
                        self.states@,
                        TaskState::Succeeded,
                        i as int,
                        TaskState::Succeeded,
                    );
                    lemma_count_update(
                        self.states@,
                        TaskState::Failed,
                        i as int,
                        TaskState::Succeeded,
                    );
                }
                self.states.set(i, TaskState::Succeeded);
            },
            Err(e) => {
                proof {
                    lemma_count_update(
                        self.states@,
                        TaskState::Pending,
                        i as int,
                        TaskState::Failed,
                    );
                    lemma_count_update(
                        self.states@,
                        TaskState::InFlight,
                        i as int,
                        TaskState::Failed,
                    );
                    lemma_count_update(
                        self.states@,
                        TaskState::Succeeded,
                        i as int,
                        TaskState::Failed,
                    );
                    lemma_count_update(self.states@, TaskState::Failed, i as int, TaskState::Failed);
                }
                self.states.set(i, TaskState::Failed);
                self.failures.push(TaskFailure { index: i, error: e });
            },
        }
    }

    /// Whether every task of the batch has reached a terminal state.
    pub fn is_done(&self) -> (r: bool)
        ensures
            r == (self.pending() == 0 && self.in_flight() == 0),
    {
        let pending = count_state(&self.states, TaskState::Pending);
        let in_flight = count_state(&self.states, TaskState::InFlight);
        pending == 0 && in_flight == 0
    }

    /// The aggregate outcome of the batch: total task count, success
    /// count, and the recorded failures.
    pub fn report(&self) -> (r: BatchReport)
        requires
            self.wf(),
        ensures
            r.total == self.total(),
            r.succeeded == self.succeeded(),
            r.failures@ == self.failures_spec(),
    {
        proof {
            lemma_count_le_len(self.states@, TaskState::Succeeded);
        }
        let succeeded = count_state(&self.states, TaskState::Succeeded);
        let mut failures: Vec<TaskFailure> = Vec::new();
        let mut k: usize = 0;
        while k < self.failures.len()
            invariant
                k <= self.failures@.len(),
                failures@ == self.failures@.take(k as int),
            decreases self.failures@.len() - k,
        {
            failures.push(self.failures[k]);
            proof {
                assert(self.failures@.take(k + 1) =~= self.failures@.take(k as int).push(
                    self.failures@[k as int],
                ));
            }
            k = k + 1;
        }
        proof {
            assert(self.failures@.take(self.failures@.len() as int) =~= self.failures@);
        }
        BatchReport { total: self.states.len(), succeeded, failures }
    }
}

/// A finished batch yields exactly one completion per task: once nothing is
/// pending or in flight, the success and failure counts sum to the batch
/// size, however many tasks failed.
pub proof fn lemma_one_signal_per_task(p: &DownloadPool)
    requires
        p.pending() == 0,
        p.in_flight() == 0,
    ensures
        p.succeeded() + p.failed() == p.total(),
{
    lemma_count_partition(p.task_states());
}

/// The ceiling is never exceeded: every consistent pool state has at most
/// `ceiling` tasks in flight.
pub proof fn lemma_ceiling_respected(p: &DownloadPool)
    requires
        p.wf(),
    ensures
        p.in_flight() <= p.ceiling_spec(),
{
}

} // verus!
