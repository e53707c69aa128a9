//! Batch bookkeeping shared by the two strategy runners: how many calls
//! a run comprises, how the synchronous pool partitions them across
//! workers, how each completed call advances or aborts the run, and
//! what a finished batch reports.
//!
//! Both runners process one outcome per issued call. A batch of size
//! zero is supported and completes immediately with no progress steps.

use vstd::prelude::*;

use crate::outcome::SimOutcome;
use crate::outcome::Verdict;
use crate::outcome::classify;
use crate::outcome::is_expected_rejection;

verus! {

/// Number of transactions each strategy simulates in the reference run.
pub const TX_SIMS: u64 = 16;

/// What the caller must do after handing one call's outcome to the run.
#[derive(Debug, PartialEq, Eq, Structural)]
pub enum StepAction {
    /// The call ended in the expected rejection: advance the progress
    /// indicator by one and go on.
    AdvanceProgress,
    /// The call ended in a defect: abort the whole run loudly.
    AbortRun,
}

/// What a whole batch came to.
#[derive(Debug, PartialEq, Eq, Structural)]
pub enum BatchResult {
    /// Every call ended in the expected rejection; `progress` counts the
    /// progress-indicator advances, one per call.
    Completed { progress: usize },
    /// The call at `defect_index` (in issue order) broke the benchmark's
    /// premise; `progress` counts the advances made before the abort.
    Aborted { defect_index: usize, progress: usize },
}

/// The contract both strategy runners meet: a completed result means
/// every outcome was the expected rejection and every call advanced the
/// progress indicator exactly once; an aborted result names the first
/// defective call and counts one advance per call before it.
pub open spec fn batch_result_spec(s: Seq<SimOutcome>, r: BatchResult) -> bool {
    match r {
        BatchResult::Completed { progress } => {
            &&& progress == s.len()
            &&& forall|i: int| 0 <= i < s.len() ==> is_expected_rejection(#[trigger] s[i])
        },
        BatchResult::Aborted { defect_index, progress } => {
            &&& defect_index < s.len()
            &&& !is_expected_rejection(s[defect_index as int])
            &&& forall|i: int| 0 <= i < defect_index ==> is_expected_rejection(#[trigger] s[i])
            &&& progress == defect_index
        },
    }
}

/// For given outcomes only one result meets the batch contract: in
/// particular the progress count never depends on how the calls were
/// scheduled or partitioned, only on the outcomes themselves.
pub proof fn lemma_batch_result_unique(s: Seq<SimOutcome>, r1: BatchResult, r2: BatchResult)
    requires
        batch_result_spec(s, r1),
        batch_result_spec(s, r2),
    ensures
        r1 == r2,
{
    match (r1, r2) {
        (BatchResult::Completed { .. }, BatchResult::Completed { .. }) => {},
        (
            BatchResult::Aborted { defect_index: d1, .. },
            BatchResult::Aborted { defect_index: d2, .. },
        ) => {
            if d1 < d2 {
                assert(is_expected_rejection(s[d1 as int]));
            }
            if d2 < d1 {
                assert(is_expected_rejection(s[d2 as int]));
            }
        },
        (BatchResult::Completed { .. }, BatchResult::Aborted { defect_index: d, .. }) => {
            assert(is_expected_rejection(s[d as int]));
        },
        (BatchResult::Aborted { defect_index: d, .. }, BatchResult::Completed { .. }) => {
            assert(is_expected_rejection(s[d as int]));
        },
    }
}

/// A runner meeting the batch contract never returns a completed result
/// while a unit is still unaccounted for: completing a batch of N
/// outcomes always reports exactly N progress advances.
pub proof fn lemma_no_lost_units(s: Seq<SimOutcome>, r: BatchResult)
    requires
        batch_result_spec(s, r),
        r matches BatchResult::Completed { .. },
    ensures
        r == (BatchResult::Completed { progress: s.len() as usize }),
{
}

/// The live state of one strategy run over a batch of calls.
pub struct BatchRun {
    /// How many calls the batch comprises.
    pub total: usize,
    /// How many calls have completed with the expected rejection (and
    /// so how often the progress indicator has advanced).
    pub completed: usize,
    /// Whether a defective call has aborted the run.
    pub aborted: bool,
}

impl BatchRun {
    /// The run's invariant: it never counts more completions than calls.
    pub open spec fn wf(self) -> bool {
        self.completed <= self.total
    }

    /// The run is done only when every call is accounted for and none
    /// was defective.
    pub open spec fn done(self) -> bool {
        self.completed == self.total && !self.aborted
    }

    /// Starts a run over a batch of `total` calls.
    pub fn new(total: usize) -> (r: BatchRun)
        ensures
            r.total == total,
            r.completed == 0,
            !r.aborted,
            r.wf(),
    {
        BatchRun { total, completed: 0, aborted: false }
    }

    /// The per-completion decision both runners share: classify the
    /// outcome; an expected rejection advances the progress count, any
    /// other outcome aborts the run and freezes the count.
    pub fn on_outcome(&mut self, o: &SimOutcome) -> (a: StepAction)
        requires
            old(self).completed < old(self).total,
            !old(self).aborted,
        ensures
            final(self).total == old(self).total,
            final(self).wf(),
            is_expected_rejection(*o) ==> {
                &&& a == StepAction::AdvanceProgress
                &&& final(self).completed == old(self).completed + 1
                &&& !final(self).aborted
            },
            !is_expected_rejection(*o) ==> {
                &&& a == StepAction::AbortRun
                &&& final(self).completed == old(self).completed
                &&& final(self).aborted
            },
    {
        let v = classify(o);
        if v == Verdict::ExpectedRejection {
            self.completed = self.completed + 1;
            StepAction::AdvanceProgress
        } else {
            self.aborted = true;
            StepAction::AbortRun
        }
    }

    /// Whether the run has accounted for every call without a defect.
    pub fn is_complete(&self) -> (b: bool)
        ensures
            b == self.done(),
    {
        self.completed == self.total && !self.aborted
    }
}

/// The sum of the first `k` entries of a partition.
pub open spec fn sum_prefix(s: Seq<usize>, k: int) -> int
    decreases k,
{
    if k <= 0 {
        0
    } else {
        sum_prefix(s, k - 1) + s[k - 1]
    }
}

/// A longer prefix of a partition never sums to less.
proof fn lemma_sum_prefix_le(s: Seq<usize>, i: int, j: int)
    requires
        0 <= i <= j <= s.len(),
    ensures
        sum_prefix(s, i) <= sum_prefix(s, j),
    decreases j - i,
{
    if i < j {
        lemma_sum_prefix_le(s, i, j - 1);
    }
}

/// Appending an entry to a partition leaves the sums of its existing
/// prefixes unchanged.
proof fn lemma_sum_prefix_push(s: Seq<usize>, x: usize, k: int)
    requires
        0 <= k <= s.len(),
    ensures
        sum_prefix(s.push(x), k) == sum_prefix(s, k),
    decreases k,
{
    if k > 0 {
        lemma_sum_prefix_push(s, x, k - 1);
        assert(s.push(x)[k - 1] == s[k - 1]);
    }
}

/// Partitions `n` calls across `workers` workers as evenly as possible:
/// each worker gets the quotient, and the first `n % workers` workers
/// get one extra call.
pub fn partition_across_workers(n: usize, workers: usize) -> (parts: Vec<usize>)
    requires
        1 <= workers,
    ensures
        parts@.len() == workers,
        sum_prefix(parts@, workers as int) == n,
        forall|i: int| 0 <= i < workers ==> #[trigger] parts@[i] <= n,
{
    let base = n / workers;
    let rem = n % workers;
    proof {
        vstd::arithmetic::div_mod::lemma_fundamental_div_mod(n as int, workers as int);
    }
    let mut parts: Vec<usize> = Vec::new();
    let mut w: usize = 0;
    while w < workers
        invariant
            1 <= workers,
            base == n as int / workers as int,
            rem == n as int % workers as int,
            n == workers * base + rem,
            0 <= rem < workers,
            w <= workers,
            parts@.len() == w,
            sum_prefix(parts@, w as int) == if w <= rem {
                w * (base + 1)
            } else {
                rem * (base + 1) + (w - rem) * base
            },
            forall|i: int| 0 <= i < w ==> #[trigger] parts@[i] <= n,
        decreases workers - w,
    {
        let ghost prev = parts@;
        let ghost old_sum = sum_prefix(parts@, w as int);
        if w < rem {
            assert(base + 1 <= n) by (nonlinear_arith)
                requires
                    n == workers * base + rem,
                    0 <= base,
                    1 <= rem < workers,
            ;
            parts.push(base + 1);
            proof {
                lemma_sum_prefix_push(prev, (base + 1) as usize, w as int);
            }
            assert(sum_prefix(parts@, w as int + 1) == old_sum + base + 1);
            assert((w as int) * (base as int + 1) + (base + 1) == (w as int + 1) * (base as int
                + 1)) by (nonlinear_arith);
        } else {
            assert(base <= n) by (nonlinear_arith)
                requires
                    n == workers * base + rem,
                    0 <= base,
                    0 <= rem,
                    1 <= workers,
            ;
            parts.push(base);
            proof {
                lemma_sum_prefix_push(prev, base, w as int);
            }
            assert(sum_prefix(parts@, w as int + 1) == old_sum + base);
            assert(rem as int * (base as int + 1) + (w as int - rem as int) * base as int + base
                == rem as int * (base as int + 1) + (w as int + 1 - rem as int) * base as int)
                by (nonlinear_arith);
            if w == rem {
                assert(rem as int * (base as int + 1) == rem as int * base as int + rem as int)
                    by (nonlinear_arith);
            }
        }
        w = w + 1;
    }
    proof {
        assert(rem as int * (base as int + 1) + (workers as int - rem as int) * base as int
            == workers as int * base as int + rem as int) by (nonlinear_arith);
    }
    parts
}

/// The synchronous strategy runner's decision core: the batch is
/// partitioned across a pool of `pool_size` workers and every call's
/// outcome is accounted for, worker by worker. The result — and with it
/// the progress count — meets the batch contract whatever the pool
/// size, so a batch of N expected rejections advances the progress
/// indicator exactly N times under any pool.
pub fn run_sync_batch(outcomes: &Vec<SimOutcome>, pool_size: usize) -> (r: BatchResult)
    requires
        1 <= pool_size,
    ensures
        batch_result_spec(outcomes@, r),
{
    let n = outcomes.len();
    let parts = partition_across_workers(n, pool_size);
    let mut run = BatchRun::new(n);
    let mut idx: usize = 0;
    let mut w: usize = 0;
    while w < pool_size
        invariant
            n == outcomes@.len(),
            1 <= pool_size,
            parts@.len() == pool_size,
            sum_prefix(parts@, pool_size as int) == n,
            w <= pool_size,
            idx == sum_prefix(parts@, w as int),
            idx <= n,
            run.total == n,
            run.completed == idx,
            !run.aborted,
            forall|i: int| 0 <= i < idx ==> is_expected_rejection(#[trigger] outcomes@[i]),
        decreases pool_size - w,
    {
        let chunk = parts[w];
        let mut taken: usize = 0;
        proof {
            lemma_sum_prefix_le(parts@, w as int + 1, pool_size as int);
        }
        while taken < chunk
            invariant
                n == outcomes@.len(),
                w < pool_size,
                parts@.len() == pool_size,
                chunk == parts@[w as int],
                sum_prefix(parts@, w as int + 1) <= n,
                taken <= chunk,
                idx == sum_prefix(parts@, w as int) + taken,
                run.total == n,
                run.completed == idx,
                !run.aborted,
                forall|i: int| 0 <= i < idx ==> is_expected_rejection(#[trigger] outcomes@[i]),
            decreases chunk - taken,
        {
            assert(idx < n);
            let action = run.on_outcome(&outcomes[idx]);
            match action {
                StepAction::AdvanceProgress => {
                    idx = idx + 1;
                    taken = taken + 1;
                },
                StepAction::AbortRun => {
                    return BatchResult::Aborted { defect_index: idx, progress: idx };
                },
            }
        }
        w = w + 1;
    }
    BatchResult::Completed { progress: idx }
}

/// The asynchronous strategy runner's decision core: all N units are
/// spawned and the runner joins every one of them before returning —
/// each spawned unit's outcome is accounted for in the result, so no
/// unit is lost or orphaned.
pub fn run_async_batch(outcomes: &Vec<SimOutcome>) -> (r: BatchResult)
    ensures
        batch_result_spec(outcomes@, r),
        r matches BatchResult::Completed { .. } ==> r == (BatchResult::Completed {
            progress: outcomes@.len() as usize,
        }),
{
    let n = outcomes.len();
    let mut run = BatchRun::new(n);
    let mut idx: usize = 0;
    while idx < n
        invariant
            n == outcomes@.len(),
            idx <= n,
            run.total == n,
            run.completed == idx,
            !run.aborted,
            forall|i: int| 0 <= i < idx ==> is_expected_rejection(#[trigger] outcomes@[i]),
        decreases n - idx,
    {
        let action = run.on_outcome(&outcomes[idx]);
        match action {
            StepAction::AdvanceProgress => {
                idx = idx + 1;
            },
            StepAction::AbortRun => {
                return BatchResult::Aborted { defect_index: idx, progress: idx };
            },
        }
    }
    assert(run.done());
    BatchResult::Completed { progress: idx }
}

} // verus!
