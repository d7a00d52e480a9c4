//! How many log files may be parsed at once within a memory budget.
//!
//! Parsing a file holds all of its records in memory, about three times the file's size.
//! The largest file bounds what one task needs; the budget divided by that bounds how
//! many tasks may run together. At least one task always runs.
use vstd::prelude::*;

verus! {

/// The default memory budget of the parallel parsing stage: 2 GiB.
pub const DEFAULT_MEMORY_BUDGET_BYTES: u64 = 2147483648;

/// How much larger a file's parsed records are than its text (a safe upper bound).
pub const PARSE_MEMORY_AMPLIFICATION: u64 = 3;

/// The largest of the known file sizes (0 when none is known).
pub open spec fn max_known_size(sizes: Seq<Option<u64>>) -> nat
    decreases sizes.len(),
{
    if sizes.len() == 0 {
        0
    } else {
        let m = max_known_size(sizes.drop_last());
        match sizes.last() {
            Some(s) => if s > m { s as nat } else { m },
            None => m,
        }
    }
}

/// The memory one task needs for a file of `max_size` bytes: three times its size,
/// saturated at `u64::MAX`, and at least one byte.
pub open spec fn per_task_bytes(max_size: nat) -> nat {
    let p = if max_size * 3 > u64::MAX { u64::MAX as nat } else { max_size * 3 };
    if p == 0 { 1 } else { p }
}

/// How many tasks of `per_task` bytes fit in the budget: at least one, at most
/// `usize::MAX`.
pub open spec fn budget_jobs(budget: nat, per_task: nat) -> nat {
    let q = budget / per_task;
    let q1 = if q == 0 { 1 } else { q };
    if q1 > usize::MAX { usize::MAX as nat } else { q1 }
}

/// The number of parallel tasks: the requested number (at least one), lowered so that
/// tasks sized by the largest known file fit in the budget. Files whose size is
/// unknown do not count; when no size is known the request stands.
pub open spec fn effective_jobs(sizes: Seq<Option<u64>>, requested: nat, budget: nat) -> nat {
    if requested <= 1 {
        1
    } else {
        let m = max_known_size(sizes);
        if m == 0 {
            requested
        } else {
            let b = budget_jobs(budget, per_task_bytes(m));
            if requested < b { requested } else { b }
        }
    }
}

/// Lowers `requested_jobs` to what the memory budget allows for files of the given
/// sizes (`None` for a file whose size could not be read).
pub fn effective_jobs_for_memory_budget(file_sizes: &[Option<u64>], requested_jobs: usize, budget_bytes: u64) -> (jobs: usize)
    ensures
        jobs == effective_jobs(file_sizes@, requested_jobs as nat, budget_bytes as nat),
{
    if requested_jobs <= 1 {
        return 1;
    }
    let mut max_size: u64 = 0;
    let n = file_sizes.len();
    let mut k: usize = 0;
    while k < n
        invariant
            n == file_sizes@.len(),
            k <= n,
            max_size == max_known_size(file_sizes@.take(k as int)),
        decreases n - k,
    {
        proof {
            assert(file_sizes@.take(k + 1).drop_last() =~= file_sizes@.take(k as int));
        }
        match file_sizes[k] {
            Some(s) => {
                if s > max_size {
                    max_size = s;
                }
            },
            None => {},
        }
        k = k + 1;
    }
    proof {
        assert(file_sizes@.take(n as int) =~= file_sizes@);
    }
    if max_size == 0 {
        return requested_jobs;
    }
    let per_task: u64 = if max_size > u64::MAX / PARSE_MEMORY_AMPLIFICATION {
        u64::MAX
    } else {
        max_size * PARSE_MEMORY_AMPLIFICATION
    };
    let per_task: u64 = if per_task == 0 { 1 } else { per_task };
    let q = budget_bytes / per_task;
    let q1: u64 = if q == 0 { 1 } else { q };
    let budget_jobs: usize = if q1 as u128 > usize::MAX as u128 { usize::MAX } else { q1 as usize };
    if requested_jobs < budget_jobs { requested_jobs } else { budget_jobs }
}

/// What the memory budget promises: at least one task runs, never more than asked
/// (or one), and when one task of the largest file fits in the budget, all the tasks
/// together fit too.
pub proof fn lemma_jobs_respect_budget(sizes: Seq<Option<u64>>, requested: nat, budget: nat)
    ensures
        effective_jobs(sizes, requested, budget) >= 1,
        effective_jobs(sizes, requested, budget) <= (if requested <= 1 { 1 } else { requested }),
        (requested > 1 && max_known_size(sizes) > 0 && per_task_bytes(max_known_size(sizes)) <= budget)
            ==> effective_jobs(sizes, requested, budget) * per_task_bytes(max_known_size(sizes)) <= budget,
{
    let m = max_known_size(sizes);
    if requested > 1 && m > 0 {
        let p = per_task_bytes(m);
        let j = effective_jobs(sizes, requested, budget);
        assert(j <= budget / p || budget / p == 0);
        if p <= budget {
            assert(budget / p >= 1) by (nonlinear_arith)
                requires
                    p <= budget,
                    p > 0,
            ;
            assert(j <= budget / p);
            assert(j * p <= (budget / p) * p) by (nonlinear_arith)
                requires
                    j <= budget / p,
                    p > 0,
            ;
            assert((budget / p) * p <= budget) by (nonlinear_arith)
                requires
                    p > 0,
            ;
        }
    }
}

/// The largest known size bounds every known size, is one of them when some size is
/// known, and fits in a `u64`.
pub proof fn lemma_max_known_size_is_largest(sizes: Seq<Option<u64>>)
    ensures
        forall|k: int| 0 <= k < sizes.len() ==> (#[trigger] sizes[k] matches Some(s) ==> s <= max_known_size(sizes)),
        max_known_size(sizes) <= u64::MAX,
        max_known_size(sizes) > 0 ==> exists|k: int|
            0 <= k < sizes.len() && #[trigger] sizes[k] == Some(max_known_size(sizes) as u64),
    decreases sizes.len(),
{
    if sizes.len() > 0 {
        let init = sizes.drop_last();
        lemma_max_known_size_is_largest(init);
        assert forall|k: int| 0 <= k < sizes.len() implies (#[trigger] sizes[k] matches Some(s) ==> s
            <= max_known_size(sizes)) by {
            if k < sizes.len() - 1 {
                assert(sizes[k] == init[k]);
            }
        }
        if max_known_size(sizes) > 0 {
            if max_known_size(sizes) == max_known_size(init) {
                let k = choose|k: int| 0 <= k < init.len() && #[trigger] init[k] == Some(max_known_size(init) as u64);
                assert(sizes[k] == init[k]);
            } else {
                assert(sizes[sizes.len() - 1] == Some(max_known_size(sizes) as u64));
            }
        }
    }
}

/// The job count fits every file: when a task for any known file fits in the budget
/// (three times the file's size), the tasks together fit too, whatever file each task
/// works on.
pub proof fn lemma_jobs_fit_every_file(sizes: Seq<Option<u64>>, requested: nat, budget: nat, k: int)
    requires
        budget <= u64::MAX,
        requested > 1,
        0 <= k < sizes.len(),
        forall|j: int| 0 <= j < sizes.len() ==> (#[trigger] sizes[j] matches Some(t) ==> t * 3 <= budget),
    ensures
        sizes[k] matches Some(s) ==> effective_jobs(sizes, requested, budget) * (s * 3) <= budget,
{
    lemma_max_known_size_is_largest(sizes);
    lemma_jobs_respect_budget(sizes, requested, budget);
    let m = max_known_size(sizes);
    match sizes[k] {
        Some(s) => {
            if m > 0 {
                assert(m * 3 <= budget);
                assert(per_task_bytes(m) == m * 3);
                let e = effective_jobs(sizes, requested, budget);
                assert(s <= m);
                assert(e * per_task_bytes(m) <= budget);
                assert(e * (s * 3) <= e * (m * 3)) by (nonlinear_arith)
                    requires
                        s <= m,
                ;
                assert(e * (s * 3) <= budget);
            } else {
                assert(s == 0);
                let e = effective_jobs(sizes, requested, budget);
                assert(e * (s * 3) == 0) by (nonlinear_arith)
                    requires
                        s == 0,
                ;
            }
        },
        None => {},
    }
}

} // verus!
