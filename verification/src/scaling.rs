//! Pure autoscaling math for Boson worker pools (queue-depth driven).

use vstd::prelude::*;

verus! {

/// Policy with hysteresis: scale up when the queue is deep per worker; scale down when idle.
#[derive(Debug, Clone, Copy)]
pub struct AutoscalePolicy {
    /// Never scale below this many workers, even when the queue is empty.
    pub min_workers: u32,
    /// Never scale above this many workers, even when the queue is very deep.
    pub max_workers: u32,
    /// If `queue_depth > current_workers * scale_up_queue_per_worker`, add one worker.
    pub scale_up_queue_per_worker: u32,
    /// If `queue_depth <= (current_workers - 1) * scale_down_queue_per_worker`, remove one worker.
    pub scale_down_queue_per_worker: u32,
}

impl Default for AutoscalePolicy {
    fn default() -> (policy: Self)
        ensures
            policy.min_workers == 1,
            policy.max_workers == 64,
            policy.scale_up_queue_per_worker == 10,
            policy.scale_down_queue_per_worker == 2,
    {
        AutoscalePolicy {
            min_workers: 1,
            max_workers: 64,
            scale_up_queue_per_worker: 10,
            scale_down_queue_per_worker: 2,
        }
    }
}

/// The smaller of the two configured bounds (inverted bounds are normalized).
pub open spec fn floor_workers(policy: AutoscalePolicy) -> int {
    if policy.min_workers <= policy.max_workers {
        policy.min_workers as int
    } else {
        policy.max_workers as int
    }
}

/// The larger of the two configured bounds (inverted bounds are normalized).
pub open spec fn ceiling_workers(policy: AutoscalePolicy) -> int {
    if policy.min_workers <= policy.max_workers {
        policy.max_workers as int
    } else {
        policy.min_workers as int
    }
}

/// The current allocation brought into `[floor_workers, ceiling_workers]`.
pub open spec fn clamped_workers(current: int, policy: AutoscalePolicy) -> int {
    if current < floor_workers(policy) {
        floor_workers(policy)
    } else if current > ceiling_workers(policy) {
        ceiling_workers(policy)
    } else {
        current
    }
}

/// A product of two `u32` values that saturates at `u32::MAX`.
pub open spec fn saturating_product(a: int, b: int) -> int {
    if a * b > u32::MAX {
        u32::MAX as int
    } else {
        a * b
    }
}

/// Queue depth above which the (clamped) allocation `workers` grows.
pub open spec fn scale_up_threshold(workers: int, policy: AutoscalePolicy) -> int {
    saturating_product(workers, policy.scale_up_queue_per_worker as int)
}

/// Queue depth at or below which the (clamped) allocation `workers` shrinks.
pub open spec fn scale_down_threshold(workers: int, policy: AutoscalePolicy) -> int {
    saturating_product(workers - 1, policy.scale_down_queue_per_worker as int)
}

/// Whether the policy adds a worker at this depth and (clamped) allocation.
pub open spec fn scales_up(queue_depth: int, workers: int, policy: AutoscalePolicy) -> bool {
    queue_depth > scale_up_threshold(workers, policy) && workers < ceiling_workers(policy)
}

/// Whether the policy removes a worker at this depth and (clamped) allocation.
pub open spec fn scales_down(queue_depth: int, workers: int, policy: AutoscalePolicy) -> bool {
    &&& !scales_up(queue_depth, workers, policy)
    &&& workers > floor_workers(policy)
    &&& queue_depth <= scale_down_threshold(workers, policy)
}

/// The desired worker count: the clamped allocation, moved by at most one worker.
pub open spec fn target_workers(queue_depth: int, current: int, policy: AutoscalePolicy) -> int {
    let workers = clamped_workers(current, policy);
    if scales_up(queue_depth, workers, policy) {
        workers + 1
    } else if scales_down(queue_depth, workers, policy) {
        workers - 1
    } else {
        workers
    }
}

fn saturating_mul_u32(a: u32, b: u32) -> (r: u32)
    ensures
        r == saturating_product(a as int, b as int),
{
    match a.checked_mul(b) {
        Some(product) => product,
        None => u32::MAX,
    }
}

/// Returns a new desired worker count given global queue depth and current allocation.
///
/// Moves by at most one worker per call, so scaling stays gradual and the hysteresis in
/// [`AutoscalePolicy`] can prevent flapping.
pub fn compute_target_workers(queue_depth: u32, current_workers: u32, policy: &AutoscalePolicy) -> (target: u32)
    ensures
        target == target_workers(queue_depth as int, current_workers as int, *policy),
        floor_workers(*policy) <= target <= ceiling_workers(*policy),
        ({
            let (lo, hi, w) = normalized_allocation(current_workers, *policy);
            let up = policy.scale_up_queue_per_worker;
            let down = policy.scale_down_queue_per_worker;
            &&& lo <= target <= hi
            &&& w < hi && queue_depth > w * up ==> target == w + 1
            &&& w > lo && queue_depth <= (w - 1) * down && !(w < hi && queue_depth > w * up)
                ==> target == w - 1
            &&& !(w < hi && queue_depth > w * up) && !(w > lo && queue_depth <= (w - 1) * down)
                ==> target == w
        }),
{
    proof {
        lemma_deep_queue_adds_one_worker(queue_depth, current_workers, *policy);
        lemma_idle_queue_removes_one_worker(queue_depth, current_workers, *policy);
        lemma_otherwise_allocation_kept(queue_depth, current_workers, *policy);
        lemma_target_sees_only_clamped_allocation(queue_depth, current_workers, *policy);
    }
    let min_workers = if policy.min_workers <= policy.max_workers {
        policy.min_workers
    } else {
        policy.max_workers
    };
    let max_workers = if policy.min_workers <= policy.max_workers {
        policy.max_workers
    } else {
        policy.min_workers
    };
    let cur = if current_workers < min_workers {
        min_workers
    } else if current_workers > max_workers {
        max_workers
    } else {
        current_workers
    };
    let mut next = cur;
    if queue_depth > saturating_mul_u32(cur, policy.scale_up_queue_per_worker) && next < max_workers {
        next = next + 1;
    } else if cur > min_workers {
        let threshold = saturating_mul_u32(cur - 1, policy.scale_down_queue_per_worker);
        if queue_depth <= threshold {
            next = next - 1;
        }
    }
    next
}

/// A call moves the (clamped) allocation by at most one worker.
pub proof fn lemma_target_moves_at_most_one(queue_depth: u32, current_workers: u32, policy: AutoscalePolicy)
    ensures
        clamped_workers(current_workers as int, policy) - 1
            <= target_workers(queue_depth as int, current_workers as int, policy)
            <= clamped_workers(current_workers as int, policy) + 1,
{
}

/// Whatever the current allocation, the target lies within the normalized worker bounds.
pub proof fn lemma_target_within_bounds(queue_depth: u32, current_workers: u32, policy: AutoscalePolicy)
    ensures
        floor_workers(policy) <= target_workers(queue_depth as int, current_workers as int, policy)
            <= ceiling_workers(policy),
{
}

/// A deeper queue never asks for fewer workers than a shallower one, from the same allocation.
pub proof fn lemma_target_monotone_in_depth(
    shallow_depth: u32,
    deep_depth: u32,
    current_workers: u32,
    policy: AutoscalePolicy,
)
    requires
        shallow_depth <= deep_depth,
    ensures
        target_workers(shallow_depth as int, current_workers as int, policy)
            <= target_workers(deep_depth as int, current_workers as int, policy),
{
}

/// Hysteresis: when removing a worker is never triggered at a depth where adding one would be
/// (`scale_down_queue_per_worker <= scale_up_queue_per_worker`), a step taken at a given queue
/// depth is never undone by the next step at the same depth.
pub proof fn lemma_hysteresis_prevents_flap(queue_depth: u32, current_workers: u32, policy: AutoscalePolicy)
    requires
        policy.scale_down_queue_per_worker <= policy.scale_up_queue_per_worker,
    ensures
        ({
            let workers = clamped_workers(current_workers as int, policy);
            let next = target_workers(queue_depth as int, current_workers as int, policy);
            &&& next == workers + 1 ==> target_workers(queue_depth as int, next, policy) >= next
            &&& next == workers - 1 ==> target_workers(queue_depth as int, next, policy) <= next
        }),
{
    let workers = clamped_workers(current_workers as int, policy);
    let next = target_workers(queue_depth as int, current_workers as int, policy);
    let up = policy.scale_up_queue_per_worker as int;
    let down = policy.scale_down_queue_per_worker as int;
    assert(workers >= 0);
    if next == workers + 1 {
        assert(clamped_workers(next, policy) == next);
        assert(workers * down <= workers * up) by (nonlinear_arith)
            requires
                workers >= 0,
                down <= up,
        ;
        assert(workers * down >= 0) by (nonlinear_arith)
            requires
                workers >= 0,
                down >= 0,
        ;
        assert(!scales_down(queue_depth as int, next, policy));
    }
    if next == workers - 1 {
        assert(clamped_workers(next, policy) == next);
        assert(next * down <= next * up) by (nonlinear_arith)
            requires
                next >= 0,
                down <= up,
        ;
        assert(next * down >= 0) by (nonlinear_arith)
            requires
                next >= 0,
                down >= 0,
        ;
        assert(!scales_up(queue_depth as int, next, policy));
    }
}

/// The normalized floor, the normalized ceiling, and the current allocation clamped between
/// them, written out from the policy's fields.
pub open spec fn normalized_allocation(current_workers: u32, policy: AutoscalePolicy) -> (int, int, int) {
    let lo = if policy.min_workers <= policy.max_workers {
        policy.min_workers as int
    } else {
        policy.max_workers as int
    };
    let hi = if policy.min_workers <= policy.max_workers {
        policy.max_workers as int
    } else {
        policy.min_workers as int
    };
    let w = if (current_workers as int) < lo {
        lo
    } else if (current_workers as int) > hi {
        hi
    } else {
        current_workers as int
    };
    (lo, hi, w)
}

/// Scale up: from an allocation `w` below the ceiling, a queue deeper than
/// `w * scale_up_queue_per_worker` gets exactly one more worker.
pub proof fn lemma_deep_queue_adds_one_worker(queue_depth: u32, current_workers: u32, policy: AutoscalePolicy)
    ensures
        ({
            let (lo, hi, w) = normalized_allocation(current_workers, policy);
            w < hi && queue_depth > w * policy.scale_up_queue_per_worker ==> target_workers(
                queue_depth as int,
                current_workers as int,
                policy,
            ) == w + 1
        }),
{
}

/// Scale down: from an allocation `w` above the floor, a queue of at most
/// `(w - 1) * scale_down_queue_per_worker` that does not trigger a scale-up gets exactly one
/// worker fewer (so `floor + 1` workers on an empty queue drop to the floor).
pub proof fn lemma_idle_queue_removes_one_worker(queue_depth: u32, current_workers: u32, policy: AutoscalePolicy)
    ensures
        ({
            let (lo, hi, w) = normalized_allocation(current_workers, policy);
            w > lo && queue_depth <= (w - 1) * policy.scale_down_queue_per_worker && !(w < hi
                && queue_depth > w * policy.scale_up_queue_per_worker) ==> target_workers(
                queue_depth as int,
                current_workers as int,
                policy,
            ) == w - 1
        }),
{
    let (lo, hi, w) = normalized_allocation(current_workers, policy);
    if w > lo {
        assert((w - 1) * policy.scale_down_queue_per_worker >= 0) by (nonlinear_arith)
            requires
                w >= 1,
        ;
    }
}

/// Steady: when neither rule fires, the target is the clamped allocation itself.
pub proof fn lemma_otherwise_allocation_kept(queue_depth: u32, current_workers: u32, policy: AutoscalePolicy)
    ensures
        ({
            let (lo, hi, w) = normalized_allocation(current_workers, policy);
            !(w < hi && queue_depth > w * policy.scale_up_queue_per_worker) && !(w > lo && queue_depth
                <= (w - 1) * policy.scale_down_queue_per_worker) ==> target_workers(
                queue_depth as int,
                current_workers as int,
                policy,
            ) == w
        }),
{
}

/// The target depends on the current allocation only through its clamp into the normalized
/// bounds: an out-of-range allocation is treated exactly like the bound it is clamped to
/// (the scale step still applies after clamping).
pub proof fn lemma_target_sees_only_clamped_allocation(
    queue_depth: u32,
    current_workers: u32,
    policy: AutoscalePolicy,
)
    ensures
        ({
            let (lo, hi, w) = normalized_allocation(current_workers, policy);
            target_workers(queue_depth as int, current_workers as int, policy) == target_workers(
                queue_depth as int,
                w,
                policy,
            )
        }),
        ({
            let (lo, hi, w) = normalized_allocation(current_workers, policy);
            lo <= target_workers(queue_depth as int, current_workers as int, policy) <= hi
        }),
{
}

} // verus!
