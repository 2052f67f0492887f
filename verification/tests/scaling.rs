use boson_coordinator::scaling::{compute_target_workers, AutoscalePolicy};

fn policy(min: u32, max: u32, up: u32, down: u32) -> AutoscalePolicy {
    AutoscalePolicy {
        min_workers: min,
        max_workers: max,
        scale_up_queue_per_worker: up,
        scale_down_queue_per_worker: down,
    }
}

#[test]
fn scales_up_when_queue_deep() {
    let p = AutoscalePolicy {
        min_workers: 1,
        max_workers: 10,
        scale_up_queue_per_worker: 5,
        scale_down_queue_per_worker: 1,
    };
    assert_eq!(compute_target_workers(30, 3, &p), 4);
}

#[test]
fn hysteresis_prevents_flap() {
    let p = AutoscalePolicy {
        min_workers: 2,
        max_workers: 10,
        scale_up_queue_per_worker: 10,
        scale_down_queue_per_worker: 3,
    };
    assert_eq!(compute_target_workers(10, 4, &p), 4);
}

#[test]
fn scales_down_when_mostly_idle() {
    let p = AutoscalePolicy {
        min_workers: 1,
        max_workers: 10,
        scale_up_queue_per_worker: 10,
        scale_down_queue_per_worker: 2,
    };
    assert_eq!(compute_target_workers(0, 4, &p), 3);
}

#[test]
fn respects_min_max() {
    let p = AutoscalePolicy {
        min_workers: 2,
        max_workers: 3,
        scale_up_queue_per_worker: 1,
        scale_down_queue_per_worker: 1,
    };
    assert_eq!(compute_target_workers(1000, 3, &p), 3);
    assert_eq!(compute_target_workers(0, 2, &p), 2);
}

#[test]
fn default_policy_clamps_out_of_range_current() {
    let p = AutoscalePolicy::default();
    assert_eq!(compute_target_workers(0, 0, &p), p.min_workers);
    assert_eq!(compute_target_workers(u32::MAX, 10_000, &p), p.max_workers);
}

#[test]
fn normalizes_inverted_worker_bounds() {
    let p = AutoscalePolicy {
        min_workers: 10,
        max_workers: 2,
        scale_up_queue_per_worker: 1,
        scale_down_queue_per_worker: 1,
    };
    assert_eq!(compute_target_workers(0, 0, &p), 2);
    assert_eq!(compute_target_workers(u32::MAX, 10, &p), 10);
}

#[test]
fn default_policy_values() {
    let p = AutoscalePolicy::default();
    assert_eq!(p.min_workers, 1);
    assert_eq!(p.max_workers, 64);
    assert_eq!(p.scale_up_queue_per_worker, 10);
    assert_eq!(p.scale_down_queue_per_worker, 2);
}

#[test]
fn documented_example_target_is_at_least_min() {
    let p = AutoscalePolicy::default();
    let target = compute_target_workers(25, 2, &p);
    assert!(target >= p.min_workers);
    // 25 > 2 * 10: one more worker.
    assert_eq!(target, 3);
}

#[test]
fn depth_equal_to_up_threshold_does_not_scale_up() {
    let p = policy(1, 10, 5, 1);
    // 15 is not greater than 3 * 5; 15 > (3 - 1) * 1, so no scale-down either.
    assert_eq!(compute_target_workers(15, 3, &p), 3);
    assert_eq!(compute_target_workers(16, 3, &p), 4);
}

#[test]
fn depth_equal_to_down_threshold_scales_down() {
    let p = policy(1, 10, 10, 3);
    // (4 - 1) * 3 = 9: a depth of exactly 9 removes a worker, 10 keeps them.
    assert_eq!(compute_target_workers(9, 4, &p), 3);
    assert_eq!(compute_target_workers(10, 4, &p), 4);
}

#[test]
fn saturating_up_threshold_never_scales_up() {
    // 3 * u32::MAX saturates at u32::MAX, which no depth exceeds.
    let p = policy(1, 10, u32::MAX, 0);
    assert_eq!(compute_target_workers(u32::MAX, 3, &p), 3);
}

#[test]
fn saturating_down_threshold_scales_down() {
    // (4 - 1) * u32::MAX saturates at u32::MAX, which every depth is at or below.
    let p = policy(1, 10, u32::MAX, u32::MAX);
    assert_eq!(compute_target_workers(u32::MAX, 4, &p), 3);
}

#[test]
fn at_max_deep_queue_with_wide_down_band_scales_down() {
    // Up is blocked at the ceiling; the scale-down test then still applies.
    let p = policy(1, 3, 1, 10);
    assert_eq!(compute_target_workers(5, 3, &p), 2);
}

#[test]
fn at_floor_idle_queue_stays() {
    let p = policy(2, 8, 10, 2);
    assert_eq!(compute_target_workers(0, 2, &p), 2);
}

#[test]
fn moves_at_most_one_worker_per_call() {
    let p = policy(1, 64, 1, 1);
    assert_eq!(compute_target_workers(u32::MAX, 5, &p), 6);
    assert_eq!(compute_target_workers(0, 50, &p), 49);
}

#[test]
fn result_within_bounds_for_out_of_range_current() {
    let p = policy(4, 8, 10, 2);
    for current in [0u32, 1, 3, 9, 100, u32::MAX] {
        for depth in [0u32, 5, 50, 500, u32::MAX] {
            let t = compute_target_workers(depth, current, &p);
            assert!((4..=8).contains(&t), "depth {depth} current {current} gave {t}");
        }
    }
}

#[test]
fn deeper_queue_never_fewer_workers() {
    let p = policy(1, 10, 5, 2);
    let mut last = 0;
    for depth in [0u32, 1, 2, 3, 4, 5, 10, 15, 16, 100] {
        let t = compute_target_workers(depth, 4, &p);
        assert!(t >= last);
        last = t;
    }
}

#[test]
fn step_up_is_not_undone_at_same_depth() {
    let p = AutoscalePolicy::default();
    let next = compute_target_workers(45, 4, &p);
    assert_eq!(next, 5);
    assert!(compute_target_workers(45, next, &p) >= next);
}

#[test]
fn step_down_is_not_undone_at_same_depth() {
    let p = AutoscalePolicy::default();
    let next = compute_target_workers(6, 5, &p);
    assert_eq!(next, 4);
    assert!(compute_target_workers(6, next, &p) <= next);
}
