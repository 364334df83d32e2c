use memory_quota::quota::{MemoryQuota, MemoryQuotaExceeded, QuotaState};
use memory_quota::step::Step;

#[test]
fn scenario_admit_refuse_free_admit() {
    let q = MemoryQuota::new(100);
    assert_eq!(q.try_alloc(60), Ok(()));
    assert_eq!(q.in_use(), 60);
    assert_eq!(q.try_alloc(50), Err(MemoryQuotaExceeded));
    assert_eq!(q.in_use(), 60);
    q.free(60);
    assert_eq!(q.in_use(), 0);
    assert_eq!(q.try_alloc(50), Ok(()));
    assert_eq!(q.in_use(), 50);
}

#[test]
fn scenario_lowered_capacity_blocks_only_excess() {
    let q = MemoryQuota::new(10);
    q.set_capacity(5);
    assert_eq!(q.capacity(), 5);
    assert_eq!(q.try_alloc(1), Ok(()));
    assert_eq!(q.in_use(), 1);
    assert_eq!(q.try_alloc(4), Ok(()));
    assert_eq!(q.try_alloc(1), Err(MemoryQuotaExceeded));
    assert_eq!(q.in_use(), 5);
}

#[test]
fn capacity_lowered_below_usage_keeps_admitted_bytes() {
    let q = MemoryQuota::new(100);
    assert_eq!(q.try_alloc(80), Ok(()));
    q.set_capacity(50);
    assert_eq!(q.in_use(), 80);
    assert_eq!(q.try_alloc(0), Err(MemoryQuotaExceeded));
    q.free(40);
    assert_eq!(q.try_alloc(10), Ok(()));
    assert_eq!(q.in_use(), 50);
}

#[test]
fn alloc_exactly_to_capacity() {
    let q = MemoryQuota::new(100);
    assert_eq!(q.try_alloc(100), Ok(()));
    assert_eq!(q.try_alloc(1), Err(MemoryQuotaExceeded));
    assert_eq!(q.in_use(), 100);
}

#[test]
fn zero_capacity_admits_only_zero() {
    let q = MemoryQuota::new(0);
    assert_eq!(q.try_alloc(0), Ok(()));
    assert_eq!(q.try_alloc(1), Err(MemoryQuotaExceeded));
    assert_eq!(q.in_use(), 0);
}

#[test]
fn alloc_force_overcommits() {
    let q = MemoryQuota::new(10);
    q.alloc_force(25);
    assert_eq!(q.in_use(), 25);
    assert_eq!(q.try_alloc(1), Err(MemoryQuotaExceeded));
    q.alloc_force(5);
    assert_eq!(q.in_use(), 30);
}

#[test]
fn alloc_force_saturates_at_largest() {
    let q = MemoryQuota::new(usize::MAX);
    q.alloc_force(usize::MAX - 1);
    q.alloc_force(10);
    assert_eq!(q.in_use(), usize::MAX);
}

#[test]
fn alloc_refused_on_sum_past_largest() {
    let q = MemoryQuota::new(usize::MAX);
    assert_eq!(q.try_alloc(usize::MAX), Ok(()));
    assert_eq!(q.try_alloc(1), Err(MemoryQuotaExceeded));
    assert_eq!(q.in_use(), usize::MAX);
}

#[test]
fn free_saturates_at_zero() {
    let q = MemoryQuota::new(100);
    assert_eq!(q.try_alloc(30), Ok(()));
    q.free(45);
    assert_eq!(q.in_use(), 0);
    q.free(1);
    assert_eq!(q.in_use(), 0);
}

#[test]
fn free_subtracts() {
    let q = MemoryQuota::new(100);
    assert_eq!(q.try_alloc(30), Ok(()));
    q.free(12);
    assert_eq!(q.in_use(), 18);
}

#[test]
fn apply_reports_value_found() {
    let q = MemoryQuota::new(100);
    let u = q.apply(Step::Admit { capacity: 100, bytes: 70 });
    assert!(u.applied);
    assert_eq!(u.before, 0);
    let u = q.apply(Step::Admit { capacity: 100, bytes: 40 });
    assert!(!u.applied);
    assert_eq!(u.before, 70);
    assert_eq!(q.in_use(), 70);
    let u = q.apply(Step::Release { bytes: 20 });
    assert!(u.applied);
    assert_eq!(u.before, 70);
    assert_eq!(q.in_use(), 50);
}

#[test]
fn step_next_values() {
    assert_eq!(Step::Admit { capacity: 100, bytes: 50 }.next(60), None);
    assert_eq!(Step::Admit { capacity: 110, bytes: 50 }.next(60), Some(110));
    assert_eq!(Step::Admit { capacity: usize::MAX, bytes: 2 }.next(usize::MAX - 1), None);
    assert_eq!(Step::Force { bytes: 7 }.next(5), Some(12));
    assert_eq!(Step::Force { bytes: 7 }.next(usize::MAX - 3), Some(usize::MAX));
    assert_eq!(Step::Release { bytes: 7 }.next(5), Some(0));
    assert_eq!(Step::Release { bytes: 3 }.next(5), Some(2));
}

#[test]
fn state_scenario_admit_refuse_free_admit() {
    let mut s = QuotaState::new(100);
    assert_eq!(s.try_alloc(60), Ok(()));
    assert_eq!(s.in_use, 60);
    assert_eq!(s.try_alloc(50), Err(MemoryQuotaExceeded));
    assert_eq!(s.in_use, 60);
    s.free(60);
    assert_eq!(s.in_use, 0);
    assert_eq!(s.try_alloc(50), Ok(()));
    assert_eq!(s, QuotaState { in_use: 50, capacity: 100 });
}

#[test]
fn state_set_capacity_and_force() {
    let mut s = QuotaState::new(10);
    s.set_capacity(5);
    assert_eq!(s.try_alloc(1), Ok(()));
    s.alloc_force(9);
    assert_eq!(s, QuotaState { in_use: 10, capacity: 5 });
    s.free(4);
    assert_eq!(s.in_use, 6);
    assert_eq!(s.try_alloc(0), Err(MemoryQuotaExceeded));
}

#[test]
fn unit_traffic_returns_to_zero() {
    let q = MemoryQuota::new(3);
    let mut round: usize = 0;
    while round < 1000 {
        assert_eq!(q.try_alloc(1), Ok(()));
        assert!(q.in_use() <= 3);
        assert_eq!(q.try_alloc(1), Ok(()));
        q.free(1);
        q.free(1);
        round += 1;
    }
    assert_eq!(q.in_use(), 0);
}

#[test]
fn admission_uses_capacity_sampled_for_request() {
    // A request decides against the capacity it read when it began, even if
    // the capacity is lowered while it is in flight.
    let q = MemoryQuota::new(100);
    let sampled = q.capacity();
    q.set_capacity(10);
    let u = q.apply(Step::Admit { capacity: sampled, bytes: 50 });
    assert!(u.applied);
    assert_eq!(q.in_use(), 50);
    assert_eq!(q.try_alloc(1), Err(MemoryQuotaExceeded));
}
