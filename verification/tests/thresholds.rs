use synnergy_contracts::threshold::{FaultToleranceChecker, GovQuorum};

#[test]
fn tolerates_within_threshold() {
    let checker = FaultToleranceChecker::new(33, 100);
    assert!(checker.is_tolerated(1, 4));
    assert!(!checker.is_tolerated(2, 4));
}

#[test]
fn quorum_check() {
    let q = GovQuorum::new(6, 10);
    assert!(q.has_quorum(6, 10));
    assert!(!q.has_quorum(5, 10));
}

#[test]
fn no_nodes_no_fault() {
    let checker = FaultToleranceChecker::new(33, 100);
    assert!(checker.is_tolerated(0, 0));
    assert!(checker.is_tolerated(7, 0));
    assert!(checker.is_tolerated(usize::MAX, 0));
    let strict = FaultToleranceChecker::new(0, 1);
    assert!(strict.is_tolerated(1, 0));
}

#[test]
fn no_votes_no_quorum() {
    let q = GovQuorum::new(6, 10);
    assert!(!q.has_quorum(0, 0));
    assert!(!q.has_quorum(1, 0));
    assert!(!q.has_quorum(u64::MAX, 0));
    let lax = GovQuorum::new(0, 1);
    assert!(!lax.has_quorum(0, 0));
    assert!(lax.has_quorum(0, 1));
}

#[test]
fn fault_limit_is_sharp() {
    let third = FaultToleranceChecker::new(1, 3);
    assert!(third.is_tolerated(3, 10));
    assert!(!third.is_tolerated(4, 10));
    assert!(third.is_tolerated(3, 9));
    assert!(!third.is_tolerated(4, 9));
    assert!(third.is_tolerated(0, 2));
    assert!(!third.is_tolerated(1, 2));
    let checker = FaultToleranceChecker::new(33, 100);
    assert!(checker.is_tolerated(33, 100));
    assert!(!checker.is_tolerated(34, 100));
}

#[test]
fn bounds_of_zero_and_one() {
    let none = FaultToleranceChecker::new(0, 5);
    assert!(none.is_tolerated(0, 10));
    assert!(!none.is_tolerated(1, 10));
    let all = FaultToleranceChecker::new(5, 5);
    assert!(all.is_tolerated(10, 10));
    assert!(!all.is_tolerated(11, 10));
    let unanimous = GovQuorum::new(1, 1);
    assert!(unanimous.has_quorum(10, 10));
    assert!(!unanimous.has_quorum(9, 10));
    let any = GovQuorum::new(0, 1);
    assert!(any.has_quorum(0, 10));
}

#[test]
fn large_counts_do_not_overflow() {
    let checker = FaultToleranceChecker::new(u64::MAX - 1, u64::MAX);
    assert!(checker.is_tolerated(usize::MAX - 1, usize::MAX));
    assert!(!checker.is_tolerated(usize::MAX, usize::MAX));
    let q = GovQuorum::new(u64::MAX, u64::MAX);
    assert!(q.has_quorum(u64::MAX, u64::MAX));
    assert!(!q.has_quorum(u64::MAX - 1, u64::MAX));
}

#[test]
fn quorum_is_met_from_the_bound_on() {
    let q = GovQuorum::new(2, 3);
    assert!(!q.has_quorum(1, 3));
    assert!(q.has_quorum(2, 3));
    assert!(q.has_quorum(3, 3));
    assert!(!q.has_quorum(6, 10));
    assert!(q.has_quorum(7, 10));
}
