use synnergy_contracts::pension::PensionPlan;
use synnergy_contracts::time_lock::TimeLockedWallet;

#[test]
fn cannot_withdraw_before_unlock() {
    let mut w = TimeLockedWallet::new(100);
    w.deposit(50);
    assert!(w.withdraw(99).is_none());
    assert_eq!(w.withdraw(100), Some(50));
}

#[test]
fn new_wallet_is_empty_and_locked() {
    let mut w = TimeLockedWallet::new(100);
    assert_eq!(w.balance, 0);
    assert_eq!(w.unlock_timestamp, 100);
    assert_eq!(w.withdraw(0), None);
    assert_eq!(w.balance, 0);
}

#[test]
fn deposits_add_up_and_never_move_the_lock() {
    let mut w = TimeLockedWallet::new(100);
    w.deposit(50);
    w.deposit(25);
    assert_eq!(w.balance, 75);
    assert_eq!(w.unlock_timestamp, 100);
    assert_eq!(w.withdraw(99), None);
    assert_eq!(w.balance, 75);
    w.deposit(5);
    assert_eq!(w.withdraw(101), Some(80));
    assert_eq!(w.balance, 0);
    assert_eq!(w.unlock_timestamp, 100);
}

#[test]
fn deposit_is_paid_out_once() {
    let mut w = TimeLockedWallet::new(100);
    w.deposit(50);
    assert_eq!(w.withdraw(100), Some(50));
    assert_eq!(w.balance, 0);
    assert_eq!(w.withdraw(100), None);
    assert_eq!(w.withdraw(101), None);
    assert_eq!(w.withdraw(99), None);
    assert_eq!(w.balance, 0);
}

#[test]
fn deposit_after_unlock_leaves_at_once() {
    let mut w = TimeLockedWallet::new(10);
    assert_eq!(w.withdraw(10), None);
    w.deposit(0);
    assert_eq!(w.withdraw(10), None);
    w.deposit(u64::MAX);
    assert_eq!(w.withdraw(11), Some(u64::MAX));
    assert_eq!(w.balance, 0);
}

#[test]
fn contributions_release_after_epoch() {
    let mut plan = PensionPlan::new(10);
    plan.contribute("alice", 100);
    assert!(plan.withdraw("alice", 5).is_none());
    assert_eq!(plan.withdraw("alice", 10), Some(100));
}

#[test]
fn early_withdrawal_keeps_the_balance() {
    let mut plan = PensionPlan::new(10);
    plan.contribute("alice", 100);
    assert_eq!(plan.withdraw("alice", 9), None);
    assert_eq!(plan.balance_of("alice"), Some(100));
    assert_eq!(plan.withdraw("alice", 11), Some(100));
}

#[test]
fn contributions_accumulate_per_participant() {
    let mut plan = PensionPlan::new(10);
    plan.contribute("alice", 100);
    plan.contribute("bob", 7);
    plan.contribute("alice", 23);
    plan.contribute("alice", 0);
    assert_eq!(plan.balance_of("alice"), Some(123));
    assert_eq!(plan.balance_of("bob"), Some(7));
    assert_eq!(plan.balance_of("carol"), None);
    assert_eq!(plan.withdraw("alice", 10), Some(123));
    assert_eq!(plan.balance_of("bob"), Some(7));
}

#[test]
fn withdrawal_removes_the_record() {
    let mut plan = PensionPlan::new(10);
    plan.contribute("alice", 100);
    assert_eq!(plan.withdraw("alice", 10), Some(100));
    assert_eq!(plan.balance_of("alice"), None);
    assert_eq!(plan.withdraw("alice", 10), None);
    assert_eq!(plan.withdraw("alice", 20), None);
    plan.contribute("alice", 1);
    assert_eq!(plan.withdraw("alice", 20), Some(1));
}

#[test]
fn withdrawal_without_record_finds_nothing() {
    let mut plan = PensionPlan::new(0);
    assert_eq!(plan.withdraw("nobody", 0), None);
    assert_eq!(plan.withdraw("nobody", u64::MAX), None);
}

#[test]
fn a_record_of_zero_is_still_a_record() {
    let mut plan = PensionPlan::new(3);
    plan.contribute("alice", 0);
    assert_eq!(plan.balance_of("alice"), Some(0));
    assert_eq!(plan.withdraw("alice", 3), Some(0));
    assert_eq!(plan.balance_of("alice"), None);
}
