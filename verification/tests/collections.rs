use synnergy_contracts::audit::{AuditLog, SecurityAuditor};
use synnergy_contracts::ledger::LedgerSnapshotter;
use synnergy_contracts::loan::{LoanApplication, LoanStatus};
use synnergy_contracts::miner::MobileMiner;
use synnergy_contracts::queue::MessageQueue;
use synnergy_contracts::replication::ReplicationService;
use synnergy_contracts::sharding::ShardingCoordinator;

#[test]
fn snapshots_work() {
    let mut s = LedgerSnapshotter::new();
    s.take_snapshot("state1");
    s.take_snapshot("state2");
    assert_eq!(s.latest(), Some("state2"));
    assert_eq!(s.count(), 2);
}

#[test]
fn no_snapshot_no_latest() {
    let mut s = LedgerSnapshotter::new();
    assert_eq!(s.latest(), None);
    assert_eq!(s.count(), 0);
    s.take_snapshot("");
    assert_eq!(s.latest(), Some(""));
    assert_eq!(s.count(), 1);
}

#[test]
fn state_transitions() {
    let mut app = LoanApplication::new("bob", 1000);
    assert_eq!(app.status(), LoanStatus::Pending);
    app.approve();
    assert_eq!(app.status(), LoanStatus::Approved);
    app.reject();
    assert_eq!(app.status(), LoanStatus::Rejected);
}

#[test]
fn decisions_leave_the_application_as_filed() {
    let mut app = LoanApplication::new("bob", 1000);
    assert_eq!(app.applicant, "bob");
    assert_eq!(app.amount, 1000);
    app.reject();
    app.approve();
    assert_eq!(app.status(), LoanStatus::Approved);
    assert_eq!(app.applicant, "bob");
    assert_eq!(app.amount, 1000);
    assert_eq!(app.applicant(), "bob");
    assert_eq!(app.amount(), 1000);
}

#[test]
fn queue_works() {
    let mut q = MessageQueue::new();
    q.enqueue(1);
    q.enqueue(2);
    assert_eq!(q.len(), 2);
    assert_eq!(q.dequeue(), Some(1));
    assert_eq!(q.dequeue(), Some(2));
    assert_eq!(q.dequeue(), None);
}

#[test]
fn queue_len_follows_each_step() {
    let mut q: MessageQueue<u32> = MessageQueue::new();
    assert_eq!(q.len(), 0);
    assert_eq!(q.dequeue(), None);
    assert_eq!(q.len(), 0);
    q.enqueue(1);
    assert_eq!(q.len(), 1);
    q.enqueue(2);
    assert_eq!(q.len(), 2);
    assert_eq!(q.dequeue(), Some(1));
    assert_eq!(q.len(), 1);
    q.enqueue(3);
    assert_eq!(q.dequeue(), Some(2));
    assert_eq!(q.dequeue(), Some(3));
    assert_eq!(q.len(), 0);
    assert_eq!(q.dequeue(), None);
    assert_eq!(q.len(), 0);
}

#[test]
fn mining_increments() {
    let mut miner = MobileMiner::new(10);
    miner.mine_block();
    miner.mine_block();
    assert_eq!(miner.mined_blocks(), 2);
}

#[test]
fn new_miner_has_mined_nothing() {
    let mut miner = MobileMiner::new(10);
    assert_eq!(miner.mined_blocks(), 0);
    assert_eq!(miner.hash_rate, 10);
    miner.mine_block();
    assert_eq!(miner.mined_blocks(), 1);
    assert_eq!(miner.hash_rate, 10);
    assert_eq!(miner.hash_rate(), 10);
}

#[test]
fn replicate_to_all_nodes() {
    let nodes = vec!["n1".into(), "n2".into()];
    let mut svc = ReplicationService::new(nodes);
    svc.replicate("file1", vec![1, 2, 3]);
    assert_eq!(svc.replicas(), 2);
}

#[test]
fn every_copy_equals_the_payload() {
    let nodes = vec!["n1".to_string(), "n2".to_string()];
    let mut svc = ReplicationService::new(nodes);
    assert_eq!(svc.replicas(), 0);
    svc.replicate("file1", vec![1, 2, 3]);
    assert_eq!(svc.replica("file1", "n1"), Some(&vec![1u8, 2, 3]));
    assert_eq!(svc.replica("file1", "n2"), Some(&vec![1u8, 2, 3]));
    assert_eq!(svc.replica("file1", "n3"), None);
    assert_eq!(svc.replica("file2", "n1"), None);
    assert_eq!(svc.replica("file", "1@n1"), None);
}

#[test]
fn replica_count_spans_all_ids() {
    let nodes = vec!["n1".to_string(), "n2".to_string()];
    let mut svc = ReplicationService::new(nodes);
    svc.replicate("file1", vec![1, 2, 3]);
    svc.replicate("file2", vec![]);
    assert_eq!(svc.replicas(), 4);
    svc.replicate("file1", vec![9]);
    assert_eq!(svc.replicas(), 4);
    assert_eq!(svc.replica("file1", "n1"), Some(&vec![9u8]));
    assert_eq!(svc.replica("file1", "n2"), Some(&vec![9u8]));
    assert_eq!(svc.replica("file2", "n2"), Some(&vec![]));
}

#[test]
fn replication_to_no_node_stores_nothing() {
    let mut svc = ReplicationService::default();
    svc.replicate("file1", vec![1]);
    assert_eq!(svc.replicas(), 0);
    let mut twice = ReplicationService::new(vec!["n1".to_string(), "n1".to_string()]);
    twice.replicate("file1", vec![1]);
    assert_eq!(twice.replicas(), 1);
}

#[test]
fn pairs_that_spell_alike_are_kept_apart() {
    let mut svc = ReplicationService::new(vec!["b@c".to_string()]);
    svc.replicate("a", vec![1]);
    assert_eq!(svc.replica("a", "b@c"), Some(&vec![1u8]));
    assert_eq!(svc.replica("a@b", "c"), None);
    assert_eq!(svc.replica("", "a@b@c"), None);
    assert_eq!(svc.replica("a@b@c", ""), None);
    assert_eq!(svc.replicas(), 1);
}

#[test]
fn another_id_never_overwrites_a_copy() {
    let mut svc = ReplicationService::new(vec!["n".to_string(), "x@n".to_string()]);
    svc.replicate("a", vec![1]);
    assert_eq!(svc.replicas(), 2);
    svc.replicate("a@x", vec![2]);
    assert_eq!(svc.replicas(), 4);
    assert_eq!(svc.replica("a", "n"), Some(&vec![1u8]));
    assert_eq!(svc.replica("a", "x@n"), Some(&vec![1u8]));
    assert_eq!(svc.replica("a@x", "n"), Some(&vec![2u8]));
    assert_eq!(svc.replica("a@x", "x@n"), Some(&vec![2u8]));
}

#[test]
fn ids_and_nodes_may_hold_any_character() {
    let mut svc = ReplicationService::new(vec!["#".to_string(), "".to_string(), "n\u{e9}".to_string()]);
    svc.replicate("#@", vec![7]);
    svc.replicate("", vec![8]);
    assert_eq!(svc.replicas(), 6);
    assert_eq!(svc.replica("#@", "#"), Some(&vec![7u8]));
    assert_eq!(svc.replica("#@", ""), Some(&vec![7u8]));
    assert_eq!(svc.replica("#@", "n\u{e9}"), Some(&vec![7u8]));
    assert_eq!(svc.replica("", "#"), Some(&vec![8u8]));
    assert_eq!(svc.replica("", ""), Some(&vec![8u8]));
    assert_eq!(svc.replica("#", "@#"), None);
    assert_eq!(svc.replica("#@#", ""), None);
}

#[test]
fn log_records_message() {
    let mut auditor = SecurityAuditor::new();
    auditor.log("issue");
    assert_eq!(auditor.logs().len(), 1);
}

#[test]
fn log_at_keeps_order_of_recording() {
    let mut auditor = SecurityAuditor::new();
    assert_eq!(auditor.logs().len(), 0);
    auditor.log_at("first", 20);
    auditor.log_at("second", 20);
    auditor.log_at("third", 5);
    let expected = vec![
        AuditLog { timestamp: 20, message: "first".to_string() },
        AuditLog { timestamp: 20, message: "second".to_string() },
        AuditLog { timestamp: 5, message: "third".to_string() },
    ];
    assert_eq!(auditor.logs(), expected.as_slice());
}

#[test]
fn log_appends_with_the_clock() {
    let before = std::time::SystemTime::now()
        .duration_since(std::time::UNIX_EPOCH)
        .unwrap()
        .as_secs();
    let mut auditor = SecurityAuditor::default();
    auditor.log_at("old", 1);
    auditor.log("issue");
    let after = std::time::SystemTime::now()
        .duration_since(std::time::UNIX_EPOCH)
        .unwrap()
        .as_secs();
    let logs = auditor.logs();
    assert_eq!(logs.len(), 2);
    assert_eq!(logs[0], AuditLog { timestamp: 1, message: "old".to_string() });
    assert_eq!(logs[1].message, "issue");
    assert!(before <= logs[1].timestamp);
    assert!(logs[1].timestamp <= after);
}

#[test]
fn assign_and_retrieve_nodes() {
    let mut coord = ShardingCoordinator::new();
    coord.assign_node(1, "n1");
    coord.assign_node(1, "n2");
    assert_eq!(coord.nodes_for(1).unwrap().len(), 2);
    assert!(coord.nodes_for(2).is_none());
}

#[test]
fn nodes_keep_assignment_order_and_duplicates() {
    let mut coord = ShardingCoordinator::default();
    coord.assign_node(1, "n2");
    coord.assign_node(7, "n9");
    coord.assign_node(1, "n1");
    coord.assign_node(1, "n2");
    let expected = vec!["n2".to_string(), "n1".to_string(), "n2".to_string()];
    assert_eq!(coord.nodes_for(1), Some(expected.as_slice()));
    let other = vec!["n9".to_string()];
    assert_eq!(coord.nodes_for(7), Some(other.as_slice()));
    assert_eq!(coord.nodes_for(0), None);
}
