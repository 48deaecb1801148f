use bountygraph::address::Address;
use bountygraph::error::BountyGraphError;
use bountygraph::instructions::{
    claim_reward, create_task, dispute_task, fund_task, initialize_graph, resolve_dispute,
    submit_receipt, CreateTaskParams, DisputeTaskParams, InitializeGraphParams,
    ResolveDisputeParams, SubmitReceiptParams,
};
use bountygraph::state::{Dispute, DisputeStatus, Escrow, Graph, Task, TaskStatus};

fn addr(n: u8) -> Address {
    Address::new([n; 32])
}

const AUTHORITY: u8 = 1;
const GRAPH: u8 = 2;
const CREATOR: u8 = 3;
const WORKER: u8 = 4;
const STRANGER: u8 = 5;

fn key(id: u64) -> Address {
    addr(100 + id as u8)
}

fn graph(cap: u16) -> Graph {
    initialize_graph(addr(AUTHORITY), InitializeGraphParams { max_dependencies_per_task: cap })
        .unwrap()
}

fn params(id: u64, reward: u64, deps: Vec<u64>) -> CreateTaskParams {
    CreateTaskParams { task_id: id, reward_lamports: reward, dependencies: deps }
}

fn create(g: &mut Graph, p: CreateTaskParams, evidence: &Vec<Task>) -> Result<Task, BountyGraphError> {
    create_task(g, addr(GRAPH), addr(CREATOR), p, evidence, 10)
}

fn submit(task: &mut Task, uri: &str, evidence: &Vec<Task>) -> Result<(), BountyGraphError> {
    let p = SubmitReceiptParams { work_hash: [9; 32], uri: uri.to_string() };
    submit_receipt(task, key(task.task_id), addr(WORKER), p, evidence, 20).map(|_| ())
}

fn dispute(task: &mut Task, by: u8, reason: &str) -> Result<Dispute, BountyGraphError> {
    dispute_task(task, key(task.task_id), addr(by), DisputeTaskParams { reason: reason.to_string() }, 30)
}

fn completed_task(id: u64) -> Task {
    let mut g = graph(5);
    let mut t = create(&mut g, params(id, 1000, vec![]), &vec![]).unwrap();
    submit(&mut t, "ipfs://x", &vec![]).unwrap();
    t
}

struct Case {
    graph: Graph,
    task: Task,
    dispute: Dispute,
    escrow: Escrow,
}

fn disputed_case() -> Case {
    let g = graph(5);
    let mut task = completed_task(1);
    let escrow = Escrow { task: Some(key(1)), lamports: 1000 };
    let dispute = dispute(&mut task, CREATOR, "wrong output").unwrap();
    Case { graph: g, task, dispute, escrow }
}

fn resolve_with(
    c: &mut Case,
    graph_key: u8,
    caller: u8,
    task_key: Address,
    creator: u8,
    worker: u8,
    pcts: (u8, u8),
) -> BountyGraphError {
    resolve_dispute(
        &c.graph,
        addr(graph_key),
        addr(caller),
        &mut c.task,
        task_key,
        &mut c.dispute,
        &mut c.escrow,
        addr(creator),
        addr(worker),
        ResolveDisputeParams { creator_pct: pcts.0, worker_pct: pcts.1 },
        40,
    )
    .unwrap_err()
}

// ----- graph registry -----

#[test]
fn graph_starts_empty() {
    let g = graph(3);
    assert!(g.authority == addr(AUTHORITY));
    assert_eq!(g.max_dependencies_per_task, 3);
    assert_eq!(g.task_count, 0);
}

#[test]
fn graph_with_zero_cap_refused() {
    let r = initialize_graph(addr(AUTHORITY), InitializeGraphParams { max_dependencies_per_task: 0 });
    assert_eq!(r.unwrap_err(), BountyGraphError::InvalidConfig);
}

// ----- task creation -----

#[test]
fn created_task_is_open_and_canonical() {
    let mut g = graph(5);
    let a = create(&mut g, params(1, 1000, vec![]), &vec![]).unwrap();
    let b = create(&mut g, params(2, 1000, vec![]), &vec![]).unwrap();
    let c = create(&mut g, params(9, 5000, vec![1, 2]), &vec![a, b]).unwrap();
    assert_eq!(g.task_count, 3);
    assert_eq!(c.dependencies, vec![1, 2]);
    assert!(c.dependencies.windows(2).all(|w| w[0] < w[1]));
    assert!(!c.dependencies.contains(&c.task_id));
    assert!(c.status == TaskStatus::Open);
    assert!(c.dispute_status == DisputeStatus::NotRaised);
    assert!(c.graph == addr(GRAPH));
    assert!(c.creator == addr(CREATOR));
    assert_eq!(c.reward_lamports, 5000);
    assert_eq!(c.created_at_slot, 10);
    assert!(c.completed_by.is_none());
}

#[test]
fn reward_below_minimum_refused() {
    let mut g = graph(5);
    assert_eq!(create(&mut g, params(1, 999, vec![]), &vec![]).unwrap_err(), BountyGraphError::InvalidReward);
    assert_eq!(g.task_count, 0);
}

#[test]
fn too_many_dependencies_refused() {
    let mut g = graph(1);
    let r = create(&mut g, params(9, 1000, vec![1, 2]), &vec![]);
    assert_eq!(r.unwrap_err(), BountyGraphError::TooManyDependencies);
}

#[test]
fn self_dependency_refused() {
    let mut g = graph(5);
    let r = create(&mut g, params(3, 1000, vec![1, 3]), &vec![]);
    assert_eq!(r.unwrap_err(), BountyGraphError::InvalidDependency);
}

#[test]
fn unsorted_or_repeated_dependencies_refused() {
    let mut g = graph(5);
    assert_eq!(
        create(&mut g, params(9, 1000, vec![2, 1]), &vec![]).unwrap_err(),
        BountyGraphError::InvalidDependency
    );
    assert_eq!(
        create(&mut g, params(9, 1000, vec![2, 2]), &vec![]).unwrap_err(),
        BountyGraphError::InvalidDependency
    );
}

#[test]
fn evidence_count_must_match() {
    let mut g = graph(5);
    let a = create(&mut g, params(1, 1000, vec![]), &vec![]).unwrap();
    assert_eq!(
        create(&mut g, params(9, 1000, vec![1]), &vec![]).unwrap_err(),
        BountyGraphError::MissingDependencyAccounts
    );
    assert_eq!(
        create(&mut g, params(9, 1000, vec![]), &vec![a]).unwrap_err(),
        BountyGraphError::MissingDependencyAccounts
    );
}

#[test]
fn evidence_from_other_graph_refused() {
    let mut g = graph(5);
    let mut a = create(&mut g, params(1, 1000, vec![]), &vec![]).unwrap();
    a.graph = addr(77);
    let r = create(&mut g, params(9, 1000, vec![1]), &vec![a]);
    assert_eq!(r.unwrap_err(), BountyGraphError::InvalidDependency);
}

#[test]
fn substituted_evidence_refused() {
    let mut g = graph(5);
    let a = create(&mut g, params(1, 1000, vec![]), &vec![]).unwrap();
    let b = create(&mut g, params(2, 1000, vec![]), &vec![]).unwrap();
    let r = create(&mut g, params(9, 1000, vec![1, 2]), &vec![b, a]);
    assert_eq!(r.unwrap_err(), BountyGraphError::InvalidDependency);
    assert_eq!(g.task_count, 2);
}

#[test]
fn back_edge_refused() {
    let mut g = graph(5);
    // The stored record of task 5 already names task 7 as a prerequisite.
    let mut five = create(&mut g, params(5, 1000, vec![]), &vec![]).unwrap();
    five.dependencies = vec![7];
    let r = create(&mut g, params(7, 1000, vec![5]), &vec![five]);
    assert_eq!(r.unwrap_err(), BountyGraphError::CircularDependency);
    assert_eq!(g.task_count, 1);
}

#[test]
fn back_edge_refused_among_several() {
    let mut g = graph(5);
    let one = create(&mut g, params(1, 1000, vec![]), &vec![]).unwrap();
    let mut two = create(&mut g, params(2, 1000, vec![]), &vec![]).unwrap();
    two.dependencies = vec![1, 3];
    let r = create(&mut g, params(3, 1000, vec![1, 2]), &vec![one, two]);
    assert_eq!(r.unwrap_err(), BountyGraphError::CircularDependency);
}

#[test]
fn task_counter_overflow_refused() {
    let mut g = graph(5);
    g.task_count = u64::MAX;
    let r = create(&mut g, params(1, 1000, vec![]), &vec![]);
    assert_eq!(r.unwrap_err(), BountyGraphError::ArithmeticOverflow);
    assert_eq!(g.task_count, u64::MAX);
}

// ----- funding -----

#[test]
fn funding_binds_escrow() {
    let mut g = graph(5);
    let t = create(&mut g, params(1, 1000, vec![]), &vec![]).unwrap();
    let mut e = Escrow::empty();
    fund_task(&t, key(1), &mut e, 600).unwrap();
    assert!(e.task == Some(key(1)));
    assert_eq!(e.lamports, 600);
}

#[test]
fn funding_twice_refused() {
    let mut g = graph(5);
    let t = create(&mut g, params(1, 1000, vec![]), &vec![]).unwrap();
    let mut e = Escrow::empty();
    fund_task(&t, key(1), &mut e, 500).unwrap();
    assert_eq!(fund_task(&t, key(1), &mut e, 500).unwrap_err(), BountyGraphError::EscrowAlreadyFunded);
    assert_eq!(e.lamports, 500);
}

#[test]
fn funding_limits() {
    let mut g = graph(5);
    let t = create(&mut g, params(1, 1000, vec![]), &vec![]).unwrap();
    let mut e = Escrow::empty();
    assert_eq!(fund_task(&t, key(1), &mut e, 0).unwrap_err(), BountyGraphError::InvalidReward);
    assert_eq!(fund_task(&t, key(1), &mut e, 1001).unwrap_err(), BountyGraphError::InvalidReward);
    let mut other = Escrow { task: Some(key(2)), lamports: 0 };
    assert_eq!(fund_task(&t, key(1), &mut other, 10).unwrap_err(), BountyGraphError::InvalidDependency);
    let done = completed_task(1);
    assert_eq!(fund_task(&done, key(1), &mut e, 10).unwrap_err(), BountyGraphError::TaskNotOpen);
    assert!(e.task.is_none());
    assert_eq!(e.lamports, 0);
}

// ----- receipts -----

#[test]
fn receipt_completes_task() {
    let mut g = graph(5);
    let mut t = create(&mut g, params(1, 1000, vec![]), &vec![]).unwrap();
    let p = SubmitReceiptParams { work_hash: [9; 32], uri: "https://x/y".to_string() };
    let r = submit_receipt(&mut t, key(1), addr(WORKER), p, &vec![], 20).unwrap();
    assert!(r.task == key(1));
    assert!(r.agent == addr(WORKER));
    assert_eq!(r.work_hash, [9; 32]);
    assert_eq!(r.uri, "https://x/y");
    assert_eq!(r.submitted_at_slot, 20);
    assert!(t.status == TaskStatus::Completed);
    assert!(t.completed_by == Some(addr(WORKER)));
}

#[test]
fn incomplete_dependency_blocks_completion() {
    let mut g = graph(5);
    let a = create(&mut g, params(1, 1000, vec![]), &vec![]).unwrap();
    let mut b = create(&mut g, params(2, 1000, vec![1]), &vec![a.clone()]).unwrap();
    assert_eq!(submit(&mut b, "u", &vec![a]).unwrap_err(), BountyGraphError::DependencyNotCompleted);
    assert!(b.status == TaskStatus::Open);
    assert!(b.completed_by.is_none());
}

#[test]
fn receipt_evidence_checked() {
    let mut g = graph(5);
    let a = create(&mut g, params(1, 1000, vec![]), &vec![]).unwrap();
    let mut b = create(&mut g, params(2, 1000, vec![1]), &vec![a.clone()]).unwrap();
    assert_eq!(submit(&mut b, "u", &vec![]).unwrap_err(), BountyGraphError::MissingDependencyAccounts);
    let mut done = completed_task(1);
    done.graph = addr(GRAPH);
    let mut wrong_id = done.clone();
    wrong_id.task_id = 8;
    assert_eq!(submit(&mut b, "u", &vec![wrong_id]).unwrap_err(), BountyGraphError::InvalidDependency);
    let mut wrong_graph = done.clone();
    wrong_graph.graph = addr(78);
    assert_eq!(submit(&mut b, "u", &vec![wrong_graph]).unwrap_err(), BountyGraphError::InvalidDependency);
    assert!(b.status == TaskStatus::Open);
    submit(&mut b, "u", &vec![done]).unwrap();
    assert!(b.status == TaskStatus::Completed);
}

#[test]
fn receipt_uri_bounds() {
    let mut g = graph(5);
    let mut t = create(&mut g, params(1, 1000, vec![]), &vec![]).unwrap();
    assert_eq!(submit(&mut t, "", &vec![]).unwrap_err(), BountyGraphError::InvalidUri);
    assert_eq!(submit(&mut t, &"a".repeat(201), &vec![]).unwrap_err(), BountyGraphError::InvalidUri);
    // 100 two-byte characters are 200 bytes, 101 are too many.
    assert_eq!(submit(&mut t, &"é".repeat(101), &vec![]).unwrap_err(), BountyGraphError::InvalidUri);
    submit(&mut t, &"é".repeat(100), &vec![]).unwrap();
}

#[test]
fn completed_task_takes_no_receipt() {
    let mut t = completed_task(1);
    assert_eq!(submit(&mut t, "u", &vec![]).unwrap_err(), BountyGraphError::TaskNotOpen);
}

// ----- claims -----

#[test]
fn claim_rules() {
    let mut g = graph(5);
    let open = create(&mut g, params(1, 1000, vec![]), &vec![]).unwrap();
    let mut e = Escrow { task: Some(key(1)), lamports: 1000 };
    assert_eq!(claim_reward(&open, key(1), &mut e, addr(WORKER)).unwrap_err(), BountyGraphError::TaskNotCompleted);
    let done = completed_task(1);
    assert_eq!(claim_reward(&done, key(1), &mut e, addr(STRANGER)).unwrap_err(), BountyGraphError::NotTaskCompleter);
    let mut unbound = Escrow { task: Some(key(2)), lamports: 1000 };
    assert_eq!(claim_reward(&done, key(1), &mut unbound, addr(WORKER)).unwrap_err(), BountyGraphError::InvalidDependency);
    let mut empty = Escrow { task: Some(key(1)), lamports: 0 };
    assert_eq!(claim_reward(&done, key(1), &mut empty, addr(WORKER)).unwrap_err(), BountyGraphError::EscrowEmpty);
    assert_eq!(e.lamports, 1000);
    let paid = claim_reward(&done, key(1), &mut e, addr(WORKER)).unwrap();
    assert_eq!(paid.lamports, 1000);
    assert!(e.task.is_none());
    assert_eq!(e.lamports, 0);
}

#[test]
fn claim_blocked_by_dispute() {
    let mut t = completed_task(1);
    dispute(&mut t, WORKER, "why").unwrap();
    let mut e = Escrow { task: Some(key(1)), lamports: 1000 };
    assert_eq!(claim_reward(&t, key(1), &mut e, addr(WORKER)).unwrap_err(), BountyGraphError::TaskInDispute);
    assert_eq!(e.lamports, 1000);
}

// ----- raising disputes -----

#[test]
fn dispute_raised_by_creator() {
    let mut t = completed_task(1);
    let d = dispute(&mut t, CREATOR, "not done").unwrap();
    assert!(d.task == key(1));
    assert!(d.creator == addr(CREATOR));
    assert!(d.worker == addr(WORKER));
    assert!(d.raised_by == addr(CREATOR));
    assert_eq!(d.reason, "not done");
    assert!(d.status == DisputeStatus::Raised);
    assert_eq!(d.raised_at_slot, 30);
    assert!(d.arbiter.is_none());
    assert!(t.dispute_status == DisputeStatus::Raised);
    assert!(t.disputed_by == Some(addr(CREATOR)));
    assert_eq!(t.dispute_raised_at_slot, 30);
}

#[test]
fn dispute_raised_only_once() {
    let mut t = completed_task(1);
    dispute(&mut t, WORKER, "first").unwrap();
    assert_eq!(dispute(&mut t, CREATOR, "second").unwrap_err(), BountyGraphError::DisputeAlreadyRaised);
    assert!(t.disputed_by == Some(addr(WORKER)));
}

#[test]
fn dispute_rules() {
    let mut g = graph(5);
    let mut open = create(&mut g, params(1, 1000, vec![]), &vec![]).unwrap();
    assert_eq!(dispute(&mut open, CREATOR, "x").unwrap_err(), BountyGraphError::InvalidTaskStatus);
    let mut t = completed_task(1);
    assert_eq!(dispute(&mut t, STRANGER, "x").unwrap_err(), BountyGraphError::UnauthorizedDispute);
    assert_eq!(dispute(&mut t, CREATOR, "").unwrap_err(), BountyGraphError::InvalidUri);
    assert_eq!(dispute(&mut t, CREATOR, &"r".repeat(501)).unwrap_err(), BountyGraphError::InvalidUri);
    let mut broken = completed_task(1);
    broken.completed_by = None;
    assert_eq!(dispute(&mut broken, CREATOR, "x").unwrap_err(), BountyGraphError::InvalidTaskStatus);
    assert!(t.dispute_status == DisputeStatus::NotRaised);
    dispute(&mut t, CREATOR, &"r".repeat(500)).unwrap();
}

// ----- resolving disputes -----

#[test]
fn only_authority_resolves() {
    for caller in [CREATOR, WORKER, STRANGER] {
        let mut c = disputed_case();
        let e = resolve_with(&mut c, GRAPH, caller, key(1), CREATOR, WORKER, (50, 50));
        assert_eq!(e, BountyGraphError::UnauthorizedResolution);
        assert_eq!(c.escrow.lamports, 1000);
        assert!(c.task.dispute_status == DisputeStatus::Raised);
        assert!(c.dispute.status == DisputeStatus::Raised);
    }
}

#[test]
fn resolution_errors() {
    let mut c = disputed_case();
    assert_eq!(resolve_with(&mut c, 9, AUTHORITY, key(1), CREATOR, WORKER, (50, 50)), BountyGraphError::InvalidGraph);
    assert_eq!(resolve_with(&mut c, GRAPH, AUTHORITY, key(1), CREATOR, WORKER, (50, 51)), BountyGraphError::InvalidSplit);
    assert_eq!(resolve_with(&mut c, GRAPH, AUTHORITY, key(1), CREATOR, WORKER, (200, 200)), BountyGraphError::InvalidSplit);
    assert_eq!(resolve_with(&mut c, GRAPH, AUTHORITY, key(2), CREATOR, WORKER, (50, 50)), BountyGraphError::InvalidResolution);
    assert_eq!(resolve_with(&mut c, GRAPH, AUTHORITY, key(1), STRANGER, WORKER, (50, 50)), BountyGraphError::InvalidCreator);
    assert_eq!(resolve_with(&mut c, GRAPH, AUTHORITY, key(1), CREATOR, STRANGER, (50, 50)), BountyGraphError::InvalidWorker);

    let mut c = disputed_case();
    c.dispute.creator = addr(STRANGER);
    assert_eq!(resolve_with(&mut c, GRAPH, AUTHORITY, key(1), CREATOR, WORKER, (50, 50)), BountyGraphError::InvalidCreator);

    let mut c = disputed_case();
    c.dispute.worker = addr(STRANGER);
    assert_eq!(resolve_with(&mut c, GRAPH, AUTHORITY, key(1), CREATOR, WORKER, (50, 50)), BountyGraphError::InvalidWorker);

    let mut c = disputed_case();
    c.task.completed_by = None;
    assert_eq!(resolve_with(&mut c, GRAPH, AUTHORITY, key(1), CREATOR, WORKER, (50, 50)), BountyGraphError::InvalidTaskStatus);

    let mut c = disputed_case();
    c.dispute.status = DisputeStatus::Resolved;
    assert_eq!(resolve_with(&mut c, GRAPH, AUTHORITY, key(1), CREATOR, WORKER, (50, 50)), BountyGraphError::InvalidTaskStatus);

    let mut c = disputed_case();
    c.escrow.lamports = 0;
    assert_eq!(resolve_with(&mut c, GRAPH, AUTHORITY, key(1), CREATOR, WORKER, (50, 50)), BountyGraphError::EscrowEmpty);
}

#[test]
fn undisputed_task_cannot_be_resolved() {
    let mut c = disputed_case();
    c.task = completed_task(1);
    assert_eq!(resolve_with(&mut c, GRAPH, AUTHORITY, key(1), CREATOR, WORKER, (50, 50)), BountyGraphError::NoDisputeRaised);
}

#[test]
fn resolved_dispute_cannot_be_resolved_again() {
    let mut c = disputed_case();
    resolve_dispute(
        &c.graph, addr(GRAPH), addr(AUTHORITY), &mut c.task, key(1), &mut c.dispute, &mut c.escrow,
        addr(CREATOR), addr(WORKER), ResolveDisputeParams { creator_pct: 40, worker_pct: 60 }, 40,
    )
    .unwrap();
    assert!(c.task.resolved_by == Some(addr(AUTHORITY)));
    assert_eq!(c.task.dispute_resolved_at_slot, 40);
    assert_eq!(c.task.worker_award_lamports, 600);
    assert_eq!(resolve_with(&mut c, GRAPH, AUTHORITY, key(1), CREATOR, WORKER, (50, 50)), BountyGraphError::NoDisputeRaised);
    let mut e = c.escrow;
    assert_eq!(claim_reward(&c.task, key(1), &mut e, addr(WORKER)).unwrap_err(), BountyGraphError::TaskInDispute);
}

// ----- identities and sizes -----

#[test]
fn addresses_compare_by_every_byte() {
    let mut b = [0u8; 32];
    b[31] = 1;
    assert!(Address::new([0; 32]) != Address::new(b));
    assert!(Address::new(b) == Address::new(b));
    assert!(Address::new(b).same_as(&Address::new(b)));
    assert!(!Address::new([0; 32]).same_as(&Address::new(b)));
}

#[test]
fn stored_sizes() {
    assert_eq!(Task::space_for(&vec![]), 218);
    assert_eq!(Task::space_for(&vec![1, 2, 3]), 242);
    assert_eq!(Dispute::space_for(""), 188);
    assert_eq!(Dispute::space_for("héllo"), 194);
}
