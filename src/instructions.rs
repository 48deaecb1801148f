use vstd::prelude::*;

use crate::address::{is_some_address, Address};
use crate::error::BountyGraphError;
use crate::split::{creator_share, split_escrow, split_fits, worker_share};
use crate::state::{
    strictly_increasing, utf8_len, Dispute, DisputeStatus, Escrow, Graph, Receipt, Task,
    TaskStatus, MAX_REASON_LEN, MAX_URI_LEN, MIN_REWARD_LAMPORTS,
};

verus! {

pub struct InitializeGraphParams {
    pub max_dependencies_per_task: u16,
}

pub struct CreateTaskParams {
    pub task_id: u64,
    pub reward_lamports: u64,
    /// Prerequisites, strictly increasing and without the task's own id.
    pub dependencies: Vec<u64>,
}

pub struct SubmitReceiptParams {
    pub work_hash: [u8; 32],
    pub uri: String,
}

pub struct DisputeTaskParams {
    pub reason: String,
}

pub struct ResolveDisputeParams {
    pub creator_pct: u8,
    pub worker_pct: u8,
}

/// An amount that must leave an escrow for `recipient`.
#[derive(Clone, Copy, Debug)]
pub struct Payout {
    pub recipient: Address,
    pub lamports: u64,
}

// ---------------------------------------------------------------------------
// Graph registry

/// Creates the registry of a graph owned by `authority`.
pub fn initialize_graph(authority: Address, params: InitializeGraphParams) -> (r: Result<
    Graph,
    BountyGraphError,
>)
    ensures
        match r {
            Ok(g) => {
                &&& params.max_dependencies_per_task > 0
                &&& g.authority == authority
                &&& g.max_dependencies_per_task == params.max_dependencies_per_task
                &&& g.task_count == 0
                &&& g.wf()
            },
            Err(e) => params.max_dependencies_per_task == 0 && e
                == BountyGraphError::InvalidConfig,
        },
{
    if params.max_dependencies_per_task == 0 {
        return Err(BountyGraphError::InvalidConfig);
    }
    Ok(Graph {
        authority,
        max_dependencies_per_task: params.max_dependencies_per_task,
        task_count: 0,
    })
}

// ---------------------------------------------------------------------------
// Task creation

/// Whether `ids` is a valid dependency list for the task `own_id`.
pub open spec fn canonical_dependencies(ids: Seq<u64>, own_id: u64) -> bool {
    strictly_increasing(ids) && !ids.contains(own_id)
}

/// Checks in one pass that `ids` is strictly increasing and never names
/// `own_id`.
pub fn is_canonical_dependency_list(ids: &Vec<u64>, own_id: u64) -> (r: bool)
    ensures
        r == canonical_dependencies(ids@, own_id),
{
    let mut prev: Option<u64> = None;
    let mut i: usize = 0;
    while i < ids.len()
        invariant
            0 <= i <= ids.len(),
            strictly_increasing(ids@.subrange(0, i as int)),
            !ids@.subrange(0, i as int).contains(own_id),
            i == 0 <==> prev is None,
            i > 0 ==> prev == Some(ids@[i - 1]),
        decreases ids.len() - i,
    {
        let dep = ids[i];
        if dep == own_id {
            assert(ids@.contains(own_id)) by {
                assert(ids@[i as int] == own_id);
            }
            return false;
        }
        match prev {
            Some(p) => {
                if dep <= p {
                    assert(!strictly_increasing(ids@)) by {
                        assert(ids@[i - 1] >= ids@[i as int]);
                    }
                    return false;
                }
            },
            None => {},
        }
        proof {
            let pre = ids@.subrange(0, i as int);
            let next = ids@.subrange(0, i + 1);
            assert(next =~= pre.push(dep));
            assert forall|a: int, b: int| 0 <= a < b < next.len() implies next[a] < next[b] by {
                if b < i {
                    assert(pre[a] < pre[b]);
                } else if a < i - 1 {
                    assert(pre[a] < pre[i - 1]);
                }
            }
        }
        prev = Some(dep);
        i += 1;
    }
    assert(ids@.subrange(0, i as int) =~= ids@);
    true
}

/// Whether `v` holds `x`.
pub fn contains_id(v: &Vec<u64>, x: u64) -> (r: bool)
    ensures
        r == v@.contains(x),
{
    let mut i: usize = 0;
    while i < v.len()
        invariant
            0 <= i <= v.len(),
            forall|j: int| 0 <= j < i ==> v@[j] != x,
        decreases v.len() - i,
    {
        if v[i] == x {
            assert(v@[i as int] == x);
            return true;
        }
        i += 1;
    }
    false
}

/// What is wrong with the record `dep` given for the prerequisite `expected`
/// of the new task `new_id`: it must belong to the same graph, be the task
/// it claims to be, and must not already depend on the new task.
pub open spec fn dependency_record_error(
    dep: Task,
    graph_key: Address,
    expected: u64,
    new_id: u64,
) -> Option<BountyGraphError> {
    if dep.graph != graph_key || dep.task_id != expected {
        Some(BountyGraphError::InvalidDependency)
    } else if dep.dependencies@.contains(new_id) {
        Some(BountyGraphError::CircularDependency)
    } else {
        None
    }
}

/// The first error among the first `n` dependency records, in list order.
pub open spec fn first_dependency_error(
    records: Seq<Task>,
    ids: Seq<u64>,
    graph_key: Address,
    new_id: u64,
    n: nat,
) -> Option<BountyGraphError>
    decreases n,
{
    if n == 0 {
        None
    } else {
        match first_dependency_error(records, ids, graph_key, new_id, (n - 1) as nat) {
            Some(e) => Some(e),
            None => dependency_record_error(records[n - 1], graph_key, ids[n - 1], new_id),
        }
    }
}

/// Once an error shows among the first `k` records, it stays the first one.
proof fn lemma_dependency_error_persists(
    records: Seq<Task>,
    ids: Seq<u64>,
    graph_key: Address,
    new_id: u64,
    k: nat,
    n: nat,
)
    requires
        k <= n,
        first_dependency_error(records, ids, graph_key, new_id, k) is Some,
    ensures
        first_dependency_error(records, ids, graph_key, new_id, n) == first_dependency_error(
            records,
            ids,
            graph_key,
            new_id,
            k,
        ),
    decreases n - k,
{
    if n > k {
        lemma_dependency_error_persists(records, ids, graph_key, new_id, k, (n - 1) as nat);
    }
}

/// Why creating a task with `params` in `graph` fails, checked in this
/// order; `None` when it succeeds.
pub open spec fn create_task_error(
    graph: Graph,
    graph_key: Address,
    params: CreateTaskParams,
    records: Seq<Task>,
) -> Option<BountyGraphError> {
    let ids = params.dependencies@;
    if params.reward_lamports < MIN_REWARD_LAMPORTS {
        Some(BountyGraphError::InvalidReward)
    } else if ids.len() > graph.max_dependencies_per_task {
        Some(BountyGraphError::TooManyDependencies)
    } else if !canonical_dependencies(ids, params.task_id) {
        Some(BountyGraphError::InvalidDependency)
    } else if records.len() != ids.len() {
        Some(BountyGraphError::MissingDependencyAccounts)
    } else if first_dependency_error(records, ids, graph_key, params.task_id, ids.len()) is Some {
        first_dependency_error(records, ids, graph_key, params.task_id, ids.len())
    } else if graph.task_count == u64::MAX {
        Some(BountyGraphError::ArithmeticOverflow)
    } else {
        None
    }
}

/// The record of a freshly created task.
pub open spec fn is_new_task(
    t: Task,
    graph_key: Address,
    creator: Address,
    params: CreateTaskParams,
    slot: u64,
) -> bool {
    &&& t.graph == graph_key
    &&& t.task_id == params.task_id
    &&& t.creator == creator
    &&& t.reward_lamports == params.reward_lamports
    &&& t.status == TaskStatus::Open
    &&& t.dispute_status == DisputeStatus::NotRaised
    &&& t.dependencies@ == params.dependencies@
    &&& t.created_at_slot == slot
    &&& t.completed_by is None
    &&& t.disputed_by is None
    &&& t.dispute_raised_at_slot == 0
    &&& t.resolved_by is None
    &&& t.dispute_resolved_at_slot == 0
    &&& t.worker_award_lamports == 0
}

/// Creates task `params.task_id` in the graph at `graph_key`.
///
/// `dependency_tasks` holds the stored record of each prerequisite, in the
/// order of `params.dependencies`. Only the immediate back-edge is refused
/// here: a prerequisite that already depends on the new task. Longer cycles
/// are for the submitter to rule out over the whole graph beforehand.
pub fn create_task(
    graph: &mut Graph,
    graph_key: Address,
    creator: Address,
    params: CreateTaskParams,
    dependency_tasks: &Vec<Task>,
    slot: u64,
) -> (r: Result<Task, BountyGraphError>)
    ensures
        match r {
            Ok(t) => {
                &&& create_task_error(*old(graph), graph_key, params, dependency_tasks@) is None
                &&& is_new_task(t, graph_key, creator, params, slot)
                &&& final(graph).task_count == old(graph).task_count + 1
                &&& final(graph).authority == old(graph).authority
                &&& final(graph).max_dependencies_per_task == old(graph).max_dependencies_per_task
            },
            Err(e) => {
                &&& create_task_error(*old(graph), graph_key, params, dependency_tasks@) == Some(e)
                &&& *final(graph) == *old(graph)
            },
        },
        r is Ok ==> strictly_increasing(r->Ok_0.dependencies@) && !r->Ok_0.dependencies@.contains(
            params.task_id,
        ),
        r is Ok ==> r->Ok_0.wf(),
        old(graph).wf() ==> final(graph).wf(),
{
    let ghost ids = params.dependencies@;
    let ghost records = dependency_tasks@;
    if params.reward_lamports < MIN_REWARD_LAMPORTS {
        return Err(BountyGraphError::InvalidReward);
    }
    if params.dependencies.len() > graph.max_dependencies_per_task as usize {
        return Err(BountyGraphError::TooManyDependencies);
    }
    if !is_canonical_dependency_list(&params.dependencies, params.task_id) {
        return Err(BountyGraphError::InvalidDependency);
    }
    if dependency_tasks.len() != params.dependencies.len() {
        return Err(BountyGraphError::MissingDependencyAccounts);
    }
    let mut i: usize = 0;
    while i < dependency_tasks.len()
        invariant
            0 <= i <= dependency_tasks.len(),
            dependency_tasks.len() == params.dependencies.len(),
            ids == params.dependencies@,
            records == dependency_tasks@,
            *graph == *old(graph),
            params.reward_lamports >= MIN_REWARD_LAMPORTS,
            ids.len() <= graph.max_dependencies_per_task,
            canonical_dependencies(ids, params.task_id),
            first_dependency_error(records, ids, graph_key, params.task_id, i as nat) is None,
        decreases dependency_tasks.len() - i,
    {
        let dep = &dependency_tasks[i];
        if !dep.graph.same_as(&graph_key) || dep.task_id != params.dependencies[i] {
            proof {
                lemma_dependency_error_persists(
                    records,
                    ids,
                    graph_key,
                    params.task_id,
                    (i + 1) as nat,
                    ids.len(),
                );
            }
            return Err(BountyGraphError::InvalidDependency);
        }
        if contains_id(&dep.dependencies, params.task_id) {
            proof {
                lemma_dependency_error_persists(
                    records,
                    ids,
                    graph_key,
                    params.task_id,
                    (i + 1) as nat,
                    ids.len(),
                );
            }
            return Err(BountyGraphError::CircularDependency);
        }
        i += 1;
    }
    let next_count = match graph.task_count.checked_add(1) {
        Some(c) => c,
        None => return Err(BountyGraphError::ArithmeticOverflow),
    };
    graph.task_count = next_count;
    Ok(Task {
        graph: graph_key,
        task_id: params.task_id,
        creator,
        reward_lamports: params.reward_lamports,
        status: TaskStatus::Open,
        dispute_status: DisputeStatus::NotRaised,
        dependencies: params.dependencies,
        created_at_slot: slot,
        completed_by: None,
        disputed_by: None,
        dispute_raised_at_slot: 0,
        resolved_by: None,
        dispute_resolved_at_slot: 0,
        worker_award_lamports: 0,
    })
}

// ---------------------------------------------------------------------------
// Dispute resolution

/// Why the graph's authority `authority` cannot settle `dispute` over `task`
/// with `params`, checked in this order; `None` when it can.
pub open spec fn resolve_dispute_error(
    graph: Graph,
    graph_key: Address,
    authority: Address,
    task: Task,
    task_key: Address,
    dispute: Dispute,
    escrow: Escrow,
    creator: Address,
    worker: Address,
    params: ResolveDisputeParams,
) -> Option<BountyGraphError> {
    if task.graph != graph_key {
        Some(BountyGraphError::InvalidGraph)
    } else if params.creator_pct + params.worker_pct != 100 {
        Some(BountyGraphError::InvalidSplit)
    } else if authority != graph.authority {
        Some(BountyGraphError::UnauthorizedResolution)
    } else if dispute.task != task_key {
        Some(BountyGraphError::InvalidResolution)
    } else if dispute.creator != task.creator {
        Some(BountyGraphError::InvalidCreator)
    } else if task.completed_by is None {
        Some(BountyGraphError::InvalidTaskStatus)
    } else if dispute.worker != task.completed_by->0 {
        Some(BountyGraphError::InvalidWorker)
    } else if creator != task.creator {
        Some(BountyGraphError::InvalidCreator)
    } else if worker != task.completed_by->0 {
        Some(BountyGraphError::InvalidWorker)
    } else if task.dispute_status != DisputeStatus::Raised {
        Some(BountyGraphError::NoDisputeRaised)
    } else if dispute.status != DisputeStatus::Raised {
        Some(BountyGraphError::InvalidTaskStatus)
    } else if escrow.lamports == 0 {
        Some(BountyGraphError::EscrowEmpty)
    } else if !split_fits(escrow.lamports, params.creator_pct) {
        Some(BountyGraphError::ArithmeticOverflow)
    } else {
        None
    }
}

/// The task once its dispute is settled by `arbiter`.
pub open spec fn resolved_task(t: Task, arbiter: Address, slot: u64, worker_amount: u64) -> Task {
    Task {
        dispute_status: DisputeStatus::Resolved,
        resolved_by: Some(arbiter),
        dispute_resolved_at_slot: slot,
        worker_award_lamports: worker_amount,
        ..t
    }
}

/// The dispute once settled by `arbiter` with `params`.
pub open spec fn resolved_dispute(
    d: Dispute,
    arbiter: Address,
    slot: u64,
    params: ResolveDisputeParams,
) -> Dispute {
    Dispute {
        status: DisputeStatus::Resolved,
        resolved_at_slot: Some(slot),
        arbiter: Some(arbiter),
        creator_pct: Some(params.creator_pct),
        worker_pct: Some(params.worker_pct),
        ..d
    }
}

/// The payments of a split, creator first; a zero amount is not paid.
pub open spec fn split_payouts(
    creator: Address,
    worker: Address,
    creator_amount: u64,
    worker_amount: u64,
) -> Seq<Payout> {
    let first = if creator_amount > 0 {
        seq![Payout { recipient: creator, lamports: creator_amount }]
    } else {
        Seq::empty()
    };
    if worker_amount > 0 {
        first.push(Payout { recipient: worker, lamports: worker_amount })
    } else {
        first
    }
}

/// The sum of the amounts of `payouts`.
pub open spec fn total_paid(payouts: Seq<Payout>) -> int
    decreases payouts.len(),
{
    if payouts.len() == 0 {
        0
    } else {
        total_paid(payouts.drop_last()) + payouts.last().lamports
    }
}

/// The payments of a split add up to what was split.
pub proof fn lemma_split_payouts_total(
    creator: Address,
    worker: Address,
    creator_amount: u64,
    worker_amount: u64,
)
    ensures
        total_paid(split_payouts(creator, worker, creator_amount, worker_amount))
            == creator_amount + worker_amount,
{
    let first = if creator_amount > 0 {
        seq![Payout { recipient: creator, lamports: creator_amount }]
    } else {
        Seq::<Payout>::empty()
    };
    assert(total_paid(first) == creator_amount) by {
        assert(total_paid(Seq::<Payout>::empty()) == 0);
        if creator_amount > 0 {
            assert(first.drop_last() =~= Seq::<Payout>::empty());
        }
    }
    if worker_amount > 0 {
        let all = first.push(Payout { recipient: worker, lamports: worker_amount });
        assert(all.drop_last() =~= first);
    }
}

/// Settles a raised dispute: the escrowed balance is split between the
/// task's creator and its worker at `params.creator_pct` percent for the
/// creator, the worker taking the rounding remainder. Returns the payments
/// to make from the escrow.
pub fn resolve_dispute(
    graph: &Graph,
    graph_key: Address,
    authority: Address,
    task: &mut Task,
    task_key: Address,
    dispute: &mut Dispute,
    escrow: &mut Escrow,
    creator: Address,
    worker: Address,
    params: ResolveDisputeParams,
    slot: u64,
) -> (r: Result<Vec<Payout>, BountyGraphError>)
    ensures
        match r {
            Ok(payouts) => {
                let balance = old(escrow).lamports as int;
                let creator_amount = creator_share(balance, params.creator_pct as int);
                let worker_amount = worker_share(balance, params.creator_pct as int);
                &&& resolve_dispute_error(
                    *graph,
                    graph_key,
                    authority,
                    *old(task),
                    task_key,
                    *old(dispute),
                    *old(escrow),
                    creator,
                    worker,
                    params,
                ) is None
                &&& payouts@ == split_payouts(
                    creator,
                    worker,
                    creator_amount as u64,
                    worker_amount as u64,
                )
                &&& total_paid(payouts@) == balance
                &&& *final(task) == resolved_task(*old(task), authority, slot, worker_amount as u64)
                &&& *final(dispute) == resolved_dispute(*old(dispute), authority, slot, params)
                &&& final(escrow).lamports == 0
                &&& final(escrow).task == old(escrow).task
            },
            Err(e) => {
                &&& resolve_dispute_error(
                    *graph,
                    graph_key,
                    authority,
                    *old(task),
                    task_key,
                    *old(dispute),
                    *old(escrow),
                    creator,
                    worker,
                    params,
                ) == Some(e)
                &&& *final(task) == *old(task)
                &&& *final(dispute) == *old(dispute)
                &&& *final(escrow) == *old(escrow)
            },
        },
        authority != graph.authority ==> r is Err && *final(task) == *old(task) && *final(dispute)
            == *old(dispute) && *final(escrow) == *old(escrow),
        old(task).wf() ==> final(task).wf(),
        old(task).advances_to(*final(task)),
        old(dispute).wf() ==> final(dispute).wf(),
        old(escrow).wf() ==> final(escrow).wf(),
{
    if !task.graph.same_as(&graph_key) {
        return Err(BountyGraphError::InvalidGraph);
    }
    if params.creator_pct as u16 + params.worker_pct as u16 != 100 {
        return Err(BountyGraphError::InvalidSplit);
    }
    if !authority.same_as(&graph.authority) {
        return Err(BountyGraphError::UnauthorizedResolution);
    }
    if !dispute.task.same_as(&task_key) {
        return Err(BountyGraphError::InvalidResolution);
    }
    if !dispute.creator.same_as(&task.creator) {
        return Err(BountyGraphError::InvalidCreator);
    }
    let completer = match task.completed_by {
        Some(w) => w,
        None => return Err(BountyGraphError::InvalidTaskStatus),
    };
    if !dispute.worker.same_as(&completer) {
        return Err(BountyGraphError::InvalidWorker);
    }
    if !creator.same_as(&task.creator) {
        return Err(BountyGraphError::InvalidCreator);
    }
    if !worker.same_as(&completer) {
        return Err(BountyGraphError::InvalidWorker);
    }
    if task.dispute_status != DisputeStatus::Raised {
        return Err(BountyGraphError::NoDisputeRaised);
    }
    if dispute.status != DisputeStatus::Raised {
        return Err(BountyGraphError::InvalidTaskStatus);
    }
    let balance = escrow.lamports;
    if balance == 0 {
        return Err(BountyGraphError::EscrowEmpty);
    }
    let (creator_amount, worker_amount) = match split_escrow(balance, params.creator_pct) {
        Ok(amounts) => amounts,
        Err(e) => return Err(e),
    };
    let mut payouts: Vec<Payout> = Vec::new();
    if creator_amount > 0 {
        payouts.push(Payout { recipient: creator, lamports: creator_amount });
    }
    if worker_amount > 0 {
        payouts.push(Payout { recipient: worker, lamports: worker_amount });
    }
    proof {
        lemma_split_payouts_total(creator, worker, creator_amount, worker_amount);
        assert(payouts@ =~= split_payouts(creator, worker, creator_amount, worker_amount));
    }
    escrow.lamports = 0;

    task.dispute_status = DisputeStatus::Resolved;
    task.resolved_by = Some(authority);
    task.dispute_resolved_at_slot = slot;
    task.worker_award_lamports = worker_amount;

    dispute.status = DisputeStatus::Resolved;
    dispute.resolved_at_slot = Some(slot);
    dispute.arbiter = Some(authority);
    dispute.creator_pct = Some(params.creator_pct);
    dispute.worker_pct = Some(params.worker_pct);

    Ok(payouts)
}

// ---------------------------------------------------------------------------
// Completion

/// What is wrong with the record `dep` given for the prerequisite `expected`
/// of a task in the graph at `graph_key` that is about to complete.
pub open spec fn completion_record_error(dep: Task, graph_key: Address, expected: u64) -> Option<
    BountyGraphError,
> {
    if dep.graph != graph_key || dep.task_id != expected {
        Some(BountyGraphError::InvalidDependency)
    } else if dep.status != TaskStatus::Completed {
        Some(BountyGraphError::DependencyNotCompleted)
    } else {
        None
    }
}

/// The first error among the first `n` prerequisite records, in list order.
pub open spec fn first_completion_error(
    records: Seq<Task>,
    ids: Seq<u64>,
    graph_key: Address,
    n: nat,
) -> Option<BountyGraphError>
    decreases n,
{
    if n == 0 {
        None
    } else {
        match first_completion_error(records, ids, graph_key, (n - 1) as nat) {
            Some(e) => Some(e),
            None => completion_record_error(records[n - 1], graph_key, ids[n - 1]),
        }
    }
}

proof fn lemma_completion_error_persists(
    records: Seq<Task>,
    ids: Seq<u64>,
    graph_key: Address,
    k: nat,
    n: nat,
)
    requires
        k <= n,
        first_completion_error(records, ids, graph_key, k) is Some,
    ensures
        first_completion_error(records, ids, graph_key, n) == first_completion_error(
            records,
            ids,
            graph_key,
            k,
        ),
    decreases n - k,
{
    if n > k {
        lemma_completion_error_persists(records, ids, graph_key, k, (n - 1) as nat);
    }
}

/// Every prerequisite in `ids` has a record in `records`, at the same
/// position, that belongs to the graph, is that task, and has completed.
pub open spec fn all_dependencies_completed(
    graph_key: Address,
    ids: Seq<u64>,
    records: Seq<Task>,
) -> bool {
    &&& records.len() == ids.len()
    &&& forall|i: int|
        0 <= i < ids.len() ==> {
            &&& (#[trigger] records[i]).graph == graph_key
            &&& records[i].task_id == ids[i]
            &&& records[i].status == TaskStatus::Completed
        }
}

/// Why a receipt for `task` cannot be accepted, checked in this order;
/// `None` when it can.
pub open spec fn submit_receipt_error(
    task: Task,
    params: SubmitReceiptParams,
    records: Seq<Task>,
) -> Option<BountyGraphError> {
    let ids = task.dependencies@;
    if task.status != TaskStatus::Open {
        Some(BountyGraphError::TaskNotOpen)
    } else if params.uri@.len() == 0 || utf8_len(params.uri@) > MAX_URI_LEN {
        Some(BountyGraphError::InvalidUri)
    } else if records.len() != ids.len() {
        Some(BountyGraphError::MissingDependencyAccounts)
    } else {
        first_completion_error(records, ids, task.graph, ids.len())
    }
}

/// The task once `agent` has completed it.
pub open spec fn completed_task(t: Task, agent: Address) -> Task {
    Task { status: TaskStatus::Completed, completed_by: Some(agent), ..t }
}

/// Accepts `agent`'s receipt for the task at `task_key` and completes the
/// task, provided every prerequisite has completed.
///
/// `dependency_tasks` holds the stored record of each prerequisite, in the
/// order of the task's dependency list.
pub fn submit_receipt(
    task: &mut Task,
    task_key: Address,
    agent: Address,
    params: SubmitReceiptParams,
    dependency_tasks: &Vec<Task>,
    slot: u64,
) -> (r: Result<Receipt, BountyGraphError>)
    ensures
        match r {
            Ok(receipt) => {
                &&& submit_receipt_error(*old(task), params, dependency_tasks@) is None
                &&& *final(task) == completed_task(*old(task), agent)
                &&& receipt.task == task_key
                &&& receipt.agent == agent
                &&& receipt.work_hash == params.work_hash
                &&& receipt.uri@ == params.uri@
                &&& receipt.submitted_at_slot == slot
            },
            Err(e) => {
                &&& submit_receipt_error(*old(task), params, dependency_tasks@) == Some(e)
                &&& *final(task) == *old(task)
            },
        },
        final(task).status == TaskStatus::Completed && old(task).status != TaskStatus::Completed
            ==> all_dependencies_completed(
            old(task).graph,
            old(task).dependencies@,
            dependency_tasks@,
        ),
        old(task).wf() ==> final(task).wf(),
        old(task).advances_to(*final(task)),
{
    let ghost ids = task.dependencies@;
    let ghost records = dependency_tasks@;
    if task.status != TaskStatus::Open {
        return Err(BountyGraphError::TaskNotOpen);
    }
    let uri_len = params.uri.as_str().as_bytes().len();
    if params.uri.as_str().is_empty() || uri_len > MAX_URI_LEN {
        return Err(BountyGraphError::InvalidUri);
    }
    if dependency_tasks.len() != task.dependencies.len() {
        return Err(BountyGraphError::MissingDependencyAccounts);
    }
    let mut i: usize = 0;
    while i < dependency_tasks.len()
        invariant
            0 <= i <= dependency_tasks.len(),
            dependency_tasks.len() == task.dependencies.len(),
            ids == task.dependencies@,
            records == dependency_tasks@,
            *task == *old(task),
            task.status == TaskStatus::Open,
            params.uri@.len() != 0,
            utf8_len(params.uri@) <= MAX_URI_LEN,
            first_completion_error(records, ids, task.graph, i as nat) is None,
            forall|j: int|
                0 <= j < i ==> completion_record_error(
                    #[trigger] records[j],
                    task.graph,
                    ids[j],
                ) is None,
        decreases dependency_tasks.len() - i,
    {
        let dep = &dependency_tasks[i];
        if !dep.graph.same_as(&task.graph) || dep.task_id != task.dependencies[i] {
            proof {
                lemma_completion_error_persists(
                    records,
                    ids,
                    task.graph,
                    (i + 1) as nat,
                    ids.len(),
                );
            }
            return Err(BountyGraphError::InvalidDependency);
        }
        if dep.status != TaskStatus::Completed {
            proof {
                lemma_completion_error_persists(
                    records,
                    ids,
                    task.graph,
                    (i + 1) as nat,
                    ids.len(),
                );
            }
            return Err(BountyGraphError::DependencyNotCompleted);
        }
        i += 1;
    }
    let receipt = Receipt {
        task: task_key,
        agent,
        work_hash: params.work_hash,
        uri: params.uri,
        submitted_at_slot: slot,
    };
    task.status = TaskStatus::Completed;
    task.completed_by = Some(agent);
    Ok(receipt)
}

// ---------------------------------------------------------------------------
// Raising a dispute

/// Why `initiator` cannot raise a dispute over `task` for `reason`, checked
/// in this order; `None` when they can.
pub open spec fn dispute_task_error(task: Task, initiator: Address, reason: Seq<char>) -> Option<
    BountyGraphError,
> {
    if reason.len() == 0 || utf8_len(reason) > MAX_REASON_LEN {
        Some(BountyGraphError::InvalidUri)
    } else if task.status != TaskStatus::Completed {
        Some(BountyGraphError::InvalidTaskStatus)
    } else if task.dispute_status != DisputeStatus::NotRaised {
        Some(BountyGraphError::DisputeAlreadyRaised)
    } else if task.completed_by is None {
        Some(BountyGraphError::InvalidTaskStatus)
    } else if initiator != task.creator && initiator != task.completed_by->0 {
        Some(BountyGraphError::UnauthorizedDispute)
    } else {
        None
    }
}

/// The task once `initiator` has raised a dispute over it.
pub open spec fn raised_task(t: Task, initiator: Address, slot: u64) -> Task {
    Task {
        dispute_status: DisputeStatus::Raised,
        disputed_by: Some(initiator),
        dispute_raised_at_slot: slot,
        ..t
    }
}

/// Raises a dispute over the completed task at `task_key`; only its creator
/// or its worker may. Claims on the reward are blocked from then on.
pub fn dispute_task(
    task: &mut Task,
    task_key: Address,
    initiator: Address,
    params: DisputeTaskParams,
    slot: u64,
) -> (r: Result<Dispute, BountyGraphError>)
    ensures
        match r {
            Ok(d) => {
                &&& dispute_task_error(*old(task), initiator, params.reason@) is None
                &&& *final(task) == raised_task(*old(task), initiator, slot)
                &&& d.task == task_key
                &&& d.creator == old(task).creator
                &&& d.worker == old(task).completed_by->0
                &&& d.raised_by == initiator
                &&& d.reason@ == params.reason@
                &&& d.status == DisputeStatus::Raised
                &&& d.raised_at_slot == slot
                &&& d.resolved_at_slot is None
                &&& d.arbiter is None
                &&& d.creator_pct is None
                &&& d.worker_pct is None
                &&& d.wf()
            },
            Err(e) => {
                &&& dispute_task_error(*old(task), initiator, params.reason@) == Some(e)
                &&& *final(task) == *old(task)
            },
        },
        r is Ok ==> old(task).status == TaskStatus::Completed && old(task).dispute_status
            == DisputeStatus::NotRaised,
        old(task).wf() ==> final(task).wf(),
        old(task).advances_to(*final(task)),
{
    let reason_len = params.reason.as_str().as_bytes().len();
    if params.reason.as_str().is_empty() || reason_len > MAX_REASON_LEN {
        return Err(BountyGraphError::InvalidUri);
    }
    if task.status != TaskStatus::Completed {
        return Err(BountyGraphError::InvalidTaskStatus);
    }
    if task.dispute_status != DisputeStatus::NotRaised {
        return Err(BountyGraphError::DisputeAlreadyRaised);
    }
    let worker = match task.completed_by {
        Some(w) => w,
        None => return Err(BountyGraphError::InvalidTaskStatus),
    };
    if !initiator.same_as(&task.creator) && !initiator.same_as(&worker) {
        return Err(BountyGraphError::UnauthorizedDispute);
    }
    task.dispute_status = DisputeStatus::Raised;
    task.disputed_by = Some(initiator);
    task.dispute_raised_at_slot = slot;
    Ok(Dispute {
        task: task_key,
        creator: task.creator,
        worker,
        raised_by: initiator,
        reason: params.reason,
        status: DisputeStatus::Raised,
        raised_at_slot: slot,
        resolved_at_slot: None,
        arbiter: None,
        creator_pct: None,
        worker_pct: None,
    })
}

// ---------------------------------------------------------------------------
// Escrow

/// Why `escrow` cannot take `lamports` for the task at `task_key`, checked in
/// this order; `None` when it can.
pub open spec fn fund_task_error(task: Task, task_key: Address, escrow: Escrow, lamports: u64) -> Option<
    BountyGraphError,
> {
    if lamports == 0 {
        Some(BountyGraphError::InvalidReward)
    } else if task.status != TaskStatus::Open {
        Some(BountyGraphError::TaskNotOpen)
    } else if lamports > task.reward_lamports {
        Some(BountyGraphError::InvalidReward)
    } else if escrow.task is Some && escrow.task->0 != task_key {
        Some(BountyGraphError::InvalidDependency)
    } else if escrow.lamports != 0 {
        Some(BountyGraphError::EscrowAlreadyFunded)
    } else {
        None
    }
}

/// The escrow of the task at `task_key` once it holds `lamports`.
pub open spec fn funded_escrow(task_key: Address, lamports: u64) -> Escrow {
    Escrow { task: Some(task_key), lamports }
}

/// Funds the escrow of the open task at `task_key` with `lamports`, at most
/// the task's reward. An escrow is funded once: one that holds a balance is
/// refused. On success the caller moves `lamports` from the funder into the
/// escrow.
pub fn fund_task(task: &Task, task_key: Address, escrow: &mut Escrow, lamports: u64) -> (r: Result<
    (),
    BountyGraphError,
>)
    ensures
        match r {
            Ok(()) => {
                &&& fund_task_error(*task, task_key, *old(escrow), lamports) is None
                &&& *final(escrow) == funded_escrow(task_key, lamports)
            },
            Err(e) => {
                &&& fund_task_error(*task, task_key, *old(escrow), lamports) == Some(e)
                &&& *final(escrow) == *old(escrow)
            },
        },
        old(escrow).lamports != 0 ==> r is Err,
        lamports > task.reward_lamports ==> r is Err,
        old(escrow).wf() ==> final(escrow).wf(),
{
    if lamports == 0 {
        return Err(BountyGraphError::InvalidReward);
    }
    if task.status != TaskStatus::Open {
        return Err(BountyGraphError::TaskNotOpen);
    }
    if lamports > task.reward_lamports {
        return Err(BountyGraphError::InvalidReward);
    }
    match escrow.task {
        Some(bound) => {
            if !bound.same_as(&task_key) {
                return Err(BountyGraphError::InvalidDependency);
            }
        },
        None => {},
    }
    if escrow.lamports != 0 {
        return Err(BountyGraphError::EscrowAlreadyFunded);
    }
    escrow.task = Some(task_key);
    escrow.lamports = lamports;
    Ok(())
}

/// Why `agent` cannot claim the reward of the task at `task_key`, checked
/// in this order; `None` when they can.
pub open spec fn claim_reward_error(task: Task, task_key: Address, escrow: Escrow, agent: Address) -> Option<
    BountyGraphError,
> {
    if task.status != TaskStatus::Completed {
        Some(BountyGraphError::TaskNotCompleted)
    } else if task.dispute_status != DisputeStatus::NotRaised {
        Some(BountyGraphError::TaskInDispute)
    } else if task.completed_by != Some(agent) {
        Some(BountyGraphError::NotTaskCompleter)
    } else if escrow.lamports == 0 {
        Some(BountyGraphError::EscrowEmpty)
    } else if escrow.task != Some(task_key) {
        Some(BountyGraphError::InvalidDependency)
    } else {
        None
    }
}

/// An escrow that has paid out everything and is bound to no task.
pub open spec fn drained_escrow() -> Escrow {
    Escrow { task: None, lamports: 0 }
}

/// Pays the whole escrowed balance to the worker who completed the task,
/// provided no dispute was raised, and empties the escrow.
pub fn claim_reward(task: &Task, task_key: Address, escrow: &mut Escrow, agent: Address) -> (r:
    Result<Payout, BountyGraphError>)
    ensures
        match r {
            Ok(p) => {
                &&& claim_reward_error(*task, task_key, *old(escrow), agent) is None
                &&& p.recipient == agent
                &&& p.lamports == old(escrow).lamports
                &&& *final(escrow) == drained_escrow()
            },
            Err(e) => {
                &&& claim_reward_error(*task, task_key, *old(escrow), agent) == Some(e)
                &&& *final(escrow) == *old(escrow)
            },
        },
        final(escrow).lamports == 0 || *final(escrow) == *old(escrow),
        old(escrow).wf() ==> final(escrow).wf(),
{
    if task.status != TaskStatus::Completed {
        return Err(BountyGraphError::TaskNotCompleted);
    }
    if task.dispute_status != DisputeStatus::NotRaised {
        return Err(BountyGraphError::TaskInDispute);
    }
    if !is_some_address(&task.completed_by, &agent) {
        return Err(BountyGraphError::NotTaskCompleter);
    }
    let balance = escrow.lamports;
    if balance == 0 {
        return Err(BountyGraphError::EscrowEmpty);
    }
    if !is_some_address(&escrow.task, &task_key) {
        return Err(BountyGraphError::InvalidDependency);
    }
    escrow.lamports = 0;
    escrow.task = None;
    Ok(Payout { recipient: agent, lamports: balance })
}

} // verus!
