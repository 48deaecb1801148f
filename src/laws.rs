//! Properties of the ledger that relate several calls or hold for all inputs.
use vstd::prelude::*;

use crate::address::Address;
use crate::error::BountyGraphError;
use crate::instructions::{
    canonical_dependencies, claim_reward_error, create_task_error, dependency_record_error,
    dispute_task_error, drained_escrow, first_dependency_error, fund_task_error, funded_escrow,
    raised_task, split_payouts, total_paid, lemma_split_payouts_total, CreateTaskParams,
};
use crate::split::{creator_share, lemma_creator_share_bounded, split_fits, worker_share};
use crate::state::{DisputeStatus, Escrow, Graph, Task, TaskStatus, MIN_REWARD_LAMPORTS};

verus! {

/// When every one of the first `n` records is the right task of the right
/// graph, the first error among them, if any, is a circular dependency, and
/// there is one as soon as one of them lists the new task.
proof fn lemma_matching_records_error(
    records: Seq<Task>,
    ids: Seq<u64>,
    graph_key: Address,
    new_id: u64,
    n: nat,
)
    requires
        n <= records.len(),
        n <= ids.len(),
        forall|j: int|
            0 <= j < n ==> (#[trigger] records[j]).graph == graph_key && records[j].task_id
                == ids[j],
    ensures
        first_dependency_error(records, ids, graph_key, new_id, n) is None
            || first_dependency_error(records, ids, graph_key, new_id, n) == Some(
            BountyGraphError::CircularDependency,
        ),
        (exists|j: int| 0 <= j < n && (#[trigger] records[j]).dependencies@.contains(new_id))
            ==> first_dependency_error(records, ids, graph_key, new_id, n) is Some,
    decreases n,
{
    if n > 0 {
        lemma_matching_records_error(records, ids, graph_key, new_id, (n - 1) as nat);
        let last = records[n - 1];
        assert(last.graph == graph_key && last.task_id == ids[n - 1]);
        if exists|j: int| 0 <= j < n && (#[trigger] records[j]).dependencies@.contains(new_id) {
            let j = choose|j: int| 0 <= j < n && (#[trigger] records[j]).dependencies@.contains(new_id);
            if j < n - 1 {
                assert(exists|k: int|
                    0 <= k < n - 1 && (#[trigger] records[k]).dependencies@.contains(new_id));
            } else {
                assert(dependency_record_error(last, graph_key, ids[n - 1], new_id) is Some);
            }
        }
    }
}

/// Immediate cycles are refused from either side: creating a task fails with
/// `CircularDependency` when one of its prerequisites already depends on it,
/// whenever the request is otherwise well formed and every prerequisite
/// record is the right task of this graph.
pub proof fn lemma_back_edge_rejected(
    graph: Graph,
    graph_key: Address,
    params: CreateTaskParams,
    records: Seq<Task>,
    i: int,
)
    requires
        params.reward_lamports >= MIN_REWARD_LAMPORTS,
        params.dependencies@.len() <= graph.max_dependencies_per_task,
        canonical_dependencies(params.dependencies@, params.task_id),
        records.len() == params.dependencies@.len(),
        forall|j: int|
            0 <= j < records.len() ==> (#[trigger] records[j]).graph == graph_key
                && records[j].task_id == params.dependencies@[j],
        0 <= i < records.len(),
        records[i].dependencies@.contains(params.task_id),
    ensures
        create_task_error(graph, graph_key, params, records) == Some(
            BountyGraphError::CircularDependency,
        ),
{
    let ids = params.dependencies@;
    assert(records[i].dependencies@.contains(params.task_id));
    lemma_matching_records_error(records, ids, graph_key, params.task_id, ids.len());
}

/// An escrow is funded at most once: after a successful funding, any further
/// funding of it fails, with `EscrowAlreadyFunded` for an amount that would
/// otherwise be accepted.
pub proof fn lemma_funding_is_once(
    task: Task,
    task_key: Address,
    escrow: Escrow,
    first: u64,
    second: u64,
)
    requires
        fund_task_error(task, task_key, escrow, first) is None,
    ensures
        fund_task_error(task, task_key, funded_escrow(task_key, first), second) is Some,
        0 < second <= task.reward_lamports ==> fund_task_error(
            task,
            task_key,
            funded_escrow(task_key, first),
            second,
        ) == Some(BountyGraphError::EscrowAlreadyFunded),
{
}

/// A reward is paid once: after a successful claim, the same claim fails
/// with `EscrowEmpty`.
pub proof fn lemma_claim_is_once(task: Task, task_key: Address, escrow: Escrow, agent: Address)
    requires
        claim_reward_error(task, task_key, escrow, agent) is None,
    ensures
        claim_reward_error(task, task_key, drained_escrow(), agent) == Some(
            BountyGraphError::EscrowEmpty,
        ),
{
}

/// A split loses nothing to rounding: for any percentage from 0 to 100 the
/// two shares are non-negative, can be computed, and add up to the balance,
/// as do the payments made of them.
pub proof fn lemma_split_is_exact(
    balance: u64,
    creator_pct: u8,
    creator: Address,
    worker: Address,
)
    requires
        creator_pct <= 100,
        balance * creator_pct <= u64::MAX,
    ensures
        split_fits(balance, creator_pct),
        0 <= creator_share(balance as int, creator_pct as int) <= balance,
        0 <= worker_share(balance as int, creator_pct as int) <= balance,
        creator_share(balance as int, creator_pct as int) + worker_share(
            balance as int,
            creator_pct as int,
        ) == balance,
        total_paid(
            split_payouts(
                creator,
                worker,
                creator_share(balance as int, creator_pct as int) as u64,
                worker_share(balance as int, creator_pct as int) as u64,
            ),
        ) == balance,
{
    lemma_creator_share_bounded(balance, creator_pct);
    lemma_split_payouts_total(
        creator,
        worker,
        creator_share(balance as int, creator_pct as int) as u64,
        worker_share(balance as int, creator_pct as int) as u64,
    );
}

/// A dispute is raised only over a completed task with no dispute yet, and
/// only once: after one is raised, raising another fails.
pub proof fn lemma_dispute_raised_once(
    task: Task,
    first_initiator: Address,
    first_reason: Seq<char>,
    slot: u64,
    second_initiator: Address,
    second_reason: Seq<char>,
)
    requires
        dispute_task_error(task, first_initiator, first_reason) is None,
    ensures
        task.status == TaskStatus::Completed,
        task.dispute_status == DisputeStatus::NotRaised,
        dispute_task_error(raised_task(task, first_initiator, slot), second_initiator, second_reason)
            is Some,
{
}

} // verus!
