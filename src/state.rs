use vstd::prelude::*;

use crate::address::Address;

verus! {

/// Smallest reward, in lamports, that a task may declare.
pub const MIN_REWARD_LAMPORTS: u64 = 1000;

/// Longest receipt URI, in UTF-8 bytes.
pub const MAX_URI_LEN: usize = 200;

/// Longest dispute reason, in UTF-8 bytes.
pub const MAX_REASON_LEN: usize = 500;

/// Length of a string in UTF-8 bytes, as `str::len` counts it.
pub open spec fn utf8_len(s: Seq<char>) -> nat {
    vstd::utf8::encode_utf8(s).len()
}

/// The registry of one dependency graph.
#[derive(Clone, Copy, Debug)]
pub struct Graph {
    pub authority: Address,
    pub max_dependencies_per_task: u16,
    pub task_count: u64,
}

impl Graph {
    pub open spec fn wf(&self) -> bool {
        self.max_dependencies_per_task > 0
    }
}

#[derive(Clone, Copy, Debug, PartialEq, Eq, Structural)]
pub enum TaskStatus {
    Open,
    Completed,
}

#[derive(Clone, Copy, Debug, PartialEq, Eq, Structural)]
pub enum DisputeStatus {
    NotRaised,
    Raised,
    Resolved,
}

/// How far a task has come: Open, then Completed.
pub open spec fn status_rank(s: TaskStatus) -> int {
    match s {
        TaskStatus::Open => 0,
        TaskStatus::Completed => 1,
    }
}

/// How far a dispute has come: not raised, raised, then resolved.
pub open spec fn dispute_rank(s: DisputeStatus) -> int {
    match s {
        DisputeStatus::NotRaised => 0,
        DisputeStatus::Raised => 1,
        DisputeStatus::Resolved => 2,
    }
}

/// Every element is smaller than each element after it.
pub open spec fn strictly_increasing(s: Seq<u64>) -> bool {
    forall|i: int, j: int| 0 <= i < j < s.len() ==> s[i] < s[j]
}

/// A rewarded unit of work and its prerequisites.
#[derive(Clone, Debug)]
pub struct Task {
    pub graph: Address,
    pub task_id: u64,
    pub creator: Address,
    pub reward_lamports: u64,
    pub status: TaskStatus,
    pub dispute_status: DisputeStatus,
    pub dependencies: Vec<u64>,
    pub created_at_slot: u64,
    pub completed_by: Option<Address>,
    pub disputed_by: Option<Address>,
    pub dispute_raised_at_slot: u64,
    pub resolved_by: Option<Address>,
    pub dispute_resolved_at_slot: u64,
    pub worker_award_lamports: u64,
}

impl Task {
    /// The task's invariant: a canonical dependency list, and bookkeeping
    /// that matches how far the task has come.
    pub open spec fn wf(&self) -> bool {
        &&& strictly_increasing(self.dependencies@)
        &&& !self.dependencies@.contains(self.task_id)
        &&& self.reward_lamports >= MIN_REWARD_LAMPORTS
        &&& (self.status == TaskStatus::Open ==> self.completed_by is None
            && self.dispute_status == DisputeStatus::NotRaised)
        &&& (self.status == TaskStatus::Completed ==> self.completed_by is Some)
        &&& (self.dispute_status != DisputeStatus::NotRaised ==> self.disputed_by is Some)
        &&& (self.dispute_status == DisputeStatus::Resolved ==> self.resolved_by is Some)
    }

    /// Whether `later` can follow `self`: identity, reward and
    /// prerequisites stay, and statuses only move forward.
    pub open spec fn advances_to(&self, later: Task) -> bool {
        &&& later.graph == self.graph
        &&& later.task_id == self.task_id
        &&& later.creator == self.creator
        &&& later.reward_lamports == self.reward_lamports
        &&& later.dependencies@ == self.dependencies@
        &&& later.created_at_slot == self.created_at_slot
        &&& status_rank(later.status) >= status_rank(self.status)
        &&& dispute_rank(later.dispute_status) >= dispute_rank(self.dispute_status)
    }

    /// Bytes that the stored form of a task with these dependencies takes.
    pub fn space_for(dependencies: &Vec<u64>) -> (r: usize)
        requires
            218 + 8 * dependencies.len() <= usize::MAX,
        ensures
            r == 218 + 8 * dependencies.len(),
    {
        let fixed: usize = 32 + 8 + 32 + 8 + 1 + 1 + 8 + (1 + 32) + (1 + 32) + 8 + (1 + 32) + 8 + 8
            + 1;
        let vec: usize = 4 + dependencies.len() * 8;
        fixed + vec
    }
}

/// Custody of the reward of one task.
#[derive(Clone, Copy, Debug)]
pub struct Escrow {
    /// The task that this escrow is bound to, once funded.
    pub task: Option<Address>,
    /// The balance held in custody.
    pub lamports: u64,
}

impl Escrow {
    /// An escrow that has never been funded.
    pub fn empty() -> (r: Escrow)
        ensures
            r.task is None,
            r.lamports == 0,
    {
        Escrow { task: None, lamports: 0 }
    }

    pub open spec fn wf(&self) -> bool {
        self.lamports > 0 ==> self.task is Some
    }
}

/// A worker's proof that a task was done.
#[derive(Clone, Debug)]
pub struct Receipt {
    pub task: Address,
    pub agent: Address,
    pub work_hash: [u8; 32],
    pub uri: String,
    pub submitted_at_slot: u64,
}

/// A disagreement over a completed task, and how it was settled.
#[derive(Clone, Debug)]
pub struct Dispute {
    pub task: Address,
    pub creator: Address,
    pub worker: Address,
    pub raised_by: Address,
    pub reason: String,
    pub status: DisputeStatus,
    pub raised_at_slot: u64,
    pub resolved_at_slot: Option<u64>,
    pub arbiter: Option<Address>,
    pub creator_pct: Option<u8>,
    pub worker_pct: Option<u8>,
}

impl Dispute {
    /// A dispute is raised or resolved, and a resolved one carries its
    /// settlement, whose shares add up to the whole.
    pub open spec fn wf(&self) -> bool {
        &&& self.status != DisputeStatus::NotRaised
        &&& (self.status == DisputeStatus::Raised ==> self.resolved_at_slot is None
            && self.arbiter is None && self.creator_pct is None && self.worker_pct is None)
        &&& (self.status == DisputeStatus::Resolved ==> self.resolved_at_slot is Some
            && self.arbiter is Some && self.creator_pct is Some && self.worker_pct is Some
            && self.creator_pct->0 + self.worker_pct->0 == 100)
    }

    /// Bytes that the stored form of a dispute with this reason takes.
    pub fn space_for(reason: &str) -> (r: usize)
        requires
            188 + utf8_len(reason@) <= usize::MAX,
        ensures
            r == 188 + utf8_len(reason@),
    {
        let fixed: usize = 32 + 32 + 32 + 32 + 1 + 8 + (1 + 32) + (1 + 8) + (1 + 1) + (1 + 1) + 1;
        let reason_size: usize = 4 + reason.len();
        fixed + reason_size
    }
}

} // verus!
