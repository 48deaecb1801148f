use vstd::prelude::*;

verus! {

/// Why an operation on the ledger was refused.
#[derive(Clone, Copy, Debug, PartialEq, Eq, Structural)]
pub enum BountyGraphError {
    InvalidConfig,
    InvalidReward,
    TooManyDependencies,
    InvalidDependency,
    CircularDependency,
    ArithmeticOverflow,
    TaskNotOpen,
    InvalidUri,
    MissingDependencyAccounts,
    DependencyNotCompleted,
    TaskNotCompleted,
    NotTaskCompleter,
    EscrowEmpty,
    EscrowAlreadyFunded,
    TaskInDispute,
    UnauthorizedDisputer,
    DisputeAlreadyRaised,
    NoDisputeRaised,
    InvalidResolution,
    InvalidGraph,
    InvalidCreator,
    InvalidWorker,
    UnauthorizedDispute,
    UnauthorizedResolution,
    InvalidTaskStatus,
    InvalidSplit,
}

} // verus!
