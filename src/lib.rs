//! A dependency-gated bounty ledger.
//!
//! Creators post rewarded tasks into a graph of prerequisites, workers submit
//! receipts once every prerequisite has completed, rewards are held in escrow
//! until they are claimed, and the graph's authority settles disputes by
//! splitting the escrowed balance between creator and worker.
//!
//! Every operation is a verified function from the records it is given to the
//! records it produces and the transfers of value that must follow. Storage,
//! signature checks and the transfers themselves belong to the caller.

pub mod address;
pub mod error;
pub mod state;
pub mod split;
pub mod instructions;
pub mod laws;
