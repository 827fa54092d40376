//! A resumable, batch-aware, bounded-concurrency download orchestrator.
//!
//! The library holds the decisions of the orchestrator as verified state
//! machines that perform no I/O: the caller feeds them what happened on the
//! network, on disk and at the user's controls, and carries out the actions
//! they return.
pub mod model;
pub mod text;
pub mod catalog;
pub mod api;
pub mod transfer;
pub mod transfer_laws;
pub mod registry;
pub mod manager;
pub mod manager_laws;
