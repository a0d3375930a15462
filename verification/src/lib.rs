//! Decision logic of a chain swap orchestrator: the per-swap state machine,
//! the checks made on counterparty transactions, and the steps of claims,
//! refunds and periodic reconciliation.

pub mod claim;
pub mod error;
pub mod expiry;
pub mod model;
pub mod record;
pub mod refund;
pub mod rescan;
pub mod schedule;
pub mod state;
pub mod status;
pub mod track;
pub mod verify;
