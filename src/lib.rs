//! A delayed-execution authorization queue: critical actions are scheduled
//! behind a fixed mandatory delay, may be cancelled by their initiator or
//! their delegate meanwhile, and are executed by a sweep once due.
pub mod account;
pub mod bytes;
pub mod error;
pub mod instruction;
pub mod queue;
pub mod state;
