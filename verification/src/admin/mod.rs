//! Administrative timelocks and storage maintenance.
pub mod action_queue;
pub mod prune;
pub mod cleanup_accounts;
pub mod revocation;
