//! Team work coordination rules behind a Postgres store.
pub mod bootstrap;
pub mod delivery_adoption;
pub mod digest;
pub mod error;
pub mod execution;
pub mod graph;
pub mod json;
pub mod lease;
pub mod lock_order;
pub mod migrate;
pub mod operation;
pub mod operator_backup;
pub mod operator_execution_attribution;
pub mod operator_history;
pub mod operator_plan;
pub mod operator_quarantine;
pub mod operator_recovery;
pub mod operator_request;
pub mod ops_audit;
pub mod order;
pub mod pool;
pub mod runner;
pub mod selective_invalidation;
pub mod source_planning;
pub mod source_writeback;
pub mod team_handoff;
pub mod text;
pub mod tx;
pub mod workstream_command;
