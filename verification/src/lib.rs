//! Core engine of a heterogeneous database replication pipeline.
//!
//! The crate models change events and resumable source positions, decides
//! which events are kept or dropped (transaction-aware filtering and
//! routing), partitions batches across parallel sink workers without
//! breaking per-key ordering, tracks checkpoints monotonically, and loads
//! the task configuration that wires these pieces together. It also emits
//! PostgreSQL DDL statements for structural replication.

pub mod config_enums;
pub mod configs;
pub mod error;
pub mod events;
pub mod ini;
pub mod parallelizer;
pub mod pg_create_table_statement;
pub mod pg_structure;
pub mod pipeline;
pub mod rdb_filter;
pub mod router;
pub mod strutil;
pub mod task_config;
pub mod transaction_filter;
