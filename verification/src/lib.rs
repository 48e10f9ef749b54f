//! Performance metrics for block execution: counters and timers for the
//! execution stage, database speed, state-root calculation, and the
//! in-memory post-state change sets whose sizes those metrics report.

pub mod bench;
pub mod bundle;
pub mod canonical_chain;
pub mod db_metric;
pub mod display;
pub mod execute_tx;
pub mod execution_duration;
pub mod keys;
pub mod metric;
pub mod node_display;
pub mod opcode;
pub mod post_state;
pub mod primitives;
pub mod revm_execute;
pub mod speed;
pub mod stage_metrics;
pub mod state_changes;
pub mod state_root;
pub mod state_root_stats;
pub mod storage_changes;
pub mod sums;
pub mod time;
pub mod time_distribution;
pub mod tps_gas;
pub mod write_to_db;
