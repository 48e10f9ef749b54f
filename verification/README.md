# perf_metrics

Verified performance metrics for block execution. The library (`src/`)
holds the counters and timers of the execution stage and the dashboard's
decisions, with contracts checked by Verus; `app/` holds the process-wide
recorder, the clock, the event channel and the printing.

Modules: `metric` (the recorder's measuring points), `execution_duration`,
`execute_tx`, `write_to_db`, `tps_gas`, `speed`, `stage_metrics`,
`revm_execute`, `db_metric` (counters and timers); `state_root`,
`state_root_stats`, `time_distribution` (state-root measurements and their
breakdowns); `post_state`, `storage_changes`, `state_changes` (change sets
and writing them); `canonical_chain`, `bundle`, `bench` (block bookkeeping
of the replay); `display`, `node_display`, `opcode` (dashboard decisions);
`time`, `primitives`, `keys`, `sums` (support).
