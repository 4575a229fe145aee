use ape_dts::config_enums::ParallelType;
use ape_dts::error::Error;
use ape_dts::pipeline::{check_processed_batch, first_failure};
use ape_dts::events::{Batch, ChangeEvent, ColValue, Row, RowData, RowOp, SourcePosition};
use ape_dts::parallelizer::Parallelizer;
use ape_dts::pipeline::{
    advance_state, BoundedBuffer, CheckpointStore, Orchestrator, PipelineState, RollingCounter,
};

fn keyed_row(schema: &str, table: &str, id: i64, offset: u64) -> ChangeEvent {
    ChangeEvent::RowMutation(RowData {
        schema: schema.to_string(),
        table: table.to_string(),
        op: RowOp::Insert,
        before: None,
        after: Some(Row {
            columns: vec![("id".to_string(), ColValue::Int(id))],
        }),
        position: SourcePosition { offset },
    })
}

fn offset_of(e: &ChangeEvent) -> u64 {
    e.position().offset
}

#[test]
fn backpressure_refuses_the_push_past_capacity() {
    // capacity three: three pushes land, the fourth is refused unchanged
    let mut buffer = BoundedBuffer::new(3);
    for i in 0..3 {
        assert!(buffer.push(keyed_row("db1", "t", i, i as u64)).is_ok());
    }
    assert_eq!(buffer.len(), 3);
    let refused = buffer.push(keyed_row("db1", "t", 99, 99));
    match refused {
        Err(e) => assert_eq!(offset_of(&e), 99),
        Ok(()) => panic!("a full buffer accepted a push"),
    }
    assert_eq!(buffer.len(), 3);

    let drained = buffer.take_all();
    assert_eq!(drained.len(), 3);
    assert_eq!(offset_of(&drained[0]), 0);
    assert_eq!(buffer.len(), 0);
}

#[test]
fn byte_budget_also_exerts_backpressure() {
    // plenty of item capacity, but a budget of ten estimated bytes
    let mut buffer = BoundedBuffer::with_byte_budget(100, 10);
    assert!(buffer.push_estimated(keyed_row("db1", "t", 1, 1), 6).is_ok());
    assert!(buffer.push_estimated(keyed_row("db1", "t", 2, 2), 4).is_ok());
    // the budget is exhausted: the next event is refused
    assert!(buffer.push_estimated(keyed_row("db1", "t", 3, 3), 1).is_err());
    assert_eq!(buffer.len(), 2);

    // a single event above the budget still enters an empty buffer
    let mut wide = BoundedBuffer::with_byte_budget(100, 10);
    assert!(wide.push_estimated(keyed_row("db1", "t", 1, 1), 99).is_ok());
    assert!(wide.push_estimated(keyed_row("db1", "t", 2, 2), 1).is_err());
}

#[test]
fn batch_records_its_greatest_position() {
    let batch = Batch::new(vec![
        keyed_row("db1", "t", 1, 4),
        keyed_row("db1", "t", 2, 9),
        keyed_row("db1", "t", 3, 7),
    ]);
    assert_eq!(batch.max_position.offset, 9);
    let empty = Batch::new(vec![]);
    assert_eq!(empty.max_position.offset, 0);
}

#[test]
fn same_key_events_stay_together_and_ordered() {
    // four workers; three updates of the same row interleaved with others
    let events = vec![
        keyed_row("db1", "t", 7, 1),
        keyed_row("db1", "u", 1, 2),
        keyed_row("db1", "t", 7, 3),
        keyed_row("db2", "v", 2, 4),
        keyed_row("db1", "t", 7, 5),
    ];
    let p = Parallelizer { parallel_type: ParallelType::RdbPartition, parallel_size: 4 };
    let subs = p.partition(Batch::new(events));
    assert_eq!(subs.len(), 4);

    // every event lands in exactly one sub-batch
    let total: usize = subs.iter().map(|s| s.len()).sum();
    assert_eq!(total, 5);

    // the three same-key events share one sub-batch, in extraction order
    let mut host = None;
    for (j, sub) in subs.iter().enumerate() {
        let offsets: Vec<u64> = sub
            .iter()
            .filter(|e| matches!(e, ChangeEvent::RowMutation(rd) if rd.table == "t"))
            .map(offset_of)
            .collect();
        if !offsets.is_empty() {
            assert!(host.is_none(), "same-key events split across sub-batches");
            assert_eq!(offsets, vec![1, 3, 5]);
            host = Some(j);
        }
    }
    assert!(host.is_some());

    // inside any sub-batch the batch order is kept
    for sub in &subs {
        let offsets: Vec<u64> = sub.iter().map(offset_of).collect();
        let mut sorted = offsets.clone();
        sorted.sort();
        assert_eq!(offsets, sorted);
    }
}

#[test]
fn serial_strategy_keeps_one_sub_batch() {
    let events = vec![keyed_row("db1", "t", 1, 1), keyed_row("db1", "u", 2, 2)];
    let p = Parallelizer { parallel_type: ParallelType::Serial, parallel_size: 8 };
    let subs = p.partition(Batch::new(events.clone()));
    assert_eq!(subs.len(), 1);
    assert_eq!(subs[0], events);
}

#[test]
fn table_granular_strategy_keeps_tables_together() {
    let events = vec![
        keyed_row("db1", "t", 1, 1),
        keyed_row("db1", "t", 2, 2),
        keyed_row("db1", "t", 3, 3),
    ];
    let p = Parallelizer { parallel_type: ParallelType::RdbMerge, parallel_size: 3 };
    let subs = p.partition(Batch::new(events));
    let nonempty: Vec<_> = subs.iter().filter(|s| !s.is_empty()).collect();
    assert_eq!(nonempty.len(), 1);
    assert_eq!(nonempty[0].len(), 3);
}

#[test]
fn lifecycle_follows_the_loop_and_drains() {
    let s0 = PipelineState::Pulling;
    let s1 = advance_state(s0, false);
    assert_eq!(s1, PipelineState::Transforming);
    let s2 = advance_state(s1, false);
    assert_eq!(s2, PipelineState::Dispatching);
    let s3 = advance_state(s2, false);
    assert_eq!(s3, PipelineState::AwaitingCompletion);
    let s4 = advance_state(s3, false);
    assert_eq!(s4, PipelineState::Checkpointing);
    let s5 = advance_state(s4, false);
    assert_eq!(s5, PipelineState::Pulling);

    // a shutdown request lets an in-flight batch drain through its stages
    assert_eq!(advance_state(PipelineState::Transforming, true), PipelineState::Dispatching);
    assert_eq!(advance_state(PipelineState::Checkpointing, true), PipelineState::Draining);
    assert_eq!(advance_state(PipelineState::Draining, true), PipelineState::Draining);
}

#[test]
fn failed_batch_never_moves_the_checkpoint() {
    let mut orch = Orchestrator::new(Some(SourcePosition { offset: 10 }));
    let batch = Batch::new(vec![keyed_row("db1", "t", 1, 25)]);

    orch.observe_batch_outcome(&batch, false);
    assert_eq!(orch.checkpoint, Some(SourcePosition { offset: 10 }));

    // after a restart from that checkpoint, the batch's events lie past it
    // and are extracted again
    assert!(batch.events.iter().all(|e| offset_of(e) > 10));

    orch.observe_batch_outcome(&batch, true);
    assert_eq!(orch.checkpoint, Some(SourcePosition { offset: 25 }));
}

#[test]
fn persisted_checkpoints_never_decrease() {
    let mut orch = Orchestrator::new(None);
    let mut persisted: Vec<u64> = Vec::new();

    for (offset, success) in [(5u64, true), (9, true), (3, true), (7, false), (12, true)] {
        let batch = Batch::new(vec![keyed_row("db1", "t", 1, offset)]);
        orch.observe_batch_outcome(&batch, success);
        orch.persist_checkpoint(offset);
        if let Some(rec) = &orch.store.last {
            persisted.push(rec.position.offset);
        }
    }
    let mut sorted = persisted.clone();
    sorted.sort();
    assert_eq!(persisted, sorted, "a persisted position went backwards");
    assert_eq!(orch.store.last.map(|r| r.position.offset), Some(12));
}

#[test]
fn checkpoint_store_loads_what_was_saved() {
    let store = CheckpointStore::new();
    assert!(store.load().is_none());
    let resumed = CheckpointStore::from_record(ape_dts::events::CheckpointRecord {
        position: SourcePosition { offset: 44 },
        committed_at: 1700000000,
    });
    assert_eq!(resumed.load(), Some(SourcePosition { offset: 44 }));
}

#[test]
fn oversized_processor_output_is_a_processing_error() {
    let shrunk = vec![keyed_row("db1", "t", 1, 1)];
    assert!(matches!(check_processed_batch(2, shrunk), Ok(v) if v.len() == 1));

    let grown = vec![keyed_row("db1", "t", 1, 1), keyed_row("db1", "t", 2, 2)];
    match check_processed_batch(1, grown) {
        Err(Error::ProcessingError(_)) => {},
        other => panic!("expected a processing error, got {:?}", other),
    }
}

#[test]
fn any_failed_sub_batch_fails_the_batch() {
    let all_ok: Vec<Result<(), Error>> = vec![Ok(()), Ok(())];
    assert_eq!(first_failure(&all_ok), None);

    let one_bad: Vec<Result<(), Error>> = vec![
        Ok(()),
        Err(Error::SinkError("destination write timed out".to_string())),
        Ok(()),
    ];
    assert_eq!(first_failure(&one_bad), Some(1));

    // the failed batch leaves the checkpoint untouched
    let mut orch = Orchestrator::new(None);
    let batch = Batch::new(vec![keyed_row("db1", "t", 1, 8)]);
    orch.observe_batch_outcome(&batch, first_failure(&one_bad).is_none());
    assert_eq!(orch.checkpoint, None);
}

#[test]
fn counter_caps_its_sub_counters() {
    let mut counter = RollingCounter::new(10, 2);
    counter.add("t1", 5);
    counter.add("t2", 1);
    counter.add("t1", 2);
    // the cap is reached: a third table lands in the aggregate bucket
    counter.add("t3", 9);
    counter.add("t4", 1);
    assert_eq!(counter.subs.len(), 2);
    assert_eq!(counter.subs[0], ("t1".to_string(), 7));
    assert_eq!(counter.subs[1], ("t2".to_string(), 1));
    assert_eq!(counter.other, 10);
}
