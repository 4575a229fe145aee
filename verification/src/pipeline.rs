use vstd::pervasive::VecAdditionalExecFns;
use vstd::prelude::*;

use crate::events::{Batch, ChangeEvent, CheckpointRecord, SourcePosition};

verus! {

// ---------------------------------------------------------------------------
// Bounded buffer
// ---------------------------------------------------------------------------

/// The bounded in-memory buffer between the extractor and the
/// orchestrator. A full buffer refuses a push, which is what makes the
/// extractor block and bounds memory whatever the source's burst rate.
/// Beside the item-count capacity an optional byte budget caps the
/// estimated memory held (a budget of zero means no byte accounting).
#[derive(Debug)]
pub struct BoundedBuffer {
    pub items: Vec<ChangeEvent>,
    pub capacity: usize,
    pub byte_budget: usize,
    pub bytes: usize,
}

impl BoundedBuffer {
    /// The buffer never holds more than its capacity, and an empty buffer
    /// holds no bytes.
    pub open spec fn wf(&self) -> bool {
        &&& self.items@.len() <= self.capacity
        &&& (self.items@.len() == 0 ==> self.bytes == 0)
    }

    /// An empty buffer of the given capacity, without byte accounting.
    pub fn new(capacity: usize) -> (r: BoundedBuffer)
        ensures
            r.wf(),
            r.capacity == capacity,
            r.byte_budget == 0,
            r.items@.len() == 0,
    {
        BoundedBuffer { items: Vec::new(), capacity, byte_budget: 0, bytes: 0 }
    }

    /// An empty buffer of the given capacity and byte budget.
    pub fn with_byte_budget(capacity: usize, byte_budget: usize) -> (r: BoundedBuffer)
        ensures
            r.wf(),
            r.capacity == capacity,
            r.byte_budget == byte_budget,
            r.items@.len() == 0,
    {
        BoundedBuffer { items: Vec::new(), capacity, byte_budget, bytes: 0 }
    }

    /// How many events are buffered.
    pub fn len(&self) -> (r: usize)
        ensures
            r == self.items@.len(),
    {
        self.items.len()
    }

    /// Appends an event without byte accounting, or hands it back when
    /// the buffer is full: the caller must wait, which is the
    /// backpressure.
    pub fn push(&mut self, e: ChangeEvent) -> (r: Result<(), ChangeEvent>)
        requires
            old(self).wf(),
        ensures
            final(self).wf(),
            final(self).capacity == old(self).capacity,
            final(self).byte_budget == old(self).byte_budget,
            match r {
                Ok(()) => old(self).items@.len() < old(self).capacity && final(self).items@ == old(
                    self,
                ).items@.push(e),
                Err(back) => {
                    &&& (old(self).items@.len() == old(self).capacity || (old(self).byte_budget
                        > 0 && old(self).items@.len() > 0 && old(self).bytes > old(
                        self,
                    ).byte_budget))
                    &&& final(self).items@ == old(self).items@
                    &&& back == e
                },
            },
    {
        self.push_estimated(e, 0)
    }

    /// Appends an event under both limits, counting `size` estimated
    /// bytes for it, or hands it back: when the buffer is at its item
    /// capacity, or when a positive byte budget would be exceeded by a
    /// buffer that already holds something (a single oversized event is
    /// admitted into an empty buffer rather than wedging the stream).
    pub fn push_estimated(&mut self, e: ChangeEvent, size: usize) -> (r: Result<(), ChangeEvent>)
        requires
            old(self).wf(),
        ensures
            final(self).wf(),
            final(self).capacity == old(self).capacity,
            final(self).byte_budget == old(self).byte_budget,
            match r {
                Ok(()) => {
                    &&& old(self).items@.len() < old(self).capacity
                    &&& (old(self).byte_budget > 0 && old(self).items@.len() > 0 ==> old(
                        self,
                    ).bytes + size <= old(self).byte_budget)
                    &&& final(self).items@ == old(self).items@.push(e)
                    &&& final(self).bytes == (if old(self).bytes + size > usize::MAX {
                        usize::MAX as int
                    } else {
                        old(self).bytes + size
                    })
                },
                Err(back) => {
                    &&& (old(self).items@.len() == old(self).capacity || (old(self).byte_budget
                        > 0 && old(self).items@.len() > 0 && old(self).bytes + size > old(
                        self,
                    ).byte_budget))
                    &&& final(self).items@ == old(self).items@
                    &&& final(self).bytes == old(self).bytes
                    &&& back == e
                },
            },
    {
        if self.items.len() >= self.capacity {
            return Err(e);
        }
        if self.byte_budget > 0 && self.items.len() > 0 {
            let over = size > self.byte_budget || self.bytes > self.byte_budget - size;
            if over {
                return Err(e);
            }
        }
        self.bytes = if size > usize::MAX - self.bytes {
            usize::MAX
        } else {
            self.bytes + size
        };
        self.items.push(e);
        Ok(())
    }

    /// Takes every buffered event, in arrival order, leaving the buffer
    /// empty.
    pub fn take_all(&mut self) -> (r: Vec<ChangeEvent>)
        requires
            old(self).wf(),
        ensures
            final(self).wf(),
            final(self).capacity == old(self).capacity,
            final(self).items@.len() == 0,
            final(self).bytes == 0,
            r@ == old(self).items@,
    {
        let mut taken: Vec<ChangeEvent> = Vec::new();
        core::mem::swap(&mut taken, &mut self.items);
        self.bytes = 0;
        taken
    }
}

/// Law: backpressure bounds memory. A well-formed buffer never holds more
/// than its capacity; by `push`'s contract, the push after the one that
/// fills it is refused and leaves the buffer unchanged.
pub proof fn lemma_backpressure(b: BoundedBuffer)
    requires
        b.wf(),
    ensures
        b.items@.len() <= b.capacity,
{
}

// ---------------------------------------------------------------------------
// Batch lifecycle
// ---------------------------------------------------------------------------

/// Where the orchestrator stands in one batch's lifecycle.
#[derive(Debug, Clone, Copy, PartialEq, Eq, Structural)]
pub enum PipelineState {
    /// Reading events out of the bounded buffer.
    Pulling,
    /// Running transaction filter, filter/router and processor.
    Transforming,
    /// Handing sub-batches to the sink workers.
    Dispatching,
    /// Waiting for the slowest sink worker.
    AwaitingCompletion,
    /// Persisting the batch's greatest position.
    Checkpointing,
    /// Terminal: shutdown was requested and the last batch has drained.
    Draining,
}

/// The next lifecycle stage. A shutdown request takes effect only at the
/// batch boundaries (`Pulling`, `Checkpointing`): a batch in flight drains
/// through its remaining stages first, so sink workers are never cut off
/// mid-write.
pub open spec fn spec_advance(state: PipelineState, shutdown: bool) -> PipelineState {
    match state {
        PipelineState::Pulling => if shutdown {
            PipelineState::Draining
        } else {
            PipelineState::Transforming
        },
        PipelineState::Transforming => PipelineState::Dispatching,
        PipelineState::Dispatching => PipelineState::AwaitingCompletion,
        PipelineState::AwaitingCompletion => PipelineState::Checkpointing,
        PipelineState::Checkpointing => if shutdown {
            PipelineState::Draining
        } else {
            PipelineState::Pulling
        },
        PipelineState::Draining => PipelineState::Draining,
    }
}

/// Executable lifecycle step.
pub fn advance_state(state: PipelineState, shutdown: bool) -> (r: PipelineState)
    ensures
        r == spec_advance(state, shutdown),
{
    match state {
        PipelineState::Pulling => if shutdown {
            PipelineState::Draining
        } else {
            PipelineState::Transforming
        },
        PipelineState::Transforming => PipelineState::Dispatching,
        PipelineState::Dispatching => PipelineState::AwaitingCompletion,
        PipelineState::AwaitingCompletion => PipelineState::Checkpointing,
        PipelineState::Checkpointing => if shutdown {
            PipelineState::Draining
        } else {
            PipelineState::Pulling
        },
        PipelineState::Draining => PipelineState::Draining,
    }
}

// ---------------------------------------------------------------------------
// Checkpoint store and orchestrator
// ---------------------------------------------------------------------------

/// A sequence of numbers that never decreases.
pub open spec fn non_decreasing(s: Seq<u64>) -> bool {
    forall|i: int, j: int| 0 <= i <= j < s.len() ==> s[i] <= s[j]
}

/// The durable record of last applied progress. The ghost history holds
/// every position ever saved, in order; only the latest record is kept
/// concretely (save overwrites).
pub struct CheckpointStore {
    pub last: Option<CheckpointRecord>,
    pub history: Ghost<Seq<u64>>,
}

impl CheckpointStore {
    /// The latest record is the last entry of the history.
    pub open spec fn wf(&self) -> bool {
        &&& match self.last {
            Some(rec) => self.history@.len() > 0 && self.history@.last() == rec.position.offset,
            None => self.history@.len() == 0,
        }
    }

    /// A store with nothing saved yet.
    pub fn new() -> (r: CheckpointStore)
        ensures
            r.wf(),
            r.last is None,
            r.history@ == Seq::<u64>::empty(),
    {
        CheckpointStore { last: None, history: Ghost(Seq::empty()) }
    }

    /// A store resumed from a previously persisted record.
    pub fn from_record(rec: CheckpointRecord) -> (r: CheckpointStore)
        ensures
            r.wf(),
            r.last == Some(rec),
            r.history@ == seq![rec.position.offset],
    {
        let ghost h: Seq<u64> = seq![rec.position.offset];
        CheckpointStore { last: Some(rec), history: Ghost(h) }
    }

    /// The position to resume from, read once at startup.
    pub fn load(&self) -> (r: Option<SourcePosition>)
        ensures
            match (r, self.last) {
                (Some(p), Some(rec)) => p == rec.position,
                (None, None) => true,
                _ => false,
            },
    {
        match &self.last {
            Some(rec) => Some(rec.position),
            None => None,
        }
    }

    /// Overwrites the latest record (idempotent: saving the same record
    /// again changes nothing observable but the history's length).
    pub fn save(&mut self, rec: CheckpointRecord)
        ensures
            final(self).last == Some(rec),
            final(self).history@ == old(self).history@.push(rec.position.offset),
            final(self).wf(),
    {
        self.last = Some(rec);
        proof {
            self.history@ = self.history@.push(rec.position.offset);
        }
    }
}

/// The orchestrator's progress tracking: the lifecycle stage, the greatest
/// safely applied position, and the durable store behind it.
pub struct Orchestrator {
    pub state: PipelineState,
    pub checkpoint: Option<SourcePosition>,
    pub store: CheckpointStore,
}

/// An optional position bounds another.
pub open spec fn pos_le(a: Option<SourcePosition>, b: Option<SourcePosition>) -> bool {
    match (a, b) {
        (None, _) => true,
        (Some(x), Some(y)) => x.offset <= y.offset,
        (Some(_), None) => false,
    }
}

impl Orchestrator {
    /// Saved positions never decrease, and the in-memory checkpoint is
    /// never behind what was last persisted.
    pub open spec fn wf(&self) -> bool {
        &&& self.store.wf()
        &&& non_decreasing(self.store.history@)
        &&& match self.store.last {
            Some(rec) => pos_le(Some(rec.position), self.checkpoint),
            None => true,
        }
    }

    /// A fresh orchestrator. The resume position, when one is configured,
    /// takes precedence over the extractor's own default.
    pub fn new(resume: Option<SourcePosition>) -> (r: Orchestrator)
        ensures
            r.wf(),
            r.state == PipelineState::Pulling,
            r.checkpoint == resume,
            r.store.last is None,
    {
        Orchestrator { state: PipelineState::Pulling, checkpoint: resume, store: CheckpointStore::new() }
    }

    /// Records the outcome of one batch. Only full success advances the
    /// checkpoint, and never backwards; any failure leaves it exactly
    /// where it was, so the batch is replayed from the last checkpoint.
    pub fn observe_batch_outcome(&mut self, batch: &Batch, success: bool)
        requires
            old(self).wf(),
        ensures
            final(self).wf(),
            final(self).state == old(self).state,
            final(self).store == old(self).store,
            !success ==> final(self).checkpoint == old(self).checkpoint,
            success ==> final(self).checkpoint == (if pos_le(
                old(self).checkpoint,
                Some(batch.max_position),
            ) {
                Some(batch.max_position)
            } else {
                old(self).checkpoint
            }),
            pos_le(old(self).checkpoint, final(self).checkpoint),
    {
        if success {
            let advance = match &self.checkpoint {
                Some(cp) => cp.offset <= batch.max_position.offset,
                None => true,
            };
            if advance {
                self.checkpoint = Some(batch.max_position);
            }
        }
    }

    /// Persists the current checkpoint, coalescing: nothing is written
    /// when nothing moved since the last write.
    pub fn persist_checkpoint(&mut self, committed_at: u64)
        requires
            old(self).wf(),
        ensures
            final(self).wf(),
            final(self).state == old(self).state,
            final(self).checkpoint == old(self).checkpoint,
            match old(self).checkpoint {
                Some(cp) => match old(self).store.last {
                    Some(rec) => if rec.position.offset == cp.offset {
                        final(self).store == old(self).store
                    } else {
                        final(self).store.last == Some(
                            CheckpointRecord { position: cp, committed_at },
                        )
                    },
                    None => final(self).store.last == Some(
                        CheckpointRecord { position: cp, committed_at },
                    ),
                },
                None => final(self).store == old(self).store,
            },
    {
        let cp = match &self.checkpoint {
            Some(cp) => *cp,
            None => {
                return ;
            },
        };
        let unchanged = match &self.store.last {
            Some(rec) => rec.position.offset == cp.offset,
            None => false,
        };
        if !unchanged {
            let ghost pre = self.store.history@;
            self.store.save(CheckpointRecord { position: cp, committed_at });
            proof {
                assert forall|i: int, j: int|
                    0 <= i <= j < self.store.history@.len() implies self.store.history@[i]
                    <= self.store.history@[j] by {
                    if j < pre.len() {
                    } else if i < pre.len() {
                        assert(pre[i] <= pre[pre.len() - 1]);
                    }
                }
            }
        }
    }

    /// Moves to the next lifecycle stage.
    pub fn advance(&mut self, shutdown: bool)
        requires
            old(self).wf(),
        ensures
            final(self).wf(),
            final(self).state == spec_advance(old(self).state, shutdown),
            final(self).checkpoint == old(self).checkpoint,
            final(self).store == old(self).store,
    {
        self.state = advance_state(self.state, shutdown);
    }
}

/// Law: checkpoint monotonicity. Every position the orchestrator ever
/// persisted is bounded by the next one: the durable history never goes
/// backwards. This holds in every well-formed state, and every
/// orchestrator method keeps the state well-formed.
pub proof fn lemma_checkpoint_monotonic(o: Orchestrator)
    requires
        o.wf(),
    ensures
        non_decreasing(o.store.history@),
{
}

// ---------------------------------------------------------------------------
// At-least-once delivery
// ---------------------------------------------------------------------------

/// The events a re-instantiated extractor yields when resumed from `cp`:
/// everything positioned strictly after it (everything, when there is no
/// checkpoint yet).
pub open spec fn replay(s: Seq<ChangeEvent>, cp: Option<SourcePosition>) -> Seq<ChangeEvent>
    decreases s.len(),
{
    if s.len() == 0 {
        Seq::empty()
    } else {
        replay(s.drop_last(), cp) + (if (match cp {
            Some(p) => s.last().pos().offset > p.offset,
            None => true,
        }) {
            seq![s.last()]
        } else {
            seq![]
        })
    }
}

/// An event strictly after the checkpoint reappears in the replay.
proof fn lemma_replay_contains(s: Seq<ChangeEvent>, cp: Option<SourcePosition>, k: int)
    requires
        0 <= k < s.len(),
        cp matches Some(p) ==> s[k].pos().offset > p.offset,
    ensures
        replay(s, cp).contains(s[k]),
    decreases s.len(),
{
    let rest = s.drop_last();
    if k == s.len() - 1 {
        let r = replay(s, cp);
        assert(r == replay(rest, cp) + seq![s.last()]);
        assert(r[r.len() - 1] == s[k]);
    } else {
        lemma_replay_contains(rest, cp, k);
        let i = choose|i: int| 0 <= i < replay(rest, cp).len() && replay(rest, cp)[i] == rest[k];
        assert(replay(s, cp)[i] == rest[k]);
        assert(rest[k] == s[k]);
    }
}

/// Law: at-least-once delivery across a crash. Suppose the orchestrator
/// dies after dispatching a batch but before checkpointing, so the
/// checkpoint still reads `cp` (by `observe_batch_outcome`'s contract a
/// failed or unfinished batch never moves it). If the batch was cut from
/// the stream after the checkpoint — positions in the stream never
/// decrease and the batch's first event lies strictly after `cp` — then
/// re-extracting from `cp` yields every event of that batch again: none
/// is permanently lost.
pub proof fn lemma_no_loss_on_crash(
    stream: Seq<ChangeEvent>,
    cp: Option<SourcePosition>,
    i: int,
    j: int,
)
    requires
        crate::events::positions_non_decreasing(stream),
        0 <= i <= j <= stream.len(),
        i < j ==> (cp matches Some(p) ==> stream[i].pos().offset > p.offset),
    ensures
        forall|k: int| i <= k < j ==> replay(stream, cp).contains(stream[k]),
{
    assert forall|k: int| i <= k < j implies replay(stream, cp).contains(stream[k]) by {
        assert(stream[i].pos().offset <= stream[k].pos().offset);
        lemma_replay_contains(stream, cp, k);
    }
}

// ---------------------------------------------------------------------------
// Transform and dispatch policies
// ---------------------------------------------------------------------------

/// The transforming stage: transaction-aware filtering first, then
/// routing, in that order, so that everything downstream of this call
/// only sees destination-side names. A malformed event fails the batch
/// with a data error and nothing is emitted.
pub fn transform_batch<T: crate::transaction_filter::TransactionFilter>(
    tf: &mut T,
    router: &crate::router::Router,
    events: Vec<ChangeEvent>,
) -> (r: Result<(Vec<ChangeEvent>, Option<String>, Option<String>), crate::error::Error>)
    ensures
        final(tf).fv() == old(tf).fv(),
        match r {
            Ok(out) => {
                let kept = crate::transaction_filter::tx_filter(
                    old(tf).fv(),
                    events@,
                    None,
                    false,
                );
                &&& !crate::transaction_filter::has_malformed(events@)
                &&& out.0@.len() == kept.len()
                &&& forall|i: int|
                    0 <= i < kept.len() ==> crate::router::event_routed(
                        router.router_view(),
                        kept[i],
                        out.0@[i],
                    )
                &&& match (out.1, out.2) {
                    (Some(ds), Some(dt)) => crate::transaction_filter::first_dropped(
                        old(tf).fv(),
                        events@,
                    ) == Some((ds@, dt@)),
                    (None, None) => crate::transaction_filter::first_dropped(
                        old(tf).fv(),
                        events@,
                    ) is None,
                    _ => false,
                }
            },
            Err(e) => crate::transaction_filter::has_malformed(events@) && e is DataError,
        },
{
    let (kept, dropped_schema, dropped_table) = tf.filter_dmls(events)?;
    let ghost kept_view = kept@;
    let mut rest = kept;
    let mut routed: Vec<ChangeEvent> = Vec::new();
    proof {
        assert(rest@ =~= kept_view.subrange(0, kept_view.len() as int));
    }
    while rest.len() > 0
        invariant
            routed@.len() <= kept_view.len(),
            rest@ == kept_view.subrange(routed@.len() as int, kept_view.len() as int),
            forall|i: int|
                0 <= i < routed@.len() ==> crate::router::event_routed(
                    router.router_view(),
                    kept_view[i],
                    routed@[i],
                ),
        decreases rest.len(),
    {
        let ghost done = routed@.len();
        let e = rest.remove(0);
        proof {
            assert(e == kept_view[done as int]);
            assert(rest@ =~= kept_view.subrange(done as int + 1, kept_view.len() as int));
        }
        let routed_event = router.route_event(e);
        routed.push(routed_event);
    }
    Ok((routed, dropped_schema, dropped_table))
}

/// Holds the processor capability to its contract: the hook must hand back
/// a batch of the same or smaller size. Anything larger is a processing
/// fault, which fails the current batch and nothing else.
pub fn check_processed_batch(input_len: usize, processed: Vec<ChangeEvent>) -> (r: Result<
    Vec<ChangeEvent>,
    crate::error::Error,
>)
    ensures
        match r {
            Ok(v) => processed@.len() <= input_len && v == processed,
            Err(e) => processed@.len() > input_len && e is ProcessingError,
        },
{
    if processed.len() <= input_len {
        Ok(processed)
    } else {
        Err(
            crate::error::Error::ProcessingError(
                "the processor returned more events than it was given".to_owned(),
            ),
        )
    }
}

/// The batch failure policy: a batch counts as applied only when every
/// sub-batch reports success. The first failing sub-batch's index is the
/// batch's failure, and the checkpoint must then stay put.
pub fn first_failure(results: &Vec<Result<(), crate::error::Error>>) -> (r: Option<usize>)
    ensures
        match r {
            Some(i) => i < results@.len() && results@[i as int] is Err && forall|k: int|
                0 <= k < i ==> results@[k] is Ok,
            None => forall|k: int| 0 <= k < results@.len() ==> results@[k] is Ok,
        },
{
    let mut i: usize = 0;
    while i < results.len()
        invariant
            i <= results@.len(),
            forall|k: int| 0 <= k < i ==> results@[k] is Ok,
        decreases results@.len() - i,
    {
        match &results[i] {
            Ok(_) => {},
            Err(_) => {
                return Some(i);
            },
        }
        i = i + 1;
    }
    None
}

// ---------------------------------------------------------------------------
// Throughput counter
// ---------------------------------------------------------------------------

/// Addition that stops at the top instead of wrapping.
pub open spec fn sat_add(a: u64, b: u64) -> u64 {
    if a + b > u64::MAX {
        u64::MAX
    } else {
        (a + b) as u64
    }
}

/// A rolling throughput counter with one sub-counter per table, capped:
/// past the cap, new tables land in one aggregate bucket instead of
/// growing memory without bound.
#[derive(Debug)]
pub struct RollingCounter {
    pub window_secs: u64,
    pub max_sub_count: usize,
    pub subs: Vec<(String, u64)>,
    pub other: u64,
}

impl RollingCounter {
    /// Never more sub-counters than the cap, and one per name.
    pub open spec fn wf(&self) -> bool {
        &&& self.subs@.len() <= self.max_sub_count
        &&& forall|i: int, j: int|
            0 <= i < j < self.subs@.len() ==> self.subs@[i].0@ != self.subs@[j].0@
    }

    /// An empty counter.
    pub fn new(window_secs: u64, max_sub_count: usize) -> (r: RollingCounter)
        ensures
            r.wf(),
            r.window_secs == window_secs,
            r.max_sub_count == max_sub_count,
            r.subs@.len() == 0,
            r.other == 0,
    {
        RollingCounter { window_secs, max_sub_count, subs: Vec::new(), other: 0 }
    }

    /// Counts `n` events for a table: an existing sub-counter grows; a new
    /// table gets its own sub-counter while the cap allows, else the
    /// aggregate bucket grows. Counts saturate rather than wrap.
    #[verifier::loop_isolation(false)]
    pub fn add(&mut self, table: &str, n: u64)
        requires
            old(self).wf(),
        ensures
            final(self).wf(),
            final(self).window_secs == old(self).window_secs,
            final(self).max_sub_count == old(self).max_sub_count,
            final(self).subs@.len() <= old(self).subs@.len() + 1,
            (exists|i: int|
                0 <= i < old(self).subs@.len() && old(self).subs@[i].0@ == table@) ==> ({
                let olds = old(self).subs@;
                &&& final(self).other == old(self).other
                &&& exists|i: int|
                    0 <= i < olds.len() && olds[i].0@ == table@ && final(self).subs@
                        == olds.update(i, (olds[i].0, sat_add(olds[i].1, n)))
            }),
            (forall|i: int| 0 <= i < old(self).subs@.len() ==> old(self).subs@[i].0@ != table@)
                ==> {
                if old(self).subs@.len() < old(self).max_sub_count {
                    &&& final(self).other == old(self).other
                    &&& final(self).subs@.len() == old(self).subs@.len() + 1
                    &&& final(self).subs@.last().0@ == table@
                    &&& final(self).subs@.last().1 == n
                    &&& final(self).subs@.drop_last() == old(self).subs@
                } else {
                    &&& final(self).other == sat_add(old(self).other, n)
                    &&& final(self).subs@ == old(self).subs@
                }
            },
    {
        let mut i: usize = 0;
        while i < self.subs.len()
            invariant
                i <= self.subs@.len(),
                *self == *old(self),
                forall|k: int| 0 <= k < i ==> self.subs@[k].0@ != table@,
            decreases self.subs@.len() - i,
        {
            if crate::strutil::str_eq(self.subs[i].0.as_str(), table) {
                let cur = self.subs[i].1;
                let name = self.subs[i].0.clone();
                let next = if cur > u64::MAX - n {
                    u64::MAX
                } else {
                    cur + n
                };
                self.subs.set(i, (name, next));
                proof {
                    assert(old(self).subs@[i as int].0@ == table@);
                    assert(self.subs@ == old(self).subs@.update(
                        i as int,
                        (old(self).subs@[i as int].0, sat_add(old(self).subs@[i as int].1, n)),
                    ));
                    assert forall|a: int, b: int|
                        0 <= a < b < self.subs@.len() implies self.subs@[a].0@ != self.subs@[b].0@
                        by {
                        assert(self.subs@[a].0 == old(self).subs@[a].0);
                        assert(self.subs@[b].0 == old(self).subs@[b].0);
                    }
                }
                return ;
            }
            i = i + 1;
        }
        if self.subs.len() < self.max_sub_count {
            self.subs.push((table.to_owned(), n));
            proof {
                assert(self.subs@.drop_last() =~= old(self).subs@);
            }
        } else {
            self.other = if self.other > u64::MAX - n {
                u64::MAX
            } else {
                self.other + n
            };
        }
    }
}

} // verus!
