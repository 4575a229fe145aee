use vstd::prelude::*;

verus! {

/// A resumable place in the source's change log. Positions within one
/// extraction stream never decrease.
#[derive(Debug, Clone, Copy, PartialEq, Eq, Structural)]
pub struct SourcePosition {
    pub offset: u64,
}

/// The kind of a row mutation.
#[derive(Debug, Clone, Copy, PartialEq, Eq, Structural)]
pub enum RowOp {
    Insert,
    Update,
    Delete,
}

/// A column value as this layer sees it: schema-less and typed.
#[derive(Debug, Clone, PartialEq, Eq)]
pub enum ColValue {
    Null,
    Int(i64),
    Text(String),
    Bytes(Vec<u8>),
    Temporal(String),
}

/// An ordered mapping of column name to value; the column set may vary
/// from row to row.
#[derive(Debug, Clone, PartialEq, Eq)]
pub struct Row {
    pub columns: Vec<(String, ColValue)>,
}

/// One row mutation: where it happened, what happened, and the images
/// around it.
#[derive(Debug, Clone, PartialEq, Eq)]
pub struct RowData {
    pub schema: String,
    pub table: String,
    pub op: RowOp,
    pub before: Option<Row>,
    pub after: Option<Row>,
    pub position: SourcePosition,
}

/// Whether a transaction marker opens or closes a transaction.
#[derive(Debug, Clone, Copy, PartialEq, Eq, Structural)]
pub enum MarkerKind {
    Begin,
    Commit,
}

/// One change extracted from the source.
#[derive(Debug, Clone, PartialEq, Eq)]
pub enum ChangeEvent {
    /// A data mutation.
    RowMutation(RowData),
    /// A structural (DDL) change.
    StructureChange {
        schema: String,
        table: String,
        kind: String,
        definition: String,
        position: SourcePosition,
    },
    /// A liveness signal emitted even when the source is idle.
    Heartbeat { position: SourcePosition, timestamp: u64 },
    /// A transaction boundary bracketing the row mutations of one atomic
    /// source transaction.
    TransactionMarker { kind: MarkerKind, transaction_id: String, position: SourcePosition },
}

impl ChangeEvent {
    /// The source position the event carries.
    pub open spec fn pos(&self) -> SourcePosition {
        match self {
            ChangeEvent::RowMutation(rd) => rd.position,
            ChangeEvent::StructureChange { position, .. } => *position,
            ChangeEvent::Heartbeat { position, .. } => *position,
            ChangeEvent::TransactionMarker { position, .. } => *position,
        }
    }

    /// The source position the event carries.
    pub fn position(&self) -> (r: SourcePosition)
        ensures
            r == self.pos(),
    {
        match self {
            ChangeEvent::RowMutation(rd) => rd.position,
            ChangeEvent::StructureChange { position, .. } => *position,
            ChangeEvent::Heartbeat { position, .. } => *position,
            ChangeEvent::TransactionMarker { position, .. } => *position,
        }
    }
}

/// Positions never decrease along a stream.
pub open spec fn positions_non_decreasing(s: Seq<ChangeEvent>) -> bool {
    forall|i: int, j: int| 0 <= i <= j < s.len() ==> s[i].pos().offset <= s[j].pos().offset
}

/// An ordered run of events plus the greatest position observed in it: the
/// unit handed to the parallelizer.
#[derive(Debug, Clone, PartialEq, Eq)]
pub struct Batch {
    pub events: Vec<ChangeEvent>,
    pub max_position: SourcePosition,
}

impl Batch {
    /// Every event's position is bounded by the batch's maximum.
    pub open spec fn wf(&self) -> bool {
        forall|i: int|
            0 <= i < self.events@.len() ==> self.events@[i].pos().offset
                <= self.max_position.offset
    }

    /// Wraps events into a batch, computing the greatest position
    /// observed; an empty batch records position zero.
    pub fn new(events: Vec<ChangeEvent>) -> (r: Batch)
        ensures
            r.events == events,
            r.wf(),
            r.events@.len() == 0 ==> r.max_position.offset == 0,
            r.events@.len() > 0 ==> exists|i: int|
                0 <= i < r.events@.len() && r.events@[i].pos().offset == r.max_position.offset,
    {
        let mut max: u64 = 0;
        let mut i: usize = 0;
        while i < events.len()
            invariant
                i <= events.len(),
                forall|k: int| 0 <= k < i ==> events@[k].pos().offset <= max,
                i == 0 ==> max == 0,
                i > 0 ==> exists|k: int| 0 <= k < i && events@[k].pos().offset == max,
            decreases events.len() - i,
        {
            let p = events[i].position();
            if p.offset > max {
                max = p.offset;
            }
            i = i + 1;
        }
        Batch { events, max_position: SourcePosition { offset: max } }
    }
}

/// A durably persisted mark of safely applied progress.
#[derive(Debug, Clone, Copy, PartialEq, Eq, Structural)]
pub struct CheckpointRecord {
    pub position: SourcePosition,
    pub committed_at: u64,
}

} // verus!
