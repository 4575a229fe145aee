use vstd::prelude::*;

use crate::error::Error;
use crate::events::{ChangeEvent, MarkerKind, RowOp};
use crate::rdb_filter::{keep_ddl, keep_row, FilterView, RdbFilter};

verus! {

/// An update that carries neither a before nor an after image cannot be
/// applied anywhere: it is malformed.
pub open spec fn is_malformed(e: ChangeEvent) -> bool {
    e matches ChangeEvent::RowMutation(rd) && rd.op == RowOp::Update && rd.before is None
        && rd.after is None
}

/// Some event of the window is malformed.
pub open spec fn has_malformed(s: Seq<ChangeEvent>) -> bool {
    exists|i: int| 0 <= i < s.len() && is_malformed(s[i])
}

/// A begin marker.
pub open spec fn is_begin(e: ChangeEvent) -> bool {
    e matches ChangeEvent::TransactionMarker { kind, .. } && kind == MarkerKind::Begin
}

/// A commit marker.
pub open spec fn is_commit(e: ChangeEvent) -> bool {
    e matches ChangeEvent::TransactionMarker { kind, .. } && kind == MarkerKind::Commit
}

/// What transaction-aware filtering emits, processed left to right.
/// `pending` holds a begin marker not yet emitted; `open` says the current
/// transaction's begin has been emitted. A begin is held back until a row
/// of its transaction is kept; a commit is emitted only when its begin
/// was; kept rows come out in input order; structural changes pass per the
/// DDL rule; heartbeats never reach the sink.
pub open spec fn tx_filter(
    fv: FilterView,
    s: Seq<ChangeEvent>,
    pending: Option<ChangeEvent>,
    open: bool,
) -> Seq<ChangeEvent>
    decreases s.len(),
{
    if s.len() == 0 {
        Seq::empty()
    } else {
        let e = s[0];
        let rest = s.drop_first();
        match e {
            ChangeEvent::TransactionMarker { kind, .. } => {
                if kind == MarkerKind::Begin {
                    tx_filter(fv, rest, Some(e), false)
                } else if open {
                    seq![e] + tx_filter(fv, rest, None, false)
                } else {
                    tx_filter(fv, rest, None, false)
                }
            },
            ChangeEvent::RowMutation(rd) => {
                if keep_row(fv, rd.schema@, rd.table@, rd.op) {
                    match pending {
                        Some(b) => seq![b, e] + tx_filter(fv, rest, None, true),
                        None => seq![e] + tx_filter(fv, rest, None, open),
                    }
                } else {
                    tx_filter(fv, rest, pending, open)
                }
            },
            ChangeEvent::StructureChange { schema, table, kind, .. } => {
                if keep_ddl(fv, schema@, table@, kind@) {
                    seq![e] + tx_filter(fv, rest, pending, open)
                } else {
                    tx_filter(fv, rest, pending, open)
                }
            },
            ChangeEvent::Heartbeat { .. } => tx_filter(fv, rest, pending, open),
        }
    }
}

/// The schema and table of the first row mutation that filtering drops,
/// if any. Only the first is reported, for observability.
pub open spec fn first_dropped(fv: FilterView, s: Seq<ChangeEvent>) -> Option<(Seq<char>, Seq<
    char,
>)>
    decreases s.len(),
{
    if s.len() == 0 {
        None
    } else {
        match s[0] {
            ChangeEvent::RowMutation(rd) => {
                if !keep_row(fv, rd.schema@, rd.table@, rd.op) {
                    Some((rd.schema@, rd.table@))
                } else {
                    first_dropped(fv, s.drop_first())
                }
            },
            _ => first_dropped(fv, s.drop_first()),
        }
    }
}

/// Every commit in the window has a begin somewhere before it.
pub open spec fn commits_covered(out: Seq<ChangeEvent>) -> bool {
    forall|j: int|
        0 <= j < out.len() && is_commit(out[j]) ==> exists|i: int| 0 <= i < j && is_begin(out[i])
}

proof fn lemma_commit_cov(
    fv: FilterView,
    s: Seq<ChangeEvent>,
    pending: Option<ChangeEvent>,
    open: bool,
    pre: Seq<ChangeEvent>,
)
    requires
        commits_covered(pre),
        open ==> exists|i: int| 0 <= i < pre.len() && is_begin(pre[i]),
        pending matches Some(b) ==> is_begin(b),
    ensures
        commits_covered(pre + tx_filter(fv, s, pending, open)),
    decreases s.len(),
{
    if s.len() == 0 {
        assert(pre + tx_filter(fv, s, pending, open) =~= pre);
    } else {
        let e = s[0];
        let rest = s.drop_first();
        match e {
            ChangeEvent::TransactionMarker { kind, .. } => {
                if kind == MarkerKind::Begin {
                    lemma_commit_cov(fv, rest, Some(e), false, pre);
                } else if open {
                    let pre2 = pre + seq![e];
                    assert(commits_covered(pre2)) by {
                        assert forall|j: int| 0 <= j < pre2.len() && is_commit(pre2[j]) implies
                            exists|i: int| 0 <= i < j && is_begin(pre2[i]) by {
                            if j < pre.len() {
                                let i = choose|i: int| 0 <= i < j && is_begin(pre[i]);
                                assert(pre2[i] == pre[i]);
                            } else {
                                let i = choose|i: int| 0 <= i < pre.len() && is_begin(pre[i]);
                                assert(pre2[i] == pre[i]);
                            }
                        }
                    }
                    lemma_commit_cov(fv, rest, None, false, pre2);
                    assert(pre + tx_filter(fv, s, pending, open) =~= pre2 + tx_filter(
                        fv,
                        rest,
                        None,
                        false,
                    ));
                } else {
                    lemma_commit_cov(fv, rest, None, false, pre);
                }
            },
            ChangeEvent::RowMutation(rd) => {
                if keep_row(fv, rd.schema@, rd.table@, rd.op) {
                    match pending {
                        Some(b) => {
                            let pre2 = pre + seq![b, e];
                            assert(is_begin(pre2[pre.len() as int]));
                            assert(commits_covered(pre2)) by {
                                assert forall|j: int|
                                    0 <= j < pre2.len() && is_commit(pre2[j]) implies exists|i: int|
                                    0 <= i < j && is_begin(pre2[i]) by {
                                    if j < pre.len() {
                                        let i = choose|i: int| 0 <= i < j && is_begin(pre[i]);
                                        assert(pre2[i] == pre[i]);
                                    }
                                }
                            }
                            lemma_commit_cov(fv, rest, None, true, pre2);
                            assert(pre + tx_filter(fv, s, pending, open) =~= pre2 + tx_filter(
                                fv,
                                rest,
                                None,
                                true,
                            ));
                        },
                        None => {
                            let pre2 = pre + seq![e];
                            assert(commits_covered(pre2)) by {
                                assert forall|j: int|
                                    0 <= j < pre2.len() && is_commit(pre2[j]) implies exists|i: int|
                                    0 <= i < j && is_begin(pre2[i]) by {
                                    if j < pre.len() {
                                        let i = choose|i: int| 0 <= i < j && is_begin(pre[i]);
                                        assert(pre2[i] == pre[i]);
                                    }
                                }
                            }
                            if open {
                                let i = choose|i: int| 0 <= i < pre.len() && is_begin(pre[i]);
                                assert(pre2[i] == pre[i]);
                            }
                            lemma_commit_cov(fv, rest, None, open, pre2);
                            assert(pre + tx_filter(fv, s, pending, open) =~= pre2 + tx_filter(
                                fv,
                                rest,
                                None,
                                open,
                            ));
                        },
                    }
                } else {
                    lemma_commit_cov(fv, rest, pending, open, pre);
                }
            },
            ChangeEvent::StructureChange { schema, table, kind, .. } => {
                if keep_ddl(fv, schema@, table@, kind@) {
                    let pre2 = pre + seq![e];
                    assert(commits_covered(pre2)) by {
                        assert forall|j: int| 0 <= j < pre2.len() && is_commit(pre2[j]) implies
                            exists|i: int| 0 <= i < j && is_begin(pre2[i]) by {
                            if j < pre.len() {
                                let i = choose|i: int| 0 <= i < j && is_begin(pre[i]);
                                assert(pre2[i] == pre[i]);
                            }
                        }
                    }
                    if open {
                        let i = choose|i: int| 0 <= i < pre.len() && is_begin(pre[i]);
                        assert(pre2[i] == pre[i]);
                    }
                    lemma_commit_cov(fv, rest, pending, open, pre2);
                    assert(pre + tx_filter(fv, s, pending, open) =~= pre2 + tx_filter(
                        fv,
                        rest,
                        pending,
                        open,
                    ));
                } else {
                    lemma_commit_cov(fv, rest, pending, open, pre);
                }
            },
            ChangeEvent::Heartbeat { .. } => {
                lemma_commit_cov(fv, rest, pending, open, pre);
            },
        }
    }
}

/// Law: transactional atomicity of the filter output. Whatever the window
/// and the lists, the kept sequence never holds a commit marker without a
/// begin marker before it.
pub proof fn lemma_no_commit_without_begin(fv: FilterView, s: Seq<ChangeEvent>)
    ensures
        commits_covered(tx_filter(fv, s, None, false)),
{
    lemma_commit_cov(fv, s, None, false, Seq::empty());
    assert(Seq::empty() + tx_filter(fv, s, None, false) =~= tx_filter(fv, s, None, false));
}

/// Groups and filters a raw event window along transaction boundaries
/// without breaking atomicity.
pub trait TransactionFilter {
    /// The do/ignore lists the implementation filters by.
    spec fn fv(&self) -> FilterView;

    /// Filters one window of events, preserving the relative order of
    /// kept events and the bracketing of kept rows by their transaction
    /// markers. Reports the schema and table of the first dropped row.
    /// Fails only on malformed input: an update with no image at all.
    fn filter_dmls(&mut self, datas: Vec<ChangeEvent>) -> (r: Result<
        (Vec<ChangeEvent>, Option<String>, Option<String>),
        Error,
    >)
        ensures
            final(self).fv() == old(self).fv(),
            match r {
                Ok(out) => {
                    &&& !has_malformed(datas@)
                    &&& out.0@ == tx_filter(old(self).fv(), datas@, None, false)
                    &&& match (out.1, out.2) {
                        (Some(ds), Some(dt)) => first_dropped(old(self).fv(), datas@) == Some(
                            (ds@, dt@),
                        ),
                        (None, None) => first_dropped(old(self).fv(), datas@) is None,
                        _ => false,
                    }
                },
                Err(x) => has_malformed(datas@) && x is DataError,
            },
    ;
}

/// The standard transaction filter: one set of do/ignore lists, built at
/// startup.
pub struct BasicTransactionFilter {
    pub filter: RdbFilter,
}

impl TransactionFilter for BasicTransactionFilter {
    open spec fn fv(&self) -> FilterView {
        self.filter.filter_view()
    }

    #[verifier::loop_isolation(false)]
    fn filter_dmls(&mut self, datas: Vec<ChangeEvent>) -> (r: Result<
        (Vec<ChangeEvent>, Option<String>, Option<String>),
        Error,
    >) {
        let ghost fv = self.filter.filter_view();
        let ghost orig = datas@;
        let mut rest = datas;
        let mut out: Vec<ChangeEvent> = Vec::new();
        let mut pending: Option<ChangeEvent> = None;
        let mut open = false;
        let mut dropped_schema: Option<String> = None;
        let mut dropped_table: Option<String> = None;
        proof {
            assert(out@ + tx_filter(fv, rest@, pending, open) =~= tx_filter(fv, orig, None, false));
        }
        while rest.len() > 0
            invariant
                self.filter.filter_view() == fv,
                out@ + tx_filter(fv, rest@, pending, open) == tx_filter(fv, orig, None, false),
                match (dropped_schema, dropped_table) {
                    (Some(ds), Some(dt)) => first_dropped(fv, orig) == Some((ds@, dt@)),
                    (None, None) => first_dropped(fv, orig) == first_dropped(fv, rest@),
                    _ => false,
                },
                has_malformed(orig) == has_malformed(rest@),
                pending matches Some(b) ==> is_begin(b),
            decreases rest.len(),
        {
            let ghost pre_rest = rest@;
            let ghost pre_out = out@;
            let ghost pre_pending = pending;
            let ghost pre_open = open;
            let e = rest.remove(0);
            proof {
                assert(e == pre_rest[0]);
                assert(rest@ =~= pre_rest.drop_first());
            }
            match e {
                ChangeEvent::TransactionMarker { kind, transaction_id, position } => {
                    let me = ChangeEvent::TransactionMarker { kind, transaction_id, position };
                    match kind {
                        MarkerKind::Begin => {
                            pending = Some(me);
                            open = false;
                        },
                        MarkerKind::Commit => {
                            if open {
                                out.push(me);
                                proof {
                                    assert(out@ + tx_filter(fv, rest@, None, false) =~= pre_out + (
                                    seq![pre_rest[0]] + tx_filter(fv, rest@, None, false)));
                                }
                            }
                            pending = None;
                            open = false;
                        },
                    }
                },
                ChangeEvent::RowMutation(rd) => {
                    let malformed = rd.op == RowOp::Update && rd.before.is_none()
                        && rd.after.is_none();
                    if malformed {
                        proof {
                            assert(is_malformed(pre_rest[0]));
                            assert(has_malformed(pre_rest));
                        }
                        return Err(
                            Error::DataError(
                                "update event carries neither a before nor an after image".to_owned(),
                            ),
                        );
                    }
                    let keep = self.filter.should_keep_row(
                        rd.schema.as_str(),
                        rd.table.as_str(),
                        rd.op,
                    );
                    if keep {
                        let ev = ChangeEvent::RowMutation(rd);
                        let held = pending;
                        pending = None;
                        match held {
                            Some(b) => {
                                out.push(b);
                                out.push(ev);
                                open = true;
                                proof {
                                    assert(out@ =~= pre_out + seq![
                                        pre_pending.unwrap(),
                                        pre_rest[0],
                                    ]);
                                    assert(out@ + tx_filter(fv, rest@, None, true) =~= pre_out + (
                                    seq![pre_pending.unwrap(), pre_rest[0]] + tx_filter(
                                        fv,
                                        rest@,
                                        None,
                                        true,
                                    )));
                                }
                            },
                            None => {
                                out.push(ev);
                                proof {
                                    assert(out@ + tx_filter(fv, rest@, None, pre_open) =~= pre_out
                                        + (seq![pre_rest[0]] + tx_filter(
                                        fv,
                                        rest@,
                                        None,
                                        pre_open,
                                    )));
                                }
                            },
                        }
                    } else {
                        if dropped_schema.is_none() {
                            dropped_schema = Some(rd.schema.clone());
                            dropped_table = Some(rd.table.clone());
                        }
                    }
                },
                ChangeEvent::StructureChange { schema, table, kind, definition, position } => {
                    let keep = self.filter.should_keep_ddl(
                        schema.as_str(),
                        table.as_str(),
                        kind.as_str(),
                    );
                    let ev = ChangeEvent::StructureChange {
                        schema,
                        table,
                        kind,
                        definition,
                        position,
                    };
                    if keep {
                        out.push(ev);
                        proof {
                            assert(out@ + tx_filter(fv, rest@, pending, open) =~= pre_out + (
                            seq![pre_rest[0]] + tx_filter(fv, rest@, pending, open)));
                        }
                    }
                },
                ChangeEvent::Heartbeat { .. } => {},
            }
            proof {
                assert(!is_malformed(pre_rest[0]));
                if has_malformed(pre_rest) {
                    let i = choose|i: int| 0 <= i < pre_rest.len() && is_malformed(pre_rest[i]);
                    assert(is_malformed(rest@[i - 1]));
                }
                if has_malformed(rest@) {
                    let i = choose|i: int| 0 <= i < rest@.len() && is_malformed(rest@[i]);
                    assert(is_malformed(pre_rest[i + 1]));
                }
            }
        }
        proof {
            assert(out@ + tx_filter(fv, rest@, pending, open) =~= out@);
        }
        Ok((out, dropped_schema, dropped_table))
    }
}

} // verus!
