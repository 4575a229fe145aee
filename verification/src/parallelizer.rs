use vstd::prelude::*;

use crate::config_enums::ParallelType;
use crate::events::{Batch, ChangeEvent, ColValue, Row};

verus! {

/// The modulus the mixing hash works under.
pub open spec fn hash_mod() -> int {
    0x1_0000_0000
}

/// One mixing step of the partition hash: old state times 31 plus the new
/// contribution, reduced.
pub open spec fn mix(h: u64, x: u64) -> u64 {
    ((((h as int) % hash_mod()) * 31 + ((x as int) % hash_mod())) % hash_mod()) as u64
}

/// Executable mixing step.
pub fn mix_exec(h: u64, x: u64) -> (r: u64)
    ensures
        r == mix(h, x),
{
    let m: u64 = 0x1_0000_0000;
    let hm = h % m;
    let xm = x % m;
    proof {
        assert(hm * 31 + xm < 0x21_0000_0000) by (nonlinear_arith)
            requires
                hm < 0x1_0000_0000,
                xm < 0x1_0000_0000,
        ;
    }
    (hm * 31 + xm) % m
}

/// Hash of a character sequence.
pub open spec fn hash_chars(s: Seq<char>) -> u64
    decreases s.len(),
{
    if s.len() == 0 {
        17
    } else {
        mix(hash_chars(s.drop_last()), (s.last() as u32) as u64)
    }
}

/// Executable hash of a string slice.
pub fn hash_str(s: &str) -> (r: u64)
    ensures
        r == hash_chars(s@),
{
    let len = s.unicode_len();
    let mut h: u64 = 17;
    let mut i: usize = 0;
    proof {
        assert(s@.subrange(0, 0) =~= Seq::<char>::empty());
    }
    while i < len
        invariant
            i <= len,
            len == s@.len(),
            h == hash_chars(s@.subrange(0, i as int)),
        decreases len - i,
    {
        let c = s.get_char(i);
        h = mix_exec(h, c as u64);
        proof {
            let p = s@.subrange(0, i + 1);
            assert(p.drop_last() =~= s@.subrange(0, i as int));
            assert(p.last() == s@[i as int]);
        }
        i = i + 1;
    }
    proof {
        assert(s@.subrange(0, len as int) =~= s@);
    }
    h
}

/// Hash of one column value.
pub open spec fn hash_col_value(v: ColValue) -> u64 {
    match v {
        ColValue::Null => mix(3, 0),
        ColValue::Int(i) => if i >= 0 {
            mix(4, i as u64)
        } else {
            mix(5, (-(i + 1)) as u64)
        },
        ColValue::Text(s) => mix(6, hash_chars(s@)),
        ColValue::Bytes(b) => mix(7, hash_bytes(b@)),
        ColValue::Temporal(s) => mix(8, hash_chars(s@)),
    }
}

/// Hash of a byte sequence.
pub open spec fn hash_bytes(s: Seq<u8>) -> u64
    decreases s.len(),
{
    if s.len() == 0 {
        19
    } else {
        mix(hash_bytes(s.drop_last()), s.last() as u64)
    }
}

/// Executable hash of a byte vector.
pub fn hash_bytes_exec(b: &Vec<u8>) -> (r: u64)
    ensures
        r == hash_bytes(b@),
{
    let mut h: u64 = 19;
    let mut i: usize = 0;
    proof {
        assert(b@.subrange(0, 0) =~= Seq::<u8>::empty());
    }
    while i < b.len()
        invariant
            i <= b@.len(),
            h == hash_bytes(b@.subrange(0, i as int)),
        decreases b@.len() - i,
    {
        h = mix_exec(h, b[i] as u64);
        proof {
            let p = b@.subrange(0, i + 1);
            assert(p.drop_last() =~= b@.subrange(0, i as int));
            assert(p.last() == b@[i as int]);
        }
        i = i + 1;
    }
    proof {
        assert(b@.subrange(0, b@.len() as int) =~= b@);
    }
    h
}

/// Executable hash of one column value.
pub fn hash_col_value_exec(v: &ColValue) -> (r: u64)
    ensures
        r == hash_col_value(*v),
{
    match v {
        ColValue::Null => mix_exec(3, 0),
        ColValue::Int(i) => {
            if *i >= 0 {
                mix_exec(4, *i as u64)
            } else {
                mix_exec(5, (-(*i + 1)) as u64)
            }
        },
        ColValue::Text(s) => {
            let h = hash_str(s.as_str());
            mix_exec(6, h)
        },
        ColValue::Bytes(b) => {
            let h = hash_bytes_exec(b);
            mix_exec(7, h)
        },
        ColValue::Temporal(s) => {
            let h = hash_str(s.as_str());
            mix_exec(8, h)
        },
    }
}

/// Hash of a row image: names and values folded in order.
pub open spec fn hash_row(cols: Seq<(String, ColValue)>) -> u64
    decreases cols.len(),
{
    if cols.len() == 0 {
        23
    } else {
        mix(mix(hash_row(cols.drop_last()), hash_chars(cols.last().0@)), hash_col_value(
            cols.last().1,
        ))
    }
}

/// Executable hash of a row image.
pub fn hash_row_exec(row: &Row) -> (r: u64)
    ensures
        r == hash_row(row.columns@),
{
    let mut h: u64 = 23;
    let mut i: usize = 0;
    proof {
        assert(row.columns@.subrange(0, 0) =~= Seq::<(String, ColValue)>::empty());
    }
    while i < row.columns.len()
        invariant
            i <= row.columns@.len(),
            h == hash_row(row.columns@.subrange(0, i as int)),
        decreases row.columns@.len() - i,
    {
        let (name, val) = &row.columns[i];
        let hn = hash_str(name.as_str());
        let hv = hash_col_value_exec(val);
        h = mix_exec(mix_exec(h, hn), hv);
        proof {
            let p = row.columns@.subrange(0, i + 1);
            assert(p.drop_last() =~= row.columns@.subrange(0, i as int));
            assert(p.last() == row.columns@[i as int]);
        }
        i = i + 1;
    }
    proof {
        assert(row.columns@.subrange(0, row.columns@.len() as int) =~= row.columns@);
    }
    h
}

/// The partition key of an event: schema, table, and (unless partitioning
/// stops at table granularity) a digest of the row's identifying image —
/// the before image when there is one, else the after image. Structural
/// changes key on their table; markers and heartbeats share one key.
pub open spec fn event_key(e: ChangeEvent, by_table: bool) -> (Seq<char>, Seq<char>, u64) {
    match e {
        ChangeEvent::RowMutation(rd) => {
            let img = if by_table {
                23u64
            } else {
                match rd.before {
                    Some(b) => hash_row(b.columns@),
                    None => match rd.after {
                        Some(a) => hash_row(a.columns@),
                        None => 23u64,
                    },
                }
            };
            (rd.schema@, rd.table@, img)
        },
        ChangeEvent::StructureChange { schema, table, .. } => (schema@, table@, 23u64),
        _ => (Seq::empty(), Seq::empty(), 23u64),
    }
}

/// The sub-batch index a key goes to, out of `n`.
pub open spec fn key_bucket(k: (Seq<char>, Seq<char>, u64), n: int) -> int {
    (mix(mix(hash_chars(k.0), hash_chars(k.1)), k.2) as int) % n
}

/// The sub-batch index an event goes to.
pub open spec fn event_bucket(e: ChangeEvent, n: int, by_table: bool) -> int {
    key_bucket(event_key(e, by_table), n)
}

/// Executable bucket of an event.
pub fn event_bucket_exec(e: &ChangeEvent, n: usize, by_table: bool) -> (r: usize)
    requires
        n >= 1,
    ensures
        r == event_bucket(*e, n as int, by_table),
        r < n,
{
    let key_hash: u64 = match e {
        ChangeEvent::RowMutation(rd) => {
            let img: u64 = if by_table {
                23
            } else {
                match &rd.before {
                    Some(b) => hash_row_exec(b),
                    None => match &rd.after {
                        Some(a) => hash_row_exec(a),
                        None => 23,
                    },
                }
            };
            let hs = hash_str(rd.schema.as_str());
            let ht = hash_str(rd.table.as_str());
            mix_exec(mix_exec(hs, ht), img)
        },
        ChangeEvent::StructureChange { schema, table, .. } => {
            let hs = hash_str(schema.as_str());
            let ht = hash_str(table.as_str());
            mix_exec(mix_exec(hs, ht), 23)
        },
        _ => {
            let hs = hash_str("");
            proof {
                reveal_strlit("");
                assert(""@ =~= Seq::<char>::empty());
            }
            mix_exec(mix_exec(hs, hs), 23)
        },
    };
    (key_hash % (n as u64)) as usize
}

/// The events of `s` whose bucket is `j`, in input order.
pub open spec fn bucket_filter(s: Seq<ChangeEvent>, n: int, j: int, by_table: bool) -> Seq<
    ChangeEvent,
>
    decreases s.len(),
{
    if s.len() == 0 {
        Seq::empty()
    } else {
        bucket_filter(s.drop_last(), n, j, by_table) + (if event_bucket(s.last(), n, by_table)
            == j {
            seq![s.last()]
        } else {
            seq![]
        })
    }
}

/// The events of `s` whose partition key is `k`, in input order: the
/// sequence a sink worker observes for one logical row.
pub open spec fn key_restrict(
    s: Seq<ChangeEvent>,
    k: (Seq<char>, Seq<char>, u64),
    by_table: bool,
) -> Seq<ChangeEvent>
    decreases s.len(),
{
    if s.len() == 0 {
        Seq::empty()
    } else {
        key_restrict(s.drop_last(), k, by_table) + (if event_key(s.last(), by_table) == k {
            seq![s.last()]
        } else {
            seq![]
        })
    }
}

/// Law: ordering within a partition. For any batch, any worker count and
/// any partition key, the events bearing that key inside the sub-batch
/// they are routed to are exactly the events bearing that key in the
/// batch, in the batch's order: same-key events are never split across
/// sub-batches and never reordered.
pub proof fn lemma_partition_preserves_key_order(
    s: Seq<ChangeEvent>,
    n: int,
    k: (Seq<char>, Seq<char>, u64),
    by_table: bool,
)
    requires
        n >= 1,
    ensures
        key_restrict(bucket_filter(s, n, key_bucket(k, n), by_table), k, by_table) == key_restrict(
            s,
            k,
            by_table,
        ),
    decreases s.len(),
{
    if s.len() == 0 {
    } else {
        let rest = s.drop_last();
        let x = s.last();
        lemma_partition_preserves_key_order(rest, n, k, by_table);
        let bf_rest = bucket_filter(rest, n, key_bucket(k, n), by_table);
        if event_bucket(x, n, by_table) == key_bucket(k, n) {
            let bf = bf_rest + seq![x];
            assert(bf.drop_last() =~= bf_rest);
            assert(bf.last() == x);
            assert(key_restrict(bf, k, by_table) == key_restrict(bf_rest, k, by_table) + (
            if event_key(x, by_table) == k {
                seq![x]
            } else {
                seq![]
            }));
            if event_key(x, by_table) == k {
                assert(key_restrict(s, k, by_table) =~= key_restrict(rest, k, by_table)
                    + seq![x]);
                assert(key_restrict(bf, k, by_table) =~= key_restrict(s, k, by_table));
            } else {
                assert(key_restrict(bf, k, by_table) =~= key_restrict(s, k, by_table));
            }
        } else {
            // An event of another bucket cannot bear the key.
            assert(event_key(x, by_table) != k);
            assert(bucket_filter(s, n, key_bucket(k, n), by_table) =~= bf_rest);
            assert(key_restrict(s, k, by_table) =~= key_restrict(rest, k, by_table));
        }
    }
}

/// The strategy object: how a batch is spread over concurrent sink
/// workers while the declared ordering guarantee holds.
#[derive(Debug, Clone)]
pub struct Parallelizer {
    pub parallel_type: ParallelType,
    pub parallel_size: usize,
}

/// Splits events into `n` sub-batches by bucket, preserving input order
/// inside every sub-batch.
#[verifier::rlimit(100)]
fn partition_by_bucket(events: Vec<ChangeEvent>, n: usize, by_table: bool) -> (r: Vec<
    Vec<ChangeEvent>,
>)
    requires
        n >= 1,
    ensures
        r@.len() == n,
        forall|j: int|
            0 <= j < n ==> r@[j]@ == bucket_filter(events@, n as int, j, by_table),
{
    let ghost orig = events@;
    let mut out: Vec<Vec<ChangeEvent>> = Vec::new();
    let mut j: usize = 0;
    while j < n
        invariant
            j <= n,
            out@.len() == j,
            forall|t: int| 0 <= t < j ==> out@[t]@ == Seq::<ChangeEvent>::empty(),
        decreases n - j,
    {
        out.push(Vec::new());
        j = j + 1;
    }
    let mut rest = events;
    let ghost mut done: int = 0;
    proof {
        assert forall|t: int| 0 <= t < n implies out@[t]@ == bucket_filter(
            orig.subrange(0, 0),
            n as int,
            t,
            by_table,
        ) by {
            assert(orig.subrange(0, 0) =~= Seq::<ChangeEvent>::empty());
        }
        assert(rest@ =~= orig.subrange(0, orig.len() as int));
    }
    while rest.len() > 0
        invariant
            n >= 1,
            0 <= done <= orig.len(),
            rest@ == orig.subrange(done, orig.len() as int),
            out@.len() == n,
            forall|t: int|
                0 <= t < n ==> out@[t]@ == bucket_filter(
                    orig.subrange(0, done),
                    n as int,
                    t,
                    by_table,
                ),
        decreases rest.len(),
    {
        let ghost pre_out = out@;
        let e = rest.remove(0);
        proof {
            assert(e == orig[done]);
            assert(rest@ =~= orig.subrange(done + 1, orig.len() as int));
        }
        let b = event_bucket_exec(&e, n, by_table);
        let ghost eb = event_bucket(e, n as int, by_table);
        let slot = &mut out[b];
        slot.push(e);
        proof {
            let p = orig.subrange(0, done + 1);
            assert(p.drop_last() =~= orig.subrange(0, done));
            assert(p.last() == orig[done]);
            assert forall|t: int| 0 <= t < n implies out@[t]@ == bucket_filter(
                p,
                n as int,
                t,
                by_table,
            ) by {
                assert(pre_out[t]@ == bucket_filter(orig.subrange(0, done), n as int, t, by_table));
                if t == eb {
                    assert(out@[t]@ =~= pre_out[t]@ + seq![orig[done]]);
                    assert(bucket_filter(p, n as int, t, by_table) == bucket_filter(
                        orig.subrange(0, done),
                        n as int,
                        t,
                        by_table,
                    ) + seq![orig[done]]);
                } else {
                    assert(out@[t]@ == pre_out[t]@);
                    assert(bucket_filter(p, n as int, t, by_table) =~= bucket_filter(
                        orig.subrange(0, done),
                        n as int,
                        t,
                        by_table,
                    ));
                }
            }
            done = done + 1;
        }
    }
    proof {
        assert(orig.subrange(0, orig.len() as int) =~= orig);
        assert(done == orig.len());
    }
    out
}

impl Parallelizer {
    /// Splits one batch into sub-batches for the sink workers, as the
    /// strategy directs: `Serial` (and any strategy at worker count one)
    /// keeps a single sub-batch in strict source order; `RdbMerge` and
    /// `Table` partition at table granularity; every other strategy
    /// partitions by the full key of schema, table and row identity. In
    /// each case a sub-batch keeps the batch's order.
    pub fn partition(&self, batch: Batch) -> (r: Vec<Vec<ChangeEvent>>)
        requires
            self.parallel_size >= 1,
        ensures
            self.parallel_type == ParallelType::Serial || self.parallel_size == 1 ==> r@.len()
                == 1 && r@[0]@ == batch.events@,
            self.parallel_type != ParallelType::Serial && self.parallel_size > 1 ==> {
                let by_table = self.parallel_type == ParallelType::RdbMerge
                    || self.parallel_type == ParallelType::Table;
                &&& r@.len() == self.parallel_size
                &&& forall|j: int|
                    0 <= j < r@.len() ==> r@[j]@ == bucket_filter(
                        batch.events@,
                        self.parallel_size as int,
                        j,
                        by_table,
                    )
            },
    {
        let serial = match self.parallel_type {
            ParallelType::Serial => true,
            _ => false,
        };
        if serial || self.parallel_size == 1 {
            let mut out: Vec<Vec<ChangeEvent>> = Vec::new();
            out.push(batch.events);
            return out;
        }
        let by_table = match self.parallel_type {
            ParallelType::RdbMerge => true,
            ParallelType::Table => true,
            _ => false,
        };
        partition_by_bucket(batch.events, self.parallel_size, by_table)
    }
}

} // verus!
