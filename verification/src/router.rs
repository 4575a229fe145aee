use vstd::prelude::*;

use crate::configs::RouterConfig;
use crate::events::{ChangeEvent, ColValue, Row, RowData};
use crate::rdb_filter::tb_key_view;
use crate::strutil::{csv_items, find_char, idx_of, lemma_idx_of, split_csv, str_eq};

verus! {

/// The rename maps, split into pairs, as ghost sequences.
pub struct RouterView {
    pub schema_map: Seq<(Seq<char>, Seq<char>)>,
    pub tb_map: Seq<(Seq<char>, Seq<char>)>,
    pub col_map: Seq<(Seq<char>, Seq<char>)>,
    pub topic_map: Seq<(Seq<char>, Seq<char>)>,
}

/// A `source:destination` list item as a pair; an item without a colon is
/// no pair.
pub open spec fn pair_of(item: Seq<char>) -> Option<(Seq<char>, Seq<char>)> {
    let i = idx_of(item, ':');
    if i < item.len() {
        Some((item.subrange(0, i), item.subrange(i + 1, item.len() as int)))
    } else {
        None
    }
}

/// The pairs among a list's items, in order.
pub open spec fn pairs_from_items(items: Seq<Seq<char>>) -> Seq<(Seq<char>, Seq<char>)>
    decreases items.len(),
{
    if items.len() == 0 {
        Seq::empty()
    } else {
        pairs_from_items(items.drop_last()) + (match pair_of(items.last()) {
            Some(p) => seq![p],
            None => seq![],
        })
    }
}

/// The rename pairs a comma-separated `source:destination` list holds.
pub open spec fn pairs_of(s: Seq<char>) -> Seq<(Seq<char>, Seq<char>)> {
    pairs_from_items(csv_items(s))
}

/// The destination the first pair matching `name` maps to, if any.
pub open spec fn map_get_opt(pairs: Seq<(Seq<char>, Seq<char>)>, name: Seq<char>) -> Option<
    Seq<char>,
>
    decreases pairs.len(),
{
    if pairs.len() == 0 {
        None
    } else if pairs[0].0 == name {
        Some(pairs[0].1)
    } else {
        map_get_opt(pairs.drop_first(), name)
    }
}

/// Where a table goes: a table-map entry for `schema.table` wins (its
/// destination splits at the first dot; one without a dot renames the
/// table in place); otherwise the schema map renames the schema. A name
/// absent from the maps passes through unchanged.
pub open spec fn route_tb(v: RouterView, schema: Seq<char>, tb: Seq<char>) -> (Seq<char>, Seq<
    char,
>) {
    match map_get_opt(v.tb_map, tb_key_view(schema, tb)) {
        Some(val) => {
            let i = idx_of(val, '.');
            if i < val.len() {
                (val.subrange(0, i), val.subrange(i + 1, val.len() as int))
            } else {
                (schema, val)
            }
        },
        None => match map_get_opt(v.schema_map, schema) {
            Some(s2) => (s2, tb),
            None => (schema, tb),
        },
    }
}

/// The key a column bears in the column map.
pub open spec fn col_key_view(schema: Seq<char>, tb: Seq<char>, col: Seq<char>) -> Seq<char> {
    tb_key_view(schema, tb) + "."@ + col
}

/// Where a column name goes, keyed by the source-side schema and table.
pub open spec fn col_route(v: RouterView, schema: Seq<char>, tb: Seq<char>, col: Seq<char>) -> Seq<
    char,
> {
    match map_get_opt(v.col_map, col_key_view(schema, tb, col)) {
        Some(c2) => c2,
        None => col,
    }
}

/// A routed row: same values in the same order, names mapped through the
/// column map of the source-side table.
pub open spec fn row_routed(
    v: RouterView,
    schema: Seq<char>,
    tb: Seq<char>,
    a: Row,
    b: Row,
) -> bool {
    &&& b.columns@.len() == a.columns@.len()
    &&& forall|i: int|
        0 <= i < a.columns@.len() ==> b.columns@[i].1 == a.columns@[i].1 && b.columns@[i].0@
            == col_route(v, schema, tb, a.columns@[i].0@)
}

/// A routed optional row image.
pub open spec fn image_routed(
    v: RouterView,
    schema: Seq<char>,
    tb: Seq<char>,
    a: Option<Row>,
    b: Option<Row>,
) -> bool {
    match (a, b) {
        (Option::None, Option::None) => true,
        (Option::Some(x), Option::Some(y)) => row_routed(v, schema, tb, x, y),
        _ => false,
    }
}

/// What routing does to one event: row mutations and structural changes
/// get destination-side schema, table and column names; everything else
/// passes through untouched. Order and positions are never changed.
pub open spec fn event_routed(v: RouterView, e: ChangeEvent, r: ChangeEvent) -> bool {
    match e {
        ChangeEvent::RowMutation(rd) => r matches ChangeEvent::RowMutation(rr) && {
            let t = route_tb(v, rd.schema@, rd.table@);
            &&& rr.schema@ == t.0
            &&& rr.table@ == t.1
            &&& rr.op == rd.op
            &&& rr.position == rd.position
            &&& image_routed(v, rd.schema@, rd.table@, rd.before, rr.before)
            &&& image_routed(v, rd.schema@, rd.table@, rd.after, rr.after)
        },
        ChangeEvent::StructureChange { schema, table, kind, definition, position } => r matches
            ChangeEvent::StructureChange {
            schema: s2,
            table: t2,
            kind: k2,
            definition: d2,
            position: p2,
        } && {
            let t = route_tb(v, schema@, table@);
            &&& s2@ == t.0
            &&& t2@ == t.1
            &&& k2 == kind
            &&& d2 == definition
            &&& p2 == position
        },
        _ => r == e,
    }
}

/// The stateless renaming layer: maps built once from the configuration,
/// read-only afterwards, and so freely shared. Routing happens before a
/// batch reaches the parallelizer, so downstream components only see
/// destination-side names.
#[derive(Debug, Clone)]
pub struct Router {
    pub schema_map: Vec<(String, String)>,
    pub tb_map: Vec<(String, String)>,
    pub col_map: Vec<(String, String)>,
    pub topic_map: Vec<(String, String)>,
}

/// The pairs of a list of string pairs, as character sequences.
pub open spec fn pairs_view(v: Vec<(String, String)>) -> Seq<(Seq<char>, Seq<char>)> {
    v@.map_values(|p: (String, String)| (p.0@, p.1@))
}

/// Splits a comma-separated `source:destination` list into pairs; items
/// without a colon are ignored.
pub fn parse_pairs(s: &str) -> (r: Vec<(String, String)>)
    ensures
        pairs_view(r) == pairs_of(s@),
{
    let items = split_csv(s);
    let mut out: Vec<(String, String)> = Vec::new();
    let mut i: usize = 0;
    let ghost iv = items@.map_values(|x: String| x@);
    proof {
        assert(iv.subrange(0, 0) =~= Seq::<Seq<char>>::empty());
        assert(pairs_view(out) =~= pairs_from_items(iv.subrange(0, 0)));
    }
    while i < items.len()
        invariant
            i <= items.len(),
            iv == items@.map_values(|x: String| x@),
            pairs_view(out) == pairs_from_items(iv.subrange(0, i as int)),
        decreases items.len() - i,
    {
        let ghost old_out = out@;
        let item = &items[i];
        let len = item.unicode_len();
        proof {
            lemma_idx_of(item@, ':');
        }
        match find_char(item.as_str(), ':', 0) {
            Some(c) => {
                proof {
                    assert(idx_of(item@, ':') == c);
                }
                let key = item.substring_char(0, c);
                let val = item.substring_char(c + 1, len);
                out.push((key.to_owned(), val.to_owned()));
            },
            None => {
                proof {
                    assert(idx_of(item@, ':') == item@.len());
                }
            },
        }
        proof {
            let pre = iv.subrange(0, i as int);
            let cur = iv.subrange(0, i + 1);
            assert(cur.drop_last() =~= pre);
            assert(cur.last() == item@);
            assert(pairs_view(out) =~= pairs_from_items(cur));
        }
        i = i + 1;
    }
    proof {
        assert(iv.subrange(0, items@.len() as int) =~= iv);
    }
    out
}

/// The destination the first pair matching `name` maps to, if any.
fn get_mapped<'a>(pairs: &'a Vec<(String, String)>, name: &str) -> (r: Option<&'a String>)
    ensures
        match r {
            Some(v) => map_get_opt(pairs_view(*pairs), name@) == Some(v@),
            None => map_get_opt(pairs_view(*pairs), name@) is None,
        },
{
    let ghost pv = pairs_view(*pairs);
    let mut i: usize = 0;
    proof {
        assert(pv.subrange(0, pv.len() as int) =~= pv);
    }
    while i < pairs.len()
        invariant
            i <= pairs.len(),
            pv == pairs_view(*pairs),
            map_get_opt(pv, name@) == map_get_opt(pv.subrange(i as int, pv.len() as int), name@),
        decreases pairs.len() - i,
    {
        proof {
            let tail = pv.subrange(i as int, pv.len() as int);
            assert(tail[0] == pv[i as int]);
            assert(tail.drop_first() =~= pv.subrange(i + 1, pv.len() as int));
        }
        if str_eq(pairs[i].0.as_str(), name) {
            return Some(&pairs[i].1);
        }
        i = i + 1;
    }
    proof {
        assert(pv.subrange(pv.len() as int, pv.len() as int) =~= Seq::<(Seq<char>, Seq<char>)>::empty());
    }
    None
}

impl Router {
    /// The router's maps as ghost sequences.
    pub open spec fn router_view(&self) -> RouterView {
        RouterView {
            schema_map: pairs_view(self.schema_map),
            tb_map: pairs_view(self.tb_map),
            col_map: pairs_view(self.col_map),
            topic_map: pairs_view(self.topic_map),
        }
    }

    /// Splits every configured map once; the result is never mutated.
    pub fn from_config(config: &RouterConfig) -> (r: Router)
        ensures
            match *config {
                RouterConfig::Rdb { schema_map, tb_map, col_map, topic_map } => r.router_view()
                    == (RouterView {
                    schema_map: pairs_of(schema_map@),
                    tb_map: pairs_of(tb_map@),
                    col_map: pairs_of(col_map@),
                    topic_map: pairs_of(topic_map@),
                }),
            },
    {
        match config {
            RouterConfig::Rdb { schema_map, tb_map, col_map, topic_map } => Router {
                schema_map: parse_pairs(schema_map.as_str()),
                tb_map: parse_pairs(tb_map.as_str()),
                col_map: parse_pairs(col_map.as_str()),
                topic_map: parse_pairs(topic_map.as_str()),
            },
        }
    }

    /// Destination-side schema and table of a source-side table.
    pub fn route_table(&self, schema: &str, tb: &str) -> (r: (String, String))
        ensures
            (r.0@, r.1@) == route_tb(self.router_view(), schema@, tb@),
    {
        let key = crate::rdb_filter::tb_key(schema, tb);
        match get_mapped(&self.tb_map, key.as_str()) {
            Some(val) => {
                let vlen = val.unicode_len();
                proof {
                    lemma_idx_of(val@, '.');
                }
                match find_char(val.as_str(), '.', 0) {
                    Some(d) => {
                        proof {
                            assert(idx_of(val@, '.') == d);
                        }
                        (val.substring_char(0, d).to_owned(), val.substring_char(d + 1, vlen).to_owned())
                    },
                    None => {
                        proof {
                            assert(idx_of(val@, '.') == val@.len());
                        }
                        (schema.to_owned(), val.clone())
                    },
                }
            },
            None => match get_mapped(&self.schema_map, schema) {
                Some(s2) => (s2.clone(), tb.to_owned()),
                None => (schema.to_owned(), tb.to_owned()),
            },
        }
    }

    /// Destination-side name of a column, keyed by its source-side table.
    pub fn route_column(&self, schema: &str, tb: &str, col: &str) -> (r: String)
        ensures
            r@ == col_route(self.router_view(), schema@, tb@, col@),
    {
        let mut key = crate::rdb_filter::tb_key(schema, tb);
        key.append(".");
        key.append(col);
        match get_mapped(&self.col_map, key.as_str()) {
            Some(c2) => c2.clone(),
            None => col.to_owned(),
        }
    }

    /// The topic configured for a table: its own entry first, then the
    /// `*` entry, else nothing.
    pub fn topic_for(&self, schema: &str, tb: &str) -> (r: Option<String>)
        ensures
            ({
                let v = self.router_view();
                let key = tb_key_view(schema@, tb@);
                let chosen = match map_get_opt(v.topic_map, key) {
                    Some(x) => Some(x),
                    None => map_get_opt(v.topic_map, "*"@),
                };
                match r {
                    Some(t) => chosen == Some(t@),
                    None => chosen is None,
                }
            }),
    {
        let key = crate::rdb_filter::tb_key(schema, tb);
        match get_mapped(&self.topic_map, key.as_str()) {
            Some(t) => Some(t.clone()),
            None => match get_mapped(&self.topic_map, "*") {
                Some(t) => Some(t.clone()),
                None => None,
            },
        }
    }

    /// Renames the columns of one row image in place of its source table.
    fn route_row(&self, schema: &str, tb: &str, row: Row) -> (r: Row)
        ensures
            row_routed(self.router_view(), schema@, tb@, row, r),
    {
        let mut cols = row.columns;
        let ghost orig = cols@;
        let mut out: Vec<(String, ColValue)> = Vec::new();
        while cols.len() > 0
            invariant
                cols@ =~= orig.subrange(out@.len() as int, orig.len() as int),
                out@.len() <= orig.len(),
                forall|i: int|
                    0 <= i < out@.len() ==> out@[i].1 == orig[i].1 && out@[i].0@ == col_route(
                        self.router_view(),
                        schema@,
                        tb@,
                        orig[i].0@,
                    ),
            decreases cols.len(),
        {
            let ghost done = out@.len();
            let ghost before_rm = cols@;
            let (name, val) = cols.remove(0);
            proof {
                assert(before_rm[0] == orig[done as int]);
                assert((name, val) == orig[done as int]);
                assert(cols@ =~= orig.subrange(done as int + 1, orig.len() as int));
            }
            let routed = self.route_column(schema, tb, name.as_str());
            out.push((routed, val));
        }
        Row { columns: out }
    }

    /// Routes one event: schema, table and column names become
    /// destination-side; values, order and positions are untouched.
    /// Heartbeats and transaction markers pass through unchanged.
    pub fn route_event(&self, e: ChangeEvent) -> (r: ChangeEvent)
        ensures
            event_routed(self.router_view(), e, r),
    {
        match e {
            ChangeEvent::RowMutation(rd) => {
                let RowData { schema, table, op, before, after, position } = rd;
                let (s2, t2) = self.route_table(schema.as_str(), table.as_str());
                let before2 = match before {
                    Some(b) => Some(self.route_row(schema.as_str(), table.as_str(), b)),
                    None => None,
                };
                let after2 = match after {
                    Some(a) => Some(self.route_row(schema.as_str(), table.as_str(), a)),
                    None => None,
                };
                ChangeEvent::RowMutation(
                    RowData {
                        schema: s2,
                        table: t2,
                        op,
                        before: before2,
                        after: after2,
                        position,
                    },
                )
            },
            ChangeEvent::StructureChange { schema, table, kind, definition, position } => {
                let (s2, t2) = self.route_table(schema.as_str(), table.as_str());
                ChangeEvent::StructureChange {
                    schema: s2,
                    table: t2,
                    kind,
                    definition,
                    position,
                }
            },
            other => other,
        }
    }
}

} // verus!
