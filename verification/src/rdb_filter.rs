use vstd::prelude::*;

use crate::configs::FilterConfig;
use crate::events::RowOp;
use crate::strutil::{csv_items, split_csv, str_eq};

verus! {

/// The do/ignore lists, split into items, as ghost sequences: the shape
/// contracts over filtering decisions speak of.
pub struct FilterView {
    pub do_schemas: Seq<Seq<char>>,
    pub ignore_schemas: Seq<Seq<char>>,
    pub do_tbs: Seq<Seq<char>>,
    pub ignore_tbs: Seq<Seq<char>>,
    pub do_events: Seq<Seq<char>>,
    pub do_ddls: Seq<Seq<char>>,
    pub do_structures: Seq<Seq<char>>,
    pub ignore_cmds: Seq<Seq<char>>,
}

/// A list entry hits a name when it equals the name or is the `*`
/// wildcard.
pub open spec fn list_hits(l: Seq<Seq<char>>, name: Seq<char>) -> bool {
    exists|i: int| 0 <= i < l.len() && (l[i] == name || l[i] == "*"@)
}

/// The `schema.table` form a table takes in the table lists.
pub open spec fn tb_key_view(schema: Seq<char>, tb: Seq<char>) -> Seq<char> {
    schema + "."@ + tb
}

/// A table is kept when no ignore entry hits it and, if any do-list is
/// given, some do entry hits it. An ignore entry always beats a do entry.
pub open spec fn keep_tb(f: FilterView, schema: Seq<char>, tb: Seq<char>) -> bool {
    let key = tb_key_view(schema, tb);
    &&& !list_hits(f.ignore_tbs, key)
    &&& !list_hits(f.ignore_schemas, schema)
    &&& ((f.do_tbs.len() == 0 && f.do_schemas.len() == 0) || list_hits(f.do_tbs, key)
        || list_hits(f.do_schemas, schema))
}

/// The name a row operation bears in the event list.
pub open spec fn op_name(op: RowOp) -> Seq<char> {
    match op {
        RowOp::Insert => "insert"@,
        RowOp::Update => "update"@,
        RowOp::Delete => "delete"@,
    }
}

/// A row event kind is kept when no event list is given or it hits it.
pub open spec fn keep_event_kind(f: FilterView, kind: Seq<char>) -> bool {
    f.do_events.len() == 0 || list_hits(f.do_events, kind)
}

/// A row mutation is kept when its table and its event kind are.
pub open spec fn keep_row(f: FilterView, schema: Seq<char>, tb: Seq<char>, op: RowOp) -> bool {
    keep_tb(f, schema, tb) && keep_event_kind(f, op_name(op))
}

/// A structural change is kept when its table is and its DDL kind is
/// listed (nothing is listed, nothing is kept).
pub open spec fn keep_ddl(f: FilterView, schema: Seq<char>, tb: Seq<char>, kind: Seq<char>) -> bool {
    keep_tb(f, schema, tb) && list_hits(f.do_ddls, kind)
}

/// A structure kind is filtered out when the structure list misses it.
pub open spec fn structure_filtered(f: FilterView, ty: Seq<char>) -> bool {
    !list_hits(f.do_structures, ty)
}

/// A command is filtered out when the ignore list hits it.
pub open spec fn cmd_filtered(f: FilterView, cmd: Seq<char>) -> bool {
    list_hits(f.ignore_cmds, cmd)
}

/// Law: an ignore-list entry beats any do-list entry. A table hit by an
/// ignore entry (by name or through its schema) is dropped, whatever the
/// do-lists say.
pub proof fn lemma_ignore_wins(f: FilterView, schema: Seq<char>, tb: Seq<char>)
    requires
        list_hits(f.ignore_tbs, tb_key_view(schema, tb)) || list_hits(f.ignore_schemas, schema),
    ensures
        !keep_tb(f, schema, tb),
{
}

/// The stateless predicate layer: do/ignore lists built once from the
/// configuration, read-only afterwards, and so freely shared.
#[derive(Debug, Clone)]
pub struct RdbFilter {
    pub do_schemas: Vec<String>,
    pub ignore_schemas: Vec<String>,
    pub do_tbs: Vec<String>,
    pub ignore_tbs: Vec<String>,
    pub do_events: Vec<String>,
    pub do_ddls: Vec<String>,
    pub do_structures: Vec<String>,
    pub ignore_cmds: Vec<String>,
}

/// The items of a list of strings, as character sequences.
pub open spec fn list_view(v: Vec<String>) -> Seq<Seq<char>> {
    v@.map_values(|x: String| x@)
}

/// Whether some item of the list hits the name (the `*` wildcard hits
/// everything).
fn hits(list: &Vec<String>, name: &str) -> (r: bool)
    ensures
        r == list_hits(list_view(*list), name@),
{
    let mut i: usize = 0;
    while i < list.len()
        invariant
            i <= list.len(),
            forall|k: int|
                0 <= k < i ==> !(list_view(*list)[k] == name@ || list_view(*list)[k] == "*"@),
        decreases list.len() - i,
    {
        if str_eq(list[i].as_str(), name) || str_eq(list[i].as_str(), "*") {
            proof {
                assert(list_view(*list)[i as int] == name@ || list_view(*list)[i as int] == "*"@);
            }
            return true;
        }
        i = i + 1;
    }
    proof {
        if list_hits(list_view(*list), name@) {
            let k = choose|k: int|
                0 <= k < list_view(*list).len() && (list_view(*list)[k] == name@ || list_view(
                    *list,
                )[k] == "*"@);
            assert(false);
        }
    }
    false
}

/// The `schema.table` key a table bears in the table lists.
pub fn tb_key(schema: &str, tb: &str) -> (r: String)
    ensures
        r@ == tb_key_view(schema@, tb@),
{
    let mut k = schema.to_owned();
    k.append(".");
    k.append(tb);
    k
}

impl RdbFilter {
    /// The filter's lists as ghost sequences.
    pub open spec fn filter_view(&self) -> FilterView {
        FilterView {
            do_schemas: list_view(self.do_schemas),
            ignore_schemas: list_view(self.ignore_schemas),
            do_tbs: list_view(self.do_tbs),
            ignore_tbs: list_view(self.ignore_tbs),
            do_events: list_view(self.do_events),
            do_ddls: list_view(self.do_ddls),
            do_structures: list_view(self.do_structures),
            ignore_cmds: list_view(self.ignore_cmds),
        }
    }

    /// Splits every configured list once; the result is never mutated.
    pub fn from_config(config: &FilterConfig) -> (r: RdbFilter)
        ensures
            r.filter_view() == (FilterView {
                do_schemas: csv_items(config.do_schemas@),
                ignore_schemas: csv_items(config.ignore_schemas@),
                do_tbs: csv_items(config.do_tbs@),
                ignore_tbs: csv_items(config.ignore_tbs@),
                do_events: csv_items(config.do_events@),
                do_ddls: csv_items(config.do_ddls@),
                do_structures: csv_items(config.do_structures@),
                ignore_cmds: csv_items(config.ignore_cmds@),
            }),
    {
        RdbFilter {
            do_schemas: split_csv(config.do_schemas.as_str()),
            ignore_schemas: split_csv(config.ignore_schemas.as_str()),
            do_tbs: split_csv(config.do_tbs.as_str()),
            ignore_tbs: split_csv(config.ignore_tbs.as_str()),
            do_events: split_csv(config.do_events.as_str()),
            do_ddls: split_csv(config.do_ddls.as_str()),
            do_structures: split_csv(config.do_structures.as_str()),
            ignore_cmds: split_csv(config.ignore_cmds.as_str()),
        }
    }

    /// Whether mutations of this table pass the do/ignore lists.
    pub fn should_keep_tb(&self, schema: &str, tb: &str) -> (r: bool)
        ensures
            r == keep_tb(self.filter_view(), schema@, tb@),
    {
        let key = tb_key(schema, tb);
        let ignored = hits(&self.ignore_tbs, key.as_str()) || hits(&self.ignore_schemas, schema);
        if ignored {
            return false;
        }
        if self.do_tbs.len() == 0 && self.do_schemas.len() == 0 {
            return true;
        }
        hits(&self.do_tbs, key.as_str()) || hits(&self.do_schemas, schema)
    }

    /// Whether a row mutation of this table and kind is kept.
    pub fn should_keep_row(&self, schema: &str, tb: &str, op: RowOp) -> (r: bool)
        ensures
            r == keep_row(self.filter_view(), schema@, tb@, op),
    {
        if !self.should_keep_tb(schema, tb) {
            return false;
        }
        if self.do_events.len() == 0 {
            return true;
        }
        let kind = match op {
            RowOp::Insert => "insert",
            RowOp::Update => "update",
            RowOp::Delete => "delete",
        };
        hits(&self.do_events, kind)
    }

    /// Whether a structural change of this table and DDL kind is kept.
    pub fn should_keep_ddl(&self, schema: &str, tb: &str, kind: &str) -> (r: bool)
        ensures
            r == keep_ddl(self.filter_view(), schema@, tb@, kind@),
    {
        self.should_keep_tb(schema, tb) && hits(&self.do_ddls, kind)
    }

    /// Whether a structure kind is filtered out of structural replication
    /// (`true` means dropped), as the structure list decides.
    pub fn filter_structure(&self, structure_type: &str) -> (r: bool)
        ensures
            r == structure_filtered(self.filter_view(), structure_type@),
    {
        !hits(&self.do_structures, structure_type)
    }

    /// Whether a command is filtered out (`true` means dropped).
    pub fn filter_cmd(&self, cmd: &str) -> (r: bool)
        ensures
            r == cmd_filtered(self.filter_view(), cmd@),
    {
        hits(&self.ignore_cmds, cmd)
    }
}

} // verus!
