use vstd::prelude::*;

use crate::pg_structure::{
    Column, Comment, Constraint, ConstraintType, Index, IndexKind, Sequence, SequenceOwner,
    StructureType, Table,
};
use crate::rdb_filter::{structure_filtered, FilterView, RdbFilter};
use crate::router::pairs_view;
use crate::strutil::replace_all;

verus! {

// ---------------------------------------------------------------------------
// Word tests
// ---------------------------------------------------------------------------

/// The word `no`, in any letter case.
pub open spec fn is_word_no(s: Seq<char>) -> bool {
    s.len() == 2 && (s[0] == 'n' || s[0] == 'N') && (s[1] == 'o' || s[1] == 'O')
}

/// The word `yes`, in any letter case.
pub open spec fn is_word_yes(s: Seq<char>) -> bool {
    s.len() == 3 && (s[0] == 'y' || s[0] == 'Y') && (s[1] == 'e' || s[1] == 'E') && (s[2] == 's'
        || s[2] == 'S')
}

fn word_no(s: &str) -> (r: bool)
    ensures
        r == is_word_no(s@),
{
    let len = s.unicode_len();
    len == 2 && (s.get_char(0) == 'n' || s.get_char(0) == 'N') && (s.get_char(1) == 'o'
        || s.get_char(1) == 'O')
}

fn word_yes(s: &str) -> (r: bool)
    ensures
        r == is_word_yes(s@),
{
    let len = s.unicode_len();
    len == 3 && (s.get_char(0) == 'y' || s.get_char(0) == 'Y') && (s.get_char(1) == 'e'
        || s.get_char(1) == 'E') && (s.get_char(2) == 's' || s.get_char(2) == 'S')
}

// ---------------------------------------------------------------------------
// Sorting columns by ordinal position
// ---------------------------------------------------------------------------

/// Inserts a column into a run sorted by ordinal position, after every
/// column whose position does not exceed it (which keeps equal positions
/// in their arrival order).
pub open spec fn insert_col(s: Seq<Column>, c: Column) -> Seq<Column>
    decreases s.len(),
{
    if s.len() == 0 {
        seq![c]
    } else if s.last().ordinal_position <= c.ordinal_position {
        s + seq![c]
    } else {
        insert_col(s.drop_last(), c) + seq![s.last()]
    }
}

/// The columns in ordinal order, equal positions kept in arrival order.
pub open spec fn sort_cols(s: Seq<Column>) -> Seq<Column>
    decreases s.len(),
{
    if s.len() == 0 {
        Seq::empty()
    } else {
        insert_col(sort_cols(s.drop_last()), s.last())
    }
}

/// Inserting at the position the exec search finds is `insert_col`.
proof fn lemma_insert_col_at(s: Seq<Column>, c: Column, j: int)
    requires
        0 <= j <= s.len(),
        forall|k: int| j <= k < s.len() ==> s[k].ordinal_position > c.ordinal_position,
        j > 0 ==> s[j - 1].ordinal_position <= c.ordinal_position,
    ensures
        insert_col(s, c) == s.subrange(0, j) + seq![c] + s.subrange(j, s.len() as int),
    decreases s.len(),
{
    if j == s.len() {
        if s.len() == 0 {
            assert(insert_col(s, c) =~= s.subrange(0, j) + seq![c] + s.subrange(
                j,
                s.len() as int,
            ));
        } else {
            assert(insert_col(s, c) =~= s.subrange(0, j) + seq![c] + s.subrange(
                j,
                s.len() as int,
            ));
        }
    } else {
        assert(s.last().ordinal_position > c.ordinal_position);
        lemma_insert_col_at(s.drop_last(), c, j);
        assert(s.drop_last().subrange(0, j) =~= s.subrange(0, j));
        assert(s.drop_last().subrange(j, s.len() - 1) =~= s.subrange(j, s.len() - 1));
        assert(insert_col(s, c) =~= s.subrange(0, j) + seq![c] + s.subrange(j, s.len() as int));
    }
}

/// Sorts columns by ordinal position, stably.
fn sort_columns(cols: Vec<Column>) -> (r: Vec<Column>)
    ensures
        r@ == sort_cols(cols@),
{
    let ghost orig = cols@;
    let mut rest = cols;
    let mut out: Vec<Column> = Vec::new();
    proof {
        assert(orig.subrange(0, 0) =~= Seq::<Column>::empty());
        assert(rest@ =~= orig.subrange(0, orig.len() as int));
    }
    let ghost mut done: int = 0;
    while rest.len() > 0
        invariant
            0 <= done <= orig.len(),
            rest@ == orig.subrange(done, orig.len() as int),
            out@ == sort_cols(orig.subrange(0, done)),
        decreases rest.len(),
    {
        let c = rest.remove(0);
        proof {
            assert(c == orig[done]);
            assert(rest@ =~= orig.subrange(done + 1, orig.len() as int));
        }
        let mut j: usize = out.len();
        while j > 0 && out[j - 1].ordinal_position > c.ordinal_position
            invariant
                j <= out@.len(),
                forall|k: int| j <= k < out@.len() ==> out@[k].ordinal_position > c.ordinal_position,
            decreases j,
        {
            j = j - 1;
        }
        let ghost pre_out = out@;
        out.insert(j, c);
        proof {
            lemma_insert_col_at(pre_out, c, j as int);
            let p = orig.subrange(0, done + 1);
            assert(p.drop_last() =~= orig.subrange(0, done));
            assert(p.last() == orig[done]);
            assert(out@ =~= pre_out.subrange(0, j as int) + seq![c] + pre_out.subrange(
                j as int,
                pre_out.len() as int,
            ));
            done = done + 1;
        }
    }
    proof {
        assert(orig.subrange(0, orig.len() as int) =~= orig);
    }
    out
}

// ---------------------------------------------------------------------------
// The emitted statements
// ---------------------------------------------------------------------------

/// A name in double quotes.
pub open spec fn quoted(s: Seq<char>) -> Seq<char> {
    "\""@ + s + "\""@
}

/// One column clause of a CREATE TABLE statement.
pub open spec fn column_sql(c: Column) -> Seq<char> {
    quoted(c.column_name@) + " "@ + c.column_type@ + " "@ + (if is_word_no(c.is_nullable@) {
        "NOT NULL "@
    } else {
        Seq::<char>::empty()
    }) + (match c.column_default {
        Some(d) => "DEFAULT "@ + d@ + " "@,
        None => Seq::<char>::empty(),
    }) + (match c.generated {
        Some(g) => if g@ == "ALWAYS"@ {
            "GENERATED ALWAYS AS IDENTITY "@
        } else {
            "GENERATED BY DEFAULT AS IDENTITY "@
        },
        None => Seq::<char>::empty(),
    }) + ","@
}

/// All column clauses, joined.
pub open spec fn columns_joined(cols: Seq<Column>) -> Seq<char>
    decreases cols.len(),
{
    if cols.len() == 0 {
        Seq::empty()
    } else {
        columns_joined(cols.drop_last()) + column_sql(cols.last())
    }
}

/// The joined clauses with the trailing comma removed.
pub open spec fn strip_trailing_comma(s: Seq<char>) -> Seq<char> {
    if s.len() > 0 && s.last() == ',' {
        s.drop_last()
    } else {
        s
    }
}

/// The column list of a table, in ordinal order.
pub open spec fn columns_text(cols: Seq<Column>) -> Seq<char> {
    strip_trailing_comma(columns_joined(sort_cols(cols)))
}

/// The CREATE TABLE statement of a table.
pub open spec fn table_sql(t: Table) -> Seq<char> {
    "CREATE TABLE IF NOT EXISTS "@ + quoted(t.schema_name@) + "."@ + quoted(t.table_name@) + " ("@
        + columns_text(t.columns@) + ")"@
}

/// The index statement: the source definition made idempotent, plus the
/// tablespace.
pub open spec fn index_sql(i: Index) -> Seq<char> {
    replace_all(
        replace_all(i.definition@, "CREATE INDEX"@, "CREATE INDEX IF NOT EXISTS"@),
        "CREATE UNIQUE INDEX"@,
        "CREATE UNIQUE INDEX IF NOT EXISTS"@,
    ) + " TABLESPACE "@ + i.table_space@
}

/// The comment statement: on the table when no column is named, else on
/// the column.
pub open spec fn comment_sql(c: Comment) -> Seq<char> {
    if c.column_name@.len() == 0 {
        "COMMENT ON TABLE "@ + quoted(c.schema_name@) + "."@ + quoted(c.table_name@) + " is '"@
            + c.comment@ + "'"@
    } else {
        "COMMENT ON COLUMN "@ + quoted(c.schema_name@) + "."@ + quoted(c.table_name@) + "."@
            + quoted(c.column_name@) + " IS '"@ + c.comment@ + "'"@
    }
}

/// The CREATE SEQUENCE statement of a sequence.
pub open spec fn sequence_sql(s: Sequence) -> Seq<char> {
    "CREATE SEQUENCE IF NOT EXISTS "@ + quoted(s.schema_name@) + "."@ + quoted(s.sequence_name@)
        + " AS "@ + s.data_type@ + " START "@ + s.start_value@ + " INCREMENT by "@ + s.increment@
        + " MINVALUE "@ + s.minimum_value@ + " MAXVALUE "@ + s.maximum_value@ + " "@ + (
    if is_word_yes(s.cycle_option@) {
        "CYCLE"@
    } else {
        "NO CYCLE"@
    })
}

/// The ownership statement of a sequence.
pub open spec fn sequence_owner_sql(s: SequenceOwner) -> Seq<char> {
    "ALTER SEQUENCE "@ + quoted(s.schema_name@) + "."@ + quoted(s.sequence_name@) + " OWNED BY "@
        + quoted(s.schema_name@) + "."@ + quoted(s.table_name@) + "."@ + quoted(s.column_name@)
}

/// The constraint statement of a constraint.
pub open spec fn constraint_sql(c: Constraint) -> Seq<char> {
    "ALTER TABLE "@ + quoted(c.schema_name@) + "."@ + quoted(c.table_name@) + " ADD CONSTRAINT "@
        + quoted(c.constraint_name@) + " "@ + c.definition@
}

// ---------------------------------------------------------------------------
// Keys
// ---------------------------------------------------------------------------

/// The key a sequence's statement is filed under.
pub open spec fn sequence_key(s: Sequence) -> Seq<char> {
    "sequence."@ + s.schema_name@ + "."@ + s.sequence_name@
}

/// The key a table's statement is filed under.
pub open spec fn table_key(t: Table) -> Seq<char> {
    "table."@ + t.schema_name@ + "."@ + t.table_name@
}

/// The key a sequence ownership statement is filed under.
pub open spec fn sequence_owner_key(s: SequenceOwner) -> Seq<char> {
    "sequence_owner."@ + s.schema_name@ + "."@ + s.table_name@ + "."@ + s.sequence_name@
}

/// The key a column comment is filed under.
pub open spec fn column_comment_key(c: Comment) -> Seq<char> {
    "column_comment."@ + c.schema_name@ + "."@ + c.table_name@ + "."@ + c.column_name@
}

/// The key a table comment is filed under.
pub open spec fn table_comment_key(c: Comment) -> Seq<char> {
    "table_comment."@ + c.schema_name@ + "."@ + c.table_name@
}

/// The key a constraint statement is filed under.
pub open spec fn constraint_key(c: Constraint) -> Seq<char> {
    "constraint."@ + c.schema_name@ + "."@ + c.table_name@ + "."@ + c.constraint_name@
}

/// The key an index statement is filed under.
pub open spec fn index_key(i: Index) -> Seq<char> {
    "index."@ + i.schema_name@ + "."@ + i.table_name@ + "."@ + i.index_name@
}

// ---------------------------------------------------------------------------
// The statement groups
// ---------------------------------------------------------------------------

/// Keyed statements of all sequences.
pub open spec fn sequences_sqls(s: Seq<Sequence>) -> Seq<(Seq<char>, Seq<char>)>
    decreases s.len(),
{
    if s.len() == 0 {
        Seq::empty()
    } else {
        sequences_sqls(s.drop_last()) + seq![(sequence_key(s.last()), sequence_sql(s.last()))]
    }
}

/// Keyed statements of all sequence ownerships.
pub open spec fn sequence_owners_sqls(s: Seq<SequenceOwner>) -> Seq<(Seq<char>, Seq<char>)>
    decreases s.len(),
{
    if s.len() == 0 {
        Seq::empty()
    } else {
        sequence_owners_sqls(s.drop_last()) + seq![
            (sequence_owner_key(s.last()), sequence_owner_sql(s.last())),
        ]
    }
}

/// Keyed statements of all column comments.
pub open spec fn column_comments_sqls(s: Seq<Comment>) -> Seq<(Seq<char>, Seq<char>)>
    decreases s.len(),
{
    if s.len() == 0 {
        Seq::empty()
    } else {
        column_comments_sqls(s.drop_last()) + seq![
            (column_comment_key(s.last()), comment_sql(s.last())),
        ]
    }
}

/// Keyed statements of all table comments.
pub open spec fn table_comments_sqls(s: Seq<Comment>) -> Seq<(Seq<char>, Seq<char>)>
    decreases s.len(),
{
    if s.len() == 0 {
        Seq::empty()
    } else {
        table_comments_sqls(s.drop_last()) + seq![
            (table_comment_key(s.last()), comment_sql(s.last())),
        ]
    }
}

/// A constraint rides with the table when it backs a primary or unique
/// key, else with the constraints.
pub open spec fn constraint_included(fv: FilterView, c: Constraint) -> bool {
    match c.constraint_type {
        ConstraintType::Primary => !structure_filtered(fv, "table"@),
        ConstraintType::Unique => !structure_filtered(fv, "table"@),
        _ => !structure_filtered(fv, "constraint"@),
    }
}

/// Keyed statements of the constraints that pass the structure filter.
pub open spec fn constraints_sqls(s: Seq<Constraint>, fv: FilterView) -> Seq<(Seq<char>, Seq<
    char,
>)>
    decreases s.len(),
{
    if s.len() == 0 {
        Seq::empty()
    } else {
        constraints_sqls(s.drop_last(), fv) + (if constraint_included(fv, s.last()) {
            seq![(constraint_key(s.last()), constraint_sql(s.last()))]
        } else {
            seq![]
        })
    }
}

/// An index rides with the table when it backs a unique key, else with
/// the indexes.
pub open spec fn index_included(fv: FilterView, i: Index) -> bool {
    match i.index_kind {
        IndexKind::Unique => !structure_filtered(fv, "table"@),
        IndexKind::Ordinary => !structure_filtered(fv, "index"@),
    }
}

/// Keyed statements of the indexes that pass the structure filter.
pub open spec fn indexes_sqls(s: Seq<Index>, fv: FilterView) -> Seq<(Seq<char>, Seq<char>)>
    decreases s.len(),
{
    if s.len() == 0 {
        Seq::empty()
    } else {
        indexes_sqls(s.drop_last(), fv) + (if index_included(fv, s.last()) {
            seq![(index_key(s.last()), index_sql(s.last()))]
        } else {
            seq![]
        })
    }
}

/// Everything a statement emits, in emission order: when tables pass the
/// structure filter, first the sequences, the table itself, the sequence
/// ownerships and the comments; then the surviving constraints and
/// indexes.
pub open spec fn to_sqls_view(st: PgCreateTableStatement, fv: FilterView) -> Seq<(Seq<char>, Seq<
    char,
>)> {
    (if !structure_filtered(fv, "table"@) {
        sequences_sqls(st.sequences@) + seq![(table_key(st.table), table_sql(st.table))]
            + sequence_owners_sqls(st.sequence_owners@) + column_comments_sqls(st.column_comments@)
            + table_comments_sqls(st.table_comments@)
    } else {
        Seq::empty()
    }) + constraints_sqls(st.constraints@, fv) + indexes_sqls(st.indexes@, fv)
}

/// Everything needed to recreate one PostgreSQL table at the destination:
/// the table, its comments, constraints, indexes and sequences.
#[derive(Debug, Clone)]
pub struct PgCreateTableStatement {
    pub table: Table,
    pub table_comments: Vec<Comment>,
    pub column_comments: Vec<Comment>,
    pub constraints: Vec<Constraint>,
    pub indexes: Vec<Index>,
    pub sequences: Vec<Sequence>,
    pub sequence_owners: Vec<SequenceOwner>,
}

// ---------------------------------------------------------------------------
// Emission
// ---------------------------------------------------------------------------

/// Appends a double-quoted name.
fn push_quoted(out: &mut String, s: &str)
    ensures
        final(out)@ == old(out)@ + quoted(s@),
{
    out.append("\"");
    out.append(s);
    out.append("\"");
    proof {
        assert(out@ =~= old(out)@ + quoted(s@));
    }
}

impl PgCreateTableStatement {
    /// The CREATE TABLE statement, its columns sorted into ordinal order
    /// (the sort is kept, as the caller's column order afterwards).
    pub fn table_to_sql(table: &mut Table) -> (r: String)
        ensures
            r@ == table_sql(*old(table)),
            final(table).schema_name == old(table).schema_name,
            final(table).table_name == old(table).table_name,
            final(table).columns@ == sort_cols(old(table).columns@),
    {
        let columns_sql = Self::columns_to_sql(&mut table.columns);
        let mut out = "CREATE TABLE IF NOT EXISTS ".to_owned();
        push_quoted(&mut out, table.schema_name.as_str());
        out.append(".");
        push_quoted(&mut out, table.table_name.as_str());
        out.append(" (");
        out.append(columns_sql.as_str());
        out.append(")");
        proof {
            assert(out@ =~= table_sql(*old(table)));
        }
        out
    }

    /// The column list, sorted into ordinal order in place.
    #[verifier::loop_isolation(false)]
    #[verifier::rlimit(100)]
    pub fn columns_to_sql(columns: &mut Vec<Column>) -> (r: String)
        ensures
            r@ == strip_trailing_comma(columns_joined(sort_cols(old(columns)@))),
            final(columns)@ == sort_cols(old(columns)@),
    {
        let mut taken: Vec<Column> = Vec::new();
        core::mem::swap(&mut taken, columns);
        let sorted = sort_columns(taken);
        let ghost sv = sorted@;

        let mut sql = String::new();
        let mut i: usize = 0;
        proof {
            assert(sv.subrange(0, 0) =~= Seq::<Column>::empty());
        }
        while i < sorted.len()
            invariant
                i <= sorted@.len(),
                sv == sorted@,
                sql@ == columns_joined(sv.subrange(0, i as int)),
            decreases sorted@.len() - i,
        {
            let column = &sorted[i];
            let ghost pre = sql@;
            push_quoted(&mut sql, column.column_name.as_str());
            sql.append(" ");
            sql.append(column.column_type.as_str());
            sql.append(" ");
            if word_no(column.is_nullable.as_str()) {
                sql.append("NOT NULL ");
            }
            match &column.column_default {
                Some(x) => {
                    sql.append("DEFAULT ");
                    sql.append(x.as_str());
                    sql.append(" ");
                },
                None => {},
            }
            match &column.generated {
                Some(x) => {
                    if crate::strutil::str_eq(x.as_str(), "ALWAYS") {
                        sql.append("GENERATED ALWAYS AS IDENTITY ");
                    } else {
                        sql.append("GENERATED BY DEFAULT AS IDENTITY ");
                    }
                },
                None => {},
            }
            sql.append(",");
            proof {
                let p = sv.subrange(0, i + 1);
                assert(p.drop_last() =~= sv.subrange(0, i as int));
                assert(p.last() == sv[i as int]);
                assert(sql@ =~= pre + column_sql(sv[i as int]));
            }
            i = i + 1;
        }
        proof {
            assert(sv.subrange(0, sv.len() as int) =~= sv);
        }
        let len = sql.unicode_len();
        if len > 0 && sql.as_str().get_char(len - 1) == ',' {
            let stripped = sql.as_str().substring_char(0, len - 1).to_owned();
            proof {
                assert(stripped@ =~= columns_joined(sv).drop_last());
            }
            *columns = sorted;
            stripped
        } else {
            *columns = sorted;
            sql
        }
    }

    /// The index statement: the definition made idempotent, plus the
    /// tablespace.
    pub fn index_to_sql(index: &Index) -> (r: String)
        ensures
            r@ == index_sql(*index),
    {
        proof {
            reveal_strlit("CREATE INDEX");
            reveal_strlit("CREATE UNIQUE INDEX");
        }
        let once = crate::strutil::replace(
            index.definition.as_str(),
            "CREATE INDEX",
            "CREATE INDEX IF NOT EXISTS",
        );
        let mut out = crate::strutil::replace(
            once.as_str(),
            "CREATE UNIQUE INDEX",
            "CREATE UNIQUE INDEX IF NOT EXISTS",
        );
        out.append(" TABLESPACE ");
        out.append(index.table_space.as_str());
        proof {
            assert(out@ =~= index_sql(*index));
        }
        out
    }

    /// The comment statement: on the table when no column is named, else
    /// on the column.
    pub fn comment_to_sql(comment: &Comment) -> (r: String)
        ensures
            r@ == comment_sql(*comment),
    {
        let mut out: String;
        if comment.column_name.unicode_len() == 0 {
            out = "COMMENT ON TABLE ".to_owned();
            push_quoted(&mut out, comment.schema_name.as_str());
            out.append(".");
            push_quoted(&mut out, comment.table_name.as_str());
            out.append(" is '");
            out.append(comment.comment.as_str());
            out.append("'");
        } else {
            out = "COMMENT ON COLUMN ".to_owned();
            push_quoted(&mut out, comment.schema_name.as_str());
            out.append(".");
            push_quoted(&mut out, comment.table_name.as_str());
            out.append(".");
            push_quoted(&mut out, comment.column_name.as_str());
            out.append(" IS '");
            out.append(comment.comment.as_str());
            out.append("'");
        }
        proof {
            assert(out@ =~= comment_sql(*comment));
        }
        out
    }

    /// The CREATE SEQUENCE statement.
    pub fn sequence_to_sql(sequence: &Sequence) -> (r: String)
        ensures
            r@ == sequence_sql(*sequence),
    {
        let cycle_str = if word_yes(sequence.cycle_option.as_str()) {
            "CYCLE"
        } else {
            "NO CYCLE"
        };
        let mut out = "CREATE SEQUENCE IF NOT EXISTS ".to_owned();
        push_quoted(&mut out, sequence.schema_name.as_str());
        out.append(".");
        push_quoted(&mut out, sequence.sequence_name.as_str());
        out.append(" AS ");
        out.append(sequence.data_type.as_str());
        out.append(" START ");
        out.append(sequence.start_value.as_str());
        out.append(" INCREMENT by ");
        out.append(sequence.increment.as_str());
        out.append(" MINVALUE ");
        out.append(sequence.minimum_value.as_str());
        out.append(" MAXVALUE ");
        out.append(sequence.maximum_value.as_str());
        out.append(" ");
        out.append(cycle_str);
        proof {
            assert(out@ =~= sequence_sql(*sequence));
        }
        out
    }

    /// The sequence ownership statement.
    pub fn sequence_owner_to_sql(sequence_owner: &SequenceOwner) -> (r: String)
        ensures
            r@ == sequence_owner_sql(*sequence_owner),
    {
        let mut out = "ALTER SEQUENCE ".to_owned();
        push_quoted(&mut out, sequence_owner.schema_name.as_str());
        out.append(".");
        push_quoted(&mut out, sequence_owner.sequence_name.as_str());
        out.append(" OWNED BY ");
        push_quoted(&mut out, sequence_owner.schema_name.as_str());
        out.append(".");
        push_quoted(&mut out, sequence_owner.table_name.as_str());
        out.append(".");
        push_quoted(&mut out, sequence_owner.column_name.as_str());
        proof {
            assert(out@ =~= sequence_owner_sql(*sequence_owner));
        }
        out
    }

    /// The constraint statement.
    pub fn constraint_to_sql(constraint: &Constraint) -> (r: String)
        ensures
            r@ == constraint_sql(*constraint),
    {
        let mut out = "ALTER TABLE ".to_owned();
        push_quoted(&mut out, constraint.schema_name.as_str());
        out.append(".");
        push_quoted(&mut out, constraint.table_name.as_str());
        out.append(" ADD CONSTRAINT ");
        push_quoted(&mut out, constraint.constraint_name.as_str());
        out.append(" ");
        out.append(constraint.definition.as_str());
        proof {
            assert(out@ =~= constraint_sql(*constraint));
        }
        out
    }

    /// Every statement this table needs at the destination, keyed for the
    /// check log, in emission order, as the structure filter directs. The
    /// table's columns come out sorted by ordinal position.
    #[verifier::loop_isolation(false)]
    #[verifier::rlimit(100)]
    pub fn to_sqls(&mut self, filter: &RdbFilter) -> (r: Vec<(String, String)>)
        ensures
            pairs_view(r) == to_sqls_view(*old(self), filter.filter_view()),
            final(self).table.schema_name == old(self).table.schema_name,
            final(self).table.table_name == old(self).table.table_name,
            final(self).table.columns@ == (if !structure_filtered(
                filter.filter_view(),
                "table"@,
            ) {
                sort_cols(old(self).table.columns@)
            } else {
                old(self).table.columns@
            }),
            final(self).table_comments == old(self).table_comments,
            final(self).column_comments == old(self).column_comments,
            final(self).constraints == old(self).constraints,
            final(self).indexes == old(self).indexes,
            final(self).sequences == old(self).sequences,
            final(self).sequence_owners == old(self).sequence_owners,
    {
        let ghost fv = filter.filter_view();
        let mut sqls: Vec<(String, String)> = Vec::new();

        let keep_table = !filter.filter_structure(StructureType::Table.as_str());
        if keep_table {
            let ghost seqs = self.sequences@;
            let mut i: usize = 0;
            proof {
                assert(seqs.subrange(0, 0) =~= Seq::<Sequence>::empty());
                assert(pairs_view(sqls) =~= sequences_sqls(seqs.subrange(0, 0)));
            }
            while i < self.sequences.len()
                invariant
                    i <= self.sequences@.len(),
                    seqs == self.sequences@,
                    pairs_view(sqls) == sequences_sqls(seqs.subrange(0, i as int)),
                decreases self.sequences@.len() - i,
            {
                let s = &self.sequences[i];
                let mut key = "sequence.".to_owned();
                key.append(s.schema_name.as_str());
                key.append(".");
                key.append(s.sequence_name.as_str());
                let ghost pre = pairs_view(sqls);
                sqls.push((key, Self::sequence_to_sql(s)));
                proof {
                    let p = seqs.subrange(0, i + 1);
                    assert(p.drop_last() =~= seqs.subrange(0, i as int));
                    assert(p.last() == seqs[i as int]);
                    assert(pairs_view(sqls) =~= pre + seq![
                        (sequence_key(seqs[i as int]), sequence_sql(seqs[i as int])),
                    ]);
                }
                i = i + 1;
            }
            proof {
                assert(seqs.subrange(0, seqs.len() as int) =~= seqs);
            }

            let mut key = "table.".to_owned();
            key.append(self.table.schema_name.as_str());
            key.append(".");
            key.append(self.table.table_name.as_str());
            let ghost pre_tab = pairs_view(sqls);
            let table_stmt = Self::table_to_sql(&mut self.table);
            sqls.push((key, table_stmt));
            proof {
                assert(pairs_view(sqls) =~= pre_tab + seq![
                    (table_key(old(self).table), table_sql(old(self).table)),
                ]);
            }

            let ghost owners = self.sequence_owners@;
            let mut i: usize = 0;
            let ghost pre_own = pairs_view(sqls);
            proof {
                assert(owners.subrange(0, 0) =~= Seq::<SequenceOwner>::empty());
                assert(pairs_view(sqls) =~= pre_own + sequence_owners_sqls(
                    owners.subrange(0, 0),
                ));
            }
            while i < self.sequence_owners.len()
                invariant
                    i <= self.sequence_owners@.len(),
                    owners == self.sequence_owners@,
                    pairs_view(sqls) == pre_own + sequence_owners_sqls(
                        owners.subrange(0, i as int),
                    ),
                decreases self.sequence_owners@.len() - i,
            {
                let s = &self.sequence_owners[i];
                let mut key = "sequence_owner.".to_owned();
                key.append(s.schema_name.as_str());
                key.append(".");
                key.append(s.table_name.as_str());
                key.append(".");
                key.append(s.sequence_name.as_str());
                let ghost pre = pairs_view(sqls);
                sqls.push((key, Self::sequence_owner_to_sql(s)));
                proof {
                    let p = owners.subrange(0, i + 1);
                    assert(p.drop_last() =~= owners.subrange(0, i as int));
                    assert(p.last() == owners[i as int]);
                    assert(pairs_view(sqls) =~= pre + seq![
                        (sequence_owner_key(owners[i as int]), sequence_owner_sql(
                            owners[i as int],
                        )),
                    ]);
                    assert(pairs_view(sqls) =~= pre_own + sequence_owners_sqls(p));
                }
                i = i + 1;
            }
            proof {
                assert(owners.subrange(0, owners.len() as int) =~= owners);
            }

            let ghost ccs = self.column_comments@;
            let mut i: usize = 0;
            let ghost pre_cc = pairs_view(sqls);
            proof {
                assert(ccs.subrange(0, 0) =~= Seq::<Comment>::empty());
                assert(pairs_view(sqls) =~= pre_cc + column_comments_sqls(ccs.subrange(0, 0)));
            }
            while i < self.column_comments.len()
                invariant
                    i <= self.column_comments@.len(),
                    ccs == self.column_comments@,
                    pairs_view(sqls) == pre_cc + column_comments_sqls(ccs.subrange(0, i as int)),
                decreases self.column_comments@.len() - i,
            {
                let c = &self.column_comments[i];
                let mut key = "column_comment.".to_owned();
                key.append(c.schema_name.as_str());
                key.append(".");
                key.append(c.table_name.as_str());
                key.append(".");
                key.append(c.column_name.as_str());
                let ghost pre = pairs_view(sqls);
                sqls.push((key, Self::comment_to_sql(c)));
                proof {
                    let p = ccs.subrange(0, i + 1);
                    assert(p.drop_last() =~= ccs.subrange(0, i as int));
                    assert(p.last() == ccs[i as int]);
                    assert(pairs_view(sqls) =~= pre + seq![
                        (column_comment_key(ccs[i as int]), comment_sql(ccs[i as int])),
                    ]);
                    assert(pairs_view(sqls) =~= pre_cc + column_comments_sqls(p));
                }
                i = i + 1;
            }
            proof {
                assert(ccs.subrange(0, ccs.len() as int) =~= ccs);
            }

            let ghost tcs = self.table_comments@;
            let mut i: usize = 0;
            let ghost pre_tc = pairs_view(sqls);
            proof {
                assert(tcs.subrange(0, 0) =~= Seq::<Comment>::empty());
                assert(pairs_view(sqls) =~= pre_tc + table_comments_sqls(tcs.subrange(0, 0)));
            }
            while i < self.table_comments.len()
                invariant
                    i <= self.table_comments@.len(),
                    tcs == self.table_comments@,
                    pairs_view(sqls) == pre_tc + table_comments_sqls(tcs.subrange(0, i as int)),
                decreases self.table_comments@.len() - i,
            {
                let c = &self.table_comments[i];
                let mut key = "table_comment.".to_owned();
                key.append(c.schema_name.as_str());
                key.append(".");
                key.append(c.table_name.as_str());
                let ghost pre = pairs_view(sqls);
                sqls.push((key, Self::comment_to_sql(c)));
                proof {
                    let p = tcs.subrange(0, i + 1);
                    assert(p.drop_last() =~= tcs.subrange(0, i as int));
                    assert(p.last() == tcs[i as int]);
                    assert(pairs_view(sqls) =~= pre + seq![
                        (table_comment_key(tcs[i as int]), comment_sql(tcs[i as int])),
                    ]);
                    assert(pairs_view(sqls) =~= pre_tc + table_comments_sqls(p));
                }
                i = i + 1;
            }
            proof {
                assert(tcs.subrange(0, tcs.len() as int) =~= tcs);
            }
        }

        let ghost cons = self.constraints@;
        let mut i: usize = 0;
        let ghost pre_con = pairs_view(sqls);
        proof {
            assert(cons.subrange(0, 0) =~= Seq::<Constraint>::empty());
            assert(pairs_view(sqls) =~= pre_con + constraints_sqls(cons.subrange(0, 0), fv));
        }
        while i < self.constraints.len()
            invariant
                i <= self.constraints@.len(),
                cons == self.constraints@,
                fv == filter.filter_view(),
                pairs_view(sqls) == pre_con + constraints_sqls(cons.subrange(0, i as int), fv),
            decreases self.constraints@.len() - i,
        {
            let c = &self.constraints[i];
            let keep = match c.constraint_type {
                ConstraintType::Primary => !filter.filter_structure(StructureType::Table.as_str()),
                ConstraintType::Unique => !filter.filter_structure(StructureType::Table.as_str()),
                _ => !filter.filter_structure(StructureType::Constraint.as_str()),
            };
            let ghost pre = pairs_view(sqls);
            if keep {
                let mut key = "constraint.".to_owned();
                key.append(c.schema_name.as_str());
                key.append(".");
                key.append(c.table_name.as_str());
                key.append(".");
                key.append(c.constraint_name.as_str());
                sqls.push((key, Self::constraint_to_sql(c)));
                proof {
                    assert(pairs_view(sqls) =~= pre + seq![
                        (constraint_key(cons[i as int]), constraint_sql(cons[i as int])),
                    ]);
                }
            }
            proof {
                let p = cons.subrange(0, i + 1);
                assert(p.drop_last() =~= cons.subrange(0, i as int));
                assert(p.last() == cons[i as int]);
                assert(pairs_view(sqls) =~= pre_con + constraints_sqls(p, fv));
            }
            i = i + 1;
        }
        proof {
            assert(cons.subrange(0, cons.len() as int) =~= cons);
        }

        let ghost idxs = self.indexes@;
        let mut i: usize = 0;
        let ghost pre_idx = pairs_view(sqls);
        proof {
            assert(idxs.subrange(0, 0) =~= Seq::<Index>::empty());
            assert(pairs_view(sqls) =~= pre_idx + indexes_sqls(idxs.subrange(0, 0), fv));
        }
        while i < self.indexes.len()
            invariant
                i <= self.indexes@.len(),
                idxs == self.indexes@,
                fv == filter.filter_view(),
                pairs_view(sqls) == pre_idx + indexes_sqls(idxs.subrange(0, i as int), fv),
            decreases self.indexes@.len() - i,
        {
            let ix = &self.indexes[i];
            let keep = match ix.index_kind {
                IndexKind::Unique => !filter.filter_structure(StructureType::Table.as_str()),
                IndexKind::Ordinary => !filter.filter_structure(StructureType::Index.as_str()),
            };
            let ghost pre = pairs_view(sqls);
            if keep {
                let mut key = "index.".to_owned();
                key.append(ix.schema_name.as_str());
                key.append(".");
                key.append(ix.table_name.as_str());
                key.append(".");
                key.append(ix.index_name.as_str());
                sqls.push((key, Self::index_to_sql(ix)));
                proof {
                    assert(pairs_view(sqls) =~= pre + seq![
                        (index_key(idxs[i as int]), index_sql(idxs[i as int])),
                    ]);
                }
            }
            proof {
                let p = idxs.subrange(0, i + 1);
                assert(p.drop_last() =~= idxs.subrange(0, i as int));
                assert(p.last() == idxs[i as int]);
                assert(pairs_view(sqls) =~= pre_idx + indexes_sqls(p, fv));
            }
            i = i + 1;
        }
        proof {
            assert(idxs.subrange(0, idxs.len() as int) =~= idxs);
            assert(pairs_view(sqls) =~= to_sqls_view(*old(self), fv));
        }
        sqls
    }
}

} // verus!
