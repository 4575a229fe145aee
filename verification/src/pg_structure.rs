use vstd::prelude::*;

verus! {

/// The kinds of structural object the structure filter can name.
#[derive(Debug, Clone, Copy, PartialEq, Eq, Structural)]
pub enum StructureType {
    Table,
    Constraint,
    Index,
    Sequence,
    Comment,
}

/// The name a structure kind bears in the structure filter list.
pub open spec fn structure_type_name(t: StructureType) -> Seq<char> {
    match t {
        StructureType::Table => "table"@,
        StructureType::Constraint => "constraint"@,
        StructureType::Index => "index"@,
        StructureType::Sequence => "sequence"@,
        StructureType::Comment => "comment"@,
    }
}

impl StructureType {
    /// The kind's name in the structure filter list.
    pub fn as_str(&self) -> (r: &'static str)
        ensures
            r@ == structure_type_name(*self),
    {
        match self {
            StructureType::Table => "table",
            StructureType::Constraint => "constraint",
            StructureType::Index => "index",
            StructureType::Sequence => "sequence",
            StructureType::Comment => "comment",
        }
    }
}

/// One column of a table, as the source catalog describes it.
#[derive(Debug, Clone, PartialEq, Eq)]
pub struct Column {
    pub column_name: String,
    pub column_type: String,
    /// `yes` or `no`, in any letter case, as catalogs report it.
    pub is_nullable: String,
    pub column_default: Option<String>,
    /// `ALWAYS` or another generation mode, when the column is generated.
    pub generated: Option<String>,
    pub ordinal_position: u32,
}

/// One table with its columns.
#[derive(Debug, Clone, PartialEq, Eq)]
pub struct Table {
    pub schema_name: String,
    pub table_name: String,
    pub columns: Vec<Column>,
}

/// A comment on a table (empty column name) or on one column.
#[derive(Debug, Clone, PartialEq, Eq)]
pub struct Comment {
    pub schema_name: String,
    pub table_name: String,
    pub column_name: String,
    pub comment: String,
}

/// The kinds of table constraint.
#[derive(Debug, Clone, Copy, PartialEq, Eq, Structural)]
pub enum ConstraintType {
    Primary,
    Unique,
    Foreign,
    Check,
}

/// One table constraint with its source-side definition text.
#[derive(Debug, Clone, PartialEq, Eq)]
pub struct Constraint {
    pub schema_name: String,
    pub table_name: String,
    pub constraint_name: String,
    pub constraint_type: ConstraintType,
    pub definition: String,
}

/// The kinds of index.
#[derive(Debug, Clone, Copy, PartialEq, Eq, Structural)]
pub enum IndexKind {
    Unique,
    Ordinary,
}

/// One index with its source-side definition text.
#[derive(Debug, Clone, PartialEq, Eq)]
pub struct Index {
    pub schema_name: String,
    pub table_name: String,
    pub index_name: String,
    pub index_kind: IndexKind,
    pub definition: String,
    pub table_space: String,
}

/// One sequence, with its numeric bounds kept as the catalog's text.
#[derive(Debug, Clone, PartialEq, Eq)]
pub struct Sequence {
    pub schema_name: String,
    pub sequence_name: String,
    pub data_type: String,
    pub start_value: String,
    pub increment: String,
    pub minimum_value: String,
    pub maximum_value: String,
    /// `yes` or `no`, in any letter case.
    pub cycle_option: String,
}

/// The column a sequence is owned by.
#[derive(Debug, Clone, PartialEq, Eq)]
pub struct SequenceOwner {
    pub schema_name: String,
    pub sequence_name: String,
    pub table_name: String,
    pub column_name: String,
}

} // verus!
