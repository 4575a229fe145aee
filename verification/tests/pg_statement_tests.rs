use ape_dts::configs::FilterConfig;
use ape_dts::pg_create_table_statement::PgCreateTableStatement;
use ape_dts::pg_structure::{
    Column, Comment, Constraint, ConstraintType, Index, IndexKind, Sequence, SequenceOwner, Table,
};
use ape_dts::rdb_filter::RdbFilter;

fn structures_filter(do_structures: &str) -> RdbFilter {
    RdbFilter::from_config(&FilterConfig {
        do_schemas: String::new(),
        ignore_schemas: String::new(),
        do_tbs: String::new(),
        ignore_tbs: String::new(),
        do_events: String::new(),
        do_ddls: String::new(),
        do_structures: do_structures.to_string(),
        ignore_cmds: String::new(),
    })
}

fn sample_statement() -> PgCreateTableStatement {
    PgCreateTableStatement {
        table: Table {
            schema_name: "public".to_string(),
            table_name: "tb1".to_string(),
            columns: vec![
                Column {
                    column_name: "id".to_string(),
                    column_type: "int4".to_string(),
                    is_nullable: "NO".to_string(),
                    column_default: None,
                    generated: Some("ALWAYS".to_string()),
                    ordinal_position: 2,
                },
                Column {
                    column_name: "name".to_string(),
                    column_type: "varchar".to_string(),
                    is_nullable: "YES".to_string(),
                    column_default: Some("'x'".to_string()),
                    generated: None,
                    ordinal_position: 1,
                },
            ],
        },
        table_comments: vec![Comment {
            schema_name: "public".to_string(),
            table_name: "tb1".to_string(),
            column_name: String::new(),
            comment: "hello".to_string(),
        }],
        column_comments: vec![Comment {
            schema_name: "public".to_string(),
            table_name: "tb1".to_string(),
            column_name: "id".to_string(),
            comment: "key".to_string(),
        }],
        constraints: vec![
            Constraint {
                schema_name: "public".to_string(),
                table_name: "tb1".to_string(),
                constraint_name: "pk1".to_string(),
                constraint_type: ConstraintType::Primary,
                definition: "PRIMARY KEY (id)".to_string(),
            },
            Constraint {
                schema_name: "public".to_string(),
                table_name: "tb1".to_string(),
                constraint_name: "ck1".to_string(),
                constraint_type: ConstraintType::Check,
                definition: "CHECK (id > 0)".to_string(),
            },
        ],
        indexes: vec![
            Index {
                schema_name: "public".to_string(),
                table_name: "tb1".to_string(),
                index_name: "uq1".to_string(),
                index_kind: IndexKind::Unique,
                definition: "CREATE UNIQUE INDEX uq1 ON public.tb1 (id)".to_string(),
                table_space: "pg_default".to_string(),
            },
            Index {
                schema_name: "public".to_string(),
                table_name: "tb1".to_string(),
                index_name: "ix1".to_string(),
                index_kind: IndexKind::Ordinary,
                definition: "CREATE INDEX ix1 ON public.tb1 (name)".to_string(),
                table_space: "pg_default".to_string(),
            },
        ],
        sequences: vec![Sequence {
            schema_name: "public".to_string(),
            sequence_name: "seq1".to_string(),
            data_type: "int8".to_string(),
            start_value: "1".to_string(),
            increment: "1".to_string(),
            minimum_value: "1".to_string(),
            maximum_value: "9999".to_string(),
            cycle_option: "NO".to_string(),
        }],
        sequence_owners: vec![SequenceOwner {
            schema_name: "public".to_string(),
            sequence_name: "seq1".to_string(),
            table_name: "tb1".to_string(),
            column_name: "id".to_string(),
        }],
    }
}

#[test]
fn to_sqls_emits_everything_in_order() {
    let mut st = sample_statement();
    let filter = structures_filter("*");
    let sqls = st.to_sqls(&filter);

    let keys: Vec<&str> = sqls.iter().map(|p| p.0.as_str()).collect();
    assert_eq!(
        keys,
        vec![
            "sequence.public.seq1",
            "table.public.tb1",
            "sequence_owner.public.tb1.seq1",
            "column_comment.public.tb1.id",
            "table_comment.public.tb1",
            "constraint.public.tb1.pk1",
            "constraint.public.tb1.ck1",
            "index.public.tb1.uq1",
            "index.public.tb1.ix1",
        ]
    );

    assert_eq!(
        sqls[0].1,
        "CREATE SEQUENCE IF NOT EXISTS \"public\".\"seq1\" AS int8 START 1 INCREMENT by 1 MINVALUE 1 MAXVALUE 9999 NO CYCLE"
    );
    // columns come out sorted by ordinal position
    assert_eq!(
        sqls[1].1,
        "CREATE TABLE IF NOT EXISTS \"public\".\"tb1\" (\"name\" varchar DEFAULT 'x' ,\"id\" int4 NOT NULL GENERATED ALWAYS AS IDENTITY )"
    );
    assert_eq!(
        sqls[2].1,
        "ALTER SEQUENCE \"public\".\"seq1\" OWNED BY \"public\".\"tb1\".\"id\""
    );
    assert_eq!(sqls[3].1, "COMMENT ON COLUMN \"public\".\"tb1\".\"id\" IS 'key'");
    assert_eq!(sqls[4].1, "COMMENT ON TABLE \"public\".\"tb1\" is 'hello'");
    assert_eq!(
        sqls[5].1,
        "ALTER TABLE \"public\".\"tb1\" ADD CONSTRAINT \"pk1\" PRIMARY KEY (id)"
    );
    assert_eq!(
        sqls[7].1,
        "CREATE UNIQUE INDEX IF NOT EXISTS uq1 ON public.tb1 (id) TABLESPACE pg_default"
    );
    assert_eq!(
        sqls[8].1,
        "CREATE INDEX IF NOT EXISTS ix1 ON public.tb1 (name) TABLESPACE pg_default"
    );

    assert_eq!(st.table.columns[0].column_name, "name");
    assert_eq!(st.table.columns[1].column_name, "id");
}

#[test]
fn to_sqls_with_tables_only() {
    // only `table` structures pass: the table group, the key-backing
    // constraint and the unique index survive
    let mut st = sample_statement();
    let filter = structures_filter("table");
    let sqls = st.to_sqls(&filter);
    let keys: Vec<&str> = sqls.iter().map(|p| p.0.as_str()).collect();
    assert_eq!(
        keys,
        vec![
            "sequence.public.seq1",
            "table.public.tb1",
            "sequence_owner.public.tb1.seq1",
            "column_comment.public.tb1.id",
            "table_comment.public.tb1",
            "constraint.public.tb1.pk1",
            "index.public.tb1.uq1",
        ]
    );
}

#[test]
fn to_sqls_with_tables_filtered_out() {
    // the table does not pass: only constraints and indexes of their own
    // kinds survive
    let mut st = sample_statement();
    let filter = structures_filter("constraint,index");
    let sqls = st.to_sqls(&filter);
    let keys: Vec<&str> = sqls.iter().map(|p| p.0.as_str()).collect();
    assert_eq!(keys, vec!["constraint.public.tb1.ck1", "index.public.tb1.ix1"]);
}

#[test]
fn index_definition_already_idempotent_is_untouched() {
    let ix = Index {
        schema_name: "public".to_string(),
        table_name: "tb1".to_string(),
        index_name: "ix2".to_string(),
        index_kind: IndexKind::Ordinary,
        definition: "CREATE INDEX IF NOT EXISTS ix2 ON public.tb1 (name)".to_string(),
        table_space: "sp".to_string(),
    };
    // the replacement scans left to right: the existing IF NOT EXISTS text
    // stays in place and gains nothing
    assert_eq!(
        PgCreateTableStatement::index_to_sql(&ix),
        "CREATE INDEX IF NOT EXISTS IF NOT EXISTS ix2 ON public.tb1 (name) TABLESPACE sp"
    );
}

#[test]
fn comment_kind_depends_on_column_name() {
    let table_comment = Comment {
        schema_name: "s".to_string(),
        table_name: "t".to_string(),
        column_name: String::new(),
        comment: "c".to_string(),
    };
    assert_eq!(
        PgCreateTableStatement::comment_to_sql(&table_comment),
        "COMMENT ON TABLE \"s\".\"t\" is 'c'"
    );
}

#[test]
fn sequence_cycle_words_are_case_blind() {
    let mut seq = Sequence {
        schema_name: "s".to_string(),
        sequence_name: "q".to_string(),
        data_type: "int8".to_string(),
        start_value: "5".to_string(),
        increment: "2".to_string(),
        minimum_value: "0".to_string(),
        maximum_value: "10".to_string(),
        cycle_option: "Yes".to_string(),
    };
    assert_eq!(
        PgCreateTableStatement::sequence_to_sql(&seq),
        "CREATE SEQUENCE IF NOT EXISTS \"s\".\"q\" AS int8 START 5 INCREMENT by 2 MINVALUE 0 MAXVALUE 10 CYCLE"
    );
    seq.cycle_option = "no".to_string();
    assert_eq!(
        PgCreateTableStatement::sequence_to_sql(&seq),
        "CREATE SEQUENCE IF NOT EXISTS \"s\".\"q\" AS int8 START 5 INCREMENT by 2 MINVALUE 0 MAXVALUE 10 NO CYCLE"
    );
}
