use ape_dts::configs::{FilterConfig, RouterConfig};
use ape_dts::error::Error;
use ape_dts::events::{ChangeEvent, ColValue, MarkerKind, Row, RowData, RowOp, SourcePosition};
use ape_dts::rdb_filter::RdbFilter;
use ape_dts::router::Router;
use ape_dts::transaction_filter::{BasicTransactionFilter, TransactionFilter};

fn filter_config(do_tbs: &str, ignore_tbs: &str, do_dbs: &str, ignore_dbs: &str) -> FilterConfig {
    FilterConfig {
        do_schemas: do_dbs.to_string(),
        ignore_schemas: ignore_dbs.to_string(),
        do_tbs: do_tbs.to_string(),
        ignore_tbs: ignore_tbs.to_string(),
        do_events: String::new(),
        do_ddls: String::new(),
        do_structures: "*".to_string(),
        ignore_cmds: String::new(),
    }
}

fn row(schema: &str, table: &str, op: RowOp, offset: u64) -> ChangeEvent {
    let image = Row {
        columns: vec![("id".to_string(), ColValue::Int(offset as i64))],
    };
    ChangeEvent::RowMutation(RowData {
        schema: schema.to_string(),
        table: table.to_string(),
        op,
        before: match op {
            RowOp::Insert => None,
            _ => Some(image.clone()),
        },
        after: match op {
            RowOp::Delete => None,
            _ => Some(image),
        },
        position: SourcePosition { offset },
    })
}

fn marker(kind: MarkerKind, offset: u64) -> ChangeEvent {
    ChangeEvent::TransactionMarker {
        kind,
        transaction_id: "tx1".to_string(),
        position: SourcePosition { offset },
    }
}

#[test]
fn ignore_list_beats_do_list() {
    // the same table stands in both lists: it must be dropped
    let f = RdbFilter::from_config(&filter_config("db1.tb1", "db1.tb1", "", ""));
    assert!(!f.should_keep_tb("db1", "tb1"));
}

#[test]
fn ignore_schema_beats_do_table() {
    let f = RdbFilter::from_config(&filter_config("db1.tb1", "", "", "db1"));
    assert!(!f.should_keep_tb("db1", "tb1"));
}

#[test]
fn do_lists_select_and_wildcard_hits() {
    let f = RdbFilter::from_config(&filter_config("db1.tb1,db1.tb2", "", "", ""));
    assert!(f.should_keep_tb("db1", "tb1"));
    assert!(f.should_keep_tb("db1", "tb2"));
    assert!(!f.should_keep_tb("db1", "tb3"));

    let all = RdbFilter::from_config(&filter_config("*", "", "", ""));
    assert!(all.should_keep_tb("any", "thing"));

    let none_given = RdbFilter::from_config(&filter_config("", "", "", ""));
    assert!(none_given.should_keep_tb("any", "thing"));
}

#[test]
fn event_kind_list_filters_rows() {
    let mut cfg = filter_config("", "", "", "");
    cfg.do_events = "insert,update".to_string();
    let f = RdbFilter::from_config(&cfg);
    assert!(f.should_keep_row("db1", "tb1", RowOp::Insert));
    assert!(f.should_keep_row("db1", "tb1", RowOp::Update));
    assert!(!f.should_keep_row("db1", "tb1", RowOp::Delete));
}

#[test]
fn transaction_kept_events_bracketed() {
    // a transaction of three rows whose middle table is filtered out:
    // the kept rows stay bracketed by begin and commit
    let f = RdbFilter::from_config(&filter_config("", "db1.t2", "", ""));
    let mut tf = BasicTransactionFilter { filter: f };
    let datas = vec![
        marker(MarkerKind::Begin, 1),
        row("db1", "t1", RowOp::Insert, 2),
        row("db1", "t2", RowOp::Update, 3),
        row("db1", "t3", RowOp::Insert, 4),
        marker(MarkerKind::Commit, 5),
    ];
    let (kept, ds, dt) = tf.filter_dmls(datas).unwrap();
    assert_eq!(kept.len(), 4);
    assert!(matches!(&kept[0], ChangeEvent::TransactionMarker { kind: MarkerKind::Begin, .. }));
    assert!(matches!(&kept[1], ChangeEvent::RowMutation(rd) if rd.table == "t1"));
    assert!(matches!(&kept[2], ChangeEvent::RowMutation(rd) if rd.table == "t3"));
    assert!(matches!(&kept[3], ChangeEvent::TransactionMarker { kind: MarkerKind::Commit, .. }));
    assert_eq!(ds.as_deref(), Some("db1"));
    assert_eq!(dt.as_deref(), Some("t2"));
}

#[test]
fn concrete_batch_scenario() {
    // batch = [Begin(tx1), Insert(t1,row1), Update(t2,row2), Commit(tx1)];
    // the filter drops table t2
    let f = RdbFilter::from_config(&filter_config("", "db1.t2", "", ""));
    let mut tf = BasicTransactionFilter { filter: f };
    let datas = vec![
        marker(MarkerKind::Begin, 1),
        row("db1", "t1", RowOp::Insert, 2),
        row("db1", "t2", RowOp::Update, 3),
        marker(MarkerKind::Commit, 4),
    ];
    let (kept, ds, dt) = tf.filter_dmls(datas).unwrap();
    assert_eq!(kept.len(), 3);
    assert!(matches!(&kept[0], ChangeEvent::TransactionMarker { kind: MarkerKind::Begin, .. }));
    assert!(matches!(&kept[1], ChangeEvent::RowMutation(rd) if rd.table == "t1" && rd.op == RowOp::Insert));
    assert!(matches!(&kept[2], ChangeEvent::TransactionMarker { kind: MarkerKind::Commit, .. }));
    assert_eq!(ds.as_deref(), Some("db1"));
    assert_eq!(dt.as_deref(), Some("t2"));
}

#[test]
fn fully_dropped_transaction_emits_nothing() {
    let f = RdbFilter::from_config(&filter_config("", "db1.t2", "", ""));
    let mut tf = BasicTransactionFilter { filter: f };
    let datas = vec![
        marker(MarkerKind::Begin, 1),
        row("db1", "t2", RowOp::Insert, 2),
        marker(MarkerKind::Commit, 3),
    ];
    let (kept, ds, dt) = tf.filter_dmls(datas).unwrap();
    assert!(kept.is_empty());
    assert_eq!(ds.as_deref(), Some("db1"));
    assert_eq!(dt.as_deref(), Some("t2"));
}

#[test]
fn malformed_update_is_a_data_error() {
    let f = RdbFilter::from_config(&filter_config("", "", "", ""));
    let mut tf = BasicTransactionFilter { filter: f };
    let bad = ChangeEvent::RowMutation(RowData {
        schema: "db1".to_string(),
        table: "t1".to_string(),
        op: RowOp::Update,
        before: None,
        after: None,
        position: SourcePosition { offset: 9 },
    });
    match tf.filter_dmls(vec![bad]) {
        Err(Error::DataError(_)) => {},
        other => panic!("expected a data error, got {:?}", other),
    }
}

#[test]
fn router_renames_and_passes_through() {
    let cfg = RouterConfig::Rdb {
        schema_map: "db1:dst1".to_string(),
        tb_map: "db1.tb1:dst9.tb9".to_string(),
        col_map: "db1.tb1.a:b".to_string(),
        topic_map: "*:default_topic,db2.tb2:special".to_string(),
    };
    let router = Router::from_config(&cfg);

    // a table-map entry wins over the schema map
    assert_eq!(router.route_table("db1", "tb1"), ("dst9".to_string(), "tb9".to_string()));
    // no table entry: the schema map renames the schema
    assert_eq!(router.route_table("db1", "tb2"), ("dst1".to_string(), "tb2".to_string()));
    // nothing matches: unchanged
    assert_eq!(router.route_table("db3", "tb3"), ("db3".to_string(), "tb3".to_string()));

    assert_eq!(router.route_column("db1", "tb1", "a"), "b");
    assert_eq!(router.route_column("db1", "tb1", "c"), "c");

    assert_eq!(router.topic_for("db2", "tb2").as_deref(), Some("special"));
    assert_eq!(router.topic_for("db1", "tb1").as_deref(), Some("default_topic"));
}

#[test]
fn router_routes_a_row_mutation() {
    let cfg = RouterConfig::Rdb {
        schema_map: String::new(),
        tb_map: "db1.tb1:dst9.tb9".to_string(),
        col_map: "db1.tb1.a:b".to_string(),
        topic_map: String::new(),
    };
    let router = Router::from_config(&cfg);
    let e = ChangeEvent::RowMutation(RowData {
        schema: "db1".to_string(),
        table: "tb1".to_string(),
        op: RowOp::Insert,
        before: None,
        after: Some(Row {
            columns: vec![
                ("a".to_string(), ColValue::Int(1)),
                ("keep".to_string(), ColValue::Text("v".to_string())),
            ],
        }),
        position: SourcePosition { offset: 5 },
    });
    match router.route_event(e) {
        ChangeEvent::RowMutation(rd) => {
            assert_eq!(rd.schema, "dst9");
            assert_eq!(rd.table, "tb9");
            let after = rd.after.unwrap();
            assert_eq!(after.columns[0].0, "b");
            assert_eq!(after.columns[0].1, ColValue::Int(1));
            assert_eq!(after.columns[1].0, "keep");
        },
        other => panic!("wrong event: {:?}", other),
    }
}

#[test]
fn transform_stage_filters_then_routes() {
    let f = RdbFilter::from_config(&filter_config("", "db1.t2", "", ""));
    let mut tf = BasicTransactionFilter { filter: f };
    let router = Router::from_config(&RouterConfig::Rdb {
        schema_map: "db1:dst1".to_string(),
        tb_map: String::new(),
        col_map: String::new(),
        topic_map: String::new(),
    });
    let datas = vec![
        marker(MarkerKind::Begin, 1),
        row("db1", "t1", RowOp::Insert, 2),
        row("db1", "t2", RowOp::Update, 3),
        marker(MarkerKind::Commit, 4),
    ];
    let (out, ds, dt) = ape_dts::pipeline::transform_batch(&mut tf, &router, datas).unwrap();
    assert_eq!(out.len(), 3);
    // the kept row now carries the destination-side schema
    assert!(matches!(&out[1], ChangeEvent::RowMutation(rd) if rd.schema == "dst1" && rd.table == "t1"));
    // the dropped report keeps the source-side names
    assert_eq!(ds.as_deref(), Some("db1"));
    assert_eq!(dt.as_deref(), Some("t2"));
}

#[test]
fn heartbeats_pass_routing_untouched() {
    let cfg = RouterConfig::Rdb {
        schema_map: "db1:dst1".to_string(),
        tb_map: String::new(),
        col_map: String::new(),
        topic_map: String::new(),
    };
    let router = Router::from_config(&cfg);
    let hb = ChangeEvent::Heartbeat { position: SourcePosition { offset: 3 }, timestamp: 100 };
    assert_eq!(router.route_event(hb.clone()), hb);
}
