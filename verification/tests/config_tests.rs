use ape_dts::config_enums::{ConflictPolicyEnum, DbType, ExtractType, ParallelType, SinkType};
use ape_dts::configs::{ExtractorConfig, SinkerConfig};
use ape_dts::error::Error;
use ape_dts::ini::IniLoader;
use ape_dts::task_config::TaskConfig;

const BASE: &str = "\
[extractor]
db_type=mysql
extract_type=cdc
url=mysql://127.0.0.1:3307
server_id=200
binlog_filename=mysql-bin.000004
binlog_position=1234

[sinker]
db_type=mysql
sink_type=write
url=mysql://127.0.0.1:3308
batch_size=300

[filter]
do_dbs=db1,db2
ignore_tbs=db1.tb_skip

[router]
tb_map=db1.tb1:db9.tb9

[parallelizer]
parallel_type=rdb_partition
parallel_size=4

[pipeline]
checkpoint_interval_secs=7
counter_time_window_secs=0

[runtime]
log_dir=/tmp/task_logs

[resumer]

[processor]
lua_code_file=transform.lua
";

#[test]
fn ini_loader_basics() {
    let text = " [sec one] \n# comment\n; other comment\n key = value with spaces \nkey2=v2\nkey2=v3\nnot_an_assignment\n[empty]\n";
    let loader = IniLoader::load(text);
    assert!(loader.has_section("sec one"));
    assert!(loader.has_section("empty"));
    assert!(!loader.has_section("missing"));
    assert_eq!(loader.get_optional("sec one", "key"), "value with spaces");
    // the later assignment wins
    assert_eq!(loader.get_optional("sec one", "key2"), "v3");
    assert_eq!(loader.get_optional("sec one", "absent"), "");
    assert_eq!(loader.get_with_default("sec one", "absent", "fallback"), "fallback");
    assert!(loader.get_required("sec one", "absent").is_err());
}

#[test]
fn ini_edge_lines() {
    let loader = IniLoader::load("top=1\n[s\nk=v\n[t]\nurl=a=b\n=no_key\n");
    // assignments before any heading live under the empty section name,
    // and a heading without its closing bracket is ignored
    assert_eq!(loader.get_optional("", "top"), "1");
    assert_eq!(loader.get_optional("", "k"), "v");
    assert!(!loader.has_section("s"));
    // a value keeps everything after the first equals sign
    assert_eq!(loader.get_optional("t", "url"), "a=b");
    // an assignment with an empty key is ignored
    assert!(loader.get("t", "").is_none());
}

#[test]
fn ini_numbers_and_bools() {
    let loader = IniLoader::load("[s]\nn=42\nbad=4x\nflag=true\nhuge=18446744073709551615\n");
    assert_eq!(loader.get_u64("s", "n", 7), Ok(42));
    assert_eq!(loader.get_u64("s", "absent", 7), Ok(7));
    assert_eq!(loader.get_u64("s", "huge", 0), Ok(u64::MAX));
    assert!(loader.get_u64("s", "bad", 0).is_err());
    assert_eq!(loader.get_bool("s", "flag", false), Ok(true));
    assert_eq!(loader.get_bool("s", "absent", false), Ok(false));
    assert!(loader.get_bool("s", "n", false).is_err());
}

#[test]
fn parse_overflowing_number_is_refused() {
    // one past the greatest 64-bit value
    let loader = IniLoader::load("[s]\nn=18446744073709551616\n");
    assert!(loader.get_u64("s", "n", 0).is_err());
}

#[test]
fn enum_names_parse() {
    assert_eq!(DbType::from_str("mysql"), Ok(DbType::Mysql));
    assert_eq!(DbType::from_str("starrocks"), Ok(DbType::StarRocks));
    assert!(DbType::from_str("oracle").is_err());
    assert_eq!(ExtractType::from_str("snapshot"), Ok(ExtractType::Snapshot));
    assert!(ExtractType::from_str("dump").is_err());
    assert_eq!(SinkType::from_str("check"), Ok(SinkType::Check));
    assert_eq!(ParallelType::from_str("rdb_merge"), Ok(ParallelType::RdbMerge));
    assert_eq!(ConflictPolicyEnum::from_str(""), Ok(ConflictPolicyEnum::Interrupt));
    assert_eq!(ConflictPolicyEnum::from_str("ignore"), Ok(ConflictPolicyEnum::Ignore));
    assert!(ConflictPolicyEnum::from_str("retry").is_err());
}

#[test]
fn task_config_mysql_cdc_to_mysql() {
    let task = TaskConfig::new(BASE).unwrap();

    assert_eq!(task.extractor_basic.db_type, DbType::Mysql);
    assert_eq!(task.extractor_basic.extract_type, ExtractType::Cdc);
    assert_eq!(task.extractor_basic.url, "mysql://127.0.0.1:3307");
    match &task.extractor {
        ExtractorConfig::MysqlCdc { url, binlog_filename, binlog_position, server_id, heartbeat_interval_secs, .. } => {
            assert_eq!(url, "mysql://127.0.0.1:3307");
            assert_eq!(binlog_filename, "mysql-bin.000004");
            assert_eq!(*binlog_position, 1234);
            assert_eq!(*server_id, 200);
            // default when the key is absent
            assert_eq!(*heartbeat_interval_secs, 10);
        },
        other => panic!("wrong extractor: {:?}", other),
    }

    assert_eq!(task.sinker_basic.db_type, DbType::Mysql);
    assert_eq!(task.sinker_basic.batch_size, 300);
    match &task.sinker {
        SinkerConfig::Mysql { url, batch_size } => {
            assert_eq!(url, "mysql://127.0.0.1:3308");
            assert_eq!(*batch_size, 300);
        },
        other => panic!("wrong sinker: {:?}", other),
    }

    assert_eq!(task.parallelizer.parallel_type, ParallelType::RdbPartition);
    assert_eq!(task.parallelizer.parallel_size, 4);

    // defaults, and the window falling back to the checkpoint interval
    assert_eq!(task.pipeline.buffer_size, 16000);
    assert_eq!(task.pipeline.checkpoint_interval_secs, 7);
    assert_eq!(task.pipeline.counter_time_window_secs, 7);
    assert_eq!(task.pipeline.counter_max_sub_count, 1000);

    assert_eq!(task.filter.do_schemas, "db1,db2");
    assert_eq!(task.filter.ignore_tbs, "db1.tb_skip");
    assert_eq!(task.filter.do_structures, "*");

    // the resume log dir falls back to the runtime log dir
    assert_eq!(task.resumer.resume_log_dir, "/tmp/task_logs");
    assert!(!task.resumer.resume_from_log);

    assert!(task.data_marker.is_none());
    let processor = task.processor.expect("processor section is present");
    assert_eq!(processor.lua_code_file, "transform.lua");
    assert_eq!(processor.lua_code, "");
}

#[test]
fn task_config_missing_required_key() {
    let r = TaskConfig::new("[extractor]\nextract_type=cdc\n[sinker]\ndb_type=mysql\n");
    match r {
        Err(Error::ConfigError(_)) => {},
        other => panic!("expected a config error, got {:?}", other),
    }
}

#[test]
fn task_config_unsupported_pair() {
    // scanning is a redis-only extract type
    let r = TaskConfig::new(
        "[extractor]\ndb_type=mysql\nextract_type=scan\nstatistic_type=hot_key\n[sinker]\ndb_type=mysql\n",
    );
    match r {
        Err(Error::ConfigError(_)) => {},
        other => panic!("expected a config error, got {:?}", other),
    }
}

#[test]
fn task_config_unknown_db_type() {
    let r = TaskConfig::new("[extractor]\ndb_type=oracle\nextract_type=cdc\n[sinker]\ndb_type=mysql\n");
    match r {
        Err(Error::ConfigError(m)) => assert!(m.contains("oracle")),
        other => panic!("expected a config error, got {:?}", other),
    }
}

#[test]
fn task_config_redis_statistic_sinker() {
    let text = "\
[extractor]
db_type=redis
extract_type=snapshot
url=redis://127.0.0.1:6379

[sinker]
db_type=redis
sink_type=statistic
statistic_type=hot_key
freq_threshold=90
";
    let task = TaskConfig::new(text).unwrap();
    match &task.extractor {
        ExtractorConfig::RedisSnapshot { repl_port, .. } => assert_eq!(*repl_port, 10008),
        other => panic!("wrong extractor: {:?}", other),
    }
    match &task.sinker {
        SinkerConfig::RedisStatistic { statistic_type, freq_threshold, data_size_threshold, .. } => {
            assert_eq!(statistic_type, "hot_key");
            assert_eq!(*freq_threshold, 90);
            assert_eq!(*data_size_threshold, 0);
        },
        other => panic!("wrong sinker: {:?}", other),
    }
}
