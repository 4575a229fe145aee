use vstd::prelude::*;

use crate::config_enums::{ConflictPolicyEnum, DbType, ExtractType, ParallelType};

verus! {

/// Credentials and layout of an S3-compatible store.
#[derive(Debug, Clone)]
pub struct S3Config {
    pub bucket: String,
    pub access_key: String,
    pub secret_key: String,
    pub region: String,
    pub endpoint: String,
    pub root_dir: String,
    pub root_url: String,
}

/// The source side common to all extractors.
#[derive(Debug, Clone)]
pub struct BasicExtractorConfig {
    pub db_type: DbType,
    pub extract_type: ExtractType,
    pub url: String,
}

/// The database-specific extractor, one variant per supported
/// (database kind, extract type) pair.
#[derive(Debug, Clone)]
pub enum ExtractorConfig {
    MysqlSnapshot { url: String, db: String, tb: String, sample_interval: u64 },
    MysqlCdc {
        url: String,
        binlog_filename: String,
        binlog_position: u64,
        server_id: u64,
        gtid_enabled: bool,
        gtid_set: String,
        heartbeat_interval_secs: u64,
        heartbeat_tb: String,
        start_time_utc: String,
        end_time_utc: String,
    },
    MysqlCheck { url: String, check_log_dir: String, batch_size: u64 },
    MysqlStruct { url: String, db: String },
    FoxlakeS3 { url: String, schema: String, tb: String, s3_config: S3Config },
    PgSnapshot { url: String, schema: String, tb: String, sample_interval: u64 },
    PgCdc {
        url: String,
        slot_name: String,
        pub_name: String,
        start_lsn: String,
        keepalive_interval_secs: u64,
        heartbeat_interval_secs: u64,
        heartbeat_tb: String,
        ddl_command_tb: String,
        start_time_utc: String,
        end_time_utc: String,
    },
    PgCheck { url: String, check_log_dir: String, batch_size: u64 },
    PgStruct { url: String, schema: String },
    MongoSnapshot { url: String, app_name: String, db: String, tb: String },
    MongoCdc {
        url: String,
        app_name: String,
        resume_token: String,
        start_timestamp: u64,
        source: String,
        heartbeat_interval_secs: u64,
        heartbeat_tb: String,
    },
    MongoCheck { url: String, app_name: String, check_log_dir: String, batch_size: u64 },
    RedisSnapshot { url: String, repl_port: u64 },
    RedisSnapshotFile { file_path: String },
    RedisScan { url: String, statistic_type: String, scan_count: u64 },
    RedisCdc {
        url: String,
        repl_port: u64,
        repl_id: String,
        repl_offset: u64,
        keepalive_interval_secs: u64,
        heartbeat_interval_secs: u64,
        heartbeat_key: String,
        now_db_id: u64,
    },
    RedisReshard { url: String, to_node_ids: String },
    Kafka {
        url: String,
        group: String,
        topic: String,
        partition: u64,
        offset: u64,
        ack_interval_secs: u64,
    },
}

/// The destination side common to all sinkers.
#[derive(Debug, Clone)]
pub struct BasicSinkerConfig {
    pub db_type: DbType,
    pub url: String,
    pub batch_size: u64,
}

/// The database-specific sinker, one variant per supported
/// (database kind, sink type) pair.
#[derive(Debug, Clone)]
pub enum SinkerConfig {
    Mysql { url: String, batch_size: u64 },
    MysqlCheck { url: String, batch_size: u64, check_log_dir: String },
    MysqlStruct { url: String, conflict_policy: ConflictPolicyEnum },
    Pg { url: String, batch_size: u64 },
    PgCheck { url: String, batch_size: u64, check_log_dir: String },
    PgStruct { url: String, conflict_policy: ConflictPolicyEnum },
    Sql { reverse: bool },
    Mongo { url: String, app_name: String, batch_size: u64 },
    MongoCheck { url: String, app_name: String, batch_size: u64, check_log_dir: String },
    Kafka { url: String, batch_size: u64, ack_timeout_secs: u64, required_acks: String },
    Redis { url: String, batch_size: u64, method: String, is_cluster: bool },
    RedisStatistic {
        statistic_type: String,
        data_size_threshold: u64,
        freq_threshold: u64,
        statistic_log_dir: String,
    },
    Dummy,
    Starrocks { url: String, batch_size: u64, stream_load_url: String },
    Foxlake {
        url: String,
        batch_size: u64,
        batch_memory_mb: u64,
        s3_config: S3Config,
        engine: String,
    },
    FoxlakeStruct { url: String, conflict_policy: ConflictPolicyEnum, engine: String },
    FoxlakePush { url: String, batch_size: u64, batch_memory_mb: u64, s3_config: S3Config },
    FoxlakeMerge { url: String, batch_size: u64, s3_config: S3Config },
}

/// Process-wide settings: logging only.
#[derive(Debug, Clone)]
pub struct RuntimeConfig {
    pub log_level: String,
    pub log_dir: String,
    pub log4rs_file: String,
}

/// How batches are spread over concurrent sink workers.
#[derive(Debug, Clone)]
pub struct ParallelizerConfig {
    pub parallel_size: u64,
    pub parallel_type: ParallelType,
}

/// Orchestrator tuning: buffering, checkpointing, rate limiting and the
/// throughput counter.
#[derive(Debug, Clone)]
pub struct PipelineConfig {
    pub buffer_size: u64,
    pub checkpoint_interval_secs: u64,
    pub batch_sink_interval_secs: u64,
    pub counter_time_window_secs: u64,
    pub counter_max_sub_count: u64,
    pub max_rps: u64,
    pub buffer_memory_mb: u64,
}

/// Raw do/ignore lists, comma-separated, as read from the configuration.
#[derive(Debug, Clone)]
pub struct FilterConfig {
    pub do_schemas: String,
    pub ignore_schemas: String,
    pub do_tbs: String,
    pub ignore_tbs: String,
    pub do_events: String,
    pub do_ddls: String,
    pub do_structures: String,
    pub ignore_cmds: String,
}

/// Raw rename maps, comma-separated `source:destination` pairs.
#[derive(Debug, Clone)]
pub enum RouterConfig {
    Rdb { schema_map: String, tb_map: String, col_map: String, topic_map: String },
}

/// Where a restarted task finds its last position.
#[derive(Debug, Clone)]
pub struct ResumerConfig {
    pub resume_config_file: String,
    pub resume_from_log: bool,
    pub resume_log_dir: String,
}

/// Marking of replicated rows for loop avoidance in two-way topologies.
#[derive(Debug, Clone)]
pub struct DataMarkerConfig {
    pub topo_name: String,
    pub topo_nodes: String,
    pub src_node: String,
    pub dst_node: String,
    pub do_nodes: String,
    pub ignore_nodes: String,
    pub marker: String,
}

/// The optional per-batch row transform hook.
#[derive(Debug, Clone)]
pub struct ProcessorConfig {
    pub lua_code_file: String,
    pub lua_code: String,
}

} // verus!
