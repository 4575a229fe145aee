use vstd::prelude::*;

use crate::config_enums::{
    conflict_policy_of, db_type_of, extract_type_of, parallel_type_of, sink_type_of,
    ConflictPolicyEnum, DbType, ExtractType, ParallelType, SinkType,
};
use crate::configs::{
    BasicExtractorConfig, BasicSinkerConfig, DataMarkerConfig, ExtractorConfig, FilterConfig,
    ParallelizerConfig, PipelineConfig, ProcessorConfig, ResumerConfig, RouterConfig,
    RuntimeConfig, S3Config, SinkerConfig,
};
use crate::error::Error;
use crate::ini::{bool_ok, bool_val, dft_str, lookup, opt_str, u64_ok, u64_val, EntryView, IniLoader};

verus! {

/// A replication task, assembled from one INI document: where to extract
/// from, where to sink to, and how the pipeline in between behaves.
#[derive(Debug, Clone)]
pub struct TaskConfig {
    pub extractor_basic: BasicExtractorConfig,
    pub extractor: ExtractorConfig,
    pub sinker_basic: BasicSinkerConfig,
    pub sinker: SinkerConfig,
    pub runtime: RuntimeConfig,
    pub parallelizer: ParallelizerConfig,
    pub pipeline: PipelineConfig,
    pub filter: FilterConfig,
    pub router: RouterConfig,
    pub resumer: ResumerConfig,
    pub data_marker: Option<DataMarkerConfig>,
    pub processor: Option<ProcessorConfig>,
}

// ---------------------------------------------------------------------------
// What a well-formed configuration looks like, per section
// ---------------------------------------------------------------------------

/// The `[extractor]` section names a known database kind and extract type,
/// the pair is supported, its required keys are present, and its numeric
/// keys parse.
pub open spec fn extractor_ok(e: Seq<EntryView>) -> bool {
    let ex = "extractor"@;
    &&& lookup(e, ex, "db_type"@) matches Some(dbs) && db_type_of(dbs) matches Some(db)
        && (lookup(e, ex, "extract_type"@) matches Some(ets) && extract_type_of(ets) matches Some(
        et,
    ) && extractor_pair_ok(e, db, et))
    &&& u64_ok(e, ex, "heartbeat_interval_secs"@)
    &&& u64_ok(e, ex, "keepalive_interval_secs"@)
}

/// The per-pair requirements of the `[extractor]` section.
pub open spec fn extractor_pair_ok(e: Seq<EntryView>, db: DbType, et: ExtractType) -> bool {
    let ex = "extractor"@;
    match db {
        DbType::Mysql => match et {
            ExtractType::Snapshot => u64_ok(e, ex, "sample_interval"@),
            ExtractType::Cdc => u64_ok(e, ex, "binlog_position"@) && lookup(e, ex, "server_id"@)
                is Some && u64_ok(e, ex, "server_id"@) && bool_ok(e, ex, "gtid_enabled"@),
            ExtractType::CheckLog => lookup(e, ex, "check_log_dir"@) is Some && u64_ok(
                e,
                ex,
                "batch_size"@,
            ),
            ExtractType::Struct => true,
            ExtractType::FoxlakeS3 => true,
            _ => false,
        },
        DbType::Pg => match et {
            ExtractType::Snapshot => u64_ok(e, ex, "sample_interval"@),
            ExtractType::Cdc => lookup(e, ex, "slot_name"@) is Some,
            ExtractType::CheckLog => lookup(e, ex, "check_log_dir"@) is Some && u64_ok(
                e,
                ex,
                "batch_size"@,
            ),
            ExtractType::Struct => true,
            _ => false,
        },
        DbType::Mongo => match et {
            ExtractType::Snapshot => true,
            ExtractType::Cdc => u64_ok(e, ex, "start_timestamp"@),
            ExtractType::CheckLog => lookup(e, ex, "check_log_dir"@) is Some && u64_ok(
                e,
                ex,
                "batch_size"@,
            ),
            _ => false,
        },
        DbType::Redis => match et {
            ExtractType::Snapshot => u64_ok(e, ex, "repl_port"@),
            ExtractType::SnapshotFile => lookup(e, ex, "file_path"@) is Some,
            ExtractType::Scan => lookup(e, ex, "statistic_type"@) is Some && u64_ok(
                e,
                ex,
                "scan_count"@,
            ),
            ExtractType::Cdc => u64_ok(e, ex, "repl_port"@) && u64_ok(e, ex, "repl_offset"@)
                && u64_ok(e, ex, "now_db_id"@),
            ExtractType::Reshard => lookup(e, ex, "to_node_ids"@) is Some,
            _ => false,
        },
        DbType::Kafka => lookup(e, ex, "group"@) is Some && lookup(e, ex, "topic"@) is Some
            && u64_ok(e, ex, "partition"@) && u64_ok(e, ex, "offset"@) && u64_ok(
            e,
            ex,
            "ack_interval_secs"@,
        ),
        DbType::StarRocks => false,
        DbType::Foxlake => false,
    }
}

/// The fields an S3 configuration takes from a section.
pub open spec fn s3_matches(e: Seq<EntryView>, sec: Seq<char>, s3: S3Config) -> bool {
    &&& s3.bucket@ == opt_str(e, sec, "s3_bucket"@)
    &&& s3.access_key@ == opt_str(e, sec, "s3_access_key"@)
    &&& s3.secret_key@ == opt_str(e, sec, "s3_secret_key"@)
    &&& s3.region@ == opt_str(e, sec, "s3_region"@)
    &&& s3.endpoint@ == opt_str(e, sec, "s3_endpoint"@)
    &&& s3.root_dir@ == opt_str(e, sec, "s3_root_dir"@)
    &&& s3.root_url@ == opt_str(e, sec, "s3_root_url"@)
}

/// The extractor a well-formed `[extractor]` section describes.
pub open spec fn extractor_matches(
    e: Seq<EntryView>,
    basic: BasicExtractorConfig,
    cfg: ExtractorConfig,
) -> bool {
    let ex = "extractor"@;
    let url = opt_str(e, ex, "url"@);
    let hb = u64_val(e, ex, "heartbeat_interval_secs"@, 10);
    let ka = u64_val(e, ex, "keepalive_interval_secs"@, 10);
    let hbtb = opt_str(e, ex, "heartbeat_tb"@);
    &&& db_type_of(opt_str(e, ex, "db_type"@)) == Some(basic.db_type)
    &&& extract_type_of(opt_str(e, ex, "extract_type"@)) == Some(basic.extract_type)
    &&& basic.url@ == url
    &&& match cfg {
        ExtractorConfig::MysqlSnapshot { url: u, db, tb, sample_interval } => {
            &&& basic.db_type == DbType::Mysql
            &&& basic.extract_type == ExtractType::Snapshot
            &&& u@ == url
            &&& db@ == Seq::<char>::empty()
            &&& tb@ == Seq::<char>::empty()
            &&& sample_interval == u64_val(e, ex, "sample_interval"@, 1)
        },
        ExtractorConfig::MysqlCdc {
            url: u,
            binlog_filename,
            binlog_position,
            server_id,
            gtid_enabled,
            gtid_set,
            heartbeat_interval_secs,
            heartbeat_tb,
            start_time_utc,
            end_time_utc,
        } => {
            &&& basic.db_type == DbType::Mysql
            &&& basic.extract_type == ExtractType::Cdc
            &&& u@ == url
            &&& binlog_filename@ == opt_str(e, ex, "binlog_filename"@)
            &&& binlog_position == u64_val(e, ex, "binlog_position"@, 0)
            &&& server_id == u64_val(e, ex, "server_id"@, 0)
            &&& gtid_enabled == bool_val(e, ex, "gtid_enabled"@, false)
            &&& gtid_set@ == opt_str(e, ex, "gtid_set"@)
            &&& heartbeat_interval_secs == hb
            &&& heartbeat_tb@ == hbtb
            &&& start_time_utc@ == opt_str(e, ex, "start_time_utc"@)
            &&& end_time_utc@ == opt_str(e, ex, "end_time_utc"@)
        },
        ExtractorConfig::MysqlCheck { url: u, check_log_dir, batch_size } => {
            &&& basic.db_type == DbType::Mysql
            &&& basic.extract_type == ExtractType::CheckLog
            &&& u@ == url
            &&& Some(check_log_dir@) == lookup(e, ex, "check_log_dir"@)
            &&& batch_size == u64_val(e, ex, "batch_size"@, 200)
        },
        ExtractorConfig::MysqlStruct { url: u, db } => {
            &&& basic.db_type == DbType::Mysql
            &&& basic.extract_type == ExtractType::Struct
            &&& u@ == url
            &&& db@ == Seq::<char>::empty()
        },
        ExtractorConfig::FoxlakeS3 { url: u, schema, tb, s3_config } => {
            &&& basic.db_type == DbType::Mysql
            &&& basic.extract_type == ExtractType::FoxlakeS3
            &&& u@ == url
            &&& schema@ == Seq::<char>::empty()
            &&& tb@ == Seq::<char>::empty()
            &&& s3_matches(e, ex, s3_config)
        },
        ExtractorConfig::PgSnapshot { url: u, schema, tb, sample_interval } => {
            &&& basic.db_type == DbType::Pg
            &&& basic.extract_type == ExtractType::Snapshot
            &&& u@ == url
            &&& schema@ == Seq::<char>::empty()
            &&& tb@ == Seq::<char>::empty()
            &&& sample_interval == u64_val(e, ex, "sample_interval"@, 1)
        },
        ExtractorConfig::PgCdc {
            url: u,
            slot_name,
            pub_name,
            start_lsn,
            keepalive_interval_secs,
            heartbeat_interval_secs,
            heartbeat_tb,
            ddl_command_tb,
            start_time_utc,
            end_time_utc,
        } => {
            &&& basic.db_type == DbType::Pg
            &&& basic.extract_type == ExtractType::Cdc
            &&& u@ == url
            &&& Some(slot_name@) == lookup(e, ex, "slot_name"@)
            &&& pub_name@ == opt_str(e, ex, "pub_name"@)
            &&& start_lsn@ == opt_str(e, ex, "start_lsn"@)
            &&& keepalive_interval_secs == ka
            &&& heartbeat_interval_secs == hb
            &&& heartbeat_tb@ == hbtb
            &&& ddl_command_tb@ == opt_str(e, ex, "ddl_command_tb"@)
            &&& start_time_utc@ == opt_str(e, ex, "start_time_utc"@)
            &&& end_time_utc@ == opt_str(e, ex, "end_time_utc"@)
        },
        ExtractorConfig::PgCheck { url: u, check_log_dir, batch_size } => {
            &&& basic.db_type == DbType::Pg
            &&& basic.extract_type == ExtractType::CheckLog
            &&& u@ == url
            &&& Some(check_log_dir@) == lookup(e, ex, "check_log_dir"@)
            &&& batch_size == u64_val(e, ex, "batch_size"@, 200)
        },
        ExtractorConfig::PgStruct { url: u, schema } => {
            &&& basic.db_type == DbType::Pg
            &&& basic.extract_type == ExtractType::Struct
            &&& u@ == url
            &&& schema@ == Seq::<char>::empty()
        },
        ExtractorConfig::MongoSnapshot { url: u, app_name, db, tb } => {
            &&& basic.db_type == DbType::Mongo
            &&& basic.extract_type == ExtractType::Snapshot
            &&& u@ == url
            &&& app_name@ == dft_str(e, ex, "app_name"@, "APE_DTS"@)
            &&& db@ == Seq::<char>::empty()
            &&& tb@ == Seq::<char>::empty()
        },
        ExtractorConfig::MongoCdc {
            url: u,
            app_name,
            resume_token,
            start_timestamp,
            source,
            heartbeat_interval_secs,
            heartbeat_tb,
        } => {
            &&& basic.db_type == DbType::Mongo
            &&& basic.extract_type == ExtractType::Cdc
            &&& u@ == url
            &&& app_name@ == dft_str(e, ex, "app_name"@, "APE_DTS"@)
            &&& resume_token@ == opt_str(e, ex, "resume_token"@)
            &&& start_timestamp == u64_val(e, ex, "start_timestamp"@, 0)
            &&& source@ == opt_str(e, ex, "source"@)
            &&& heartbeat_interval_secs == hb
            &&& heartbeat_tb@ == hbtb
        },
        ExtractorConfig::MongoCheck { url: u, app_name, check_log_dir, batch_size } => {
            &&& basic.db_type == DbType::Mongo
            &&& basic.extract_type == ExtractType::CheckLog
            &&& u@ == url
            &&& app_name@ == dft_str(e, ex, "app_name"@, "APE_DTS"@)
            &&& Some(check_log_dir@) == lookup(e, ex, "check_log_dir"@)
            &&& batch_size == u64_val(e, ex, "batch_size"@, 200)
        },
        ExtractorConfig::RedisSnapshot { url: u, repl_port } => {
            &&& basic.db_type == DbType::Redis
            &&& basic.extract_type == ExtractType::Snapshot
            &&& u@ == url
            &&& repl_port == u64_val(e, ex, "repl_port"@, 10008)
        },
        ExtractorConfig::RedisSnapshotFile { file_path } => {
            &&& basic.db_type == DbType::Redis
            &&& basic.extract_type == ExtractType::SnapshotFile
            &&& Some(file_path@) == lookup(e, ex, "file_path"@)
        },
        ExtractorConfig::RedisScan { url: u, statistic_type, scan_count } => {
            &&& basic.db_type == DbType::Redis
            &&& basic.extract_type == ExtractType::Scan
            &&& u@ == url
            &&& Some(statistic_type@) == lookup(e, ex, "statistic_type"@)
            &&& scan_count == u64_val(e, ex, "scan_count"@, 1000)
        },
        ExtractorConfig::RedisCdc {
            url: u,
            repl_port,
            repl_id,
            repl_offset,
            keepalive_interval_secs,
            heartbeat_interval_secs,
            heartbeat_key,
            now_db_id,
        } => {
            &&& basic.db_type == DbType::Redis
            &&& basic.extract_type == ExtractType::Cdc
            &&& u@ == url
            &&& repl_port == u64_val(e, ex, "repl_port"@, 10008)
            &&& repl_id@ == opt_str(e, ex, "repl_id"@)
            &&& repl_offset == u64_val(e, ex, "repl_offset"@, 0)
            &&& keepalive_interval_secs == ka
            &&& heartbeat_interval_secs == hb
            &&& heartbeat_key@ == opt_str(e, ex, "heartbeat_key"@)
            &&& now_db_id == u64_val(e, ex, "now_db_id"@, 0)
        },
        ExtractorConfig::RedisReshard { url: u, to_node_ids } => {
            &&& basic.db_type == DbType::Redis
            &&& basic.extract_type == ExtractType::Reshard
            &&& u@ == url
            &&& Some(to_node_ids@) == lookup(e, ex, "to_node_ids"@)
        },
        ExtractorConfig::Kafka { url: u, group, topic, partition, offset, ack_interval_secs } => {
            &&& basic.db_type == DbType::Kafka
            &&& u@ == url
            &&& Some(group@) == lookup(e, ex, "group"@)
            &&& Some(topic@) == lookup(e, ex, "topic"@)
            &&& partition == u64_val(e, ex, "partition"@, 0)
            &&& offset == u64_val(e, ex, "offset"@, 0)
            &&& ack_interval_secs == u64_val(e, ex, "ack_interval_secs"@, 0)
        },
    }
}

/// The `[sinker]` section names a known database kind, its sink type and
/// conflict policy parse, the pair is supported, its required keys are
/// present, and its numeric keys parse.
pub open spec fn sinker_ok(e: Seq<EntryView>) -> bool {
    let sk = "sinker"@;
    &&& lookup(e, sk, "db_type"@) matches Some(dbs) && db_type_of(dbs) matches Some(db)
        && (sink_type_of(dft_str(e, sk, "sink_type"@, "write"@)) matches Some(st)
        && sinker_pair_ok(e, db, st))
    &&& u64_ok(e, sk, "batch_size"@)
    &&& conflict_policy_of(opt_str(e, sk, "conflict_policy"@)) is Some
}

/// The per-pair requirements of the `[sinker]` section.
pub open spec fn sinker_pair_ok(e: Seq<EntryView>, db: DbType, st: SinkType) -> bool {
    let sk = "sinker"@;
    match db {
        DbType::Mysql => match st {
            SinkType::Write => true,
            SinkType::Check => true,
            SinkType::Struct => true,
            SinkType::Sql => bool_ok(e, sk, "reverse"@),
            _ => false,
        },
        DbType::Pg => match st {
            SinkType::Write => true,
            SinkType::Check => true,
            SinkType::Struct => true,
            SinkType::Sql => bool_ok(e, sk, "reverse"@),
            _ => false,
        },
        DbType::Mongo => match st {
            SinkType::Write => true,
            SinkType::Check => true,
            _ => false,
        },
        DbType::Kafka => lookup(e, sk, "ack_timeout_secs"@) is Some && u64_ok(
            e,
            sk,
            "ack_timeout_secs"@,
        ) && lookup(e, sk, "required_acks"@) is Some,
        DbType::Redis => match st {
            SinkType::Write => bool_ok(e, sk, "is_cluster"@),
            SinkType::Statistic => lookup(e, sk, "statistic_type"@) is Some && u64_ok(
                e,
                sk,
                "data_size_threshold"@,
            ) && u64_ok(e, sk, "freq_threshold"@),
            SinkType::Dummy => true,
            _ => false,
        },
        DbType::StarRocks => true,
        DbType::Foxlake => match st {
            SinkType::Write => u64_ok(e, sk, "batch_memory_mb"@),
            SinkType::Struct => true,
            SinkType::Push => u64_ok(e, sk, "batch_memory_mb"@),
            SinkType::Merge => true,
            _ => false,
        },
    }
}

/// The sinker a well-formed `[sinker]` section describes.
pub open spec fn sinker_matches(
    e: Seq<EntryView>,
    basic: BasicSinkerConfig,
    cfg: SinkerConfig,
) -> bool {
    let sk = "sinker"@;
    let url = opt_str(e, sk, "url"@);
    let bs = u64_val(e, sk, "batch_size"@, 200);
    let st = sink_type_of(dft_str(e, sk, "sink_type"@, "write"@));
    let cp = conflict_policy_of(opt_str(e, sk, "conflict_policy"@));
    &&& db_type_of(opt_str(e, sk, "db_type"@)) == Some(basic.db_type)
    &&& basic.url@ == url
    &&& basic.batch_size == bs
    &&& match cfg {
        SinkerConfig::Mysql { url: u, batch_size } => {
            &&& basic.db_type == DbType::Mysql
            &&& st == Some(SinkType::Write)
            &&& u@ == url
            &&& batch_size == bs
        },
        SinkerConfig::MysqlCheck { url: u, batch_size, check_log_dir } => {
            &&& basic.db_type == DbType::Mysql
            &&& st == Some(SinkType::Check)
            &&& u@ == url
            &&& batch_size == bs
            &&& check_log_dir@ == opt_str(e, sk, "check_log_dir"@)
        },
        SinkerConfig::MysqlStruct { url: u, conflict_policy } => {
            &&& basic.db_type == DbType::Mysql
            &&& st == Some(SinkType::Struct)
            &&& u@ == url
            &&& cp == Some(conflict_policy)
        },
        SinkerConfig::Pg { url: u, batch_size } => {
            &&& basic.db_type == DbType::Pg
            &&& st == Some(SinkType::Write)
            &&& u@ == url
            &&& batch_size == bs
        },
        SinkerConfig::PgCheck { url: u, batch_size, check_log_dir } => {
            &&& basic.db_type == DbType::Pg
            &&& st == Some(SinkType::Check)
            &&& u@ == url
            &&& batch_size == bs
            &&& check_log_dir@ == opt_str(e, sk, "check_log_dir"@)
        },
        SinkerConfig::PgStruct { url: u, conflict_policy } => {
            &&& basic.db_type == DbType::Pg
            &&& st == Some(SinkType::Struct)
            &&& u@ == url
            &&& cp == Some(conflict_policy)
        },
        SinkerConfig::Sql { reverse } => {
            &&& (basic.db_type == DbType::Mysql || basic.db_type == DbType::Pg)
            &&& st == Some(SinkType::Sql)
            &&& reverse == bool_val(e, sk, "reverse"@, false)
        },
        SinkerConfig::Mongo { url: u, app_name, batch_size } => {
            &&& basic.db_type == DbType::Mongo
            &&& st == Some(SinkType::Write)
            &&& u@ == url
            &&& app_name@ == dft_str(e, sk, "app_name"@, "APE_DTS"@)
            &&& batch_size == bs
        },
        SinkerConfig::MongoCheck { url: u, app_name, batch_size, check_log_dir } => {
            &&& basic.db_type == DbType::Mongo
            &&& st == Some(SinkType::Check)
            &&& u@ == url
            &&& app_name@ == dft_str(e, sk, "app_name"@, "APE_DTS"@)
            &&& batch_size == bs
            &&& check_log_dir@ == opt_str(e, sk, "check_log_dir"@)
        },
        SinkerConfig::Kafka { url: u, batch_size, ack_timeout_secs, required_acks } => {
            &&& basic.db_type == DbType::Kafka
            &&& u@ == url
            &&& batch_size == bs
            &&& ack_timeout_secs == u64_val(e, sk, "ack_timeout_secs"@, 0)
            &&& Some(required_acks@) == lookup(e, sk, "required_acks"@)
        },
        SinkerConfig::Redis { url: u, batch_size, method, is_cluster } => {
            &&& basic.db_type == DbType::Redis
            &&& st == Some(SinkType::Write)
            &&& u@ == url
            &&& batch_size == bs
            &&& method@ == opt_str(e, sk, "method"@)
            &&& is_cluster == bool_val(e, sk, "is_cluster"@, false)
        },
        SinkerConfig::RedisStatistic {
            statistic_type,
            data_size_threshold,
            freq_threshold,
            statistic_log_dir,
        } => {
            &&& basic.db_type == DbType::Redis
            &&& st == Some(SinkType::Statistic)
            &&& Some(statistic_type@) == lookup(e, sk, "statistic_type"@)
            &&& data_size_threshold == u64_val(e, sk, "data_size_threshold"@, 0)
            &&& freq_threshold == u64_val(e, sk, "freq_threshold"@, 0)
            &&& statistic_log_dir@ == opt_str(e, sk, "statistic_log_dir"@)
        },
        SinkerConfig::Dummy => {
            &&& basic.db_type == DbType::Redis
            &&& st == Some(SinkType::Dummy)
        },
        SinkerConfig::Starrocks { url: u, batch_size, stream_load_url } => {
            &&& basic.db_type == DbType::StarRocks
            &&& u@ == url
            &&& batch_size == bs
            &&& stream_load_url@ == opt_str(e, sk, "stream_load_url"@)
        },
        SinkerConfig::Foxlake { url: u, batch_size, batch_memory_mb, s3_config, engine } => {
            &&& basic.db_type == DbType::Foxlake
            &&& st == Some(SinkType::Write)
            &&& u@ == url
            &&& batch_size == bs
            &&& batch_memory_mb == u64_val(e, sk, "batch_memory_mb"@, 0)
            &&& s3_matches(e, sk, s3_config)
            &&& engine@ == opt_str(e, sk, "engine"@)
        },
        SinkerConfig::FoxlakeStruct { url: u, conflict_policy, engine } => {
            &&& basic.db_type == DbType::Foxlake
            &&& st == Some(SinkType::Struct)
            &&& u@ == url
            &&& cp == Some(conflict_policy)
            &&& engine@ == opt_str(e, sk, "engine"@)
        },
        SinkerConfig::FoxlakePush { url: u, batch_size, batch_memory_mb, s3_config } => {
            &&& basic.db_type == DbType::Foxlake
            &&& st == Some(SinkType::Push)
            &&& u@ == url
            &&& batch_size == bs
            &&& batch_memory_mb == u64_val(e, sk, "batch_memory_mb"@, 0)
            &&& s3_matches(e, sk, s3_config)
        },
        SinkerConfig::FoxlakeMerge { url: u, batch_size, s3_config } => {
            &&& basic.db_type == DbType::Foxlake
            &&& st == Some(SinkType::Merge)
            &&& u@ == url
            &&& batch_size == bs
            &&& s3_matches(e, sk, s3_config)
        },
    }
}

/// The `[parallelizer]` section parses.
pub open spec fn parallelizer_ok(e: Seq<EntryView>) -> bool {
    &&& u64_ok(e, "parallelizer"@, "parallel_size"@)
    &&& parallel_type_of(dft_str(e, "parallelizer"@, "parallel_type"@, "serial"@)) is Some
}

/// The parallelizer a well-formed `[parallelizer]` section describes.
pub open spec fn parallelizer_matches(e: Seq<EntryView>, c: ParallelizerConfig) -> bool {
    &&& c.parallel_size == u64_val(e, "parallelizer"@, "parallel_size"@, 1)
    &&& parallel_type_of(dft_str(e, "parallelizer"@, "parallel_type"@, "serial"@)) == Some(
        c.parallel_type,
    )
}

/// The `[pipeline]` section parses.
pub open spec fn pipeline_ok(e: Seq<EntryView>) -> bool {
    let p = "pipeline"@;
    &&& u64_ok(e, p, "buffer_size"@)
    &&& u64_ok(e, p, "checkpoint_interval_secs"@)
    &&& u64_ok(e, p, "batch_sink_interval_secs"@)
    &&& u64_ok(e, p, "counter_time_window_secs"@)
    &&& u64_ok(e, p, "counter_max_sub_count"@)
    &&& u64_ok(e, p, "max_rps"@)
    &&& u64_ok(e, p, "buffer_memory_mb"@)
}

/// The pipeline tuning a well-formed `[pipeline]` section describes; a
/// counter window of zero falls back to the checkpoint interval.
pub open spec fn pipeline_matches(e: Seq<EntryView>, c: PipelineConfig) -> bool {
    let p = "pipeline"@;
    let window = u64_val(e, p, "counter_time_window_secs"@, 0);
    &&& c.buffer_size == u64_val(e, p, "buffer_size"@, 16000)
    &&& c.checkpoint_interval_secs == u64_val(e, p, "checkpoint_interval_secs"@, 10)
    &&& c.batch_sink_interval_secs == u64_val(e, p, "batch_sink_interval_secs"@, 0)
    &&& c.counter_time_window_secs == (if window == 0 {
        u64_val(e, p, "checkpoint_interval_secs"@, 10)
    } else {
        window
    })
    &&& c.counter_max_sub_count == u64_val(e, p, "counter_max_sub_count"@, 1000)
    &&& c.max_rps == u64_val(e, p, "max_rps"@, 0)
    &&& c.buffer_memory_mb == u64_val(e, p, "buffer_memory_mb"@, 0)
}

/// The logging settings the `[runtime]` section describes.
pub open spec fn runtime_matches(e: Seq<EntryView>, c: RuntimeConfig) -> bool {
    &&& c.log_level@ == dft_str(e, "runtime"@, "log_level"@, "info"@)
    &&& c.log_dir@ == dft_str(e, "runtime"@, "log_dir"@, "./logs"@)
    &&& c.log4rs_file@ == dft_str(e, "runtime"@, "log4rs_file"@, "./log4rs.yaml"@)
}

/// The raw filter lists the `[filter]` section describes.
pub open spec fn filter_matches(e: Seq<EntryView>, c: FilterConfig) -> bool {
    let f = "filter"@;
    &&& c.do_schemas@ == opt_str(e, f, "do_dbs"@)
    &&& c.ignore_schemas@ == opt_str(e, f, "ignore_dbs"@)
    &&& c.do_tbs@ == opt_str(e, f, "do_tbs"@)
    &&& c.ignore_tbs@ == opt_str(e, f, "ignore_tbs"@)
    &&& c.do_events@ == opt_str(e, f, "do_events"@)
    &&& c.do_ddls@ == opt_str(e, f, "do_ddls"@)
    &&& c.do_structures@ == dft_str(e, f, "do_structures"@, "*"@)
    &&& c.ignore_cmds@ == opt_str(e, f, "ignore_cmds"@)
}

/// The rename maps the `[router]` section describes.
pub open spec fn router_matches(e: Seq<EntryView>, c: RouterConfig) -> bool {
    let r = "router"@;
    match c {
        RouterConfig::Rdb { schema_map, tb_map, col_map, topic_map } => {
            &&& schema_map@ == opt_str(e, r, "db_map"@)
            &&& tb_map@ == opt_str(e, r, "tb_map"@)
            &&& col_map@ == opt_str(e, r, "col_map"@)
            &&& topic_map@ == opt_str(e, r, "topic_map"@)
        },
    }
}

/// The `[resumer]` section parses.
pub open spec fn resumer_ok(e: Seq<EntryView>) -> bool {
    bool_ok(e, "resumer"@, "resume_from_log"@)
}

/// The resume settings a well-formed `[resumer]` section describes; an
/// empty resume log directory falls back to the runtime log directory.
pub open spec fn resumer_matches(e: Seq<EntryView>, c: ResumerConfig) -> bool {
    let r = "resumer"@;
    let dir = opt_str(e, r, "resume_log_dir"@);
    &&& c.resume_config_file@ == opt_str(e, r, "resume_config_file"@)
    &&& c.resume_from_log == bool_val(e, r, "resume_from_log"@, false)
    &&& c.resume_log_dir@ == (if dir.len() == 0 {
        dft_str(e, "runtime"@, "log_dir"@, "./logs"@)
    } else {
        dir
    })
}

/// The `[data_marker]` section, when present, has its required keys.
pub open spec fn data_marker_ok(secs: Seq<Seq<char>>, e: Seq<EntryView>) -> bool {
    let d = "data_marker"@;
    secs.contains(d) ==> {
        &&& lookup(e, d, "topo_name"@) is Some
        &&& lookup(e, d, "src_node"@) is Some
        &&& lookup(e, d, "dst_node"@) is Some
        &&& lookup(e, d, "do_nodes"@) is Some
        &&& lookup(e, d, "marker"@) is Some
    }
}

/// The data marker a well-formed `[data_marker]` section describes, or
/// nothing when the section is absent.
pub open spec fn data_marker_matches(
    secs: Seq<Seq<char>>,
    e: Seq<EntryView>,
    c: Option<DataMarkerConfig>,
) -> bool {
    let d = "data_marker"@;
    match c {
        Some(m) => {
            &&& secs.contains(d)
            &&& Some(m.topo_name@) == lookup(e, d, "topo_name"@)
            &&& m.topo_nodes@ == opt_str(e, d, "topo_nodes"@)
            &&& Some(m.src_node@) == lookup(e, d, "src_node"@)
            &&& Some(m.dst_node@) == lookup(e, d, "dst_node"@)
            &&& Some(m.do_nodes@) == lookup(e, d, "do_nodes"@)
            &&& m.ignore_nodes@ == opt_str(e, d, "ignore_nodes"@)
            &&& Some(m.marker@) == lookup(e, d, "marker"@)
        },
        None => !secs.contains(d),
    }
}

/// The processor hook the `[processor]` section describes, or nothing when
/// the section is absent. The code itself is read from the named file by
/// the embedding program, not here.
pub open spec fn processor_matches(
    secs: Seq<Seq<char>>,
    e: Seq<EntryView>,
    c: Option<ProcessorConfig>,
) -> bool {
    let p = "processor"@;
    match c {
        Some(m) => {
            &&& secs.contains(p)
            &&& m.lua_code_file@ == opt_str(e, p, "lua_code_file"@)
            &&& m.lua_code@ == Seq::<char>::empty()
        },
        None => !secs.contains(p),
    }
}

/// A whole task configuration parses.
pub open spec fn task_ok(secs: Seq<Seq<char>>, e: Seq<EntryView>) -> bool {
    &&& extractor_ok(e)
    &&& sinker_ok(e)
    &&& parallelizer_ok(e)
    &&& pipeline_ok(e)
    &&& resumer_ok(e)
    &&& data_marker_ok(secs, e)
}

/// The task a well-formed document describes.
pub open spec fn task_matches(secs: Seq<Seq<char>>, e: Seq<EntryView>, t: TaskConfig) -> bool {
    &&& extractor_matches(e, t.extractor_basic, t.extractor)
    &&& sinker_matches(e, t.sinker_basic, t.sinker)
    &&& parallelizer_matches(e, t.parallelizer)
    &&& pipeline_matches(e, t.pipeline)
    &&& runtime_matches(e, t.runtime)
    &&& filter_matches(e, t.filter)
    &&& router_matches(e, t.router)
    &&& resumer_matches(e, t.resumer)
    &&& data_marker_matches(secs, e, t.data_marker)
    &&& processor_matches(secs, e, t.processor)
}

impl TaskConfig {
    /// Builds a task from the text of its INI document. Returns a
    /// configuration error when a section is malformed or an unsupported
    /// combination is asked for.
    pub fn new(ini_text: &str) -> (r: Result<TaskConfig, Error>)
        ensures
            ({
                let parsed = crate::ini::ini_parse(ini_text@, Seq::<char>::empty());
                match r {
                    Ok(t) => task_ok(parsed.0, parsed.1) && task_matches(parsed.0, parsed.1, t),
                    Err(x) => !task_ok(parsed.0, parsed.1) && x is ConfigError,
                }
            }),
    {
        let loader = IniLoader::load(ini_text);
        let (extractor_basic, extractor) = Self::load_extractor_config(&loader)?;
        let (sinker_basic, sinker) = Self::load_sinker_config(&loader)?;
        Ok(TaskConfig {
            extractor_basic,
            extractor,
            parallelizer: Self::load_parallelizer_config(&loader)?,
            pipeline: Self::load_pipeline_config(&loader)?,
            sinker_basic,
            sinker,
            runtime: Self::load_runtime_config(&loader)?,
            filter: Self::load_filter_config(&loader)?,
            router: Self::load_router_config(&loader)?,
            resumer: Self::load_resumer_config(&loader)?,
            data_marker: Self::load_data_marker_config(&loader)?,
            processor: Self::load_processor_config(&loader)?,
        })
    }

    /// Reads the S3 keys of a section.
    pub fn load_s3_config(loader: &IniLoader, section: &str) -> (r: S3Config)
        ensures
            s3_matches(loader.entries_view(), section@, r),
    {
        S3Config {
            bucket: loader.get_optional(section, "s3_bucket"),
            access_key: loader.get_optional(section, "s3_access_key"),
            secret_key: loader.get_optional(section, "s3_secret_key"),
            region: loader.get_optional(section, "s3_region"),
            endpoint: loader.get_optional(section, "s3_endpoint"),
            root_dir: loader.get_optional(section, "s3_root_dir"),
            root_url: loader.get_optional(section, "s3_root_url"),
        }
    }

    /// Reads the `[extractor]` section; an unsupported database kind or
    /// (kind, extract type) pair is a configuration error.
    pub fn load_extractor_config(loader: &IniLoader) -> (r: Result<
        (BasicExtractorConfig, ExtractorConfig),
        Error,
    >)
        ensures
            ({
                let e = loader.entries_view();
                match r {
                    Ok(v) => extractor_ok(e) && extractor_matches(e, v.0, v.1),
                    Err(x) => !extractor_ok(e) && x is ConfigError,
                }
            }),
    {
        let section = "extractor";
        let db_type_str = loader.get_required(section, "db_type")?;
        let extract_type_str = loader.get_required(section, "extract_type")?;
        let db_type = DbType::from_str(db_type_str.as_str())?;
        let extract_type = ExtractType::from_str(extract_type_str.as_str())?;

        let url = loader.get_optional(section, "url");
        let heartbeat_interval_secs = loader.get_u64(section, "heartbeat_interval_secs", 10)?;
        let keepalive_interval_secs = loader.get_u64(section, "keepalive_interval_secs", 10)?;
        let heartbeat_tb = loader.get_optional(section, "heartbeat_tb");

        let basic = BasicExtractorConfig {
            db_type,
            extract_type,
            url: url.clone(),
        };

        let extractor = match db_type {
            DbType::Mysql => match extract_type {
                ExtractType::Snapshot => ExtractorConfig::MysqlSnapshot {
                    url,
                    db: String::new(),
                    tb: String::new(),
                    sample_interval: loader.get_u64(section, "sample_interval", 1)?,
                },
                ExtractType::Cdc => ExtractorConfig::MysqlCdc {
                    url,
                    binlog_filename: loader.get_optional(section, "binlog_filename"),
                    binlog_position: loader.get_u64(section, "binlog_position", 0)?,
                    server_id: loader.get_required_u64(section, "server_id")?,
                    gtid_enabled: loader.get_bool(section, "gtid_enabled", false)?,
                    gtid_set: loader.get_optional(section, "gtid_set"),
                    heartbeat_interval_secs,
                    heartbeat_tb,
                    start_time_utc: loader.get_optional(section, "start_time_utc"),
                    end_time_utc: loader.get_optional(section, "end_time_utc"),
                },
                ExtractType::CheckLog => ExtractorConfig::MysqlCheck {
                    url,
                    check_log_dir: loader.get_required(section, "check_log_dir")?,
                    batch_size: loader.get_u64(section, "batch_size", 200)?,
                },
                ExtractType::Struct => ExtractorConfig::MysqlStruct {
                    url,
                    db: String::new(),
                },
                ExtractType::FoxlakeS3 => ExtractorConfig::FoxlakeS3 {
                    url,
                    schema: String::new(),
                    tb: String::new(),
                    s3_config: Self::load_s3_config(loader, section),
                },
                _ => {
                    return Err(Error::ConfigError("extract type not supported".to_owned()));
                },
            },
            DbType::Pg => match extract_type {
                ExtractType::Snapshot => ExtractorConfig::PgSnapshot {
                    url,
                    schema: String::new(),
                    tb: String::new(),
                    sample_interval: loader.get_u64(section, "sample_interval", 1)?,
                },
                ExtractType::Cdc => ExtractorConfig::PgCdc {
                    url,
                    slot_name: loader.get_required(section, "slot_name")?,
                    pub_name: loader.get_optional(section, "pub_name"),
                    start_lsn: loader.get_optional(section, "start_lsn"),
                    keepalive_interval_secs,
                    heartbeat_interval_secs,
                    heartbeat_tb,
                    ddl_command_tb: loader.get_optional(section, "ddl_command_tb"),
                    start_time_utc: loader.get_optional(section, "start_time_utc"),
                    end_time_utc: loader.get_optional(section, "end_time_utc"),
                },
                ExtractType::CheckLog => ExtractorConfig::PgCheck {
                    url,
                    check_log_dir: loader.get_required(section, "check_log_dir")?,
                    batch_size: loader.get_u64(section, "batch_size", 200)?,
                },
                ExtractType::Struct => ExtractorConfig::PgStruct {
                    url,
                    schema: String::new(),
                },
                _ => {
                    return Err(Error::ConfigError("extract type not supported".to_owned()));
                },
            },
            DbType::Mongo => {
                let app_name = loader.get_with_default(section, "app_name", "APE_DTS");
                match extract_type {
                    ExtractType::Snapshot => ExtractorConfig::MongoSnapshot {
                        url,
                        app_name,
                        db: String::new(),
                        tb: String::new(),
                    },
                    ExtractType::Cdc => ExtractorConfig::MongoCdc {
                        url,
                        app_name,
                        resume_token: loader.get_optional(section, "resume_token"),
                        start_timestamp: loader.get_u64(section, "start_timestamp", 0)?,
                        source: loader.get_optional(section, "source"),
                        heartbeat_interval_secs,
                        heartbeat_tb,
                    },
                    ExtractType::CheckLog => ExtractorConfig::MongoCheck {
                        url,
                        app_name,
                        check_log_dir: loader.get_required(section, "check_log_dir")?,
                        batch_size: loader.get_u64(section, "batch_size", 200)?,
                    },
                    _ => {
                        return Err(Error::ConfigError("extract type not supported".to_owned()));
                    },
                }
            },
            DbType::Redis => match extract_type {
                ExtractType::Snapshot => ExtractorConfig::RedisSnapshot {
                    url,
                    repl_port: loader.get_u64(section, "repl_port", 10008)?,
                },
                ExtractType::SnapshotFile => ExtractorConfig::RedisSnapshotFile {
                    file_path: loader.get_required(section, "file_path")?,
                },
                ExtractType::Scan => ExtractorConfig::RedisScan {
                    url,
                    statistic_type: loader.get_required(section, "statistic_type")?,
                    scan_count: loader.get_u64(section, "scan_count", 1000)?,
                },
                ExtractType::Cdc => ExtractorConfig::RedisCdc {
                    url,
                    repl_port: loader.get_u64(section, "repl_port", 10008)?,
                    repl_id: loader.get_optional(section, "repl_id"),
                    repl_offset: loader.get_u64(section, "repl_offset", 0)?,
                    keepalive_interval_secs,
                    heartbeat_interval_secs,
                    heartbeat_key: loader.get_optional(section, "heartbeat_key"),
                    now_db_id: loader.get_u64(section, "now_db_id", 0)?,
                },
                ExtractType::Reshard => ExtractorConfig::RedisReshard {
                    url,
                    to_node_ids: loader.get_required(section, "to_node_ids")?,
                },
                _ => {
                    return Err(Error::ConfigError("extract type not supported".to_owned()));
                },
            },
            DbType::Kafka => ExtractorConfig::Kafka {
                url,
                group: loader.get_required(section, "group")?,
                topic: loader.get_required(section, "topic")?,
                partition: loader.get_u64(section, "partition", 0)?,
                offset: loader.get_u64(section, "offset", 0)?,
                ack_interval_secs: loader.get_u64(section, "ack_interval_secs", 0)?,
            },
            _ => {
                return Err(Error::ConfigError("extractor db type not supported".to_owned()));
            },
        };
        Ok((basic, extractor))
    }

    /// Reads the `[sinker]` section; an unsupported database kind or
    /// (kind, sink type) pair is a configuration error.
    pub fn load_sinker_config(loader: &IniLoader) -> (r: Result<
        (BasicSinkerConfig, SinkerConfig),
        Error,
    >)
        ensures
            ({
                let e = loader.entries_view();
                match r {
                    Ok(v) => sinker_ok(e) && sinker_matches(e, v.0, v.1),
                    Err(x) => !sinker_ok(e) && x is ConfigError,
                }
            }),
    {
        let section = "sinker";
        let db_type_str = loader.get_required(section, "db_type")?;
        let sink_type_str = loader.get_with_default(section, "sink_type", "write");
        let db_type = DbType::from_str(db_type_str.as_str())?;
        let sink_type = SinkType::from_str(sink_type_str.as_str())?;

        let url = loader.get_optional(section, "url");
        let batch_size = loader.get_u64(section, "batch_size", 200)?;

        let basic = BasicSinkerConfig {
            db_type,
            url: url.clone(),
            batch_size,
        };

        let conflict_policy_str = loader.get_optional(section, "conflict_policy");
        let conflict_policy = ConflictPolicyEnum::from_str(conflict_policy_str.as_str())?;

        let sinker = match db_type {
            DbType::Mysql => match sink_type {
                SinkType::Write => SinkerConfig::Mysql { url, batch_size },
                SinkType::Check => SinkerConfig::MysqlCheck {
                    url,
                    batch_size,
                    check_log_dir: loader.get_optional(section, "check_log_dir"),
                },
                SinkType::Struct => SinkerConfig::MysqlStruct {
                    url,
                    conflict_policy,
                },
                SinkType::Sql => SinkerConfig::Sql {
                    reverse: loader.get_bool(section, "reverse", false)?,
                },
                _ => {
                    return Err(Error::ConfigError("sink type not supported".to_owned()));
                },
            },
            DbType::Pg => match sink_type {
                SinkType::Write => SinkerConfig::Pg { url, batch_size },
                SinkType::Check => SinkerConfig::PgCheck {
                    url,
                    batch_size,
                    check_log_dir: loader.get_optional(section, "check_log_dir"),
                },
                SinkType::Struct => SinkerConfig::PgStruct {
                    url,
                    conflict_policy,
                },
                SinkType::Sql => SinkerConfig::Sql {
                    reverse: loader.get_bool(section, "reverse", false)?,
                },
                _ => {
                    return Err(Error::ConfigError("sink type not supported".to_owned()));
                },
            },
            DbType::Mongo => {
                let app_name = loader.get_with_default(section, "app_name", "APE_DTS");
                match sink_type {
                    SinkType::Write => SinkerConfig::Mongo {
                        url,
                        app_name,
                        batch_size,
                    },
                    SinkType::Check => SinkerConfig::MongoCheck {
                        url,
                        app_name,
                        batch_size,
                        check_log_dir: loader.get_optional(section, "check_log_dir"),
                    },
                    _ => {
                        return Err(Error::ConfigError("sink type not supported".to_owned()));
                    },
                }
            },
            DbType::Kafka => SinkerConfig::Kafka {
                url,
                batch_size,
                ack_timeout_secs: loader.get_required_u64(section, "ack_timeout_secs")?,
                required_acks: loader.get_required(section, "required_acks")?,
            },
            DbType::Redis => match sink_type {
                SinkType::Write => SinkerConfig::Redis {
                    url,
                    batch_size,
                    method: loader.get_optional(section, "method"),
                    is_cluster: loader.get_bool(section, "is_cluster", false)?,
                },
                SinkType::Statistic => SinkerConfig::RedisStatistic {
                    statistic_type: loader.get_required(section, "statistic_type")?,
                    data_size_threshold: loader.get_u64(section, "data_size_threshold", 0)?,
                    freq_threshold: loader.get_u64(section, "freq_threshold", 0)?,
                    statistic_log_dir: loader.get_optional(section, "statistic_log_dir"),
                },
                SinkType::Dummy => SinkerConfig::Dummy,
                _ => {
                    return Err(Error::ConfigError("sink type not supported".to_owned()));
                },
            },
            DbType::StarRocks => SinkerConfig::Starrocks {
                url,
                batch_size,
                stream_load_url: loader.get_optional(section, "stream_load_url"),
            },
            DbType::Foxlake => {
                let s3_config = Self::load_s3_config(loader, section);
                match sink_type {
                    SinkType::Write => SinkerConfig::Foxlake {
                        url,
                        batch_size,
                        batch_memory_mb: loader.get_u64(section, "batch_memory_mb", 0)?,
                        s3_config,
                        engine: loader.get_optional(section, "engine"),
                    },
                    SinkType::Struct => SinkerConfig::FoxlakeStruct {
                        url,
                        conflict_policy,
                        engine: loader.get_optional(section, "engine"),
                    },
                    SinkType::Push => SinkerConfig::FoxlakePush {
                        url,
                        batch_size,
                        batch_memory_mb: loader.get_u64(section, "batch_memory_mb", 0)?,
                        s3_config,
                    },
                    SinkType::Merge => SinkerConfig::FoxlakeMerge {
                        url,
                        batch_size,
                        s3_config,
                    },
                    _ => {
                        return Err(Error::ConfigError("sink type not supported".to_owned()));
                    },
                }
            },
        };
        Ok((basic, sinker))
    }

    /// Reads the `[parallelizer]` section.
    pub fn load_parallelizer_config(loader: &IniLoader) -> (r: Result<ParallelizerConfig, Error>)
        ensures
            ({
                let e = loader.entries_view();
                match r {
                    Ok(c) => parallelizer_ok(e) && parallelizer_matches(e, c),
                    Err(x) => !parallelizer_ok(e) && x is ConfigError,
                }
            }),
    {
        let section = "parallelizer";
        let parallel_type_str = loader.get_with_default(section, "parallel_type", "serial");
        Ok(ParallelizerConfig {
            parallel_size: loader.get_u64(section, "parallel_size", 1)?,
            parallel_type: ParallelType::from_str(parallel_type_str.as_str())?,
        })
    }

    /// Reads the `[pipeline]` section; a counter window of zero falls back
    /// to the checkpoint interval.
    pub fn load_pipeline_config(loader: &IniLoader) -> (r: Result<PipelineConfig, Error>)
        ensures
            ({
                let e = loader.entries_view();
                match r {
                    Ok(c) => pipeline_ok(e) && pipeline_matches(e, c),
                    Err(x) => !pipeline_ok(e) && x is ConfigError,
                }
            }),
    {
        let section = "pipeline";
        let mut config = PipelineConfig {
            buffer_size: loader.get_u64(section, "buffer_size", 16000)?,
            checkpoint_interval_secs: loader.get_u64(section, "checkpoint_interval_secs", 10)?,
            batch_sink_interval_secs: loader.get_u64(section, "batch_sink_interval_secs", 0)?,
            counter_time_window_secs: loader.get_u64(section, "counter_time_window_secs", 0)?,
            counter_max_sub_count: loader.get_u64(section, "counter_max_sub_count", 1000)?,
            max_rps: loader.get_u64(section, "max_rps", 0)?,
            buffer_memory_mb: loader.get_u64(section, "buffer_memory_mb", 0)?,
        };
        if config.counter_time_window_secs == 0 {
            config.counter_time_window_secs = config.checkpoint_interval_secs;
        }
        Ok(config)
    }

    /// Reads the `[runtime]` section; every key has a default.
    pub fn load_runtime_config(loader: &IniLoader) -> (r: Result<RuntimeConfig, Error>)
        ensures
            r matches Ok(c) && runtime_matches(loader.entries_view(), c),
    {
        let section = "runtime";
        Ok(RuntimeConfig {
            log_level: loader.get_with_default(section, "log_level", "info"),
            log_dir: loader.get_with_default(section, "log_dir", "./logs"),
            log4rs_file: loader.get_with_default(section, "log4rs_file", "./log4rs.yaml"),
        })
    }

    /// Reads the `[filter]` section; every key has a default.
    pub fn load_filter_config(loader: &IniLoader) -> (r: Result<FilterConfig, Error>)
        ensures
            r matches Ok(c) && filter_matches(loader.entries_view(), c),
    {
        let section = "filter";
        Ok(FilterConfig {
            do_schemas: loader.get_optional(section, "do_dbs"),
            ignore_schemas: loader.get_optional(section, "ignore_dbs"),
            do_tbs: loader.get_optional(section, "do_tbs"),
            ignore_tbs: loader.get_optional(section, "ignore_tbs"),
            do_events: loader.get_optional(section, "do_events"),
            do_ddls: loader.get_optional(section, "do_ddls"),
            do_structures: loader.get_with_default(section, "do_structures", "*"),
            ignore_cmds: loader.get_optional(section, "ignore_cmds"),
        })
    }

    /// Reads the `[router]` section; every key has a default.
    pub fn load_router_config(loader: &IniLoader) -> (r: Result<RouterConfig, Error>)
        ensures
            r matches Ok(c) && router_matches(loader.entries_view(), c),
    {
        let section = "router";
        Ok(RouterConfig::Rdb {
            schema_map: loader.get_optional(section, "db_map"),
            tb_map: loader.get_optional(section, "tb_map"),
            col_map: loader.get_optional(section, "col_map"),
            topic_map: loader.get_optional(section, "topic_map"),
        })
    }

    /// Reads the `[resumer]` section; an empty resume log directory falls
    /// back to the runtime log directory.
    pub fn load_resumer_config(loader: &IniLoader) -> (r: Result<ResumerConfig, Error>)
        ensures
            ({
                let e = loader.entries_view();
                match r {
                    Ok(c) => resumer_ok(e) && resumer_matches(e, c),
                    Err(x) => !resumer_ok(e) && x is ConfigError,
                }
            }),
    {
        let section = "resumer";
        let mut resume_log_dir = loader.get_optional(section, "resume_log_dir");
        if resume_log_dir.unicode_len() == 0 {
            resume_log_dir = loader.get_with_default("runtime", "log_dir", "./logs");
        }
        Ok(ResumerConfig {
            resume_config_file: loader.get_optional(section, "resume_config_file"),
            resume_from_log: loader.get_bool(section, "resume_from_log", false)?,
            resume_log_dir,
        })
    }

    /// Reads the `[data_marker]` section when it is present.
    pub fn load_data_marker_config(loader: &IniLoader) -> (r: Result<
        Option<DataMarkerConfig>,
        Error,
    >)
        ensures
            ({
                let secs = loader.sections_view();
                let e = loader.entries_view();
                match r {
                    Ok(c) => data_marker_ok(secs, e) && data_marker_matches(secs, e, c),
                    Err(x) => !data_marker_ok(secs, e) && x is ConfigError,
                }
            }),
    {
        let section = "data_marker";
        if !loader.has_section(section) {
            return Ok(None);
        }
        Ok(Some(DataMarkerConfig {
            topo_name: loader.get_required(section, "topo_name")?,
            topo_nodes: loader.get_optional(section, "topo_nodes"),
            src_node: loader.get_required(section, "src_node")?,
            dst_node: loader.get_required(section, "dst_node")?,
            do_nodes: loader.get_required(section, "do_nodes")?,
            ignore_nodes: loader.get_optional(section, "ignore_nodes"),
            marker: loader.get_required(section, "marker")?,
        }))
    }

    /// Reads the `[processor]` section when it is present. The script file
    /// named there is read by the embedding program; the code field starts
    /// empty.
    pub fn load_processor_config(loader: &IniLoader) -> (r: Result<Option<ProcessorConfig>, Error>)
        ensures
            r matches Ok(c) && processor_matches(loader.sections_view(), loader.entries_view(), c),
    {
        let section = "processor";
        if !loader.has_section(section) {
            return Ok(None);
        }
        Ok(Some(ProcessorConfig {
            lua_code_file: loader.get_optional(section, "lua_code_file"),
            lua_code: String::new(),
        }))
    }
}

} // verus!
