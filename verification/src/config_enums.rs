use vstd::prelude::*;

use crate::error::Error;
use crate::strutil::str_eq;

verus! {

/// Kind of database a task side talks to.
#[derive(Debug, Clone, Copy, PartialEq, Eq, Structural)]
pub enum DbType {
    Mysql,
    Pg,
    Mongo,
    Redis,
    Kafka,
    StarRocks,
    Foxlake,
}

/// How data is extracted from the source.
#[derive(Debug, Clone, Copy, PartialEq, Eq, Structural)]
pub enum ExtractType {
    Snapshot,
    Cdc,
    CheckLog,
    Struct,
    SnapshotFile,
    Scan,
    Reshard,
    FoxlakeS3,
}

/// How data is applied to the destination.
#[derive(Debug, Clone, Copy, PartialEq, Eq, Structural)]
pub enum SinkType {
    Write,
    Check,
    Struct,
    Sql,
    Push,
    Merge,
    Statistic,
    Dummy,
}

/// Parallelizer strategy named in the configuration.
#[derive(Debug, Clone, Copy, PartialEq, Eq, Structural)]
pub enum ParallelType {
    Serial,
    Snapshot,
    RdbPartition,
    RdbMerge,
    RdbCheck,
    Table,
    Mongo,
    Redis,
    Foxlake,
}

/// What a structural sinker does when an object already exists.
#[derive(Debug, Clone, Copy, PartialEq, Eq, Structural)]
pub enum ConflictPolicyEnum {
    Ignore,
    Interrupt,
}

/// The database kind a name denotes, if any.
pub open spec fn db_type_of(s: Seq<char>) -> Option<DbType> {
    if s == "mysql"@ {
        Some(DbType::Mysql)
    } else if s == "pg"@ {
        Some(DbType::Pg)
    } else if s == "mongo"@ {
        Some(DbType::Mongo)
    } else if s == "redis"@ {
        Some(DbType::Redis)
    } else if s == "kafka"@ {
        Some(DbType::Kafka)
    } else if s == "starrocks"@ {
        Some(DbType::StarRocks)
    } else if s == "foxlake"@ {
        Some(DbType::Foxlake)
    } else {
        None
    }
}

/// The extract type a name denotes, if any.
pub open spec fn extract_type_of(s: Seq<char>) -> Option<ExtractType> {
    if s == "snapshot"@ {
        Some(ExtractType::Snapshot)
    } else if s == "cdc"@ {
        Some(ExtractType::Cdc)
    } else if s == "check_log"@ {
        Some(ExtractType::CheckLog)
    } else if s == "struct"@ {
        Some(ExtractType::Struct)
    } else if s == "snapshot_file"@ {
        Some(ExtractType::SnapshotFile)
    } else if s == "scan"@ {
        Some(ExtractType::Scan)
    } else if s == "reshard"@ {
        Some(ExtractType::Reshard)
    } else if s == "foxlake_s3"@ {
        Some(ExtractType::FoxlakeS3)
    } else {
        None
    }
}

/// The sink type a name denotes, if any.
pub open spec fn sink_type_of(s: Seq<char>) -> Option<SinkType> {
    if s == "write"@ {
        Some(SinkType::Write)
    } else if s == "check"@ {
        Some(SinkType::Check)
    } else if s == "struct"@ {
        Some(SinkType::Struct)
    } else if s == "sql"@ {
        Some(SinkType::Sql)
    } else if s == "push"@ {
        Some(SinkType::Push)
    } else if s == "merge"@ {
        Some(SinkType::Merge)
    } else if s == "statistic"@ {
        Some(SinkType::Statistic)
    } else if s == "dummy"@ {
        Some(SinkType::Dummy)
    } else {
        None
    }
}

/// The parallel type a name denotes, if any.
pub open spec fn parallel_type_of(s: Seq<char>) -> Option<ParallelType> {
    if s == "serial"@ {
        Some(ParallelType::Serial)
    } else if s == "snapshot"@ {
        Some(ParallelType::Snapshot)
    } else if s == "rdb_partition"@ {
        Some(ParallelType::RdbPartition)
    } else if s == "rdb_merge"@ {
        Some(ParallelType::RdbMerge)
    } else if s == "rdb_check"@ {
        Some(ParallelType::RdbCheck)
    } else if s == "table"@ {
        Some(ParallelType::Table)
    } else if s == "mongo"@ {
        Some(ParallelType::Mongo)
    } else if s == "redis"@ {
        Some(ParallelType::Redis)
    } else if s == "foxlake"@ {
        Some(ParallelType::Foxlake)
    } else {
        None
    }
}

/// The conflict policy a name denotes; the empty string (an absent key)
/// denotes the strict default, `Interrupt`.
pub open spec fn conflict_policy_of(s: Seq<char>) -> Option<ConflictPolicyEnum> {
    if s == "ignore"@ {
        Some(ConflictPolicyEnum::Ignore)
    } else if s == "interrupt"@ || s == Seq::<char>::empty() {
        Some(ConflictPolicyEnum::Interrupt)
    } else {
        None
    }
}

impl DbType {
    /// Parses a database kind name; an unknown name is a configuration
    /// error.
    pub fn from_str(s: &str) -> (r: Result<DbType, Error>)
        ensures
            match r {
                Ok(v) => db_type_of(s@) == Some(v),
                Err(x) => db_type_of(s@) is None && x is ConfigError,
            },
    {
        if str_eq(s, "mysql") {
            Ok(DbType::Mysql)
        } else if str_eq(s, "pg") {
            Ok(DbType::Pg)
        } else if str_eq(s, "mongo") {
            Ok(DbType::Mongo)
        } else if str_eq(s, "redis") {
            Ok(DbType::Redis)
        } else if str_eq(s, "kafka") {
            Ok(DbType::Kafka)
        } else if str_eq(s, "starrocks") {
            Ok(DbType::StarRocks)
        } else if str_eq(s, "foxlake") {
            Ok(DbType::Foxlake)
        } else {
            let mut m = "unknown db type: ".to_owned();
            m.append(s);
            Err(Error::ConfigError(m))
        }
    }
}

impl ExtractType {
    /// Parses an extract type name; an unknown name is a configuration
    /// error.
    pub fn from_str(s: &str) -> (r: Result<ExtractType, Error>)
        ensures
            match r {
                Ok(v) => extract_type_of(s@) == Some(v),
                Err(x) => extract_type_of(s@) is None && x is ConfigError,
            },
    {
        if str_eq(s, "snapshot") {
            Ok(ExtractType::Snapshot)
        } else if str_eq(s, "cdc") {
            Ok(ExtractType::Cdc)
        } else if str_eq(s, "check_log") {
            Ok(ExtractType::CheckLog)
        } else if str_eq(s, "struct") {
            Ok(ExtractType::Struct)
        } else if str_eq(s, "snapshot_file") {
            Ok(ExtractType::SnapshotFile)
        } else if str_eq(s, "scan") {
            Ok(ExtractType::Scan)
        } else if str_eq(s, "reshard") {
            Ok(ExtractType::Reshard)
        } else if str_eq(s, "foxlake_s3") {
            Ok(ExtractType::FoxlakeS3)
        } else {
            let mut m = "unknown extract type: ".to_owned();
            m.append(s);
            Err(Error::ConfigError(m))
        }
    }
}

impl SinkType {
    /// Parses a sink type name; an unknown name is a configuration error.
    pub fn from_str(s: &str) -> (r: Result<SinkType, Error>)
        ensures
            match r {
                Ok(v) => sink_type_of(s@) == Some(v),
                Err(x) => sink_type_of(s@) is None && x is ConfigError,
            },
    {
        if str_eq(s, "write") {
            Ok(SinkType::Write)
        } else if str_eq(s, "check") {
            Ok(SinkType::Check)
        } else if str_eq(s, "struct") {
            Ok(SinkType::Struct)
        } else if str_eq(s, "sql") {
            Ok(SinkType::Sql)
        } else if str_eq(s, "push") {
            Ok(SinkType::Push)
        } else if str_eq(s, "merge") {
            Ok(SinkType::Merge)
        } else if str_eq(s, "statistic") {
            Ok(SinkType::Statistic)
        } else if str_eq(s, "dummy") {
            Ok(SinkType::Dummy)
        } else {
            let mut m = "unknown sink type: ".to_owned();
            m.append(s);
            Err(Error::ConfigError(m))
        }
    }
}

impl ParallelType {
    /// Parses a parallel type name; an unknown name is a configuration
    /// error.
    pub fn from_str(s: &str) -> (r: Result<ParallelType, Error>)
        ensures
            match r {
                Ok(v) => parallel_type_of(s@) == Some(v),
                Err(x) => parallel_type_of(s@) is None && x is ConfigError,
            },
    {
        if str_eq(s, "serial") {
            Ok(ParallelType::Serial)
        } else if str_eq(s, "snapshot") {
            Ok(ParallelType::Snapshot)
        } else if str_eq(s, "rdb_partition") {
            Ok(ParallelType::RdbPartition)
        } else if str_eq(s, "rdb_merge") {
            Ok(ParallelType::RdbMerge)
        } else if str_eq(s, "rdb_check") {
            Ok(ParallelType::RdbCheck)
        } else if str_eq(s, "table") {
            Ok(ParallelType::Table)
        } else if str_eq(s, "mongo") {
            Ok(ParallelType::Mongo)
        } else if str_eq(s, "redis") {
            Ok(ParallelType::Redis)
        } else if str_eq(s, "foxlake") {
            Ok(ParallelType::Foxlake)
        } else {
            let mut m = "unknown parallel type: ".to_owned();
            m.append(s);
            Err(Error::ConfigError(m))
        }
    }
}

impl ConflictPolicyEnum {
    /// Parses a conflict policy name; an unknown name is a configuration
    /// error.
    pub fn from_str(s: &str) -> (r: Result<ConflictPolicyEnum, Error>)
        ensures
            match r {
                Ok(v) => conflict_policy_of(s@) == Some(v),
                Err(x) => conflict_policy_of(s@) is None && x is ConfigError,
            },
    {
        if str_eq(s, "ignore") {
            Ok(ConflictPolicyEnum::Ignore)
        } else if str_eq(s, "interrupt") || s.unicode_len() == 0 {
            proof {
                if s@.len() == 0 {
                    assert(s@ =~= Seq::<char>::empty());
                }
            }
            Ok(ConflictPolicyEnum::Interrupt)
        } else {
            let mut m = "unknown conflict policy: ".to_owned();
            m.append(s);
            Err(Error::ConfigError(m))
        }
    }
}

} // verus!
