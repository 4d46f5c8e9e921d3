//! The settings of the service.

use vstd::prelude::*;
use vstd::string::StringExecFns;
use crate::text::{decimal, decimal_text, parse_int, parsed_int};

verus! {

/// The settings that the service reads when it starts.
#[derive(Debug)]
pub struct Config {
    pub database_url: String,
    pub host: String,
    pub port: u16,
    pub default_storage_quota: i64,
    pub min_replica_count: i32,
    pub node_heartbeat_timeout_minutes: i32,
}

/// A setting that is no number of its range.
#[derive(Debug, Clone, Copy, PartialEq, Eq, Structural)]
pub enum ConfigError {
    Port,
    DefaultStorageQuota,
    MinReplicaCount,
    NodeHeartbeatTimeout,
}

/// The value of a setting: what the environment holds, or the default.
pub open spec fn setting(value: Option<Seq<char>>, default: Seq<char>) -> Seq<char> {
    match value {
        Some(text) => text,
        None => default,
    }
}

/// The view of an optional string.
pub open spec fn text_of(value: Option<String>) -> Option<Seq<char>> {
    match value {
        Some(text) => Some(text@),
        None => None,
    }
}

fn or_default(value: Option<String>, default: &str) -> (text: String)
    ensures
        text@ == setting(text_of(value), default@),
{
    match value {
        Some(text) => text,
        None => String::from_str(default),
    }
}

impl Config {
    /// Builds the settings from what the environment holds under
    /// `DATABASE_URL`, `HOST`, `PORT`, `DEFAULT_STORAGE_QUOTA`,
    /// `MIN_REPLICA_COUNT` and `NODE_HEARTBEAT_TIMEOUT`. A setting that is
    /// missing gets its default: a local database, all interfaces, port
    /// 3000, a quota of one gibibyte, three replicas, ten minutes. The
    /// first number that does not parse is reported.
    pub fn from_values(
        database_url: Option<String>,
        host: Option<String>,
        port: Option<String>,
        default_storage_quota: Option<String>,
        min_replica_count: Option<String>,
        node_heartbeat_timeout: Option<String>,
    ) -> (config: Result<Config, ConfigError>)
        ensures
            match config {
                Ok(c) => {
                    &&& c.database_url@ == setting(text_of(database_url), "sqlite://hyrule.db"@)
                    &&& c.host@ == setting(text_of(host), "0.0.0.0"@)
                    &&& parsed_int(setting(text_of(port), "3000"@), false, 0, 0xffff) == Some(
                        c.port as int,
                    )
                    &&& parsed_int(
                        setting(text_of(default_storage_quota), "1073741824"@),
                        true,
                        i64::MIN as int,
                        i64::MAX as int,
                    ) == Some(c.default_storage_quota as int)
                    &&& parsed_int(
                        setting(text_of(min_replica_count), "3"@),
                        true,
                        i32::MIN as int,
                        i32::MAX as int,
                    ) == Some(c.min_replica_count as int)
                    &&& parsed_int(
                        setting(text_of(node_heartbeat_timeout), "10"@),
                        true,
                        i32::MIN as int,
                        i32::MAX as int,
                    ) == Some(c.node_heartbeat_timeout_minutes as int)
                },
                Err(e) => {
                    let bad_port = parsed_int(setting(text_of(port), "3000"@), false, 0, 0xffff)
                        is None;
                    let bad_quota = parsed_int(
                        setting(text_of(default_storage_quota), "1073741824"@),
                        true,
                        i64::MIN as int,
                        i64::MAX as int,
                    ) is None;
                    let bad_replicas = parsed_int(
                        setting(text_of(min_replica_count), "3"@),
                        true,
                        i32::MIN as int,
                        i32::MAX as int,
                    ) is None;
                    let bad_timeout = parsed_int(
                        setting(text_of(node_heartbeat_timeout), "10"@),
                        true,
                        i32::MIN as int,
                        i32::MAX as int,
                    ) is None;
                    e == if bad_port {
                        ConfigError::Port
                    } else if bad_quota {
                        ConfigError::DefaultStorageQuota
                    } else if bad_replicas {
                        ConfigError::MinReplicaCount
                    } else {
                        ConfigError::NodeHeartbeatTimeout
                    } && (bad_port || bad_quota || bad_replicas || bad_timeout)
                },
            },
    {
        let database_url = or_default(database_url, "sqlite://hyrule.db");
        let host = or_default(host, "0.0.0.0");
        let port_text = or_default(port, "3000");
        let port = match parse_int(port_text.as_str(), false, 0, 0xffff) {
            Some(value) => value as u16,
            None => {
                return Err(ConfigError::Port);
            },
        };
        let quota_text = or_default(default_storage_quota, "1073741824");
        let default_storage_quota = match parse_int(
            quota_text.as_str(),
            true,
            i64::MIN as i128,
            i64::MAX as i128,
        ) {
            Some(value) => value as i64,
            None => {
                return Err(ConfigError::DefaultStorageQuota);
            },
        };
        let replicas_text = or_default(min_replica_count, "3");
        let min_replica_count = match parse_int(
            replicas_text.as_str(),
            true,
            i32::MIN as i128,
            i32::MAX as i128,
        ) {
            Some(value) => value as i32,
            None => {
                return Err(ConfigError::MinReplicaCount);
            },
        };
        let timeout_text = or_default(node_heartbeat_timeout, "10");
        let node_heartbeat_timeout_minutes = match parse_int(
            timeout_text.as_str(),
            true,
            i32::MIN as i128,
            i32::MAX as i128,
        ) {
            Some(value) => value as i32,
            None => {
                return Err(ConfigError::NodeHeartbeatTimeout);
            },
        };
        Ok(
            Config {
                database_url,
                host,
                port,
                default_storage_quota,
                min_replica_count,
                node_heartbeat_timeout_minutes,
            },
        )
    }

    /// The address that the service listens on, as text: the host, a
    /// colon and the port.
    pub fn server_addr_text(&self) -> (address: String)
        ensures
            address@ == self.host@ + seq![':'] + decimal(self.port as nat),
    {
        let mut address = self.host.clone();
        address.append(":");
        let port = decimal_text(self.port as u64);
        address.append(port.as_str());
        proof {
            reveal_strlit(":");
        }
        address
    }
}

} // verus!
