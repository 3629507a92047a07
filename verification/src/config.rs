//! Configuration records and where they are read from: the active profile,
//! the per-profile and per-module YAML files, the database pool settings and
//! the Redis connection settings.

use vstd::prelude::*;
use crate::text::concat;
use redis::{ConnectionAddr, ConnectionInfo, IntoConnectionInfo, RedisConnectionInfo, RedisError};

verus! {

/// The `profiles` section of `application.yml`.
pub struct Profiles {
    /// The name of the active profile (`dev`, `test`, `prod`).
    pub active: String,
}

/// The content of `application.yml`.
pub struct EnvConfig {
    pub profiles: Profiles,
}

/// The file that holds the configuration of a profile: `application-<action>.yml`.
pub fn app_config_path(action: &str) -> (r: String)
    ensures
        r@ == "application-"@ + action@ + ".yml"@,
{
    let mut path = concat("application-", action);
    path.append(".yml");
    path
}

/// The file that holds the configuration of a module: `<mod_config>.yml`.
pub fn mod_config_path(mod_config: &str) -> (r: String)
    ensures
        r@ == mod_config@ + ".yml"@,
{
    concat(mod_config, ".yml")
}

/// The file of the active profile named by the environment configuration.
pub fn active_config_path(env: &EnvConfig) -> (r: String)
    ensures
        r@ == "application-"@ + env.profiles.active@ + ".yml"@,
{
    app_config_path(env.profiles.active.as_str())
}

/// The database settings (`db.yml`); each time is in microseconds.
pub struct DbConfig {
    pub url: String,
    pub idle_timeout: Option<u64>,
    pub max_connections: Option<u32>,
    pub min_connections: Option<u32>,
    pub max_lifetime: Option<u64>,
    pub acquire_timeout: Option<u64>,
}

/// The Redis settings (`redis.yml`).
pub struct RedisConfig {
    pub db: i64,
    pub server: String,
    pub port: u16,
    pub username: Option<String>,
    pub password: Option<String>,
}

/// A Redis connection over TCP: host, port, database and credentials.
pub struct RedisConnectionSettings {
    pub host: String,
    pub port: u16,
    pub db: i64,
    pub username: Option<String>,
    pub password: Option<String>,
}

/// The views of an optional string.
pub open spec fn opt_view(o: Option<String>) -> Option<Seq<char>> {
    match o {
        Some(s) => Some(s@),
        None => None,
    }
}

fn clone_opt(o: &Option<String>) -> (r: Option<String>)
    ensures
        opt_view(r) == opt_view(*o),
{
    match o {
        Some(s) => Some(s.clone()),
        None => None,
    }
}

/// The connection that the Redis settings describe: a TCP connection to the
/// configured server and port, on the configured database, with the
/// configured credentials.
pub fn load_redis_config(config: &RedisConfig) -> (r: RedisConnectionSettings)
    ensures
        r.host@ == config.server@,
        r.port == config.port,
        r.db == config.db,
        opt_view(r.username) == opt_view(config.username),
        opt_view(r.password) == opt_view(config.password),
{
    RedisConnectionSettings {
        host: config.server.clone(),
        port: config.port,
        db: config.db,
        username: clone_opt(&config.username),
        password: clone_opt(&config.password),
    }
}

/// redis's connection settings (`redis::ConnectionInfo`), carried through.
#[verifier::external_type_specification]
#[verifier::external_body]
pub struct ExConnectionInfo(redis::ConnectionInfo);

/// redis's error type.
#[verifier::external_type_specification]
#[verifier::external_body]
pub struct ExRedisError(redis::RedisError);

/// Whether redis turns the URL into connection settings: it parses as a URL
/// with a `redis`, `rediss`, `unix` or `redis+unix` scheme and names what
/// that scheme needs.
pub uninterp spec fn redis_url_accepted(url: Seq<char>) -> bool;

/// `redis::IntoConnectionInfo::into_connection_info` on a URL. Whether it
/// succeeds is a function of the URL alone, named `redis_url_accepted`.
#[verifier::external_body]
fn url_connection_info(url: &str) -> (r: Result<ConnectionInfo, RedisError>)
    ensures
        r is Ok == redis_url_accepted(url@),
{
    url.into_connection_info()
}

/// The `redis::ConnectionInfo` of a TCP connection with these settings.
#[verifier::external_body]
fn tcp_connection_info(s: RedisConnectionSettings) -> ConnectionInfo {
    ConnectionInfo {
        addr: ConnectionAddr::Tcp(s.host, s.port),
        redis: RedisConnectionInfo { db: s.db, username: s.username, password: s.password },
    }
}

/// Where a Redis connection manager connects to: a connection URL such as
/// `redis://localhost`, or the configured settings.
pub enum RedisTarget {
    Url(String),
    Settings(RedisConfig),
}

/// The redis connection settings of a target: a URL as redis reads it, which
/// fails when redis does not accept it; the configured settings as a TCP
/// connection to the configured server (see `load_redis_config`).
pub fn redis_connection_info(target: RedisTarget) -> (r: Result<ConnectionInfo, RedisError>)
    ensures
        target matches RedisTarget::Url(u) ==> (r is Ok == redis_url_accepted(u@)),
        target is Settings ==> r is Ok,
{
    match target {
        RedisTarget::Url(u) => url_connection_info(u.as_str()),
        RedisTarget::Settings(c) => Ok(tcp_connection_info(load_redis_config(&c))),
    }
}

} // verus!
