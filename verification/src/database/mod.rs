//! Database configuration: backend types, pool settings, the configuration
//! presets for each backend, the connection URLs the backends are opened
//! with, and the choice of how a connection is made.

pub mod connection_string;
pub mod proxy;
pub mod proxy_row;

use crate::text::{concat2, owned};
use vstd::prelude::*;

verus! {

/// Error type for database operations.
#[derive(Debug)]
pub enum DatabaseError {
    /// Connection error
    Connection(String),
    /// Query error
    Query(String),
    /// Transaction error
    Transaction(String),
    /// Pool error
    Pool(String),
    /// Configuration error
    Configuration(String),
    /// Migration error
    Migration(String),
    /// Serialization/deserialization error
    Serialization(String),
}

/// Result type for database operations.
pub type DatabaseResult<T> = Result<T, DatabaseError>;

/// The message of a database error.
pub open spec fn database_error_text(e: DatabaseError) -> Seq<char> {
    match e {
        DatabaseError::Connection(m) => "connection error: "@ + m@,
        DatabaseError::Query(m) => "query error: "@ + m@,
        DatabaseError::Transaction(m) => "transaction error: "@ + m@,
        DatabaseError::Pool(m) => "pool error: "@ + m@,
        DatabaseError::Configuration(m) => "configuration error: "@ + m@,
        DatabaseError::Migration(m) => "migration error: "@ + m@,
        DatabaseError::Serialization(m) => "serialization error: "@ + m@,
    }
}

impl DatabaseError {
    /// The message of this error.
    pub fn message(&self) -> (r: String)
        ensures
            r@ == database_error_text(*self),
    {
        match self {
            DatabaseError::Connection(m) => concat2("connection error: ", m.as_str()),
            DatabaseError::Query(m) => concat2("query error: ", m.as_str()),
            DatabaseError::Transaction(m) => concat2("transaction error: ", m.as_str()),
            DatabaseError::Pool(m) => concat2("pool error: ", m.as_str()),
            DatabaseError::Configuration(m) => concat2("configuration error: ", m.as_str()),
            DatabaseError::Migration(m) => concat2("migration error: ", m.as_str()),
            DatabaseError::Serialization(m) => concat2("serialization error: ", m.as_str()),
        }
    }
}

/// Supported database types.
#[derive(Debug, Clone, Copy, PartialEq, Eq, Structural)]
pub enum DatabaseType {
    /// PostgreSQL database
    Postgres,
    /// MySQL database
    MySql,
    /// SQLite database
    Sqlite,
}

/// The lower-case name of a database type, as displayed and serialised.
pub open spec fn database_type_name(t: DatabaseType) -> Seq<char> {
    match t {
        DatabaseType::Postgres => "postgres"@,
        DatabaseType::MySql => "mysql"@,
        DatabaseType::Sqlite => "sqlite"@,
    }
}

impl DatabaseType {
    /// The display form of the database type: `postgres`, `mysql` or `sqlite`.
    pub fn to_string(&self) -> (r: String)
        ensures
            r@ == database_type_name(*self),
    {
        match self {
            DatabaseType::Postgres => owned("postgres"),
            DatabaseType::MySql => owned("mysql"),
            DatabaseType::Sqlite => owned("sqlite"),
        }
    }
}

/// Configuration for the connection pool.
#[derive(Debug, Clone)]
pub struct PoolConfig {
    /// Maximum number of connections in the pool
    pub max_connections: u32,
    /// Minimum number of connections to maintain
    pub min_connections: u32,
    /// Connection idle timeout
    pub idle_timeout_seconds: u64,
    /// Connection max lifetime
    pub max_lifetime_seconds: u64,
    /// Connection acquisition timeout
    pub acquire_timeout_seconds: u64,
}

/// Default maximum pool size.
pub fn default_max_connections() -> (r: u32)
    ensures
        r == 10,
{
    10
}

/// Default minimum pool size.
pub fn default_min_connections() -> (r: u32)
    ensures
        r == 2,
{
    2
}

/// Default idle timeout: five minutes.
pub fn default_idle_timeout() -> (r: u64)
    ensures
        r == 300,
{
    300
}

/// Default maximum connection lifetime: thirty minutes.
pub fn default_max_lifetime() -> (r: u64)
    ensures
        r == 1800,
{
    1800
}

/// Default acquisition timeout.
pub fn default_acquire_timeout() -> (r: u64)
    ensures
        r == 30,
{
    30
}

impl PoolConfig {
    /// Whether this is the default pool configuration.
    pub open spec fn is_default(&self) -> bool {
        &&& self.max_connections == 10
        &&& self.min_connections == 2
        &&& self.idle_timeout_seconds == 300
        &&& self.max_lifetime_seconds == 1800
        &&& self.acquire_timeout_seconds == 30
    }
}

impl Default for PoolConfig {
    fn default() -> (r: Self)
        ensures
            r.is_default(),
    {
        PoolConfig {
            max_connections: default_max_connections(),
            min_connections: default_min_connections(),
            idle_timeout_seconds: default_idle_timeout(),
            max_lifetime_seconds: default_max_lifetime(),
            acquire_timeout_seconds: default_acquire_timeout(),
        }
    }
}

/// Database configuration for establishing connections.
///
/// `extra_params` holds additional connection parameters as key/value pairs,
/// in the order in which they are appended to the connection URL.
#[derive(Debug, Clone)]
pub struct DatabaseConfig {
    /// Type of database to connect to
    pub db_type: DatabaseType,
    /// Database host (for Postgres/MySQL)
    pub host: Option<String>,
    /// Database port (for Postgres/MySQL)
    pub port: Option<u16>,
    /// Database name (for Postgres/MySQL) or file path (for SQLite)
    pub database: String,
    /// Database username (for Postgres/MySQL)
    pub username: Option<String>,
    /// Database password (for Postgres/MySQL)
    pub password: Option<String>,
    /// SSL mode (for Postgres)
    pub ssl_mode: Option<String>,
    /// Connection pool settings
    pub pool: PoolConfig,
    /// Additional connection parameters as key-value pairs
    pub extra_params: Vec<(String, String)>,
}

/// The view of a key/value list.
pub open spec fn pairs_view(v: Seq<(String, String)>) -> Seq<(Seq<char>, Seq<char>)> {
    v.map_values(|p: (String, String)| (p.0@, p.1@))
}

/// The view of an optional text.
pub open spec fn opt_view(o: Option<String>) -> Option<Seq<char>> {
    match o {
        Some(s) => Some(s@),
        None => None,
    }
}

impl Default for DatabaseConfig {
    /// An SQLite in-memory database with default pool settings.
    fn default() -> (r: Self)
        ensures
            r.db_type == DatabaseType::Sqlite,
            r.host is None,
            r.port is None,
            r.database@ == ":memory:"@,
            r.username is None,
            r.password is None,
            r.ssl_mode is None,
            r.pool.is_default(),
            r.extra_params@.len() == 0,
    {
        DatabaseConfig {
            db_type: DatabaseType::Sqlite,
            host: None,
            port: None,
            database: owned(":memory:"),
            username: None,
            password: None,
            ssl_mode: None,
            pool: PoolConfig::default(),
            extra_params: Vec::new(),
        }
    }
}

/// Create a PostgreSQL connection configuration.
pub fn postgres_config(host: &str, port: u16, database: &str, username: &str, password: &str) -> (r:
    DatabaseConfig)
    ensures
        r.db_type == DatabaseType::Postgres,
        opt_view(r.host) == Some(host@),
        r.port == Some(port),
        r.database@ == database@,
        opt_view(r.username) == Some(username@),
        opt_view(r.password) == Some(password@),
        opt_view(r.ssl_mode) == Some("prefer"@),
        r.pool.is_default(),
        pairs_view(r.extra_params@) == seq![("application_name"@, "pywatt_sdk"@)],
{
    let mut config = DatabaseConfig {
        db_type: DatabaseType::Postgres,
        host: Some(owned(host)),
        port: Some(port),
        database: owned(database),
        username: Some(owned(username)),
        password: Some(owned(password)),
        ssl_mode: Some(owned("prefer")),
        pool: PoolConfig::default(),
        extra_params: Vec::new(),
    };
    config.extra_params.push((owned("application_name"), owned("pywatt_sdk")));
    assert(pairs_view(config.extra_params@) =~= seq![("application_name"@, "pywatt_sdk"@)]);
    config
}

/// Create a MySQL connection configuration.
pub fn mysql_config(host: &str, port: u16, database: &str, username: &str, password: &str) -> (r:
    DatabaseConfig)
    ensures
        r.db_type == DatabaseType::MySql,
        opt_view(r.host) == Some(host@),
        r.port == Some(port),
        r.database@ == database@,
        opt_view(r.username) == Some(username@),
        opt_view(r.password) == Some(password@),
        r.ssl_mode is None,
        r.pool.is_default(),
        pairs_view(r.extra_params@) == seq![
            ("charset"@, "utf8mb4"@),
            ("collation"@, "utf8mb4_unicode_ci"@),
        ],
{
    let mut config = DatabaseConfig {
        db_type: DatabaseType::MySql,
        host: Some(owned(host)),
        port: Some(port),
        database: owned(database),
        username: Some(owned(username)),
        password: Some(owned(password)),
        ssl_mode: None,
        pool: PoolConfig::default(),
        extra_params: Vec::new(),
    };
    config.extra_params.push((owned("charset"), owned("utf8mb4")));
    config.extra_params.push((owned("collation"), owned("utf8mb4_unicode_ci")));
    assert(pairs_view(config.extra_params@) =~= seq![
        ("charset"@, "utf8mb4"@),
        ("collation"@, "utf8mb4_unicode_ci"@),
    ]);
    config
}

/// Create a SQLite connection configuration.
pub fn sqlite_config(database_path: &str) -> (r: DatabaseConfig)
    ensures
        r.db_type == DatabaseType::Sqlite,
        r.host is None,
        r.port is None,
        r.database@ == database_path@,
        r.username is None,
        r.password is None,
        r.ssl_mode is None,
        r.pool.is_default(),
        r.extra_params@.len() == 0,
{
    DatabaseConfig {
        db_type: DatabaseType::Sqlite,
        host: None,
        port: None,
        database: owned(database_path),
        username: None,
        password: None,
        ssl_mode: None,
        pool: PoolConfig::default(),
        extra_params: Vec::new(),
    }
}

/// How a database connection is to be made.
#[derive(Debug, Clone, Copy, PartialEq, Eq, Structural)]
pub enum ConnectionRoute {
    /// Through the orchestrator, over IPC (the module runs under an orchestrator).
    Proxy,
    /// Directly to the backend of the given type.
    Direct(DatabaseType),
}

/// Which backend support is compiled into the module.
#[derive(Debug, Clone, Copy)]
pub struct BackendSupport {
    pub ipc: bool,
    pub postgres: bool,
    pub mysql: bool,
    pub sqlite: bool,
}

/// The decision of `create_database_connection`: under an orchestrator the
/// connection goes through IPC; otherwise directly to the configured
/// backend. Each route whose support is not compiled in is a configuration
/// error with the message that names the missing feature.
pub fn choose_connection_route(running_as_module: bool, db_type: DatabaseType, support: BackendSupport)
    -> (r: DatabaseResult<ConnectionRoute>)
    ensures
        running_as_module && support.ipc ==> r matches Ok(ConnectionRoute::Proxy),
        running_as_module && !support.ipc ==> (r matches Err(DatabaseError::Configuration(m))
            && m@ == "IPC support is not enabled but running as a module. Enable the 'ipc' feature."@),
        !running_as_module ==> match db_type {
            DatabaseType::Postgres => if support.postgres {
                r matches Ok(ConnectionRoute::Direct(DatabaseType::Postgres))
            } else {
                (r matches Err(DatabaseError::Configuration(m))
                    && m@ == "PostgreSQL support is not enabled. Enable the 'postgres' feature."@)
            },
            DatabaseType::MySql => if support.mysql {
                r matches Ok(ConnectionRoute::Direct(DatabaseType::MySql))
            } else {
                (r matches Err(DatabaseError::Configuration(m))
                    && m@ == "MySQL support is not enabled. Enable the 'mysql' feature."@)
            },
            DatabaseType::Sqlite => if support.sqlite {
                r matches Ok(ConnectionRoute::Direct(DatabaseType::Sqlite))
            } else {
                (r matches Err(DatabaseError::Configuration(m))
                    && m@ == "SQLite support is not enabled. Enable the 'sqlite' feature."@)
            },
        },
{
    if running_as_module {
        if support.ipc {
            return Ok(ConnectionRoute::Proxy);
        }
        return Err(
            DatabaseError::Configuration(
                owned("IPC support is not enabled but running as a module. Enable the 'ipc' feature."),
            ),
        );
    }
    match db_type {
        DatabaseType::Postgres => {
            if support.postgres {
                Ok(ConnectionRoute::Direct(DatabaseType::Postgres))
            } else {
                Err(
                    DatabaseError::Configuration(
                        owned("PostgreSQL support is not enabled. Enable the 'postgres' feature."),
                    ),
                )
            }
        },
        DatabaseType::MySql => {
            if support.mysql {
                Ok(ConnectionRoute::Direct(DatabaseType::MySql))
            } else {
                Err(
                    DatabaseError::Configuration(
                        owned("MySQL support is not enabled. Enable the 'mysql' feature."),
                    ),
                )
            }
        },
        DatabaseType::Sqlite => {
            if support.sqlite {
                Ok(ConnectionRoute::Direct(DatabaseType::Sqlite))
            } else {
                Err(
                    DatabaseError::Configuration(
                        owned("SQLite support is not enabled. Enable the 'sqlite' feature."),
                    ),
                )
            }
        },
    }
}

} // verus!
