//! What a database pool is built with: the connection settings drawn from
//! the configuration, the pool's sizing, and the database that a request
//! for a pool resolves to.

use vstd::prelude::*;
use crate::config::{
    DatabaseConfig, DEFAULT_MIN_CONNECTIONS, DEFAULT_IDLE_TIMEOUT_SECS, DEFAULT_MAX_LIFETIME_SECS,
};
use crate::error::AppError;
use crate::identifier::{is_valid_identifier, validate_identifier};
use crate::text::{eq_ignore_ascii_case_spec, str_eq_ignore_ascii_case, str_eq};

verus! {

/// How the connection negotiates TLS.
#[derive(Debug, Clone, Copy, PartialEq, Eq, Structural)]
pub enum TlsMode {
    /// The driver's own default (SSL not requested).
    DriverDefault,
    /// TLS required, the server certificate not verified.
    Required,
    /// TLS required, the server certificate verified against the CA.
    VerifyCa,
}

/// The settings a connection is opened with.
pub struct ConnectSettings {
    /// Server host.
    pub host: String,
    /// Server port.
    pub port: u16,
    /// User name.
    pub user: String,
    /// Password, when one is configured.
    pub password: Option<String>,
    /// Database to select, when one is named.
    pub database: Option<String>,
    /// Character set, when one is configured (MySQL/MariaDB only).
    pub charset: Option<String>,
    /// TLS negotiation.
    pub tls: TlsMode,
    /// CA certificate file, used with TLS.
    pub ssl_ca: Option<String>,
    /// Client certificate file, used with TLS.
    pub ssl_cert: Option<String>,
    /// Client key file, used with TLS.
    pub ssl_key: Option<String>,
}

/// The sizing and lifetimes of a connection pool.
#[derive(Debug, Clone, Copy)]
pub struct PoolSettings {
    /// Most connections open at once.
    pub max_connections: u32,
    /// Connections kept open.
    pub min_connections: u32,
    /// Seconds an idle connection is kept.
    pub idle_timeout_secs: u64,
    /// Seconds a connection lives at most.
    pub max_lifetime_secs: u64,
    /// Seconds to wait for a connection, when configured (else the driver's
    /// default).
    pub acquire_timeout_secs: Option<u64>,
}

/// The text of an optional string.
pub open spec fn opt_text(o: Option<String>) -> Option<Seq<char>> {
    match o {
        Some(s) => Some(s@),
        None => None,
    }
}

/// The TLS mode of a configuration: requested by `ssl`, verifying the
/// server when `ssl_verify_cert` is set.
pub open spec fn tls_mode(config: DatabaseConfig) -> TlsMode {
    if config.ssl {
        if config.ssl_verify_cert {
            TlsMode::VerifyCa
        } else {
            TlsMode::Required
        }
    } else {
        TlsMode::DriverDefault
    }
}

/// The connection settings of `config` for `database`: the database is
/// selected only when named, the certificate files only with TLS, the
/// character set only when `with_charset`.
pub open spec fn settings_of(
    s: ConnectSettings,
    config: DatabaseConfig,
    database: Seq<char>,
    with_charset: bool,
) -> bool {
    &&& s.host@ == config.host@
    &&& s.port == config.port
    &&& s.user@ == config.user@
    &&& opt_text(s.password) == opt_text(config.password)
    &&& opt_text(s.database) == if database.len() == 0 {
        None
    } else {
        Some(database)
    }
    &&& opt_text(s.charset) == if with_charset {
        opt_text(config.charset)
    } else {
        None
    }
    &&& s.tls == tls_mode(config)
    &&& opt_text(s.ssl_ca) == if config.ssl {
        opt_text(config.ssl_ca)
    } else {
        None
    }
    &&& opt_text(s.ssl_cert) == if config.ssl {
        opt_text(config.ssl_cert)
    } else {
        None
    }
    &&& opt_text(s.ssl_key) == if config.ssl {
        opt_text(config.ssl_key)
    } else {
        None
    }
}

fn clone_text(o: &Option<String>) -> (r: Option<String>)
    ensures
        opt_text(r) == opt_text(*o),
{
    match o {
        Some(s) => Some(s.clone()),
        None => None,
    }
}

fn connect_settings(config: &DatabaseConfig, database: &str, with_charset: bool) -> (s:
    ConnectSettings)
    ensures
        settings_of(s, *config, database@, with_charset),
{
    let tls = if config.ssl {
        if config.ssl_verify_cert {
            TlsMode::VerifyCa
        } else {
            TlsMode::Required
        }
    } else {
        TlsMode::DriverDefault
    };
    let (ssl_ca, ssl_cert, ssl_key) = if config.ssl {
        (clone_text(&config.ssl_ca), clone_text(&config.ssl_cert), clone_text(&config.ssl_key))
    } else {
        (None, None, None)
    };
    ConnectSettings {
        host: config.host.clone(),
        port: config.port,
        user: config.user.clone(),
        password: clone_text(&config.password),
        database: if database.is_empty() {
            None
        } else {
            Some(database.to_owned())
        },
        charset: if with_charset {
            clone_text(&config.charset)
        } else {
            None
        },
        tls,
        ssl_ca,
        ssl_cert,
        ssl_key,
    }
}

/// With TLS on, a connection presents exactly the configured files: the CA
/// certificate from `DB_SSL_CA`, the client certificate from `DB_SSL_CERT`
/// and the client key from `DB_SSL_KEY`; with TLS off it presents none and
/// negotiates with the driver's default. The same holds for MySQL/MariaDB and
/// PostgreSQL settings.
pub proof fn lemma_tls_files_as_configured(
    s: ConnectSettings,
    config: DatabaseConfig,
    database: Seq<char>,
    with_charset: bool,
)
    requires
        settings_of(s, config, database, with_charset),
    ensures
        config.ssl ==> opt_text(s.ssl_ca) == opt_text(config.ssl_ca) && opt_text(s.ssl_cert)
            == opt_text(config.ssl_cert) && opt_text(s.ssl_key) == opt_text(config.ssl_key)
            && s.tls != TlsMode::DriverDefault,
        !config.ssl ==> s.ssl_ca is None && s.ssl_cert is None && s.ssl_key is None && s.tls
            == TlsMode::DriverDefault,
        config.ssl && config.ssl_verify_cert <==> s.tls == TlsMode::VerifyCa,
{
}

/// A connection reaches the configured server as the configured user with
/// the configured password, selects `database` exactly when it is named, and
/// uses the configured character set only where one is asked for.
pub proof fn lemma_connection_as_configured(
    s: ConnectSettings,
    config: DatabaseConfig,
    database: Seq<char>,
    with_charset: bool,
)
    requires
        settings_of(s, config, database, with_charset),
    ensures
        s.host@ == config.host@ && s.port == config.port && s.user@ == config.user@,
        s.password is Some <==> config.password is Some,
        s.password is Some ==> s.password->0@ == config.password->0@,
        s.database is Some <==> database.len() > 0,
        s.database is Some ==> s.database->0@ == database,
        s.charset is Some <==> with_charset && config.charset is Some,
        s.charset is Some ==> s.charset->0@ == config.charset->0@,
{
}

/// The MySQL/MariaDB connection settings for `database` (`""` selects no
/// database).
pub fn mysql_connect_settings(config: &DatabaseConfig, database: &str) -> (s: ConnectSettings)
    ensures
        settings_of(s, *config, database@, true),
{
    connect_settings(config, database, true)
}

/// The PostgreSQL connection settings for `database` (`""` selects no
/// database, leaving the server's default); the character set is not used.
pub fn postgres_connect_settings(config: &DatabaseConfig, database: &str) -> (s: ConnectSettings)
    ensures
        settings_of(s, *config, database@, false),
{
    connect_settings(config, database, false)
}

/// The pool sizing of `config`: its pool size and connection timeout, with
/// the fixed minimum, idle timeout and lifetime.
pub fn pool_settings(config: &DatabaseConfig) -> (p: PoolSettings)
    ensures
        p.max_connections == config.max_pool_size,
        p.min_connections == DEFAULT_MIN_CONNECTIONS,
        p.idle_timeout_secs == DEFAULT_IDLE_TIMEOUT_SECS,
        p.max_lifetime_secs == DEFAULT_MAX_LIFETIME_SECS,
        p.acquire_timeout_secs == config.connection_timeout,
{
    PoolSettings {
        max_connections: config.max_pool_size,
        min_connections: DEFAULT_MIN_CONNECTIONS,
        idle_timeout_secs: DEFAULT_IDLE_TIMEOUT_SECS,
        max_lifetime_secs: DEFAULT_MAX_LIFETIME_SECS,
        acquire_timeout_secs: config.connection_timeout,
    }
}

/// The text of an optional string slice.
pub open spec fn opt_str(o: Option<&str>) -> Option<Seq<char>> {
    match o {
        Some(s) => Some(s@),
        None => None,
    }
}

/// Resolves the database of a MySQL pool request: no target (or an empty
/// one) is the default database; a named target is checked as an
/// identifier unless it is the configured default (compared ignoring ASCII
/// case).
pub fn mysql_pool_database(target: Option<&str>, default: &str) -> (r: Result<String, AppError>)
    ensures
        match opt_str(target) {
            Some(t) if t.len() > 0 => if (default@.len() == 0 || !eq_ignore_ascii_case_spec(
                default@,
                t,
            )) && !is_valid_identifier(t) {
                r matches Err(AppError::InvalidIdentifier(n)) && n@ == t
            } else {
                r matches Ok(s) && s@ == t
            },
            _ => r matches Ok(s) && s@ == default@,
        },
{
    let name: &str = match target {
        Some(name) => name,
        None => return Ok(default.to_owned()),
    };
    if name.is_empty() {
        return Ok(default.to_owned());
    }
    if default.is_empty() || !str_eq_ignore_ascii_case(default, name) {
        match validate_identifier(name) {
            Ok(()) => {},
            Err(e) => return Err(e),
        }
    }
    Ok(name.to_owned())
}

/// Resolves a PostgreSQL pool request: `None` for the default pool (no
/// target, an empty one, or the default database's exact name), else the
/// named database, which must be a valid identifier.
pub fn postgres_pool_target(target: Option<&str>, default_db: &str) -> (r: Result<
    Option<String>,
    AppError,
>)
    ensures
        match opt_str(target) {
            Some(t) if t.len() > 0 && t != default_db@ => if is_valid_identifier(t) {
                r matches Ok(Some(s)) && s@ == t
            } else {
                r matches Err(AppError::InvalidIdentifier(n)) && n@ == t
            },
            _ => r matches Ok(None),
        },
{
    match target {
        Some(name) => {
            if name.is_empty() || str_eq(name, default_db) {
                Ok(None)
            } else {
                match validate_identifier(name) {
                    Ok(()) => Ok(Some(name.to_owned())),
                    Err(e) => Err(e),
                }
            }
        },
        None => Ok(None),
    }
}

} // verus!
