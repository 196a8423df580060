use dbmcp::config::{
    DatabaseBackend, DatabaseConfig, DEFAULT_IDLE_TIMEOUT_SECS, DEFAULT_MAX_LIFETIME_SECS,
    DEFAULT_MIN_CONNECTIONS,
};
use dbmcp::connection::{
    mysql_connect_settings, pool_settings, postgres_connect_settings, ConnectSettings, TlsMode,
};
use dbmcp::mysql::default_database_name;

fn mysql_base() -> DatabaseConfig {
    DatabaseConfig {
        backend: DatabaseBackend::Mysql,
        host: "db.example.com".into(),
        port: 3307,
        user: "admin".into(),
        password: Some("s3cret".into()),
        name: Some("mydb".into()),
        ..DatabaseConfig::default()
    }
}

fn pg_base() -> DatabaseConfig {
    DatabaseConfig {
        backend: DatabaseBackend::Postgres,
        host: "pg.example.com".into(),
        port: 5433,
        user: "pgadmin".into(),
        password: Some("pgpass".into()),
        name: Some("mydb".into()),
        ..DatabaseConfig::default()
    }
}

/// The settings a MySQL pool for the configured database connects with.
fn mysql_settings(config: &DatabaseConfig) -> ConnectSettings {
    mysql_connect_settings(config, &default_database_name(config))
}

/// The settings a PostgreSQL pool for the configured database connects with.
fn pg_settings(config: &DatabaseConfig) -> ConnectSettings {
    postgres_connect_settings(config, config.name.as_deref().unwrap_or(""))
}

fn assert_pool_defaults(config: &DatabaseConfig) {
    let opts = pool_settings(config);
    assert_eq!(opts.max_connections, config.max_pool_size);
    assert_eq!(opts.min_connections, DEFAULT_MIN_CONNECTIONS);
    assert_eq!(opts.idle_timeout_secs, DEFAULT_IDLE_TIMEOUT_SECS);
    assert_eq!(opts.max_lifetime_secs, DEFAULT_MAX_LIFETIME_SECS);
}

fn assert_connection_timeout(config: DatabaseConfig) {
    let opts = pool_settings(&DatabaseConfig { connection_timeout: Some(7), ..config });
    assert_eq!(opts.acquire_timeout_secs, Some(7));
}

fn assert_driver_default_timeout(config: &DatabaseConfig) {
    // No timeout is set, so the driver's own default (30 s) applies.
    assert_eq!(pool_settings(config).acquire_timeout_secs, None);
}

#[test]
fn adapter_pool_options_applies_defaults() {
    assert_pool_defaults(&mysql_base());
    assert_pool_defaults(&pg_base());
}

#[test]
fn adapter_pool_options_applies_connection_timeout() {
    assert_connection_timeout(mysql_base());
    assert_connection_timeout(pg_base());
}

#[test]
fn adapter_pool_options_without_connection_timeout_uses_sqlx_default() {
    assert_driver_default_timeout(&mysql_base());
    assert_driver_default_timeout(&pg_base());
}

#[test]
fn adapter_try_from_basic_config() {
    let opts = mysql_settings(&mysql_base());
    assert_eq!(opts.host, "db.example.com");
    assert_eq!(opts.port, 3307);
    assert_eq!(opts.user, "admin");
    assert_eq!(opts.database.as_deref(), Some("mydb"));
    let opts = pg_settings(&pg_base());
    assert_eq!(opts.host, "pg.example.com");
    assert_eq!(opts.port, 5433);
    assert_eq!(opts.user, "pgadmin");
    assert_eq!(opts.database.as_deref(), Some("mydb"));
}

#[test]
fn adapter_try_from_with_charset() {
    let opts = mysql_settings(&DatabaseConfig { charset: Some("utf8mb4".into()), ..mysql_base() });
    assert_eq!(opts.charset.as_deref(), Some("utf8mb4"));
}

#[test]
fn adapter_try_from_with_ssl_required() {
    let opts = mysql_settings(&DatabaseConfig { ssl: true, ssl_verify_cert: false, ..mysql_base() });
    assert!(matches!(opts.tls, TlsMode::Required), "expected Required, got {:?}", opts.tls);
}

#[test]
fn adapter_try_from_with_ssl_require() {
    let opts = pg_settings(&DatabaseConfig { ssl: true, ssl_verify_cert: false, ..pg_base() });
    assert!(matches!(opts.tls, TlsMode::Required), "expected Require, got {:?}", opts.tls);
}

#[test]
fn adapter_try_from_with_ssl_verify_ca() {
    let opts = mysql_settings(&DatabaseConfig { ssl: true, ssl_verify_cert: true, ..mysql_base() });
    assert!(matches!(opts.tls, TlsMode::VerifyCa), "expected VerifyCa, got {:?}", opts.tls);
    let opts = pg_settings(&DatabaseConfig { ssl: true, ssl_verify_cert: true, ..pg_base() });
    assert!(matches!(opts.tls, TlsMode::VerifyCa), "expected VerifyCa, got {:?}", opts.tls);
}

#[test]
fn adapter_try_from_without_password() {
    let opts = mysql_settings(&DatabaseConfig { password: None, ..mysql_base() });
    assert_eq!(opts.host, "db.example.com");
    assert!(opts.password.is_none());
    let opts = pg_settings(&DatabaseConfig { password: None, ..pg_base() });
    assert_eq!(opts.host, "pg.example.com");
}

#[test]
fn adapter_try_from_without_database_name() {
    assert_eq!(mysql_settings(&DatabaseConfig { name: None, ..mysql_base() }).database, None);
    assert_eq!(pg_settings(&DatabaseConfig { name: None, ..pg_base() }).database, None);
}

#[test]
fn handler_pool_options_applies_defaults() {
    assert_pool_defaults(&mysql_base());
}

#[test]
fn handler_pool_options_applies_connection_timeout() {
    assert_connection_timeout(mysql_base());
}

#[test]
fn handler_pool_options_without_connection_timeout_uses_sqlx_default() {
    assert_driver_default_timeout(&mysql_base());
}

#[test]
fn handler_try_from_basic_config() {
    let opts = mysql_settings(&mysql_base());
    assert_eq!(opts.host, "db.example.com");
    assert_eq!(opts.port, 3307);
    assert_eq!(opts.user, "admin");
    assert_eq!(opts.database.as_deref(), Some("mydb"));
}

#[test]
fn handler_try_from_with_charset() {
    let opts = mysql_settings(&DatabaseConfig { charset: Some("utf8mb4".into()), ..mysql_base() });
    assert_eq!(opts.charset.as_deref(), Some("utf8mb4"));
}

#[test]
fn handler_try_from_with_ssl_required() {
    let opts = mysql_settings(&DatabaseConfig { ssl: true, ssl_verify_cert: false, ..mysql_base() });
    assert!(matches!(opts.tls, TlsMode::Required), "expected Required, got {:?}", opts.tls);
}

#[test]
fn handler_try_from_with_ssl_verify_ca() {
    let opts = mysql_settings(&DatabaseConfig { ssl: true, ssl_verify_cert: true, ..mysql_base() });
    assert!(matches!(opts.tls, TlsMode::VerifyCa), "expected VerifyCa, got {:?}", opts.tls);
}

#[test]
fn handler_try_from_without_password() {
    let opts = mysql_settings(&DatabaseConfig { password: None, ..mysql_base() });
    assert_eq!(opts.host, "db.example.com");
}

#[test]
fn handler_try_from_without_database_name() {
    assert_eq!(mysql_settings(&DatabaseConfig { name: None, ..mysql_base() }).database, None);
}

#[test]
fn connection_pool_options_applies_defaults() {
    assert_pool_defaults(&pg_base());
}

#[test]
fn connection_pool_options_applies_connection_timeout() {
    assert_connection_timeout(pg_base());
}

#[test]
fn connection_pool_options_without_connection_timeout_uses_sqlx_default() {
    assert_driver_default_timeout(&pg_base());
}

#[test]
fn connection_try_from_basic_config() {
    let opts = pg_settings(&pg_base());
    assert_eq!(opts.host, "pg.example.com");
    assert_eq!(opts.port, 5433);
    assert_eq!(opts.user, "pgadmin");
    assert_eq!(opts.database.as_deref(), Some("mydb"));
}

#[test]
fn connection_try_from_with_ssl_require() {
    let opts = pg_settings(&DatabaseConfig { ssl: true, ssl_verify_cert: false, ..pg_base() });
    assert!(matches!(opts.tls, TlsMode::Required), "expected Require, got {:?}", opts.tls);
}

#[test]
fn connection_try_from_with_ssl_verify_ca() {
    let opts = pg_settings(&DatabaseConfig { ssl: true, ssl_verify_cert: true, ..pg_base() });
    assert!(matches!(opts.tls, TlsMode::VerifyCa), "expected VerifyCa, got {:?}", opts.tls);
}

#[test]
fn connection_try_from_without_database_name() {
    assert_eq!(pg_settings(&DatabaseConfig { name: None, ..pg_base() }).database, None);
}

#[test]
fn connection_try_from_without_password() {
    let opts = pg_settings(&DatabaseConfig { password: None, ..pg_base() });
    assert_eq!(opts.host, "pg.example.com");
}

#[test]
fn default_db_derived_from_config() {
    assert_eq!(default_database_name(&mysql_base()), "mydb");
}

#[test]
fn defaults_db_to_empty_when_name_missing() {
    assert_eq!(default_database_name(&DatabaseConfig { name: None, ..mysql_base() }), "");
}

#[test]
fn defaults_db_to_username_when_name_missing() {
    let config = DatabaseConfig { name: None, ..pg_base() };
    assert_eq!(dbmcp::postgres::default_database_name(&config), "pgadmin");
}

#[test]
fn new_defaults_db_to_username() {
    let config = DatabaseConfig { name: None, ..pg_base() };
    assert_eq!(dbmcp::postgres::default_database_name(&config), "pgadmin");
    assert_eq!(dbmcp::postgres::default_database_name(&pg_base()), "mydb");
}

#[test]
fn connection_none_target_returns_default_pool() {
    let mysql_default = default_database_name(&mysql_base());
    assert_eq!(dbmcp::connection::mysql_pool_database(None, &mysql_default).unwrap(), "mydb");
    let pg_default = dbmcp::postgres::default_database_name(&pg_base());
    assert_eq!(dbmcp::connection::postgres_pool_target(None, &pg_default).unwrap(), None);
}

#[test]
fn default_db_target_returns_default_pool() {
    let mysql_default = default_database_name(&mysql_base());
    assert_eq!(dbmcp::connection::mysql_pool_database(Some("mydb"), &mysql_default).unwrap(), "mydb");
}

#[test]
fn connection_arbitrary_target_database_is_permitted() {
    let mysql_default = default_database_name(&mysql_base());
    assert_eq!(dbmcp::connection::mysql_pool_database(Some("any_db"), &mysql_default).unwrap(), "any_db");
    let pg_default = dbmcp::postgres::default_database_name(&pg_base());
    assert_eq!(
        dbmcp::connection::postgres_pool_target(Some("any_db"), &pg_default).unwrap(),
        Some("any_db".to_owned())
    );
}
