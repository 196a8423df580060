use dbmcp::config::{
    Config, ConfigError, DatabaseBackend, DatabaseConfig, HttpConfig, SslFilesPresent,
    DEFAULT_HTTP_HOST, DEFAULT_HTTP_PORT, DEFAULT_PAGE_SIZE, MAX_PAGE_SIZE,
};

const NO_SSL_FILES: SslFilesPresent = SslFilesPresent { ca: false, cert: false, key: false };

fn db_config(backend: DatabaseBackend) -> DatabaseConfig {
    DatabaseConfig {
        backend,
        port: backend.default_port(),
        user: backend.default_user().into(),
        ..DatabaseConfig::default()
    }
}

fn base_config(backend: DatabaseBackend) -> Config {
    Config { database: db_config(backend), http: None }
}

fn mysql_config() -> Config {
    Config {
        database: DatabaseConfig {
            port: 3306,
            user: "root".into(),
            password: Some("secret".into()),
            ..db_config(DatabaseBackend::Mysql)
        },
        ..base_config(DatabaseBackend::Mysql)
    }
}

fn http_config() -> HttpConfig {
    HttpConfig {
        host: DEFAULT_HTTP_HOST.into(),
        port: DEFAULT_HTTP_PORT,
        allowed_origins: HttpConfig::default_allowed_origins(),
        allowed_hosts: HttpConfig::default_allowed_hosts(),
    }
}

#[test]
fn valid_mysql_config_passes() {
    assert!(mysql_config().database.validate(NO_SSL_FILES).is_ok());
}

#[test]
fn valid_postgres_config_passes() {
    let config = Config {
        database: DatabaseConfig {
            user: "pguser".into(),
            port: 5432,
            ..db_config(DatabaseBackend::Postgres)
        },
        ..base_config(DatabaseBackend::Postgres)
    };
    assert!(config.database.validate(NO_SSL_FILES).is_ok());
}

#[test]
fn valid_sqlite_config_passes() {
    let config = Config {
        database: DatabaseConfig {
            name: Some("./test.db".into()),
            ..db_config(DatabaseBackend::Sqlite)
        },
        ..base_config(DatabaseBackend::Sqlite)
    };
    assert!(config.database.validate(NO_SSL_FILES).is_ok());
}

#[test]
fn defaults_resolved_at_construction() {
    let mysql = base_config(DatabaseBackend::Mysql);
    assert_eq!(mysql.database.host, "localhost");
    assert_eq!(mysql.database.port, 3306);
    assert_eq!(mysql.database.user, "root");

    let pg = base_config(DatabaseBackend::Postgres);
    assert_eq!(pg.database.port, 5432);
    assert_eq!(pg.database.user, "postgres");

    let sqlite = base_config(DatabaseBackend::Sqlite);
    assert_eq!(sqlite.database.port, 0);
    assert_eq!(sqlite.database.user, "");
}

#[test]
fn explicit_values_override_defaults() {
    let config = Config {
        database: DatabaseConfig {
            host: "dbserver.example.com".into(),
            port: 13306,
            user: "myuser".into(),
            ..db_config(DatabaseBackend::Mysql)
        },
        ..base_config(DatabaseBackend::Mysql)
    };
    assert_eq!(config.database.host, "dbserver.example.com");
    assert_eq!(config.database.port, 13306);
    assert_eq!(config.database.user, "myuser");
}

#[test]
fn mysql_without_user_gets_default() {
    let config = base_config(DatabaseBackend::Mysql);
    assert_eq!(config.database.user, "root");
    assert!(config.database.validate(NO_SSL_FILES).is_ok());
}

#[test]
fn sqlite_requires_db_name() {
    let config = base_config(DatabaseBackend::Sqlite);
    let errors = config
        .database
        .validate(NO_SSL_FILES)
        .expect_err("sqlite without db name must fail");
    assert!(errors.iter().any(|e| matches!(e, ConfigError::MissingSqliteDbName)));
}

#[test]
fn multiple_errors_accumulated() {
    let config = Config {
        database: DatabaseConfig {
            ssl: true,
            ssl_ca: Some("/nonexistent/ca.pem".into()),
            ssl_cert: Some("/nonexistent/cert.pem".into()),
            ssl_key: Some("/nonexistent/key.pem".into()),
            ..db_config(DatabaseBackend::Mysql)
        },
        ..base_config(DatabaseBackend::Mysql)
    };
    let errors = config
        .database
        .validate(NO_SSL_FILES)
        .expect_err("missing ssl cert files must fail");
    assert!(errors.len() >= 3, "expected at least 3 errors, got {}: {errors:?}", errors.len());
}

#[test]
fn mariadb_backend_is_valid() {
    let config = base_config(DatabaseBackend::Mariadb);
    assert!(config.database.validate(NO_SSL_FILES).is_ok());
}

#[test]
fn query_timeout_default_is_none() {
    let config = DatabaseConfig::default();
    assert!(config.query_timeout.is_none());
}

#[test]
fn page_size_default_is_100() {
    let config = DatabaseConfig::default();
    assert_eq!(config.page_size, 100);
    assert_eq!(DEFAULT_PAGE_SIZE, 100);
}

#[test]
fn page_size_zero_rejected() {
    let config = DatabaseConfig { page_size: 0, ..mysql_config().database };
    let errors = config.validate(NO_SSL_FILES).expect_err("page_size=0 must be rejected");
    assert!(
        errors
            .iter()
            .any(|e| matches!(e, ConfigError::PageSizeOutOfRange { value: 0, max: 500 })),
        "expected PageSizeOutOfRange {{ value: 0, max: 500 }}, got {errors:?}"
    );
}

#[test]
fn page_size_above_max_rejected() {
    let config = DatabaseConfig { page_size: 501, ..mysql_config().database };
    let errors = config.validate(NO_SSL_FILES).expect_err("page_size above max must be rejected");
    assert!(
        errors
            .iter()
            .any(|e| matches!(e, ConfigError::PageSizeOutOfRange { value: 501, max: 500 })),
        "expected PageSizeOutOfRange {{ value: 501, max: 500 }}, got {errors:?}"
    );
}

#[test]
fn page_size_at_min_accepted() {
    let config = DatabaseConfig { page_size: 1, ..mysql_config().database };
    assert!(config.validate(NO_SSL_FILES).is_ok(), "page_size=1 must be accepted");
}

#[test]
fn page_size_at_max_accepted() {
    let config = DatabaseConfig { page_size: MAX_PAGE_SIZE, ..mysql_config().database };
    assert!(config.validate(NO_SSL_FILES).is_ok(), "page_size=MAX_PAGE_SIZE must be accepted");
}

#[test]
fn page_size_errors_accumulate_with_others() {
    let config = Config {
        database: DatabaseConfig { page_size: 0, ..db_config(DatabaseBackend::Sqlite) },
        ..base_config(DatabaseBackend::Sqlite)
    };
    let errors = config
        .database
        .validate(NO_SSL_FILES)
        .expect_err("multiple errors should be accumulated");
    assert!(
        errors.iter().any(|e| matches!(e, ConfigError::MissingSqliteDbName)),
        "expected MissingSqliteDbName in {errors:?}"
    );
    assert!(
        errors.iter().any(|e| matches!(e, ConfigError::PageSizeOutOfRange { value: 0, .. })),
        "expected PageSizeOutOfRange in {errors:?}"
    );
}

#[test]
fn valid_http_config_passes() {
    assert!(http_config().validate().is_ok());
}

#[test]
fn empty_http_host_rejected() {
    let config = HttpConfig { host: String::new(), ..http_config() };
    let errors = config.validate().expect_err("empty host must fail");
    assert!(errors.iter().any(|e| matches!(e, ConfigError::EmptyHttpHost)));
}

#[test]
fn whitespace_http_host_rejected() {
    let config = HttpConfig { host: "   ".into(), ..http_config() };
    let errors = config.validate().expect_err("whitespace host must fail");
    assert!(errors.iter().any(|e| matches!(e, ConfigError::EmptyHttpHost)));
}

#[test]
fn validation_errors_come_in_rule_order() {
    let config = DatabaseConfig {
        backend: DatabaseBackend::Sqlite,
        name: Some(String::new()),
        ssl: true,
        ssl_ca: Some("/ca.pem".into()),
        ssl_cert: Some("/cert.pem".into()),
        ssl_key: None,
        page_size: 600,
        ..DatabaseConfig::default()
    };
    let present = SslFilesPresent { ca: false, cert: true, key: false };
    let errors = config.validate(present).unwrap_err();
    assert_eq!(errors.len(), 3);
    assert!(matches!(errors[0], ConfigError::MissingSqliteDbName));
    match &errors[1] {
        ConfigError::SslCertNotFound(label, path) => {
            assert_eq!(label, "DB_SSL_CA");
            assert_eq!(path, "/ca.pem");
        }
        other => panic!("unexpected {other:?}"),
    }
    assert!(matches!(errors[2], ConfigError::PageSizeOutOfRange { value: 600, max: 500 }));
}

#[test]
fn ssl_files_are_checked_only_with_ssl() {
    let config = DatabaseConfig {
        ssl: false,
        ssl_ca: Some("/missing.pem".into()),
        ..DatabaseConfig::default()
    };
    assert!(config.validate(NO_SSL_FILES).is_ok());
}

#[test]
fn existing_ssl_files_pass() {
    let config = DatabaseConfig {
        ssl: true,
        ssl_ca: Some("/ca.pem".into()),
        ssl_cert: Some("/cert.pem".into()),
        ssl_key: Some("/key.pem".into()),
        ..DatabaseConfig::default()
    };
    let present = SslFilesPresent { ca: true, cert: true, key: true };
    assert!(config.validate(present).is_ok());
}

#[test]
fn config_error_messages() {
    assert_eq!(
        ConfigError::MissingSqliteDbName.message(),
        "DB_NAME (file path) is required for SQLite"
    );
    assert_eq!(
        ConfigError::SslCertNotFound("DB_SSL_KEY".into(), "/k.pem".into()).message(),
        "DB_SSL_KEY file not found: /k.pem"
    );
    assert_eq!(ConfigError::EmptyHttpHost.message(), "HTTP_HOST must not be empty");
    assert_eq!(
        ConfigError::PageSizeOutOfRange { value: 501, max: 500 }.message(),
        "DB_PAGE_SIZE must be between 1 and 500, got 501"
    );
}

#[test]
fn http_defaults_match_local_only_policy() {
    assert_eq!(
        HttpConfig::default_allowed_origins(),
        vec!["http://localhost", "http://127.0.0.1", "https://localhost", "https://127.0.0.1"]
    );
    assert_eq!(HttpConfig::default_allowed_hosts(), vec!["localhost", "127.0.0.1"]);
    assert_eq!(DEFAULT_HTTP_HOST, "127.0.0.1");
    assert_eq!(DEFAULT_HTTP_PORT, 9001);
}

#[test]
fn unicode_blank_http_host_rejected() {
    let config = HttpConfig { host: "\u{a0}\u{2009}".into(), ..http_config() };
    assert!(config.validate().is_err());
    let padded = HttpConfig { host: " 0.0.0.0 ".into(), ..http_config() };
    assert!(padded.validate().is_ok());
}

#[test]
fn backend_names_and_defaults() {
    assert_eq!(DatabaseBackend::Mysql.as_str(), "mysql");
    assert_eq!(DatabaseBackend::Mariadb.as_str(), "mariadb");
    assert_eq!(DatabaseBackend::Postgres.as_str(), "postgres");
    assert_eq!(DatabaseBackend::Sqlite.as_str(), "sqlite");
    assert_eq!(DatabaseBackend::Mariadb.default_port(), 3306);
    assert_eq!(DatabaseBackend::Mariadb.default_user(), "root");
}

#[test]
fn debug_redacts_password() {
    let config = DatabaseConfig {
        port: 3306,
        user: "root".into(),
        password: Some("super_secret_password".into()),
        ..DatabaseConfig::default()
    };
    let debug_output = config.redacted_text();
    assert!(!debug_output.contains("super_secret_password"), "password leaked in debug output: {debug_output}");
    assert!(debug_output.contains("[REDACTED]"), "expected [REDACTED] in debug output: {debug_output}");
}

#[test]
fn redacted_text_shows_every_other_setting() {
    let config = DatabaseConfig {
        host: "db.example".into(),
        port: 5433,
        user: "app".into(),
        password: Some("pw".into()),
        name: Some("shop".into()),
        ssl: true,
        query_timeout: Some(5),
        ..DatabaseConfig::default()
    };
    let text = config.redacted_text();
    assert!(text.starts_with("DatabaseConfig { backend: Mysql, host: \"db.example\", port: 5433, user: \"app\", password: \"[REDACTED]\", name: Some(\"shop\")"));
    assert!(text.contains("ssl: true"));
    assert!(text.contains("query_timeout: Some(5)"));
    assert!(text.ends_with(" }"));
    let other = DatabaseConfig { password: None, ..config.clone() };
    assert_eq!(other.redacted_text(), text);
}
