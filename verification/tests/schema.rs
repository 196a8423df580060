use dbmcp::connection::{
    mysql_connect_settings, mysql_pool_database, pool_settings, postgres_connect_settings,
    postgres_pool_target, TlsMode,
};
use dbmcp::config::{DatabaseBackend, DatabaseConfig};
use dbmcp::error::AppError;
use dbmcp::mysql::{self, DescribeRow};
use dbmcp::postgres::{self, ColumnRow, ForeignKeyRow};
use dbmcp::schema::ForeignKeyRef;

fn reference(table: &str) -> ForeignKeyRef<Option<String>> {
    ForeignKeyRef {
        constraint_name: Some(format!("fk_{table}")),
        referenced_table: Some(table.to_owned()),
        referenced_column: Some("id".to_owned()),
        on_update: Some("NO ACTION".to_owned()),
        on_delete: Some("CASCADE".to_owned()),
    }
}

fn pg_row(name: &str, ty: &str, nullable: &str) -> ColumnRow {
    ColumnRow {
        column_name: name.into(),
        data_type: ty.into(),
        is_nullable: nullable.into(),
        column_default: None,
    }
}

#[test]
fn postgres_schema_keys_columns_and_attaches_foreign_keys() {
    let rows = vec![
        pg_row("id", "bigint", "NO"),
        pg_row("customer_id", "bigint", "YES"),
        pg_row("note", "text", "yes"),
    ];
    let fks = vec![
        ForeignKeyRow { column_name: "customer_id".into(), reference: reference("customers") },
        ForeignKeyRow { column_name: "missing".into(), reference: reference("ghosts") },
    ];
    let schema = postgres::table_schema("orders".into(), rows, fks).unwrap();
    assert_eq!(schema.table, "orders");
    assert_eq!(schema.columns.len(), 3);
    let by_name = |n: &str| schema.columns.iter().find(|c| c.name == n).unwrap();
    assert!(!by_name("id").column.nullable);
    assert!(by_name("customer_id").column.nullable);
    assert!(by_name("note").column.nullable);
    assert!(by_name("id").foreign_key.is_none());
    let fk = by_name("customer_id").foreign_key.as_ref().unwrap();
    assert_eq!(fk.referenced_table.as_deref(), Some("customers"));
}

#[test]
fn postgres_schema_of_unknown_table() {
    match postgres::table_schema("nope".into(), vec![], vec![]) {
        Err(AppError::TableNotFound(t)) => assert_eq!(t, "nope"),
        _ => panic!("expected TableNotFound"),
    }
}

#[test]
fn later_rows_replace_earlier_ones() {
    let rows = vec![pg_row("a", "int", "NO"), pg_row("a", "text", "YES")];
    let fks = vec![
        ForeignKeyRow { column_name: "a".into(), reference: reference("first") },
        ForeignKeyRow { column_name: "a".into(), reference: reference("second") },
    ];
    let schema = postgres::table_schema("t".into(), rows, fks).unwrap();
    assert_eq!(schema.columns.len(), 1);
    assert_eq!(schema.columns[0].column.data_type, "text");
    assert!(schema.columns[0].column.nullable);
    let fk = schema.columns[0].foreign_key.as_ref().unwrap();
    assert_eq!(fk.referenced_table.as_deref(), Some("second"));
}

#[test]
fn mysql_schema_skips_rows_without_field() {
    let rows = vec![
        DescribeRow { field: Some("id".into()), column_type: "int", null: Some("NO".into()), key: "PRI", default: "", extra: "auto_increment" },
        DescribeRow { field: None, column_type: "x", null: None, key: "", default: "", extra: "" },
        DescribeRow { field: Some("email".into()), column_type: "varchar(255)", null: Some("YES".into()), key: "", default: "", extra: "" },
    ];
    let fks: Vec<mysql::ForeignKeyRow<&str>> = vec![];
    let schema = mysql::table_schema("shop", "users".into(), rows, fks).unwrap();
    assert_eq!(schema.columns.len(), 2);
    let id = schema.columns.iter().find(|c| c.name == "id").unwrap();
    assert_eq!(id.column.key, "PRI");
    assert!(!id.column.nullable);
    let email = schema.columns.iter().find(|c| c.name == "email").unwrap();
    assert!(email.column.nullable);
}

#[test]
fn mysql_schema_of_unknown_table_names_database() {
    let rows: Vec<DescribeRow<&str>> = vec![];
    let fks: Vec<mysql::ForeignKeyRow<&str>> = vec![];
    match mysql::table_schema("shop", "ghost".into(), rows, fks) {
        Err(AppError::TableNotFound(t)) => assert_eq!(t, "shop.ghost"),
        _ => panic!("expected TableNotFound"),
    }
}

fn full_config() -> DatabaseConfig {
    DatabaseConfig {
        backend: DatabaseBackend::Mysql,
        host: "db.example.com".into(),
        port: 3307,
        user: "admin".into(),
        password: Some("s3cret".into()),
        name: Some("mydb".into()),
        charset: Some("utf8mb4".into()),
        ssl: true,
        ssl_ca: Some("/ca.pem".into()),
        ssl_cert: Some("/cert.pem".into()),
        ssl_key: Some("/key.pem".into()),
        ssl_verify_cert: true,
        connection_timeout: Some(7),
        ..DatabaseConfig::default()
    }
}

#[test]
fn mysql_connect_settings_follow_config() {
    let cfg = full_config();
    let s = mysql_connect_settings(&cfg, "mydb");
    assert_eq!(s.host, "db.example.com");
    assert_eq!(s.port, 3307);
    assert_eq!(s.user, "admin");
    assert_eq!(s.password.as_deref(), Some("s3cret"));
    assert_eq!(s.database.as_deref(), Some("mydb"));
    assert_eq!(s.charset.as_deref(), Some("utf8mb4"));
    assert_eq!(s.tls, TlsMode::VerifyCa);
    assert_eq!(s.ssl_ca.as_deref(), Some("/ca.pem"));
    let no_db = mysql_connect_settings(&cfg, "");
    assert!(no_db.database.is_none());
}

#[test]
fn tls_mode_follows_ssl_flags() {
    let required = DatabaseConfig { ssl_verify_cert: false, ..full_config() };
    assert_eq!(mysql_connect_settings(&required, "x").tls, TlsMode::Required);
    let off = DatabaseConfig { ssl: false, ..full_config() };
    let s = postgres_connect_settings(&off, "x");
    assert_eq!(s.tls, TlsMode::DriverDefault);
    assert!(s.ssl_ca.is_none() && s.ssl_cert.is_none() && s.ssl_key.is_none());
    assert!(s.charset.is_none());
}

#[test]
fn pool_settings_use_fixed_lifetimes() {
    let p = pool_settings(&full_config());
    assert_eq!(p.max_connections, 5);
    assert_eq!(p.min_connections, 1);
    assert_eq!(p.idle_timeout_secs, 600);
    assert_eq!(p.max_lifetime_secs, 1800);
    assert_eq!(p.acquire_timeout_secs, Some(7));
    assert_eq!(pool_settings(&DatabaseConfig::default()).acquire_timeout_secs, None);
}

#[test]
fn mysql_pool_requests_resolve_and_check_names() {
    assert_eq!(mysql_pool_database(None, "mydb").unwrap(), "mydb");
    assert_eq!(mysql_pool_database(Some(""), "mydb").unwrap(), "mydb");
    assert_eq!(mysql_pool_database(Some("any_db"), "mydb").unwrap(), "any_db");
    assert!(mysql_pool_database(Some("bad\u{0}"), "mydb").is_err());
    assert_eq!(mysql_pool_database(None, "").unwrap(), "");
    assert_eq!(mysql_pool_database(Some(""), "").unwrap(), "");
    assert!(mysql_pool_database(Some("\n"), "").is_err());
    assert_eq!(mysql_pool_database(Some("MYDB"), "mydb").unwrap(), "MYDB");
}

#[test]
fn postgres_pool_requests_resolve_to_default_or_named_pool() {
    assert_eq!(postgres_pool_target(None, "mydb").unwrap(), None);
    assert_eq!(postgres_pool_target(Some(""), "mydb").unwrap(), None);
    assert_eq!(postgres_pool_target(Some("mydb"), "mydb").unwrap(), None);
    assert_eq!(postgres_pool_target(Some("any_db"), "mydb").unwrap(), Some("any_db".to_owned()));
    assert!(postgres_pool_target(Some("  "), "mydb").is_err());
}
