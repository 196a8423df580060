use dbmcp::config::{DatabaseBackend, DatabaseConfig};
use dbmcp::error::AppError;
use dbmcp::mysql;
use dbmcp::pagination::Cursor;
use dbmcp::plan::{
    plan_read_query, plan_write_query, resolve_database, resolve_database_or, StatementKind,
};
use dbmcp::postgres;
use dbmcp::text::{quote_identifier, quote_string, decimal_string};
use dbmcp::types::{
    CreateDatabaseRequest, DropDatabaseRequest, DropTableRequest, ExplainQueryRequest,
    GetTableSchemaRequest, ListDatabasesRequest, ListTablesRequest, ListViewsRequest,
};

#[test]
fn quoting_doubles_the_quote_character() {
    assert_eq!(quote_identifier("my`table", '`'), "`my``table`");
    assert_eq!(quote_identifier("say \"hi\"", '"'), "\"say \"\"hi\"\"\"");
    assert_eq!(quote_string("O'Brien"), "'O''Brien'");
    assert_eq!(quote_string(""), "''");
}

#[test]
fn decimal_rendering() {
    assert_eq!(decimal_string(0), "0");
    assert_eq!(decimal_string(1234567890), "1234567890");
    assert_eq!(decimal_string(u64::MAX), "18446744073709551615");
}

#[test]
fn blank_database_means_default() {
    assert!(matches!(resolve_database(&Some("   ".into())), Ok(None)));
    assert!(matches!(resolve_database(&None), Ok(None)));
    assert_eq!(resolve_database(&Some(" shop ".into())).unwrap(), Some("shop".to_owned()));
    assert!(matches!(
        resolve_database(&Some("bad\u{1}".into())),
        Err(AppError::InvalidIdentifier(n)) if n == "bad\u{1}"
    ));
    assert_eq!(resolve_database_or(&None, "main").unwrap(), "main");
    assert!(resolve_database_or(&None, "").is_err());
}

#[test]
fn read_query_select_is_wrapped_with_page_clause() {
    let plan = plan_read_query(
        "SELECT id FROM t",
        &None,
        Some(Cursor { offset: 20 }),
        10,
        Ok(StatementKind::Select),
    )
    .unwrap();
    assert_eq!(plan.sql, "SELECT * FROM (SELECT id FROM t) AS paged_query LIMIT 11 OFFSET 20");
    assert!(plan.database.is_none());
    assert_eq!(plan.pager.unwrap().offset(), 20);
}

#[test]
fn read_query_non_select_runs_as_is() {
    let plan = plan_read_query("SHOW TABLES", &Some("db1".into()), None, 10, Ok(StatementKind::NonSelect)).unwrap();
    assert_eq!(plan.sql, "SHOW TABLES");
    assert_eq!(plan.database.as_deref(), Some("db1"));
    assert!(plan.pager.is_none());
}

#[test]
fn read_query_validator_refusal_is_answered() {
    let r = plan_read_query("DELETE FROM t", &None, None, 10, Err(AppError::ReadOnlyViolation));
    assert!(matches!(r, Err(AppError::ReadOnlyViolation)));
    let r = plan_read_query("SELECT 1; SELECT 2", &None, None, 10, Err(AppError::MultiStatement));
    assert!(matches!(r, Err(AppError::MultiStatement)));
}

#[test]
fn write_query_keeps_statement() {
    let plan = plan_write_query("INSERT INTO t VALUES (1)", &Some(" app ".into())).unwrap();
    assert_eq!(plan.sql, "INSERT INTO t VALUES (1)");
    assert_eq!(plan.database.as_deref(), Some("app"));
}

#[test]
fn mysql_list_databases_pages() {
    let plan = mysql::plan_list_databases(&ListDatabasesRequest { cursor: Some(Cursor { offset: 4 }) }, 2);
    assert_eq!(
        plan.sql,
        "SELECT CAST(SCHEMA_NAME AS CHAR) FROM information_schema.SCHEMATA ORDER BY SCHEMA_NAME LIMIT 3 OFFSET 4"
    );
}

#[test]
fn mysql_list_views_uses_default_schema() {
    let req = ListViewsRequest { database: None, cursor: None };
    let plan = mysql::plan_list_views(&req, "shop", 100).unwrap();
    assert_eq!(
        plan.sql,
        "SELECT CAST(TABLE_NAME AS CHAR) FROM information_schema.VIEWS WHERE TABLE_SCHEMA = 'shop' ORDER BY TABLE_NAME LIMIT 101 OFFSET 0"
    );
    assert!(mysql::plan_list_views(&req, "", 100).is_err());
}

#[test]
fn mysql_list_tables_trims_search() {
    let req = ListTablesRequest {
        database: Some("shop".into()),
        cursor: None,
        search: Some("  ord ".into()),
        detailed: true,
    };
    let plan = mysql::plan_list_tables(&req, "other", 50).unwrap();
    assert_eq!(plan.database.as_deref(), Some("shop"));
    assert_eq!(plan.pattern.as_deref(), Some("ord"));
    assert!(plan.detailed);
    let blank = ListTablesRequest { search: Some("   ".into()), ..ListTablesRequest::default() };
    assert!(mysql::plan_list_tables(&blank, "db", 50).unwrap().pattern.is_none());
}

#[test]
fn mysql_list_tables_query_binds_the_pattern_as_written() {
    let req = ListTablesRequest {
        database: Some("shop".into()),
        cursor: Some(Cursor { offset: 40 }),
        search: Some(" order ".into()),
        detailed: false,
    };
    let plan = mysql::plan_list_tables(&req, "other", 20).unwrap();
    let q = mysql::list_tables_query(&plan);
    assert_eq!(q.sql, mysql::LIST_TABLES_BRIEF_SQL);
    assert!(q.sql.contains("LIKE LOWER(?)"));
    assert_eq!(q.database.as_deref(), Some("shop"));
    assert_eq!(q.filter.as_deref(), Some("order"));
    assert_eq!((q.limit, q.offset), (21, 40));

    let wild = ListTablesRequest { search: Some("users%".into()), detailed: true, ..ListTablesRequest::default() };
    let q = mysql::list_tables_query(&mysql::plan_list_tables(&wild, "shop", 5).unwrap());
    assert_eq!(q.sql, mysql::LIST_TABLES_DETAILED_SQL);
    assert_eq!(q.filter.as_deref(), Some("users%"));
    assert_eq!((q.limit, q.offset), (6, 0));

    let all = ListTablesRequest::default();
    assert!(mysql::list_tables_query(&mysql::plan_list_tables(&all, "shop", 5).unwrap()).filter.is_none());
}

#[test]
fn postgres_list_tables_query_takes_wildcards_literally() {
    let req = ListTablesRequest {
        database: None,
        cursor: Some(Cursor { offset: 7 }),
        search: Some("a_b".into()),
        detailed: false,
    };
    let plan = postgres::plan_list_tables(&req, 10).unwrap();
    let q = postgres::list_tables_query(&plan);
    assert_eq!(q.sql, postgres::LIST_TABLES_BRIEF_SQL);
    assert!(q.sql.contains("ILIKE $1"));
    assert!(q.database.is_none());
    assert_eq!(q.filter.as_deref(), Some("%a\\_b%"));
    assert_eq!((q.limit, q.offset), (11, 7));

    assert_eq!(postgres::like_filter("50%"), "%50\\%%");
    assert_eq!(postgres::like_filter("back\\slash"), "%back\\\\slash%");
    assert_eq!(postgres::like_filter("order"), "%order%");
    assert_eq!(postgres::like_filter(""), "%%");

    let detailed = ListTablesRequest {
        database: Some("analytics".into()),
        search: Some("  ".into()),
        detailed: true,
        ..ListTablesRequest::default()
    };
    let q = postgres::list_tables_query(&postgres::plan_list_tables(&detailed, 3).unwrap());
    assert_eq!(q.sql, postgres::LIST_TABLES_DETAILED_SQL);
    assert_eq!(q.database.as_deref(), Some("analytics"));
    assert!(q.filter.is_none());
    assert_eq!((q.limit, q.offset), (4, 0));
}

#[test]
fn mysql_table_schema_statements() {
    let req = GetTableSchemaRequest { database: None, table: "orders".into() };
    let plan = mysql::plan_get_table_schema(&req, "shop").unwrap();
    assert_eq!(plan.describe_sql, "DESCRIBE `shop`.`orders`");
    assert!(plan.foreign_keys_sql.contains("kcu.TABLE_SCHEMA = 'shop' AND kcu.TABLE_NAME = 'orders'"));
    match mysql::table_not_found("shop", "orders") {
        AppError::TableNotFound(s) => assert_eq!(s, "shop.orders"),
        other => panic!("unexpected {other:?}"),
    }
}

#[test]
fn mysql_backend_table_schema_takes_names_as_given() {
    match mysql::plan_table_schema("", "orders") {
        Err(AppError::InvalidIdentifier(n)) => assert_eq!(n, ""),
        _ => panic!("a blank database must be refused"),
    }
    match mysql::plan_table_schema("shop", "   ") {
        Err(AppError::InvalidIdentifier(n)) => assert_eq!(n, "   "),
        _ => panic!("a blank table must be refused"),
    }
    let plan = mysql::plan_table_schema(" shop", "orders").unwrap();
    assert_eq!(plan.database, " shop");
    assert_eq!(plan.describe_sql, "DESCRIBE ` shop`.`orders`");
    let tool = mysql::plan_get_table_schema(&GetTableSchemaRequest { database: Some("  ".into()), table: "orders".into() }, "shop")
        .unwrap();
    assert_eq!(tool.database, "shop");
}

#[test]
fn mysql_explain_prefixes() {
    let req = ExplainQueryRequest { database: None, query: "SELECT 1".into(), analyze: false };
    assert_eq!(mysql::plan_explain_query(&req, true, Ok(StatementKind::Select)).unwrap().sql, "EXPLAIN FORMAT=JSON SELECT 1");
    let analyze = ExplainQueryRequest { analyze: true, ..req };
    assert_eq!(
        mysql::plan_explain_query(&analyze, true, Ok(StatementKind::Select)).unwrap().sql,
        "EXPLAIN ANALYZE SELECT 1"
    );
    assert!(matches!(
        mysql::plan_explain_query(&analyze, true, Err(AppError::ReadOnlyViolation)),
        Err(AppError::ReadOnlyViolation)
    ));
    assert!(mysql::plan_explain_query(&analyze, false, Err(AppError::ReadOnlyViolation)).is_ok());
}

#[test]
fn mysql_create_database_flow() {
    let req = CreateDatabaseRequest { database_name: "new_db".into() };
    assert!(matches!(mysql::plan_create_database(&req, true), Err(AppError::ReadOnlyViolation)));
    let plan = mysql::plan_create_database(&req, false).unwrap();
    assert_eq!(plan.create_sql, "CREATE DATABASE IF NOT EXISTS `new_db`");
    assert!(plan.check_sql.ends_with("WHERE SCHEMA_NAME = 'new_db'"));
    match plan.after_lookup(true) {
        mysql::CreateDatabaseStep::AlreadyExists(m) => assert_eq!(m.message, "Database 'new_db' already exists."),
        _ => panic!("expected AlreadyExists"),
    }
    match plan.after_lookup(false) {
        mysql::CreateDatabaseStep::Create(sql, m) => {
            assert_eq!(sql, "CREATE DATABASE IF NOT EXISTS `new_db`");
            assert_eq!(m.message, "Database 'new_db' created successfully.");
        }
        _ => panic!("expected Create"),
    }
}

#[test]
fn mysql_refuses_dropping_connected_database() {
    let req = DropDatabaseRequest { database_name: "Shop".into() };
    match mysql::plan_drop_database(&req, false, "shop") {
        Err(AppError::Query(m)) => assert_eq!(m, "Cannot drop the currently connected database 'Shop'."),
        other => panic!("unexpected {:?}", other.is_ok()),
    }
    let plan = mysql::plan_drop_database(&req, false, "other").unwrap();
    assert_eq!(plan.sql, "DROP DATABASE `Shop`");
    assert_eq!(plan.message, "Database 'Shop' dropped successfully.");
}

#[test]
fn mysql_drop_table_targets_schema() {
    let req = DropTableRequest { database: None, table: "t1".into(), cascade: true };
    let plan = mysql::plan_drop_table(&req, false, "shop").unwrap();
    assert_eq!(plan.sql, "DROP TABLE `t1`");
    assert_eq!(plan.database.as_deref(), Some("shop"));
    assert_eq!(plan.message, "Table 't1' dropped successfully.");
    assert!(matches!(mysql::plan_drop_table(&req, true, "shop"), Err(AppError::ReadOnlyViolation)));
}

#[test]
fn mysql_default_database_is_configured_name() {
    let cfg = DatabaseConfig { name: Some("mydb".into()), ..DatabaseConfig::default() };
    assert_eq!(mysql::default_database_name(&cfg), "mydb");
    let none = DatabaseConfig { name: None, ..DatabaseConfig::default() };
    assert_eq!(mysql::default_database_name(&none), "");
}

#[test]
fn postgres_default_database_falls_back_to_user() {
    let cfg = DatabaseConfig {
        backend: DatabaseBackend::Postgres,
        user: "pgadmin".into(),
        name: None,
        ..DatabaseConfig::default()
    };
    assert_eq!(postgres::default_database_name(&cfg), "pgadmin");
    let named = DatabaseConfig { name: Some("mydb".into()), ..cfg };
    assert_eq!(postgres::default_database_name(&named), "mydb");
}

#[test]
fn postgres_listing_and_schema_plans() {
    let plan = postgres::plan_list_views(&ListViewsRequest { database: Some("db2".into()), cursor: None }, 10).unwrap();
    assert_eq!(
        plan.sql,
        "SELECT viewname FROM pg_views WHERE schemaname = 'public' ORDER BY viewname LIMIT 11 OFFSET 0"
    );
    assert_eq!(plan.database.as_deref(), Some("db2"));
    let schema = postgres::plan_get_table_schema(&GetTableSchemaRequest { database: None, table: "users".into() }).unwrap();
    assert!(schema.columns_sql.ends_with("table_name = 'users' ORDER BY ordinal_position"));
    assert!(schema.database.is_none());
    assert!(postgres::plan_get_table_schema(&GetTableSchemaRequest { database: None, table: " ".into() }).is_err());
}

#[test]
fn postgres_write_plans() {
    let create = postgres::plan_create_database(&CreateDatabaseRequest { database_name: "x".into() }, false).unwrap();
    assert_eq!(create.sql, "CREATE DATABASE \"x\"");
    assert_eq!(create.message, "Database 'x' created successfully.");
    match postgres::create_database_outcome("x", AppError::Query("database \"x\" already exists".into())) {
        Ok(m) => assert_eq!(m, "Database 'x' already exists."),
        Err(e) => panic!("unexpected {e:?}"),
    }
    assert!(matches!(
        postgres::create_database_outcome("x", AppError::Connection("down".into())),
        Err(AppError::Connection(_))
    ));
    let drop = DropTableRequest { database: None, table: "t".into(), cascade: true };
    assert_eq!(postgres::plan_drop_table(&drop, false).unwrap().sql, "DROP TABLE \"t\" CASCADE");
    let connected = "main".to_owned();
    assert!(postgres::plan_drop_database(&DropDatabaseRequest { database_name: "main".into() }, false, &connected).is_err());
    assert!(postgres::plan_drop_database(&DropDatabaseRequest { database_name: "MAIN".into() }, false, &connected).is_ok());
}

#[test]
fn query_timeout_display_includes_elapsed_and_sql() {
    let err = AppError::QueryTimeout { elapsed_tenths: 301, sql: "SELECT * FROM big_table".into() };
    let msg = err.message();
    assert!(msg.contains("30.1"), "expected elapsed in message: {msg}");
    assert!(msg.contains("SELECT * FROM big_table"), "expected SQL in message: {msg}");
}

#[test]
fn app_error_messages() {
    let err = AppError::QueryTimeout { elapsed_tenths: 301, sql: "SELECT * FROM big_table".into() };
    assert_eq!(err.message(), "Query timed out after 30.1s: SELECT * FROM big_table");
    assert_eq!(AppError::PoolCacheFull { cap: 16 }.message(), "pool cache is full (16 pools, all in use); retry later");
    assert_eq!(AppError::TableNotFound("t".into()).message(), "Table not found: t");
}

#[test]
fn use_statement_quotes_the_schema() {
    assert_eq!(mysql::use_statement("shop").unwrap(), "USE `shop`");
    assert_eq!(mysql::use_statement("we`ird").unwrap(), "USE `we``ird`");
    assert!(mysql::use_statement(" ").is_err());
}
