//! Planning of the MySQL/MariaDB tools: the statements each tool runs, the
//! database it targets, and the refusals it answers without touching the
//! database.
//!
//! Identifiers are quoted with backticks, string literals with single quotes.

use vstd::prelude::*;
use crate::config::DatabaseConfig;
use crate::error::AppError;
use crate::identifier::is_valid_identifier;
use crate::pagination::Pager;
use crate::plan::{
    PagedQuery, StatementPlan, StatementKind, DropDatabasePlan, DropTablePlan, cursor_start, bound_offset,
    limit_offset_clause, push_limit_offset, target_database, requested_database,
    is_invalid_identifier_error, resolve_database_or, checked_identifier, plan_explain, frame,
    database_exists, database_created, database_dropped, table_dropped, database_exists_message,
    database_created_message, database_dropped_message, table_dropped_message,
    cannot_drop_connected_message,
};
use crate::text::{eq_ignore_ascii_case_spec, quoted, quote_identifier, quote_string, str_eq_ignore_ascii_case};
use crate::schema::{
    ForeignKeyRef, TableSchema, SchemaColumn, assemble_columns, assembled, is_yes, flag_is_yes, keyed,
    has_name, foreign_key_of,
};
use crate::types::{
    ListDatabasesRequest, ListViewsRequest, ListTriggersRequest, ListFunctionsRequest,
    ListTablesRequest, GetTableSchemaRequest, ExplainQueryRequest, CreateDatabaseRequest,
    DropDatabaseRequest, DropTableRequest, MessageResponse,
};

verus! {

/// The database a MySQL connection uses by default: the configured name, or
/// the empty string when none is configured.
pub open spec fn mysql_default_database(name: Option<String>) -> Seq<char> {
    match name {
        Some(n) => if n@.len() == 0 {
            Seq::empty()
        } else {
            n@
        },
        None => Seq::empty(),
    }
}

/// Returns the configured default database name, or `""` if none.
pub fn default_database_name(config: &DatabaseConfig) -> (r: String)
    ensures
        r@ == mysql_default_database(config.name),
{
    match &config.name {
        Some(n) => if n.as_str().is_empty() {
            String::new()
        } else {
            n.clone()
        },
        None => String::new(),
    }
}

/// Text of the statement listing databases, before its page clause.
pub const LIST_DATABASES_SQL: &'static str = "SELECT CAST(SCHEMA_NAME AS CHAR) FROM information_schema.SCHEMATA ORDER BY SCHEMA_NAME";

/// Plans `listDatabases`: every schema name, one page at a time.
pub fn plan_list_databases(request: &ListDatabasesRequest, page_size: u16) -> (r: PagedQuery)
    ensures
        r.pager.start() == cursor_start(request.cursor),
        r.pager.page_size() == page_size,
        r.sql@ == LIST_DATABASES_SQL@ + limit_offset_clause(r.pager),
        r.database is None,
{
    let pager = Pager::new(request.cursor, page_size);
    let mut sql = LIST_DATABASES_SQL.to_owned();
    push_limit_offset(&mut sql, &pager);
    PagedQuery { sql, database: None, pager }
}

/// A listing statement over one schema: `<head>'<schema>'<tail>` followed by
/// the page clause.
pub open spec fn schema_listing_sql(head: Seq<char>, schema: Seq<char>, tail: Seq<char>, p: Pager) -> Seq<
    char,
> {
    head + quoted(schema, '\'') + tail + limit_offset_clause(p)
}

/// `r` is the plan of a listing over the schema that `database` (falling back
/// to `default`) names, or the invalid-identifier error for that schema.
pub open spec fn schema_listing_outcome(
    r: Result<PagedQuery, AppError>,
    head: Seq<char>,
    tail: Seq<char>,
    database: Option<String>,
    default: Seq<char>,
    cursor: Option<crate::pagination::Cursor>,
    page_size: u16,
) -> bool {
    let t = target_database(database, default);
    if is_valid_identifier(t) {
        r matches Ok(p) && p.database is None && p.pager.start() == cursor_start(cursor)
            && p.pager.page_size() == page_size && p.sql@ == schema_listing_sql(head, t, tail, p.pager)
    } else {
        r matches Err(e) && is_invalid_identifier_error(e, t)
    }
}

/// Plans a listing of the objects of one schema.
fn plan_schema_listing(
    head: &str,
    tail: &str,
    database: &Option<String>,
    default: &str,
    cursor: Option<crate::pagination::Cursor>,
    page_size: u16,
) -> (r: Result<PagedQuery, AppError>)
    ensures
        schema_listing_outcome(r, head@, tail@, *database, default@, cursor, page_size),
{
    let schema = match resolve_database_or(database, default) {
        Ok(s) => s,
        Err(e) => return Err(e),
    };
    let pager = Pager::new(cursor, page_size);
    let mut sql = head.to_owned();
    sql.append(quote_string(schema.as_str()).as_str());
    sql.append(tail);
    push_limit_offset(&mut sql, &pager);
    Ok(PagedQuery { sql, database: None, pager })
}

/// Head of the statement listing views.
pub const LIST_VIEWS_HEAD: &'static str = "SELECT CAST(TABLE_NAME AS CHAR) FROM information_schema.VIEWS WHERE TABLE_SCHEMA = ";
/// Tail of the statement listing views.
pub const LIST_VIEWS_TAIL: &'static str = " ORDER BY TABLE_NAME";
/// Head of the statement listing triggers.
pub const LIST_TRIGGERS_HEAD: &'static str = "SELECT CAST(TRIGGER_NAME AS CHAR) FROM information_schema.TRIGGERS WHERE TRIGGER_SCHEMA = ";
/// Tail of the statement listing triggers.
pub const LIST_TRIGGERS_TAIL: &'static str = " ORDER BY TRIGGER_NAME";
/// Head of the statement listing stored functions.
pub const LIST_FUNCTIONS_HEAD: &'static str = "SELECT CAST(ROUTINE_NAME AS CHAR) FROM information_schema.ROUTINES WHERE ROUTINE_SCHEMA = ";
/// Tail of the statement listing stored functions.
pub const LIST_FUNCTIONS_TAIL: &'static str = " AND ROUTINE_TYPE = 'FUNCTION' ORDER BY ROUTINE_NAME";

/// Plans `listViews` for the requested schema (default: the connected one).
pub fn plan_list_views(request: &ListViewsRequest, default: &str, page_size: u16) -> (r: Result<
    PagedQuery,
    AppError,
>)
    ensures
        schema_listing_outcome(
            r,
            LIST_VIEWS_HEAD@,
            LIST_VIEWS_TAIL@,
            request.database,
            default@,
            request.cursor,
            page_size,
        ),
{
    plan_schema_listing(LIST_VIEWS_HEAD, LIST_VIEWS_TAIL, &request.database, default, request.cursor, page_size)
}

/// Plans `listTriggers` for the requested schema (default: the connected one).
pub fn plan_list_triggers(request: &ListTriggersRequest, default: &str, page_size: u16) -> (r: Result<
    PagedQuery,
    AppError,
>)
    ensures
        schema_listing_outcome(
            r,
            LIST_TRIGGERS_HEAD@,
            LIST_TRIGGERS_TAIL@,
            request.database,
            default@,
            request.cursor,
            page_size,
        ),
{
    plan_schema_listing(
        LIST_TRIGGERS_HEAD,
        LIST_TRIGGERS_TAIL,
        &request.database,
        default,
        request.cursor,
        page_size,
    )
}

/// Plans `listFunctions` for the requested schema (default: the connected one).
pub fn plan_list_functions(request: &ListFunctionsRequest, default: &str, page_size: u16) -> (r: Result<
    PagedQuery,
    AppError,
>)
    ensures
        schema_listing_outcome(
            r,
            LIST_FUNCTIONS_HEAD@,
            LIST_FUNCTIONS_TAIL@,
            request.database,
            default@,
            request.cursor,
            page_size,
        ),
{
    plan_schema_listing(
        LIST_FUNCTIONS_HEAD,
        LIST_FUNCTIONS_TAIL,
        &request.database,
        default,
        request.cursor,
        page_size,
    )
}

/// The search pattern of a `listTables` request: its trimmed text, absent
/// when blank.
pub open spec fn search_pattern(search: Option<String>) -> Option<Seq<char>> {
    requested_database(search)
}

/// What `listTables` binds: schema, optional pattern, mode and page.
pub struct ListTablesPlan {
    /// Schema whose tables are listed (`None` = the connection's default).
    pub database: Option<String>,
    /// The trimmed search text on table names; `None` lists every table.
    pub pattern: Option<String>,
    /// Full metadata per table instead of bare names.
    pub detailed: bool,
    /// The page being fetched.
    pub pager: Pager,
}

/// Returns the trimmed search pattern, absent when blank.
pub fn trimmed_pattern(search: &Option<String>) -> (r: Option<String>)
    ensures
        match search_pattern(*search) {
            Some(t) => r matches Some(s) && s@ == t,
            None => r is None,
        },
{
    match search {
        Some(s) => {
            let t = crate::text::str_trim(s.as_str());
            if t.is_empty() {
                None
            } else {
                Some(t.to_owned())
            }
        },
        None => None,
    }
}

/// Plans `listTables` over the requested schema (default: the connected one).
pub fn plan_list_tables(request: &ListTablesRequest, default: &str, page_size: u16) -> (r: Result<
    ListTablesPlan,
    AppError,
>)
    ensures
        ({
            let t = target_database(request.database, default@);
            if is_valid_identifier(t) {
                r matches Ok(p) && (p.database matches Some(d) && d@ == t) && p.detailed
                    == request.detailed && p.pager.start() == cursor_start(request.cursor)
                    && p.pager.page_size() == page_size && (match search_pattern(request.search) {
                    Some(s) => p.pattern matches Some(q) && q@ == s,
                    None => p.pattern is None,
                })
            } else {
                r matches Err(e) && is_invalid_identifier_error(e, t)
            }
        }),
{
    let schema = match resolve_database_or(&request.database, default) {
        Ok(s) => s,
        Err(e) => return Err(e),
    };
    let pager = Pager::new(request.cursor, page_size);
    let pattern = trimmed_pattern(&request.search);
    Ok(ListTablesPlan { database: Some(schema), pattern, detailed: request.detailed, pager })
}

/// `listTables` in brief mode: the table names of one page, bound with the
/// schema, the filter twice, the limit and the offset.
pub const LIST_TABLES_BRIEF_SQL: &'static str = r"
    SELECT CAST(TABLE_NAME AS CHAR)
    FROM information_schema.TABLES
    WHERE TABLE_SCHEMA = ?
      AND TABLE_TYPE = 'BASE TABLE'
      AND (? IS NULL OR LOWER(TABLE_NAME) LIKE LOWER(?))
    ORDER BY TABLE_NAME
    LIMIT ? OFFSET ?";

/// `listTables` in detailed mode: one `(name, metadata)` row per table of one
/// page, bound with the schema, the filter twice, the limit, the offset and
/// the schema again.
pub const LIST_TABLES_DETAILED_SQL: &'static str = r#"
WITH table_info AS (
    SELECT
        t.TABLE_SCHEMA AS table_schema,
        t.TABLE_NAME   AS table_name,
        NULLIF(t.TABLE_COMMENT, '') AS table_comment
    FROM information_schema.TABLES t
    WHERE t.TABLE_SCHEMA = ?
      AND t.TABLE_TYPE   = 'BASE TABLE'
      AND (? IS NULL OR LOWER(t.TABLE_NAME) LIKE LOWER(?))
    ORDER BY t.TABLE_NAME
    LIMIT ? OFFSET ?
),
partitions_info AS (
    SELECT
        p.TABLE_SCHEMA,
        p.TABLE_NAME,
        MAX(p.PARTITION_METHOD IS NOT NULL) AS has_partitions
    FROM information_schema.PARTITIONS p
    WHERE p.TABLE_SCHEMA = ?
    GROUP BY p.TABLE_SCHEMA, p.TABLE_NAME
),
columns_info AS (
    SELECT
        c.TABLE_SCHEMA,
        c.TABLE_NAME,
        c.COLUMN_NAME      AS column_name,
        c.COLUMN_TYPE      AS data_type,
        c.ORDINAL_POSITION AS ordinal_position,
        (c.IS_NULLABLE = 'YES') AS nullable,
        IF(c.EXTRA LIKE '%GENERATED%', c.GENERATION_EXPRESSION, c.COLUMN_DEFAULT) AS column_default,
        NULLIF(c.COLUMN_COMMENT, '') AS column_comment
    FROM information_schema.COLUMNS c
    JOIN table_info ti
      ON ti.table_schema = c.TABLE_SCHEMA
     AND ti.table_name   = c.TABLE_NAME
),
constraints_info AS (
    SELECT
        tc.TABLE_SCHEMA,
        tc.TABLE_NAME,
        tc.CONSTRAINT_NAME AS name,
        tc.CONSTRAINT_TYPE AS type,
        JSON_EXTRACT(CONCAT('[', IFNULL(GROUP_CONCAT(CONCAT('"', kcu.COLUMN_NAME, '"') ORDER BY kcu.ORDINAL_POSITION SEPARATOR ','), ''), ']'), '$') AS columns,
        CONCAT(
            IF(tc.CONSTRAINT_TYPE = 'PRIMARY KEY', 'PRIMARY KEY (', 'UNIQUE ('),
            GROUP_CONCAT(
                CONCAT('`', REPLACE(kcu.COLUMN_NAME, '`', '``'), '`')
                ORDER BY kcu.ORDINAL_POSITION SEPARATOR ', '
            ),
            ')'
        ) AS definition,
        CAST(NULL AS CHAR)  AS referenced_table,
        CAST(NULL AS CHAR)  AS referenced_columns
    FROM information_schema.TABLE_CONSTRAINTS tc
    JOIN information_schema.KEY_COLUMN_USAGE kcu
      ON kcu.CONSTRAINT_SCHEMA = tc.CONSTRAINT_SCHEMA
     AND kcu.CONSTRAINT_NAME   = tc.CONSTRAINT_NAME
     AND kcu.TABLE_SCHEMA      = tc.TABLE_SCHEMA
     AND kcu.TABLE_NAME        = tc.TABLE_NAME
    JOIN table_info ti
      ON ti.table_schema = tc.TABLE_SCHEMA
     AND ti.table_name   = tc.TABLE_NAME
    WHERE tc.CONSTRAINT_TYPE IN ('PRIMARY KEY', 'UNIQUE')
    GROUP BY tc.TABLE_SCHEMA, tc.TABLE_NAME, tc.CONSTRAINT_NAME, tc.CONSTRAINT_TYPE
    UNION ALL
    SELECT
        tc.TABLE_SCHEMA,
        tc.TABLE_NAME,
        tc.CONSTRAINT_NAME AS name,
        'FOREIGN KEY'      AS type,
        JSON_EXTRACT(CONCAT('[', IFNULL(GROUP_CONCAT(CONCAT('"', kcu.COLUMN_NAME, '"') ORDER BY kcu.ORDINAL_POSITION SEPARATOR ','), ''), ']'), '$') AS columns,
        CONCAT(
            'FOREIGN KEY (',
            GROUP_CONCAT(
                CONCAT('`', REPLACE(kcu.COLUMN_NAME, '`', '``'), '`')
                ORDER BY kcu.ORDINAL_POSITION SEPARATOR ', '
            ),
            ') REFERENCES ',
            CONCAT('`', REPLACE(MAX(kcu.REFERENCED_TABLE_NAME), '`', '``'), '`'),
            '(',
            GROUP_CONCAT(
                CONCAT('`', REPLACE(kcu.REFERENCED_COLUMN_NAME, '`', '``'), '`')
                ORDER BY kcu.ORDINAL_POSITION SEPARATOR ', '
            ),
            ') ON UPDATE ', MAX(rc.UPDATE_RULE),
            ' ON DELETE ',  MAX(rc.DELETE_RULE)
        ) AS definition,
        MAX(kcu.REFERENCED_TABLE_NAME) AS referenced_table,
        JSON_EXTRACT(CONCAT('[', IFNULL(GROUP_CONCAT(CONCAT('"', kcu.REFERENCED_COLUMN_NAME, '"') ORDER BY kcu.ORDINAL_POSITION SEPARATOR ','), ''), ']'), '$') AS referenced_columns
    FROM information_schema.TABLE_CONSTRAINTS tc
    JOIN information_schema.KEY_COLUMN_USAGE kcu
      ON kcu.CONSTRAINT_SCHEMA = tc.CONSTRAINT_SCHEMA
     AND kcu.CONSTRAINT_NAME   = tc.CONSTRAINT_NAME
     AND kcu.TABLE_SCHEMA      = tc.TABLE_SCHEMA
     AND kcu.TABLE_NAME        = tc.TABLE_NAME
    JOIN information_schema.REFERENTIAL_CONSTRAINTS rc
      ON rc.CONSTRAINT_SCHEMA = tc.CONSTRAINT_SCHEMA
     AND rc.CONSTRAINT_NAME   = tc.CONSTRAINT_NAME
    JOIN table_info ti
      ON ti.table_schema = tc.TABLE_SCHEMA
     AND ti.table_name   = tc.TABLE_NAME
    WHERE tc.CONSTRAINT_TYPE = 'FOREIGN KEY'
    GROUP BY tc.TABLE_SCHEMA, tc.TABLE_NAME, tc.CONSTRAINT_NAME
    UNION ALL
    SELECT
        cc.CONSTRAINT_SCHEMA AS TABLE_SCHEMA,
        tc.TABLE_NAME,
        cc.CONSTRAINT_NAME   AS name,
        'CHECK'              AS type,
        JSON_ARRAY()         AS columns,
        cc.CHECK_CLAUSE      AS definition,
        CAST(NULL AS CHAR)   AS referenced_table,
        CAST(NULL AS CHAR)   AS referenced_columns
    FROM information_schema.CHECK_CONSTRAINTS cc
    JOIN information_schema.TABLE_CONSTRAINTS tc
      ON tc.CONSTRAINT_SCHEMA = cc.CONSTRAINT_SCHEMA
     AND tc.CONSTRAINT_NAME   = cc.CONSTRAINT_NAME
    JOIN table_info ti
      ON ti.table_schema = tc.TABLE_SCHEMA
     AND ti.table_name   = tc.TABLE_NAME
),
indexes_info AS (
    SELECT
        s.TABLE_SCHEMA,
        s.TABLE_NAME,
        s.INDEX_NAME AS index_name,
        GROUP_CONCAT(
            CASE
                WHEN s.SUB_PART IS NOT NULL THEN CONCAT('`', REPLACE(s.COLUMN_NAME, '`', '``'), '`', '(', s.SUB_PART, ')')
                ELSE CONCAT('`', REPLACE(s.COLUMN_NAME, '`', '``'), '`')
            END
            ORDER BY s.SEQ_IN_INDEX SEPARATOR ', '
        ) AS definition_cols,
        JSON_EXTRACT(CONCAT('[', IFNULL(GROUP_CONCAT(CONCAT('"', s.COLUMN_NAME, '"') ORDER BY s.SEQ_IN_INDEX SEPARATOR ','), ''), ']'), '$') AS columns,
        (MIN(s.NON_UNIQUE) = 0)        AS is_unique,
        (s.INDEX_NAME = 'PRIMARY')     AS is_primary,
        LOWER(MIN(s.INDEX_TYPE))       AS method,
        MIN(s.INDEX_TYPE)              AS index_type_raw
    FROM information_schema.STATISTICS s
    JOIN table_info ti
      ON ti.table_schema = s.TABLE_SCHEMA
     AND ti.table_name   = s.TABLE_NAME
    GROUP BY s.TABLE_SCHEMA, s.TABLE_NAME, s.INDEX_NAME
),
triggers_info AS (
    SELECT
        tr.EVENT_OBJECT_SCHEMA AS TABLE_SCHEMA,
        tr.EVENT_OBJECT_TABLE  AS TABLE_NAME,
        tr.TRIGGER_NAME        AS trigger_name,
        CONCAT(
            'CREATE DEFINER=', QUOTE(tr.DEFINER),
            ' TRIGGER ', '`', REPLACE(tr.TRIGGER_NAME, '`', '``'), '`',
            ' ', tr.ACTION_TIMING, ' ', tr.EVENT_MANIPULATION,
            ' ON ',
            '`', REPLACE(tr.EVENT_OBJECT_SCHEMA, '`', '``'), '`',
            '.',
            '`', REPLACE(tr.EVENT_OBJECT_TABLE, '`', '``'), '`',
            ' FOR EACH ROW ', tr.ACTION_STATEMENT
        ) AS definition
    FROM information_schema.TRIGGERS tr
    JOIN table_info ti
      ON ti.table_schema = tr.EVENT_OBJECT_SCHEMA
     AND ti.table_name   = tr.EVENT_OBJECT_TABLE
)
SELECT
    CAST(ti.table_name AS CHAR) AS name,
    JSON_OBJECT(
        'schema',  ti.table_schema,
        'kind',    IF(COALESCE(pi.has_partitions, FALSE), 'PARTITIONED_TABLE', 'TABLE'),
        'owner',   NULL,
        'comment', ti.table_comment,
        'columns', COALESCE((
            SELECT JSON_ARRAYAGG(JSON_OBJECT(
                'name',            ci.column_name,
                'dataType',        ci.data_type,
                'ordinalPosition', ci.ordinal_position,
                'nullable',        JSON_EXTRACT(IF(ci.nullable = 1, 'true', 'false'), '$'),
                'default',         ci.column_default,
                'comment',         ci.column_comment
            ))
            FROM columns_info ci
            WHERE ci.TABLE_SCHEMA = ti.table_schema AND ci.TABLE_NAME = ti.table_name
        ), JSON_ARRAY()),
        'constraints', COALESCE((
            SELECT JSON_ARRAYAGG(JSON_OBJECT(
                'name',              co.name,
                'type',              co.type,
                'columns',           JSON_EXTRACT(co.columns, '$'),
                'definition',        co.definition,
                'referencedTable',   co.referenced_table,
                'referencedColumns', JSON_EXTRACT(co.referenced_columns, '$')
            ))
            FROM constraints_info co
            WHERE co.TABLE_SCHEMA = ti.table_schema AND co.TABLE_NAME = ti.table_name
        ), JSON_ARRAY()),
        'indexes', COALESCE((
            SELECT JSON_ARRAYAGG(JSON_OBJECT(
                'name',       ii.index_name,
                'columns',    JSON_EXTRACT(ii.columns, '$'),
                'unique',     JSON_EXTRACT(IF(ii.is_unique = 1, 'true', 'false'), '$'),
                'primary',    JSON_EXTRACT(IF(ii.is_primary = 1, 'true', 'false'), '$'),
                'method',     ii.method,
                'definition', IF(ii.is_primary = 1,
                    CONCAT('PRIMARY KEY (', ii.definition_cols, ') USING ', ii.index_type_raw),
                    CONCAT(
                        'CREATE ',
                        CASE
                            WHEN ii.is_unique = 1                THEN 'UNIQUE '
                            WHEN ii.index_type_raw = 'FULLTEXT'  THEN 'FULLTEXT '
                            WHEN ii.index_type_raw = 'SPATIAL'   THEN 'SPATIAL '
                            ELSE ''
                        END,
                        'INDEX ', '`', REPLACE(ii.index_name, '`', '``'), '`',
                        ' ON ',
                        '`', REPLACE(ti.table_schema, '`', '``'), '`',
                        '.',
                        '`', REPLACE(ti.table_name, '`', '``'), '`',
                        '(', ii.definition_cols, ') USING ', ii.index_type_raw
                    )
                )
            ))
            FROM indexes_info ii
            WHERE ii.TABLE_SCHEMA = ti.table_schema AND ii.TABLE_NAME = ti.table_name
        ), JSON_ARRAY()),
        'triggers', COALESCE((
            SELECT JSON_ARRAYAGG(JSON_OBJECT(
                'name',       tri.trigger_name,
                'definition', tri.definition,
                'enabled',    JSON_EXTRACT('true', '$')
            ))
            FROM triggers_info tri
            WHERE tri.TABLE_SCHEMA = ti.table_schema AND tri.TABLE_NAME = ti.table_name
        ), JSON_ARRAY())
    ) AS entry
FROM table_info ti
LEFT JOIN partitions_info pi
  ON pi.TABLE_SCHEMA = ti.table_schema
 AND pi.TABLE_NAME   = ti.table_name
ORDER BY ti.table_name"#;

/// The `LIKE` pattern a search binds. The pattern goes to the database as
/// written: `%` and `_` are its wildcards, and a bare word matches only the
/// table of that name (compared case-insensitively).
pub open spec fn name_filter(pattern: Seq<char>) -> Seq<char> {
    pattern
}

/// The statement `listTables` runs and the values it binds.
pub struct ListTablesQuery {
    /// The statement for the plan's mode.
    pub sql: &'static str,
    /// Schema whose tables are listed (`None` = the connection's default).
    pub database: Option<String>,
    /// The `LIKE` pattern on table names; `None` lists every table.
    pub filter: Option<String>,
    /// Rows to fetch: the page size plus one lookahead row.
    pub limit: i64,
    /// Rows to skip.
    pub offset: i64,
}

/// `a` and `b` hold the same text, or are both absent.
pub open spec fn same_text(a: Option<String>, b: Option<String>) -> bool {
    match (a, b) {
        (Some(x), Some(y)) => x@ == y@,
        (None, None) => true,
        _ => false,
    }
}

/// A copy of an optional string.
pub(crate) fn copy_text(s: &Option<String>) -> (r: Option<String>)
    ensures
        same_text(r, *s),
{
    match s {
        Some(x) => Some(x.clone()),
        None => None,
    }
}

/// The statement and bindings that carry out a `listTables` plan.
pub fn list_tables_query(plan: &ListTablesPlan) -> (q: ListTablesQuery)
    ensures
        q.sql@ == (if plan.detailed {
            LIST_TABLES_DETAILED_SQL@
        } else {
            LIST_TABLES_BRIEF_SQL@
        }),
        same_text(q.database, plan.database),
        match plan.pattern {
            Some(p) => q.filter matches Some(f) && f@ == name_filter(p@),
            None => q.filter is None,
        },
        q.limit == plan.pager.page_size() + 1,
        q.offset == bound_offset(plan.pager),
{
    let sql = if plan.detailed {
        LIST_TABLES_DETAILED_SQL
    } else {
        LIST_TABLES_BRIEF_SQL
    };
    ListTablesQuery {
        sql,
        database: copy_text(&plan.database),
        filter: copy_text(&plan.pattern),
        limit: plan.pager.limit(),
        offset: plan.pager.offset(),
    }
}

/// The statements `getTableSchema` runs.
pub struct TableSchemaPlan {
    /// The schema holding the table.
    pub database: String,
    /// The table.
    pub table: String,
    /// `DESCRIBE` of the table: its columns.
    pub describe_sql: String,
    /// The foreign keys of the table's columns.
    pub foreign_keys_sql: String,
}

/// Head of the statement reading foreign keys.
pub const FOREIGN_KEYS_HEAD: &'static str = "SELECT kcu.COLUMN_NAME as column_name, kcu.CONSTRAINT_NAME as constraint_name, kcu.REFERENCED_TABLE_NAME as referenced_table, kcu.REFERENCED_COLUMN_NAME as referenced_column, rc.UPDATE_RULE as on_update, rc.DELETE_RULE as on_delete FROM information_schema.KEY_COLUMN_USAGE kcu INNER JOIN information_schema.REFERENTIAL_CONSTRAINTS rc ON kcu.CONSTRAINT_NAME = rc.CONSTRAINT_NAME AND kcu.CONSTRAINT_SCHEMA = rc.CONSTRAINT_SCHEMA WHERE kcu.TABLE_SCHEMA = ";
/// Middle of the statement reading foreign keys.
pub const FOREIGN_KEYS_MID: &'static str = " AND kcu.TABLE_NAME = ";
/// Tail of the statement reading foreign keys.
pub const FOREIGN_KEYS_TAIL: &'static str = " AND kcu.REFERENCED_TABLE_NAME IS NOT NULL ORDER BY kcu.CONSTRAINT_NAME, kcu.ORDINAL_POSITION";

/// `DESCRIBE `db`.`table``.
pub open spec fn describe_sql(db: Seq<char>, table: Seq<char>) -> Seq<char> {
    "DESCRIBE "@ + quoted(db, '`') + "."@ + quoted(table, '`')
}

/// The foreign-key statement for `db`.`table`.
pub open spec fn foreign_keys_sql(db: Seq<char>, table: Seq<char>) -> Seq<char> {
    FOREIGN_KEYS_HEAD@ + quoted(db, '\'') + FOREIGN_KEYS_MID@ + quoted(table, '\'')
        + FOREIGN_KEYS_TAIL@
}

/// Plans the schema of `database`.`table` for names taken exactly as given
/// (no trimming, no default): both must be valid identifiers, the database
/// being checked first.
pub fn plan_table_schema(database: &str, table: &str) -> (r: Result<TableSchemaPlan, AppError>)
    ensures
        !is_valid_identifier(database@) ==> (r matches Err(e) && is_invalid_identifier_error(
            e,
            database@,
        )),
        is_valid_identifier(database@) && !is_valid_identifier(table@) ==> (r matches Err(e)
            && is_invalid_identifier_error(e, table@)),
        is_valid_identifier(database@) && is_valid_identifier(table@) ==> (r matches Ok(p)
            && p.database@ == database@ && p.table@ == table@ && p.describe_sql@ == describe_sql(
            database@,
            table@,
        ) && p.foreign_keys_sql@ == foreign_keys_sql(database@, table@)),
{
    let database = match checked_identifier(database) {
        Ok(d) => d,
        Err(e) => return Err(e),
    };
    let table = match checked_identifier(table) {
        Ok(t) => t,
        Err(e) => return Err(e),
    };
    let mut describe = String::from_str("DESCRIBE ");
    describe.append(quote_identifier(database.as_str(), '`').as_str());
    describe.append(".");
    describe.append(quote_identifier(table.as_str(), '`').as_str());
    let mut fk = FOREIGN_KEYS_HEAD.to_owned();
    fk.append(quote_string(database.as_str()).as_str());
    fk.append(FOREIGN_KEYS_MID);
    fk.append(quote_string(table.as_str()).as_str());
    fk.append(FOREIGN_KEYS_TAIL);
    Ok(TableSchemaPlan { database, table, describe_sql: describe, foreign_keys_sql: fk })
}

/// Plans the `getTableSchema` tool: the requested database is trimmed and a
/// blank or absent one means the connection's default; then both names must
/// be valid identifiers (the database is checked first).
pub fn plan_get_table_schema(request: &GetTableSchemaRequest, default: &str) -> (r: Result<
    TableSchemaPlan,
    AppError,
>)
    ensures
        ({
            let t = target_database(request.database, default@);
            if !is_valid_identifier(t) {
                r matches Err(e) && is_invalid_identifier_error(e, t)
            } else if !is_valid_identifier(request.table@) {
                r matches Err(e) && is_invalid_identifier_error(e, request.table@)
            } else {
                r matches Ok(p) && p.database@ == t && p.table@ == request.table@ && p.describe_sql@
                    == describe_sql(t, request.table@) && p.foreign_keys_sql@ == foreign_keys_sql(
                    t,
                    request.table@,
                )
            }
        }),
{
    let database = match resolve_database_or(&request.database, default) {
        Ok(s) => s,
        Err(e) => return Err(e),
    };
    plan_table_schema(database.as_str(), request.table.as_str())
}

/// The error for a table whose `DESCRIBE` returned no column.
pub fn table_not_found(database: &str, table: &str) -> (e: AppError)
    ensures
        e matches AppError::TableNotFound(s) && s@ == database@ + "."@ + table@,
{
    let mut s = database.to_owned();
    s.append(".");
    s.append(table);
    AppError::TableNotFound(s)
}

/// The `USE` statement that switches a connection to `database`, which
/// must be a valid identifier.
pub fn use_statement(database: &str) -> (r: Result<String, AppError>)
    ensures
        is_valid_identifier(database@) ==> (r matches Ok(s) && s@ == "USE "@ + quoted(
            database@,
            '`',
        )),
        !is_valid_identifier(database@) ==> (r matches Err(e) && is_invalid_identifier_error(
            e,
            database@,
        )),
{
    let name = match checked_identifier(database) {
        Ok(n) => n,
        Err(e) => return Err(e),
    };
    let mut s = String::from_str("USE ");
    s.append(quote_identifier(name.as_str(), '`').as_str());
    Ok(s)
}

/// `EXPLAIN` prefix with `analyze`.
pub const EXPLAIN_ANALYZE_PREFIX: &'static str = "EXPLAIN ANALYZE ";
/// `EXPLAIN` prefix without `analyze`.
pub const EXPLAIN_PREFIX: &'static str = "EXPLAIN FORMAT=JSON ";

/// Plans `explainQuery` (`EXPLAIN ANALYZE` or `EXPLAIN FORMAT=JSON`).
pub fn plan_explain_query(request: &ExplainQueryRequest, read_only: bool, checked: Result<
    StatementKind,
    AppError,
>) -> (r: Result<StatementPlan, AppError>)
    ensures
        request.analyze && read_only && checked is Err ==> (checked matches Err(e0) && r matches Err(
            e,
        ) && e == e0),
        !(request.analyze && read_only && checked is Err) ==> match requested_database(
            request.database,
        ) {
            Some(t) if !is_valid_identifier(t) => r matches Err(e) && is_invalid_identifier_error(e, t),
            _ => r matches Ok(p) && p.sql@ == (if request.analyze {
                EXPLAIN_ANALYZE_PREFIX@
            } else {
                EXPLAIN_PREFIX@
            }) + request.query@ && (match requested_database(request.database) {
                Some(t) => p.database matches Some(d) && d@ == t,
                None => p.database is None,
            }),
        },
{
    plan_explain(
        request.query.as_str(),
        &request.database,
        request.analyze,
        read_only,
        checked,
        EXPLAIN_ANALYZE_PREFIX,
        EXPLAIN_PREFIX,
    )
}

/// What `createDatabase` does: look the schema up, then create it unless it
/// already exists.
pub struct CreateDatabasePlan {
    /// The database to create.
    pub name: String,
    /// The lookup of the schema by name.
    pub check_sql: String,
    /// The creation statement.
    pub create_sql: String,
}

/// Head of the lookup of a schema by name.
pub const SCHEMA_EXISTS_HEAD: &'static str = "SELECT CAST(SCHEMA_NAME AS CHAR) FROM information_schema.SCHEMATA WHERE SCHEMA_NAME = ";

/// Plans `createDatabase`: refused in read-only mode and for invalid names.
pub fn plan_create_database(request: &CreateDatabaseRequest, read_only: bool) -> (r: Result<
    CreateDatabasePlan,
    AppError,
>)
    ensures
        read_only ==> (r matches Err(AppError::ReadOnlyViolation)),
        !read_only && !is_valid_identifier(request.database_name@) ==> (r matches Err(e)
            && is_invalid_identifier_error(e, request.database_name@)),
        !read_only && is_valid_identifier(request.database_name@) ==> (r matches Ok(p) && p.name@
            == request.database_name@ && p.check_sql@ == SCHEMA_EXISTS_HEAD@ + quoted(
            request.database_name@,
            '\'',
        ) && p.create_sql@ == "CREATE DATABASE IF NOT EXISTS "@ + quoted(
            request.database_name@,
            '`',
        )),
{
    if read_only {
        return Err(AppError::ReadOnlyViolation);
    }
    let name = match checked_identifier(request.database_name.as_str()) {
        Ok(n) => n,
        Err(e) => return Err(e),
    };
    let mut check_sql = SCHEMA_EXISTS_HEAD.to_owned();
    check_sql.append(quote_string(name.as_str()).as_str());
    let mut create_sql = String::from_str("CREATE DATABASE IF NOT EXISTS ");
    create_sql.append(quote_identifier(name.as_str(), '`').as_str());
    Ok(CreateDatabasePlan { name, check_sql, create_sql })
}

/// The step after the lookup of `createDatabase`.
pub enum CreateDatabaseStep {
    /// The database exists: answer with this message, create nothing.
    AlreadyExists(MessageResponse),
    /// Run this statement, then answer with the message.
    Create(String, MessageResponse),
}

impl CreateDatabasePlan {
    /// Decides what follows the lookup: the answer when the schema already
    /// exists, otherwise the creation and its confirmation.
    pub fn after_lookup(&self, exists: bool) -> (s: CreateDatabaseStep)
        ensures
            exists ==> (s matches CreateDatabaseStep::AlreadyExists(m) && m.message@
                == database_exists_message(self.name@)),
            !exists ==> (s matches CreateDatabaseStep::Create(sql, m) && sql@ == self.create_sql@
                && m.message@ == database_created_message(self.name@)),
    {
        if exists {
            CreateDatabaseStep::AlreadyExists(
                MessageResponse { message: database_exists(self.name.as_str()) },
            )
        } else {
            CreateDatabaseStep::Create(
                self.create_sql.clone(),
                MessageResponse { message: database_created(self.name.as_str()) },
            )
        }
    }
}

/// Plans `dropDatabase`: refused in read-only mode, for invalid names, and
/// for the database the server is connected to (compared without regard to
/// ASCII case).
pub fn plan_drop_database(request: &DropDatabaseRequest, read_only: bool, connected: &str) -> (r:
    Result<DropDatabasePlan, AppError>)
    ensures
        read_only ==> (r matches Err(AppError::ReadOnlyViolation)),
        !read_only && !is_valid_identifier(request.database_name@) ==> (r matches Err(e)
            && is_invalid_identifier_error(e, request.database_name@)),
        !read_only && is_valid_identifier(request.database_name@) && eq_ignore_ascii_case_spec(
            connected@,
            request.database_name@,
        ) ==> (r matches Err(AppError::Query(m)) && m@ == cannot_drop_connected_message(
            request.database_name@)),
        !read_only && is_valid_identifier(request.database_name@) && !eq_ignore_ascii_case_spec(
            connected@,
            request.database_name@,
        ) ==> (r matches Ok(p) && p.name@ == request.database_name@ && p.sql@ == "DROP DATABASE "@
            + quoted(request.database_name@, '`') && p.message@ == database_dropped_message(
            request.database_name@)),
{
    if read_only {
        return Err(AppError::ReadOnlyViolation);
    }
    let name = match checked_identifier(request.database_name.as_str()) {
        Ok(n) => n,
        Err(e) => return Err(e),
    };
    if str_eq_ignore_ascii_case(connected, name.as_str()) {
        return Err(
            AppError::Query(
                frame("Cannot drop the currently connected database ", name.as_str(), "."),
            ),
        );
    }
    let mut sql = String::from_str("DROP DATABASE ");
    sql.append(quote_identifier(name.as_str(), '`').as_str());
    let message = database_dropped(name.as_str());
    Ok(DropDatabasePlan { sql, name, message })
}

/// Plans `dropTable`: refused in read-only mode; the schema (default: the
/// connected one) and the table must be valid identifiers. The statement runs
/// after switching to the schema.
pub fn plan_drop_table(request: &DropTableRequest, read_only: bool, default: &str) -> (r: Result<
    DropTablePlan,
    AppError,
>)
    ensures
        read_only ==> (r matches Err(AppError::ReadOnlyViolation)),
        !read_only ==> ({
            let t = target_database(request.database, default@);
            if !is_valid_identifier(t) {
                r matches Err(e) && is_invalid_identifier_error(e, t)
            } else if !is_valid_identifier(request.table@) {
                r matches Err(e) && is_invalid_identifier_error(e, request.table@)
            } else {
                r matches Ok(p) && (p.database matches Some(d) && d@ == t) && p.sql@
                    == "DROP TABLE "@ + quoted(request.table@, '`') && p.message@
                    == table_dropped_message(request.table@)
            }
        }),
{
    if read_only {
        return Err(AppError::ReadOnlyViolation);
    }
    let database = match resolve_database_or(&request.database, default) {
        Ok(s) => s,
        Err(e) => return Err(e),
    };
    let table = match checked_identifier(request.table.as_str()) {
        Ok(t) => t,
        Err(e) => return Err(e),
    };
    let mut sql = String::from_str("DROP TABLE ");
    sql.append(quote_identifier(table.as_str(), '`').as_str());
    let message = table_dropped(table.as_str());
    Ok(DropTablePlan { sql, database: Some(database), message })
}

} // verus!

verus! {

/// One row of `DESCRIBE`; the values this module only carries are of the
/// caller's type `V`.
pub struct DescribeRow<V> {
    /// `Field`: the column's name, when it is a string.
    pub field: Option<String>,
    /// `Type`.
    pub column_type: V,
    /// `Null` (`YES` or `NO`), when it is a string.
    pub null: Option<String>,
    /// `Key`.
    pub key: V,
    /// `Default`.
    pub default: V,
    /// `Extra`.
    pub extra: V,
}

/// The description of one column.
pub struct ColumnInfo<V> {
    /// The column's type.
    pub column_type: V,
    /// The column accepts `NULL`.
    pub nullable: bool,
    /// The column's key kind.
    pub key: V,
    /// The column's default.
    pub default: V,
    /// Extra attributes of the column.
    pub extra: V,
}

/// One row of the foreign-key query of `getTableSchema`.
pub struct ForeignKeyRow<W> {
    /// The constrained column, when it is a string.
    pub column_name: Option<String>,
    /// What the constraint references.
    pub reference: ForeignKeyRef<W>,
}

/// The description a `DESCRIBE` row gives its column: nullable when `Null`
/// reads `YES`.
pub open spec fn column_info<V>(r: DescribeRow<V>) -> ColumnInfo<V> {
    ColumnInfo {
        column_type: r.column_type,
        nullable: match r.null {
            Some(n) => is_yes(n@),
            None => false,
        },
        key: r.key,
        default: r.default,
        extra: r.extra,
    }
}

/// The `(name, description)` pairs of the `DESCRIBE` rows that name their
/// column, in order.
pub open spec fn describe_pairs<V>(rows: Seq<DescribeRow<V>>) -> Seq<(String, ColumnInfo<V>)>
    decreases rows.len(),
{
    if rows.len() == 0 {
        Seq::empty()
    } else {
        let prev = describe_pairs(rows.drop_last());
        match rows.last().field {
            Some(n) => prev.push((n, column_info(rows.last()))),
            None => prev,
        }
    }
}

/// The `(column, reference)` pairs of the foreign-key rows that name their
/// column, in order.
pub open spec fn foreign_key_pairs<W>(rows: Seq<ForeignKeyRow<W>>) -> Seq<(String, ForeignKeyRef<W>)>
    decreases rows.len(),
{
    if rows.len() == 0 {
        Seq::empty()
    } else {
        let prev = foreign_key_pairs(rows.drop_last());
        match rows.last().column_name {
            Some(n) => prev.push((n, rows.last().reference)),
            None => prev,
        }
    }
}

/// Row `j` is the last `DESCRIBE` row whose `Field` is `name`.
pub open spec fn last_described<V>(rows: Seq<DescribeRow<V>>, j: int, name: Seq<char>) -> bool {
    &&& 0 <= j < rows.len()
    &&& rows[j].field is Some
    &&& rows[j].field->0@ == name
    &&& forall|m: int| j < m < rows.len() ==> !((#[trigger] rows[m]).field is Some && rows[m].field->0@ == name)
}

/// The columns that `DESCRIBE` rows describe are the `Field`s they name, and
/// each is described by the last row naming it.
proof fn lemma_describe_keyed<V>(rows: Seq<DescribeRow<V>>, k: Seq<char>)
    ensures
        keyed(describe_pairs(rows)).contains_key(k) <==> exists|j: int|
            0 <= j < rows.len() && (#[trigger] rows[j]).field is Some && rows[j].field->0@ == k,
        keyed(describe_pairs(rows)).contains_key(k) ==> exists|j: int|
            #[trigger] last_described(rows, j, k) && keyed(describe_pairs(rows))[k] == column_info(rows[j]),
    decreases rows.len(),
{
    if rows.len() > 0 {
        let prefix = rows.drop_last();
        lemma_describe_keyed(prefix, k);
        let n = rows.len() - 1;
        let prev = describe_pairs(prefix);
        assert forall|j: int| 0 <= j < prefix.len() implies #[trigger] prefix[j] == rows[j] by {}
        match rows[n].field {
            Some(name) => {
                let e = (name, column_info(rows[n]));
                assert(prev.push(e).drop_last() =~= prev);
                assert(keyed(describe_pairs(rows)) == keyed(prev).insert(name@, column_info(rows[n])));
                if name@ == k {
                    assert(last_described(rows, n, k));
                } else if keyed(prev).contains_key(k) {
                    let j = choose|j: int| #[trigger] last_described(prefix, j, k) && keyed(prev)[k] == column_info(prefix[j]);
                    assert forall|m: int| j < m < rows.len() implies !((#[trigger] rows[m]).field is Some
                        && rows[m].field->0@ == k) by {
                        if m < n {
                            assert(prefix[m] == rows[m]);
                        }
                    }
                    assert(last_described(rows, j, k));
                }
            },
            None => {
                if keyed(prev).contains_key(k) {
                    let j = choose|j: int| #[trigger] last_described(prefix, j, k) && keyed(prev)[k] == column_info(prefix[j]);
                    assert forall|m: int| j < m < rows.len() implies !((#[trigger] rows[m]).field is Some
                        && rows[m].field->0@ == k) by {
                        if m < n {
                            assert(prefix[m] == rows[m]);
                        }
                    }
                    assert(last_described(rows, j, k));
                }
            },
        }
        if exists|j: int| 0 <= j < rows.len() && (#[trigger] rows[j]).field is Some && rows[j].field->0@ == k {
            let j = choose|j: int| 0 <= j < rows.len() && (#[trigger] rows[j]).field is Some && rows[j].field->0@ == k;
            if j < n {
                assert(prefix[j] == rows[j]);
            }
        }
        if keyed(describe_pairs(rows)).contains_key(k) {
            let j = choose|j: int| #[trigger] last_described(rows, j, k) && keyed(describe_pairs(rows))[k] == column_info(rows[j]);
            assert(rows[j].field is Some && rows[j].field->0@ == k);
        }
    }
}

/// Each column of an assembled schema is described by the last `DESCRIBE`
/// row naming it: its type, key, default and extra attributes are that row's,
/// and it is nullable exactly when that row's `Null` reads `YES`; and every
/// row that names a column has it in the schema.
pub proof fn lemma_mysql_columns_follow_their_last_row<V, F>(
    cols: Seq<SchemaColumn<ColumnInfo<V>, F>>,
    rows: Seq<DescribeRow<V>>,
    fks: Seq<(String, F)>,
)
    requires
        assembled(cols, describe_pairs(rows), fks),
    ensures
        forall|i: int|
            #![trigger cols[i]]
            0 <= i < cols.len() ==> exists|j: int|
                #[trigger] last_described(rows, j, cols[i].name@) && cols[i].column.column_type
                    == rows[j].column_type && cols[i].column.key == rows[j].key && cols[i].column.default
                    == rows[j].default && cols[i].column.extra == rows[j].extra && cols[i].column.nullable
                    == (rows[j].null is Some && is_yes(rows[j].null->0@)),
        forall|j: int|
            0 <= j < rows.len() && (#[trigger] rows[j]).field is Some ==> has_name(cols, rows[j].field->0@),
{
    let pairs = describe_pairs(rows);
    assert forall|i: int| #![trigger cols[i]] 0 <= i < cols.len() implies exists|j: int|
        #[trigger] last_described(rows, j, cols[i].name@) && cols[i].column.column_type
            == rows[j].column_type && cols[i].column.key == rows[j].key && cols[i].column.default
            == rows[j].default && cols[i].column.extra == rows[j].extra && cols[i].column.nullable
            == (rows[j].null is Some && is_yes(rows[j].null->0@)) by {
        let k = cols[i].name@;
        assert(cols[i].column == keyed(pairs)[k]);
        lemma_describe_keyed(rows, k);
        let j = choose|j: int| #[trigger] last_described(rows, j, k) && keyed(pairs)[k] == column_info(rows[j]);
        assert(cols[i].column == column_info(rows[j]));
    }
    assert forall|j: int| 0 <= j < rows.len() && (#[trigger] rows[j]).field is Some implies has_name(
        cols,
        rows[j].field->0@,
    ) by {
        lemma_describe_keyed(rows, rows[j].field->0@);
    }
}

/// Row `j` is the last foreign-key row naming column `name`.
pub open spec fn last_key_row<W>(fks: Seq<ForeignKeyRow<W>>, j: int, name: Seq<char>) -> bool {
    &&& 0 <= j < fks.len()
    &&& fks[j].column_name is Some
    &&& fks[j].column_name->0@ == name
    &&& forall|m: int| j < m < fks.len() ==> !((#[trigger] fks[m]).column_name is Some && fks[m].column_name->0@ == name)
}

/// The foreign keys that the rows give: the reference of the last row
/// naming each column.
proof fn lemma_foreign_keys_keyed<W>(fks: Seq<ForeignKeyRow<W>>, k: Seq<char>)
    ensures
        keyed(foreign_key_pairs(fks)).contains_key(k) ==> exists|j: int|
            #[trigger] last_key_row(fks, j, k) && keyed(foreign_key_pairs(fks))[k] == fks[j].reference,
        !keyed(foreign_key_pairs(fks)).contains_key(k) ==> forall|j: int|
            0 <= j < fks.len() ==> !((#[trigger] fks[j]).column_name is Some && fks[j].column_name->0@ == k),
    decreases fks.len(),
{
    if fks.len() > 0 {
        let prefix = fks.drop_last();
        lemma_foreign_keys_keyed(prefix, k);
        let n = fks.len() - 1;
        let prev = foreign_key_pairs(prefix);
        assert forall|j: int| 0 <= j < prefix.len() implies #[trigger] prefix[j] == fks[j] by {}
        match fks[n].column_name {
            Some(name) => {
                let e = (name, fks[n].reference);
                assert(prev.push(e).drop_last() =~= prev);
                assert(keyed(foreign_key_pairs(fks)) == keyed(prev).insert(name@, fks[n].reference));
                if name@ == k {
                    assert(last_key_row(fks, n, k));
                } else if keyed(prev).contains_key(k) {
                    let j = choose|j: int| #[trigger] last_key_row(prefix, j, k) && keyed(prev)[k] == prefix[j].reference;
                    assert forall|m: int| j < m < fks.len() implies !((#[trigger] fks[m]).column_name is Some
                        && fks[m].column_name->0@ == k) by {
                        if m < n {
                            assert(prefix[m] == fks[m]);
                        }
                    }
                    assert(last_key_row(fks, j, k));
                }
            },
            None => {
                if keyed(prev).contains_key(k) {
                    let j = choose|j: int| #[trigger] last_key_row(prefix, j, k) && keyed(prev)[k] == prefix[j].reference;
                    assert forall|m: int| j < m < fks.len() implies !((#[trigger] fks[m]).column_name is Some
                        && fks[m].column_name->0@ == k) by {
                        if m < n {
                            assert(prefix[m] == fks[m]);
                        }
                    }
                    assert(last_key_row(fks, j, k));
                }
            },
        }
        if !keyed(foreign_key_pairs(fks)).contains_key(k) {
            assert forall|j: int| 0 <= j < fks.len() implies !((#[trigger] fks[j]).column_name is Some
                && fks[j].column_name->0@ == k) by {
                if j < n {
                    assert(prefix[j] == fks[j]);
                }
            }
        }
    }
}

/// Each column of an assembled schema carries the reference of the last
/// foreign-key row naming it, and no foreign key when no row names it.
pub proof fn lemma_mysql_columns_carry_their_foreign_key<C, W>(
    cols: Seq<SchemaColumn<C, ForeignKeyRef<W>>>,
    rows: Seq<(String, C)>,
    fks: Seq<ForeignKeyRow<W>>,
)
    requires
        assembled(cols, rows, foreign_key_pairs(fks)),
    ensures
        forall|i: int|
            #![trigger cols[i]]
            0 <= i < cols.len() ==> (exists|j: int|
                #[trigger] last_key_row(fks, j, cols[i].name@) && cols[i].foreign_key == Some(
                    fks[j].reference,
                )) || ((forall|j: int|
                0 <= j < fks.len() ==> !((#[trigger] fks[j]).column_name is Some
                    && fks[j].column_name->0@ == cols[i].name@)) && cols[i].foreign_key is None),
{
    let pairs = foreign_key_pairs(fks);
    assert forall|i: int| #![trigger cols[i]] 0 <= i < cols.len() implies (exists|j: int|
        #[trigger] last_key_row(fks, j, cols[i].name@) && cols[i].foreign_key == Some(
            fks[j].reference,
        )) || ((forall|j: int|
        0 <= j < fks.len() ==> !((#[trigger] fks[j]).column_name is Some
            && fks[j].column_name->0@ == cols[i].name@)) && cols[i].foreign_key is None) by {
        let k = cols[i].name@;
        assert(cols[i].column == keyed(rows)[k]);
        assert(cols[i].foreign_key == foreign_key_of(pairs, k));
        lemma_foreign_keys_keyed(fks, k);
    }
}

/// Assembles the answer of `getTableSchema` from the rows of `DESCRIBE`
/// and of the foreign-key query: the table is unknown when `DESCRIBE`
/// returned no row.
pub fn table_schema<V, W>(
    database: &str,
    table: String,
    rows: Vec<DescribeRow<V>>,
    fks: Vec<ForeignKeyRow<W>>,
) -> (r: Result<TableSchema<ColumnInfo<V>, ForeignKeyRef<W>>, AppError>)
    ensures
        rows@.len() == 0 ==> (r matches Err(AppError::TableNotFound(t)) && t@ == database@ + "."@
            + table@),
        rows@.len() > 0 ==> (r matches Ok(s) && s.table@ == table@ && assembled(
            s.columns@,
            describe_pairs(rows@),
            foreign_key_pairs(fks@),
        )),
{
    if rows.len() == 0 {
        return Err(table_not_found(database, table.as_str()));
    }
    let mut rows = rows;
    let ghost all = rows@;
    let ghost mut done: Seq<DescribeRow<V>> = Seq::empty();
    let mut pairs: Vec<(String, ColumnInfo<V>)> = Vec::new();
    while rows.len() > 0
        invariant
            all == done + rows@,
            pairs@ == describe_pairs(done),
        decreases rows.len(),
    {
        let ghost e = rows@[0];
        let row = rows.remove(0);
        proof {
            assert(done.push(e).drop_last() =~= done);
            done = done.push(e);
        }
        if let Some(name) = row.field {
            let nullable = match &row.null {
                Some(n) => flag_is_yes(n.as_str()),
                None => false,
            };
            pairs.push(
                (
                    name,
                    ColumnInfo {
                        column_type: row.column_type,
                        nullable,
                        key: row.key,
                        default: row.default,
                        extra: row.extra,
                    },
                ),
            );
        }
    }
    let mut fks = fks;
    let ghost all_fks = fks@;
    let ghost mut done_fks: Seq<ForeignKeyRow<W>> = Seq::empty();
    let mut fk_pairs: Vec<(String, ForeignKeyRef<W>)> = Vec::new();
    while fks.len() > 0
        invariant
            all_fks == done_fks + fks@,
            fk_pairs@ == foreign_key_pairs(done_fks),
        decreases fks.len(),
    {
        let ghost e = fks@[0];
        let row = fks.remove(0);
        proof {
            assert(done_fks.push(e).drop_last() =~= done_fks);
            done_fks = done_fks.push(e);
        }
        if let Some(name) = row.column_name {
            fk_pairs.push((name, row.reference));
        }
    }
    proof {
        assert(done =~= all);
        assert(done_fks =~= all_fks);
    }
    Ok(TableSchema { table, columns: assemble_columns(pairs, fk_pairs) })
}

} // verus!
