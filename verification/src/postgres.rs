//! Planning of the PostgreSQL tools: the statements each tool runs, the
//! database it targets, and the refusals it answers without touching the
//! database.
//!
//! Identifiers are quoted with double quotes, string literals with single
//! quotes. Listings cover the `public` schema of the target database.

use vstd::prelude::*;
use crate::config::DatabaseConfig;
use crate::error::{AppError, app_error_message};
use crate::identifier::is_valid_identifier;
use crate::pagination::{Cursor, Pager};
use crate::plan::{
    PagedQuery, StatementPlan, StatementKind, DropDatabasePlan, DropTablePlan, cursor_start, bound_offset,
    limit_offset_clause, push_limit_offset, requested_database, is_invalid_identifier_error,
    resolve_database, checked_identifier, plan_explain, frame, database_exists_message,
    database_dropped, table_dropped, database_dropped_message, table_dropped_message,
    cannot_drop_connected_message,
};
use crate::text::{contains_seq, quoted, quote_identifier, quote_string, str_contains, push_char};
use crate::types::{
    ListViewsRequest, ListTriggersRequest, ListProceduresRequest, ListMaterializedViewsRequest,
    ListTablesRequest, GetTableSchemaRequest, ExplainQueryRequest, CreateDatabaseRequest,
    DropDatabaseRequest, DropTableRequest,
};
use crate::mysql::{search_pattern, trimmed_pattern, ListTablesPlan, same_text, copy_text};
use crate::schema::{
    ForeignKeyRef, TableSchema, SchemaColumn, assemble_columns, assembled, is_yes, flag_is_yes, keyed,
    has_name, lemma_keyed_holds_last_row,
};

verus! {

/// The database a PostgreSQL connection uses by default: the configured
/// name, or the user name when no name is configured (PostgreSQL's own
/// default).
pub open spec fn postgres_default_database(name: Option<String>, user: Seq<char>) -> Seq<char> {
    match name {
        Some(n) => if n@.len() == 0 {
            user
        } else {
            n@
        },
        None => user,
    }
}

/// Returns the name of the database the connection uses by default.
pub fn default_database_name(config: &DatabaseConfig) -> (r: String)
    ensures
        r@ == postgres_default_database(config.name, config.user@),
{
    match &config.name {
        Some(n) => if n.as_str().is_empty() {
            config.user.clone()
        } else {
            n.clone()
        },
        None => config.user.clone(),
    }
}

/// Statement listing the databases that are not templates.
pub const LIST_DATABASES_SQL: &'static str = "SELECT datname FROM pg_database WHERE datistemplate = false ORDER BY datname";
/// Statement listing views, before its page clause.
pub const LIST_VIEWS_SQL: &'static str = "SELECT viewname FROM pg_views WHERE schemaname = 'public' ORDER BY viewname";
/// Statement listing triggers, before its page clause.
pub const LIST_TRIGGERS_SQL: &'static str = "SELECT t.tgname FROM pg_trigger t JOIN pg_class c ON t.tgrelid = c.oid JOIN pg_namespace n ON c.relnamespace = n.oid WHERE n.nspname = 'public' AND NOT t.tgisinternal ORDER BY t.tgname";
/// Statement listing procedures, before its page clause.
pub const LIST_PROCEDURES_SQL: &'static str = "SELECT p.proname FROM pg_proc p JOIN pg_namespace n ON p.pronamespace = n.oid WHERE n.nspname = 'public' AND p.prokind = 'p' ORDER BY p.proname";
/// Statement listing materialized views, before its page clause.
pub const LIST_MATERIALIZED_VIEWS_SQL: &'static str = "SELECT matviewname FROM pg_matviews WHERE schemaname = 'public' ORDER BY matviewname";

/// `r` is the plan of the paginated listing `base` in the database that
/// `database` names (the default one when it names none), or the
/// invalid-identifier error for a named database that is not valid.
pub open spec fn listing_outcome(
    r: Result<PagedQuery, AppError>,
    base: Seq<char>,
    database: Option<String>,
    cursor: Option<Cursor>,
    page_size: u16,
) -> bool {
    match requested_database(database) {
        Some(t) if !is_valid_identifier(t) => r matches Err(e) && is_invalid_identifier_error(e, t),
        _ => r matches Ok(p) && p.pager.start() == cursor_start(cursor) && p.pager.page_size()
            == page_size && p.sql@ == base + limit_offset_clause(p.pager) && (match requested_database(
            database,
        ) {
            Some(t) => p.database matches Some(d) && d@ == t,
            None => p.database is None,
        }),
    }
}

/// Plans a paginated listing of the `public` schema.
fn plan_listing(base: &str, database: &Option<String>, cursor: Option<Cursor>, page_size: u16) -> (r:
    Result<PagedQuery, AppError>)
    ensures
        listing_outcome(r, base@, *database, cursor, page_size),
{
    let database = match resolve_database(database) {
        Ok(d) => d,
        Err(e) => return Err(e),
    };
    let pager = Pager::new(cursor, page_size);
    let mut sql = base.to_owned();
    push_limit_offset(&mut sql, &pager);
    Ok(PagedQuery { sql, database, pager })
}

/// Plans `listViews`.
pub fn plan_list_views(request: &ListViewsRequest, page_size: u16) -> (r: Result<PagedQuery, AppError>)
    ensures
        listing_outcome(r, LIST_VIEWS_SQL@, request.database, request.cursor, page_size),
{
    plan_listing(LIST_VIEWS_SQL, &request.database, request.cursor, page_size)
}

/// Plans `listTriggers`.
pub fn plan_list_triggers(request: &ListTriggersRequest, page_size: u16) -> (r: Result<
    PagedQuery,
    AppError,
>)
    ensures
        listing_outcome(r, LIST_TRIGGERS_SQL@, request.database, request.cursor, page_size),
{
    plan_listing(LIST_TRIGGERS_SQL, &request.database, request.cursor, page_size)
}

/// Plans `listProcedures`.
pub fn plan_list_procedures(request: &ListProceduresRequest, page_size: u16) -> (r: Result<
    PagedQuery,
    AppError,
>)
    ensures
        listing_outcome(r, LIST_PROCEDURES_SQL@, request.database, request.cursor, page_size),
{
    plan_listing(LIST_PROCEDURES_SQL, &request.database, request.cursor, page_size)
}

/// Plans `listMaterializedViews`.
pub fn plan_list_materialized_views(request: &ListMaterializedViewsRequest, page_size: u16) -> (r:
    Result<PagedQuery, AppError>)
    ensures
        listing_outcome(r, LIST_MATERIALIZED_VIEWS_SQL@, request.database, request.cursor, page_size),
{
    plan_listing(LIST_MATERIALIZED_VIEWS_SQL, &request.database, request.cursor, page_size)
}

/// Plans `listTables` in the requested database (default: the connected one).
pub fn plan_list_tables(request: &ListTablesRequest, page_size: u16) -> (r: Result<
    ListTablesPlan,
    AppError,
>)
    ensures
        match requested_database(request.database) {
            Some(t) if !is_valid_identifier(t) => r matches Err(e) && is_invalid_identifier_error(e, t),
            _ => r matches Ok(p) && p.detailed == request.detailed && p.pager.start() == cursor_start(
                request.cursor,
            ) && p.pager.page_size() == page_size && (match search_pattern(request.search) {
                Some(s) => p.pattern matches Some(q) && q@ == s,
                None => p.pattern is None,
            }) && (match requested_database(request.database) {
                Some(t) => p.database matches Some(d) && d@ == t,
                None => p.database is None,
            }),
        },
{
    let database = match resolve_database(&request.database) {
        Ok(d) => d,
        Err(e) => return Err(e),
    };
    let pager = Pager::new(request.cursor, page_size);
    let pattern = trimmed_pattern(&request.search);
    Ok(ListTablesPlan { database, pattern, detailed: request.detailed, pager })
}

/// `listTables` in brief mode: the table names of one page, bound with the
/// filter, the limit and the offset.
pub const LIST_TABLES_BRIEF_SQL: &'static str = r"
    SELECT tablename
    FROM pg_tables
    WHERE schemaname = 'public'
      AND ($1::text IS NULL OR tablename ILIKE $1)
    ORDER BY tablename
    LIMIT $2 OFFSET $3";

/// `listTables` in detailed mode: one `(name, metadata)` row per table of one
/// page, bound with the filter, the limit and the offset.
pub const LIST_TABLES_DETAILED_SQL: &'static str = r"
    WITH table_info AS (
        SELECT
            t.oid AS table_oid,
            ns.nspname AS schema_name,
            t.relname AS table_name,
            pg_get_userbyid(t.relowner) AS table_owner,
            obj_description(t.oid, 'pg_class') AS table_comment,
            t.relkind AS object_kind
        FROM pg_class t
        JOIN pg_namespace ns ON ns.oid = t.relnamespace
        WHERE t.relkind IN ('r', 'p')
          AND ns.nspname = 'public'
          AND ($1::text IS NULL OR t.relname ILIKE $1)
        ORDER BY t.relname
        LIMIT $2 OFFSET $3
    ),
    columns_info AS (
        SELECT
            att.attrelid AS table_oid,
            att.attname AS column_name,
            format_type(att.atttypid, att.atttypmod) AS data_type,
            att.attnum AS ordinal_position,
            NOT att.attnotnull AS nullable,
            pg_get_expr(ad.adbin, ad.adrelid) AS column_default,
            col_description(att.attrelid, att.attnum) AS column_comment
        FROM pg_attribute att
        LEFT JOIN pg_attrdef ad ON att.attrelid = ad.adrelid AND att.attnum = ad.adnum
        JOIN table_info ti ON att.attrelid = ti.table_oid
        WHERE att.attnum > 0 AND NOT att.attisdropped
    ),
    constraints_info AS (
        SELECT
            con.conrelid AS table_oid,
            con.conname AS constraint_name,
            pg_get_constraintdef(con.oid) AS constraint_definition,
            CASE con.contype
                WHEN 'p' THEN 'PRIMARY KEY'
                WHEN 'f' THEN 'FOREIGN KEY'
                WHEN 'u' THEN 'UNIQUE'
                WHEN 'c' THEN 'CHECK'
                ELSE con.contype::text
            END AS constraint_type,
            COALESCE((
                SELECT array_agg(att.attname ORDER BY u.attposition)
                FROM unnest(con.conkey) WITH ORDINALITY AS u(attnum, attposition)
                JOIN pg_attribute att ON att.attrelid = con.conrelid AND att.attnum = u.attnum
            ), ARRAY[]::name[]) AS constraint_columns,
            CASE WHEN con.confrelid <> 0
                 THEN (con.confrelid::regclass)::text
                 ELSE NULL END AS referenced_table,
            (
                SELECT array_agg(att.attname ORDER BY u.attposition)
                FROM unnest(con.confkey) WITH ORDINALITY AS u(attnum, attposition)
                JOIN pg_attribute att ON att.attrelid = con.confrelid AND att.attnum = u.attnum
                WHERE con.contype = 'f'
            ) AS referenced_columns
        FROM pg_constraint con
        JOIN table_info ti ON con.conrelid = ti.table_oid
        WHERE con.contype IN ('p', 'f', 'u', 'c')
    ),
    indexes_info AS (
        SELECT
            idx.indrelid AS table_oid,
            ic.relname AS index_name,
            pg_get_indexdef(idx.indexrelid) AS index_definition,
            idx.indisunique AS is_unique,
            idx.indisprimary AS is_primary,
            am.amname AS index_method,
            (
                SELECT array_agg(att.attname ORDER BY u.ord)
                FROM unnest(idx.indkey::int[]) WITH ORDINALITY AS u(colidx, ord)
                LEFT JOIN pg_attribute att ON att.attrelid = idx.indrelid AND att.attnum = u.colidx
                WHERE u.colidx <> 0
            ) AS index_columns
        FROM pg_index idx
        JOIN pg_class ic ON ic.oid = idx.indexrelid
        JOIN pg_am am ON am.oid = ic.relam
        JOIN table_info ti ON idx.indrelid = ti.table_oid
    ),
    triggers_info AS (
        SELECT
            tg.tgrelid AS table_oid,
            tg.tgname AS trigger_name,
            pg_get_triggerdef(tg.oid) AS trigger_definition,
            tg.tgenabled::text AS trigger_enabled
        FROM pg_trigger tg
        JOIN table_info ti ON tg.tgrelid = ti.table_oid
        WHERE NOT tg.tgisinternal
    )
    SELECT ti.table_name AS name, json_build_object(
        'schema',  ti.schema_name,
        'kind',    CASE ti.object_kind
                       WHEN 'r' THEN 'TABLE'
                       WHEN 'p' THEN 'PARTITIONED_TABLE'
                       ELSE ti.object_kind::text
                   END,
        'owner',   ti.table_owner,
        'comment', ti.table_comment,
        'columns', COALESCE((
            SELECT json_agg(json_build_object(
                'name',            ci.column_name,
                'dataType',        ci.data_type,
                'ordinalPosition', ci.ordinal_position,
                'nullable',        ci.nullable,
                'default',         ci.column_default,
                'comment',         ci.column_comment
            ) ORDER BY ci.ordinal_position)
            FROM columns_info ci WHERE ci.table_oid = ti.table_oid
        ), '[]'::json),
        'constraints', COALESCE((
            SELECT json_agg(json_build_object(
                'name',              cons.constraint_name,
                'type',              cons.constraint_type,
                'columns',           cons.constraint_columns,
                'definition',        cons.constraint_definition,
                'referencedTable',   cons.referenced_table,
                'referencedColumns', cons.referenced_columns
            ))
            FROM constraints_info cons WHERE cons.table_oid = ti.table_oid
        ), '[]'::json),
        'indexes', COALESCE((
            SELECT json_agg(json_build_object(
                'name',       ii.index_name,
                'columns',    ii.index_columns,
                'unique',     ii.is_unique,
                'primary',    ii.is_primary,
                'method',     ii.index_method,
                'definition', ii.index_definition
            ))
            FROM indexes_info ii WHERE ii.table_oid = ti.table_oid
        ), '[]'::json),
        'triggers', COALESCE((
            SELECT json_agg(json_build_object(
                'name',       tri.trigger_name,
                'definition', tri.trigger_definition,
                'enabled',    tri.trigger_enabled
            ))
            FROM triggers_info tri WHERE tri.table_oid = ti.table_oid
        ), '[]'::json)
    ) AS entry
    FROM table_info ti
    ORDER BY ti.schema_name, ti.table_name";

/// A character that `ILIKE` reads as a wildcard or as its escape.
pub open spec fn is_like_special(c: char) -> bool {
    c == '%' || c == '_' || c == '\\'
}

/// `s` with a backslash before every `%`, `_` and `\\`, so that `ILIKE`
/// matches each of them as itself.
pub open spec fn escape_like(s: Seq<char>) -> Seq<char>
    decreases s.len(),
{
    if s.len() == 0 {
        Seq::empty()
    } else if is_like_special(s.last()) {
        escape_like(s.drop_last()) + seq!['\\', s.last()]
    } else {
        escape_like(s.drop_last()).push(s.last())
    }
}

/// The `ILIKE` pattern a search binds: the search text, its wildcards taken
/// literally, anywhere in the table name (compared case-insensitively).
pub open spec fn name_filter(search: Seq<char>) -> Seq<char> {
    seq!['%'] + escape_like(search) + seq!['%']
}

/// Builds the `ILIKE` pattern of a search.
pub fn like_filter(search: &str) -> (r: String)
    ensures
        r@ == name_filter(search@),
{
    let mut out = String::new();
    push_char(&mut out, '%');
    for c in it: search.chars()
        invariant
            it.seq() == search@,
            out@ == seq!['%'] + escape_like(search@.take(it.index() as int)),
    {
        let ghost k = it.index() as int;
        proof {
            assert(search@.take(k + 1).drop_last() =~= search@.take(k));
            assert(search@.take(k + 1).last() == c);
        }
        if c == '%' || c == '_' || c == '\\' {
            push_char(&mut out, '\\');
            push_char(&mut out, c);
        } else {
            push_char(&mut out, c);
        }
    }
    proof {
        assert(search@.take(search@.len() as int) =~= search@);
    }
    push_char(&mut out, '%');
    out
}

/// The statement `listTables` runs and the values it binds.
pub struct ListTablesQuery {
    /// The statement for the plan's mode.
    pub sql: &'static str,
    /// Database to run against (`None` = the connection's default).
    pub database: Option<String>,
    /// The `ILIKE` pattern on table names; `None` lists every table.
    pub filter: Option<String>,
    /// Rows to fetch: the page size plus one lookahead row.
    pub limit: i64,
    /// Rows to skip.
    pub offset: i64,
}

/// The statement and bindings that carry out a `listTables` plan.
pub fn list_tables_query(plan: &ListTablesPlan) -> (q: ListTablesQuery)
    ensures
        q.sql@ == (if plan.detailed {
            LIST_TABLES_DETAILED_SQL@
        } else {
            LIST_TABLES_BRIEF_SQL@
        }),
        same_text(q.database, plan.database),
        match plan.pattern {
            Some(p) => q.filter matches Some(f) && f@ == name_filter(p@),
            None => q.filter is None,
        },
        q.limit == plan.pager.page_size() + 1,
        q.offset == bound_offset(plan.pager),
{
    let sql = if plan.detailed {
        LIST_TABLES_DETAILED_SQL
    } else {
        LIST_TABLES_BRIEF_SQL
    };
    let filter = match &plan.pattern {
        Some(p) => Some(like_filter(p.as_str())),
        None => None,
    };
    ListTablesQuery {
        sql,
        database: copy_text(&plan.database),
        filter,
        limit: plan.pager.limit(),
        offset: plan.pager.offset(),
    }
}

/// The statements `getTableSchema` runs.
pub struct TableSchemaPlan {
    /// Database holding the table (`None` = the connection's default).
    pub database: Option<String>,
    /// The table.
    pub table: String,
    /// The columns of the table, in ordinal order.
    pub columns_sql: String,
    /// The foreign keys of the table.
    pub foreign_keys_sql: String,
}

/// Head of the statement reading columns.
pub const COLUMNS_HEAD: &'static str = "SELECT column_name, data_type, is_nullable, column_default, character_maximum_length FROM information_schema.columns WHERE table_schema = 'public' AND table_name = ";
/// Tail of the statement reading columns.
pub const COLUMNS_TAIL: &'static str = " ORDER BY ordinal_position";
/// Head of the statement reading foreign keys.
pub const FOREIGN_KEYS_HEAD: &'static str = "SELECT kcu.column_name, tc.constraint_name, ccu.table_name AS referenced_table, ccu.column_name AS referenced_column, rc.update_rule AS on_update, rc.delete_rule AS on_delete FROM information_schema.table_constraints tc JOIN information_schema.key_column_usage kcu ON tc.constraint_name = kcu.constraint_name AND tc.table_schema = kcu.table_schema JOIN information_schema.constraint_column_usage ccu ON ccu.constraint_name = tc.constraint_name AND ccu.table_schema = tc.table_schema JOIN information_schema.referential_constraints rc ON rc.constraint_name = tc.constraint_name AND rc.constraint_schema = tc.table_schema WHERE tc.constraint_type = 'FOREIGN KEY' AND tc.table_name = ";
/// Tail of the statement reading foreign keys.
pub const FOREIGN_KEYS_TAIL: &'static str = " AND tc.table_schema = 'public'";

/// Plans `getTableSchema`: the table name is checked first, then the
/// optional database.
pub fn plan_get_table_schema(request: &GetTableSchemaRequest) -> (r: Result<TableSchemaPlan, AppError>)
    ensures
        !is_valid_identifier(request.table@) ==> (r matches Err(e) && is_invalid_identifier_error(
            e,
            request.table@,
        )),
        is_valid_identifier(request.table@) ==> match requested_database(request.database) {
            Some(t) if !is_valid_identifier(t) => r matches Err(e) && is_invalid_identifier_error(e, t),
            _ => r matches Ok(p) && p.table@ == request.table@ && p.columns_sql@ == COLUMNS_HEAD@
                + quoted(request.table@, '\'') + COLUMNS_TAIL@ && p.foreign_keys_sql@
                == FOREIGN_KEYS_HEAD@ + quoted(request.table@, '\'') + FOREIGN_KEYS_TAIL@ && (
            match requested_database(request.database) {
                Some(t) => p.database matches Some(d) && d@ == t,
                None => p.database is None,
            }),
        },
{
    let table = match checked_identifier(request.table.as_str()) {
        Ok(t) => t,
        Err(e) => return Err(e),
    };
    let database = match resolve_database(&request.database) {
        Ok(d) => d,
        Err(e) => return Err(e),
    };
    let literal = quote_string(table.as_str());
    let mut columns_sql = COLUMNS_HEAD.to_owned();
    columns_sql.append(literal.as_str());
    columns_sql.append(COLUMNS_TAIL);
    let mut foreign_keys_sql = FOREIGN_KEYS_HEAD.to_owned();
    foreign_keys_sql.append(literal.as_str());
    foreign_keys_sql.append(FOREIGN_KEYS_TAIL);
    Ok(TableSchemaPlan { database, table, columns_sql, foreign_keys_sql })
}

/// `EXPLAIN` prefix with `analyze`.
pub const EXPLAIN_ANALYZE_PREFIX: &'static str = "EXPLAIN (ANALYZE, FORMAT JSON) ";
/// `EXPLAIN` prefix without `analyze`.
pub const EXPLAIN_PREFIX: &'static str = "EXPLAIN (FORMAT JSON) ";

/// Plans `explainQuery` (`EXPLAIN (ANALYZE, FORMAT JSON)` or `EXPLAIN (FORMAT JSON)`).
pub fn plan_explain_query(request: &ExplainQueryRequest, read_only: bool, checked: Result<
    StatementKind,
    AppError,
>) -> (r: Result<StatementPlan, AppError>)
    ensures
        request.analyze && read_only && checked is Err ==> (checked matches Err(e0) && r matches Err(
            e,
        ) && e == e0),
        !(request.analyze && read_only && checked is Err) ==> match requested_database(
            request.database,
        ) {
            Some(t) if !is_valid_identifier(t) => r matches Err(e) && is_invalid_identifier_error(e, t),
            _ => r matches Ok(p) && p.sql@ == (if request.analyze {
                EXPLAIN_ANALYZE_PREFIX@
            } else {
                EXPLAIN_PREFIX@
            }) + request.query@ && (match requested_database(request.database) {
                Some(t) => p.database matches Some(d) && d@ == t,
                None => p.database is None,
            }),
        },
{
    plan_explain(
        request.query.as_str(),
        &request.database,
        request.analyze,
        read_only,
        checked,
        EXPLAIN_ANALYZE_PREFIX,
        EXPLAIN_PREFIX,
    )
}

/// A `CREATE DATABASE` to execute and the confirmation to answer once it ran.
pub struct CreateDatabasePlan {
    /// The database to create.
    pub name: String,
    /// The creation statement.
    pub sql: String,
    /// The confirmation message.
    pub message: String,
}

/// Plans `createDatabase`: refused in read-only mode and for invalid names.
pub fn plan_create_database(request: &CreateDatabaseRequest, read_only: bool) -> (r: Result<
    CreateDatabasePlan,
    AppError,
>)
    ensures
        read_only ==> (r matches Err(AppError::ReadOnlyViolation)),
        !read_only && !is_valid_identifier(request.database_name@) ==> (r matches Err(e)
            && is_invalid_identifier_error(e, request.database_name@)),
        !read_only && is_valid_identifier(request.database_name@) ==> (r matches Ok(p) && p.name@
            == request.database_name@ && p.sql@ == "CREATE DATABASE "@ + quoted(
            request.database_name@,
            '"',
        ) && p.message@ == crate::plan::database_created_message(request.database_name@)),
{
    if read_only {
        return Err(AppError::ReadOnlyViolation);
    }
    let name = match checked_identifier(request.database_name.as_str()) {
        Ok(n) => n,
        Err(e) => return Err(e),
    };
    let mut sql = String::from_str("CREATE DATABASE ");
    sql.append(quote_identifier(name.as_str(), '"').as_str());
    let message = crate::plan::database_created(name.as_str());
    Ok(CreateDatabasePlan { name, sql, message })
}

/// Answers a failure of `CREATE DATABASE`. The tool creates the database
/// only if it does not exist yet, so a failure reporting that the database
/// already exists is a success, answered with the existing-database message;
/// any other error is returned unchanged.
pub fn create_database_outcome(name: &str, error: AppError) -> (r: Result<String, AppError>)
    ensures
        contains_seq(app_error_message(error), "already exists"@) ==> (r matches Ok(m) && m@
            == database_exists_message(name@)),
        !contains_seq(app_error_message(error), "already exists"@) ==> r == Err::<String, AppError>(
            error,
        ),
{
    let message = error.message();
    if str_contains(message.as_str(), "already exists") {
        Ok(crate::plan::database_exists(name))
    } else {
        Err(error)
    }
}

/// Plans `dropDatabase`: refused in read-only mode, for invalid names, and
/// for the database the server is connected to.
pub fn plan_drop_database(request: &DropDatabaseRequest, read_only: bool, connected: &String) -> (r:
    Result<DropDatabasePlan, AppError>)
    ensures
        read_only ==> (r matches Err(AppError::ReadOnlyViolation)),
        !read_only && !is_valid_identifier(request.database_name@) ==> (r matches Err(e)
            && is_invalid_identifier_error(e, request.database_name@)),
        !read_only && is_valid_identifier(request.database_name@) && connected@
            == request.database_name@ ==> (r matches Err(AppError::Query(m)) && m@
            == cannot_drop_connected_message(request.database_name@)),
        !read_only && is_valid_identifier(request.database_name@) && connected@
            != request.database_name@ ==> (r matches Ok(p) && p.name@ == request.database_name@
            && p.sql@ == "DROP DATABASE "@ + quoted(request.database_name@, '"') && p.message@
            == database_dropped_message(request.database_name@)),
{
    if read_only {
        return Err(AppError::ReadOnlyViolation);
    }
    let name = match checked_identifier(request.database_name.as_str()) {
        Ok(n) => n,
        Err(e) => return Err(e),
    };
    if *connected == name {
        return Err(
            AppError::Query(
                frame("Cannot drop the currently connected database ", name.as_str(), "."),
            ),
        );
    }
    let mut sql = String::from_str("DROP DATABASE ");
    sql.append(quote_identifier(name.as_str(), '"').as_str());
    let message = database_dropped(name.as_str());
    Ok(DropDatabasePlan { sql, name, message })
}

/// Plans `dropTable`: refused in read-only mode; the optional database and
/// the table must be valid identifiers; `cascade` appends ` CASCADE`.
pub fn plan_drop_table(request: &DropTableRequest, read_only: bool) -> (r: Result<
    DropTablePlan,
    AppError,
>)
    ensures
        read_only ==> (r matches Err(AppError::ReadOnlyViolation)),
        !read_only ==> match requested_database(request.database) {
            Some(t) if !is_valid_identifier(t) => r matches Err(e) && is_invalid_identifier_error(e, t),
            _ => if !is_valid_identifier(request.table@) {
                r matches Err(e) && is_invalid_identifier_error(e, request.table@)
            } else {
                r matches Ok(p) && p.sql@ == "DROP TABLE "@ + quoted(request.table@, '"') + (if request.cascade {
                    " CASCADE"@
                } else {
                    ""@
                }) && p.message@ == table_dropped_message(request.table@) && (
                match requested_database(request.database) {
                    Some(t) => p.database matches Some(d) && d@ == t,
                    None => p.database is None,
                })
            },
        },
{
    if read_only {
        return Err(AppError::ReadOnlyViolation);
    }
    let database = match resolve_database(&request.database) {
        Ok(d) => d,
        Err(e) => return Err(e),
    };
    let table = match checked_identifier(request.table.as_str()) {
        Ok(t) => t,
        Err(e) => return Err(e),
    };
    let mut sql = String::from_str("DROP TABLE ");
    sql.append(quote_identifier(table.as_str(), '"').as_str());
    if request.cascade {
        sql.append(" CASCADE");
    }
    proof {
        reveal_strlit("");
    }
    let message = table_dropped(table.as_str());
    Ok(DropTablePlan { sql, database, message })
}

} // verus!

verus! {

/// One row of the column query of `getTableSchema`.
pub struct ColumnRow {
    /// `column_name`.
    pub column_name: String,
    /// `data_type`.
    pub data_type: String,
    /// `is_nullable` (`YES` or `NO`).
    pub is_nullable: String,
    /// `column_default`.
    pub column_default: Option<String>,
}

/// The description of one column.
pub struct ColumnInfo {
    /// The column's data type.
    pub data_type: String,
    /// The column accepts `NULL`.
    pub nullable: bool,
    /// The column's default expression.
    pub default: Option<String>,
}

/// One row of the foreign-key query of `getTableSchema`.
pub struct ForeignKeyRow {
    /// The constrained column.
    pub column_name: String,
    /// What the constraint references.
    pub reference: ForeignKeyRef<Option<String>>,
}

/// The description a column row gives its column.
pub open spec fn column_info(r: ColumnRow) -> ColumnInfo {
    ColumnInfo { data_type: r.data_type, nullable: is_yes(r.is_nullable@), default: r.column_default }
}

/// The `(name, description)` pairs of the column rows, in order.
pub open spec fn column_pairs(rows: Seq<ColumnRow>) -> Seq<(String, ColumnInfo)> {
    rows.map_values(|r: ColumnRow| (r.column_name, column_info(r)))
}

/// The `(column, reference)` pairs of the foreign-key rows, in order.
pub open spec fn foreign_key_pairs(rows: Seq<ForeignKeyRow>) -> Seq<(String, ForeignKeyRef<Option<String>>)> {
    rows.map_values(|r: ForeignKeyRow| (r.column_name, r.reference))
}

/// Row `j` is the last of the column rows named `name`.
pub open spec fn last_row_named(rows: Seq<ColumnRow>, j: int, name: Seq<char>) -> bool {
    &&& 0 <= j < rows.len()
    &&& rows[j].column_name@ == name
    &&& forall|m: int| j < m < rows.len() ==> (#[trigger] rows[m]).column_name@ != name
}

/// Each column of an assembled schema is described by the last catalog row
/// of its name: its type, whether it is nullable (`is_nullable` reads `YES`)
/// and its default are that row's; and every row's column is in the schema.
pub proof fn lemma_columns_follow_their_last_row<F>(
    cols: Seq<SchemaColumn<ColumnInfo, F>>,
    rows: Seq<ColumnRow>,
    fks: Seq<(String, F)>,
)
    requires
        assembled(cols, column_pairs(rows), fks),
    ensures
        forall|i: int|
            #![trigger cols[i]]
            0 <= i < cols.len() ==> exists|j: int|
                #[trigger] last_row_named(rows, j, cols[i].name@) && cols[i].column.data_type@
                    == rows[j].data_type@ && cols[i].column.nullable == is_yes(rows[j].is_nullable@)
                    && cols[i].column.default == rows[j].column_default,
        forall|j: int| 0 <= j < rows.len() ==> has_name(cols, #[trigger] rows[j].column_name@),
{
    let pairs = column_pairs(rows);
    assert forall|i: int| #![trigger cols[i]] 0 <= i < cols.len() implies exists|j: int|
        #[trigger] last_row_named(rows, j, cols[i].name@) && cols[i].column.data_type@
            == rows[j].data_type@ && cols[i].column.nullable == is_yes(rows[j].is_nullable@)
            && cols[i].column.default == rows[j].column_default by {
        let k = cols[i].name@;
        lemma_keyed_holds_last_row(pairs, k);
        let j = choose|j: int| #[trigger] crate::schema::last_named(pairs, j, k) && keyed(pairs)[k] == pairs[j].1;
        assert forall|m: int| j < m < rows.len() implies (#[trigger] rows[m]).column_name@ != k by {
            assert(pairs[m].0@ != k);
        }
        assert(last_row_named(rows, j, k));
    }
    assert forall|j: int| 0 <= j < rows.len() implies has_name(cols, #[trigger] rows[j].column_name@) by {
        let k = rows[j].column_name@;
        lemma_keyed_holds_last_row(pairs, k);
        assert(pairs[j].0@ == k);
    }
}

/// Row `j` is the last of the foreign-key rows naming column `name`.
pub open spec fn last_key_row_named(fks: Seq<ForeignKeyRow>, j: int, name: Seq<char>) -> bool {
    &&& 0 <= j < fks.len()
    &&& fks[j].column_name@ == name
    &&& forall|m: int| j < m < fks.len() ==> (#[trigger] fks[m]).column_name@ != name
}

/// Each column of an assembled schema carries the reference of the last
/// foreign-key row naming it, and no foreign key when no row names it.
pub proof fn lemma_columns_carry_their_foreign_key<C>(
    cols: Seq<SchemaColumn<C, ForeignKeyRef<Option<String>>>>,
    rows: Seq<(String, C)>,
    fks: Seq<ForeignKeyRow>,
)
    requires
        assembled(cols, rows, foreign_key_pairs(fks)),
    ensures
        forall|i: int|
            #![trigger cols[i]]
            0 <= i < cols.len() ==> (exists|j: int|
                #[trigger] last_key_row_named(fks, j, cols[i].name@) && cols[i].foreign_key == Some(
                    fks[j].reference,
                )) || ((forall|j: int| 0 <= j < fks.len() ==> (#[trigger] fks[j]).column_name@ != cols[i].name@)
                && cols[i].foreign_key is None),
{
    let pairs = foreign_key_pairs(fks);
    assert forall|i: int| #![trigger cols[i]] 0 <= i < cols.len() implies (exists|j: int|
        #[trigger] last_key_row_named(fks, j, cols[i].name@) && cols[i].foreign_key == Some(
            fks[j].reference,
        )) || ((forall|j: int| 0 <= j < fks.len() ==> (#[trigger] fks[j]).column_name@ != cols[i].name@)
        && cols[i].foreign_key is None) by {
        let k = cols[i].name@;
        assert(cols[i].column == keyed(rows)[k]);
        assert(cols[i].foreign_key == crate::schema::foreign_key_of(pairs, k));
        lemma_keyed_holds_last_row(pairs, k);
        if keyed(pairs).contains_key(k) {
            let j = choose|j: int| #[trigger] crate::schema::last_named(pairs, j, k) && keyed(pairs)[k] == pairs[j].1;
            assert forall|m: int| j < m < fks.len() implies (#[trigger] fks[m]).column_name@ != k by {
                assert(pairs[m].0@ != k);
            }
            assert(last_key_row_named(fks, j, k));
        } else {
            assert forall|j: int| 0 <= j < fks.len() implies (#[trigger] fks[j]).column_name@ != k by {
                assert(pairs[j].0@ == fks[j].column_name@);
            }
        }
    }
}

/// Assembles the answer of `getTableSchema` from the rows of its two
/// queries: the table is unknown when the column query returned no row.
pub fn table_schema(table: String, rows: Vec<ColumnRow>, fks: Vec<ForeignKeyRow>) -> (r: Result<
    TableSchema<ColumnInfo, ForeignKeyRef<Option<String>>>,
    AppError,
>)
    ensures
        rows@.len() == 0 ==> (r matches Err(AppError::TableNotFound(t)) && t@ == table@),
        rows@.len() > 0 ==> (r matches Ok(s) && s.table@ == table@ && assembled(
            s.columns@,
            column_pairs(rows@),
            foreign_key_pairs(fks@),
        )),
{
    if rows.len() == 0 {
        return Err(AppError::TableNotFound(table));
    }
    let mut rows = rows;
    let ghost all = rows@;
    let ghost mut done: Seq<ColumnRow> = Seq::empty();
    let mut pairs: Vec<(String, ColumnInfo)> = Vec::new();
    while rows.len() > 0
        invariant
            all == done + rows@,
            pairs@ == column_pairs(done),
        decreases rows.len(),
    {
        let ghost e = rows@[0];
        let row = rows.remove(0);
        let nullable = flag_is_yes(row.is_nullable.as_str());
        pairs.push(
            (
                row.column_name,
                ColumnInfo { data_type: row.data_type, nullable, default: row.column_default },
            ),
        );
        proof {
            done = done.push(e);
            assert(pairs@ =~= column_pairs(done));
        }
    }
    let mut fks = fks;
    let ghost all_fks = fks@;
    let ghost mut done_fks: Seq<ForeignKeyRow> = Seq::empty();
    let mut fk_pairs: Vec<(String, ForeignKeyRef<Option<String>>)> = Vec::new();
    while fks.len() > 0
        invariant
            all_fks == done_fks + fks@,
            fk_pairs@ == foreign_key_pairs(done_fks),
        decreases fks.len(),
    {
        let ghost e = fks@[0];
        let row = fks.remove(0);
        fk_pairs.push((row.column_name, row.reference));
        proof {
            done_fks = done_fks.push(e);
            assert(fk_pairs@ =~= foreign_key_pairs(done_fks));
        }
    }
    proof {
        assert(done =~= all);
        assert(done_fks =~= all_fks);
    }
    Ok(TableSchema { table, columns: assemble_columns(pairs, fk_pairs) })
}

} // verus!
