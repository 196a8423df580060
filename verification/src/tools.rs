//! The MCP tools of each backend: their names, titles, descriptions and
//! behaviour hints, and which of them a server offers in a given mode.
//!
//! Write tools are offered only in read-write mode. A PostgreSQL server whose
//! configuration pins one database offers the single-database variants of
//! its tools and none of the tools that work across databases.

use vstd::prelude::*;
use crate::config::DatabaseConfig;
use crate::text::{contains_seq, str_contains};

verus! {

/// The tools a server can offer.
#[derive(Debug, Clone, Copy, PartialEq, Eq, Structural)]
pub enum ToolKind {
    /// Lists the databases of the server.
    ListDatabases,
    /// Lists the tables of a database.
    ListTables,
    /// Describes the columns and foreign keys of a table.
    GetTableSchema,
    /// Lists the views of a database.
    ListViews,
    /// Lists the triggers of a database.
    ListTriggers,
    /// Lists the stored functions of a database.
    ListFunctions,
    /// Lists the stored procedures of a database.
    ListProcedures,
    /// Lists the materialized views of a database.
    ListMaterializedViews,
    /// Runs a read-only statement.
    ReadQuery,
    /// Shows the execution plan of a statement.
    ExplainQuery,
    /// Runs a writing statement.
    WriteQuery,
    /// Creates a database.
    CreateDatabase,
    /// Drops a database.
    DropDatabase,
    /// Drops a table.
    DropTable,
}

/// Behaviour hints published with a tool.
#[derive(Debug, Clone, Copy, PartialEq, Eq, Structural)]
pub struct ToolAnnotations {
    /// The tool does not modify its environment.
    pub read_only: bool,
    /// The tool may perform destructive updates.
    pub destructive: bool,
    /// Calling the tool repeatedly with the same arguments has no additional effect.
    pub idempotent: bool,
    /// The tool may interact with an open world of external entities.
    pub open_world: bool,
}

/// What a server publishes about one tool.
#[derive(Debug, Clone, Copy)]
pub struct ToolInfo {
    /// The tool's name in MCP requests.
    pub name: &'static str,
    /// Human-readable title.
    pub title: Option<&'static str>,
    /// Description shown to the client.
    pub description: &'static str,
    /// Behaviour hints.
    pub annotations: ToolAnnotations,
}

/// Name of the `listDatabases` tool.
pub const LIST_DATABASES_NAME: &'static str = "listDatabases";
/// Name of the `listTables` tool.
pub const LIST_TABLES_NAME: &'static str = "listTables";
/// Name of the `getTableSchema` tool.
pub const GET_TABLE_SCHEMA_NAME: &'static str = "getTableSchema";
/// Name of the `listViews` tool.
pub const LIST_VIEWS_NAME: &'static str = "listViews";
/// Name of the `listTriggers` tool.
pub const LIST_TRIGGERS_NAME: &'static str = "listTriggers";
/// Name of the `listFunctions` tool.
pub const LIST_FUNCTIONS_NAME: &'static str = "listFunctions";
/// Name of the `listProcedures` tool.
pub const LIST_PROCEDURES_NAME: &'static str = "listProcedures";
/// Name of the `listMaterializedViews` tool.
pub const LIST_MATERIALIZED_VIEWS_NAME: &'static str = "listMaterializedViews";
/// Name of the `readQuery` tool.
pub const READ_QUERY_NAME: &'static str = "readQuery";
/// Name of the `explainQuery` tool.
pub const EXPLAIN_QUERY_NAME: &'static str = "explainQuery";
/// Name of the `writeQuery` tool.
pub const WRITE_QUERY_NAME: &'static str = "writeQuery";
/// Name of the `createDatabase` tool.
pub const CREATE_DATABASE_NAME: &'static str = "createDatabase";
/// Name of the `dropDatabase` tool.
pub const DROP_DATABASE_NAME: &'static str = "dropDatabase";
/// Name of the `dropTable` tool.
pub const DROP_TABLE_NAME: &'static str = "dropTable";

/// Description of `listDatabases` on MySQL.
pub const MYSQL_LIST_DATABASES_DESCRIPTION: &'static str = "List all accessible databases on the connected server. Use this tool to discover what databases are available before using other tools.\n\n<usecase>\nALWAYS call this tool FIRST when:\n- You need to explore what databases exist on the server\n- You need a database name for listTables, getTableSchema, or query tools\n- The user asks what data is available\n</usecase>\n\n<examples>\n✓ \"What databases are on this server?\"\n✓ \"Show me what's available\" → call listDatabases first\n</examples>\n\n<what_it_returns>\nA sorted JSON array of database name strings.\n</what_it_returns>\n\n<pagination>\nPaginated. Pass the prior response's `nextCursor` as `cursor` to fetch the next page.\n</pagination>";
/// Description of `listTables` on MySQL.
pub const MYSQL_LIST_TABLES_DESCRIPTION: &'static str = "List tables in a database, optionally filtered and/or with full metadata.\n\n<usecase>\nUse when:\n- Exploring a database to find relevant tables (brief mode, default).\n- Searching for a table by partial name (pass `search`).\n- Inspecting a table's columns, constraints, indexes, and triggers before writing a query (pass `detailed: true`). This supersedes the legacy `getTableSchema` tool.\n</usecase>\n\n<parameters>\n- `database` — Database to target. Defaults to the active database.\n- `cursor` — Opaque pagination cursor; echo the prior response's `nextCursor`.\n- `search` — Case-insensitive filter on table names via `LIKE`. `%` matches any sequence; `_` matches a single character.\n- `detailed` — When `true`, returns full metadata objects keyed by table name instead of bare name strings. Default `false`.\n</parameters>\n\n<examples>\n✓ \"What tables are in mydb?\" → listTables(database=\"mydb\")\n✓ \"Find the orders table\" → listTables(search=\"order\")\n✓ \"What columns does orders have?\" → listTables(search=\"orders\", detailed=true)\n</examples>\n\n<what_it_returns>\nBrief mode (default): a sorted JSON array of table-name strings, e.g. `[\"customers\", \"orders\"]`.\nDetailed mode: a JSON object keyed by table name; each value carries `schema`, `kind`, `owner`, `comment`, `columns`, `constraints`, `indexes`, and `triggers` (the name is the key and is not repeated inside the value). Keys iterate in the same alphabetical order brief mode uses. Example: `{\"orders\": {\"schema\": \"mydb\", \"kind\": \"TABLE\", …}}`.\n</what_it_returns>\n\n<pagination>\nPaginated. Pass the prior response's `nextCursor` as `cursor` to fetch the next page. The `search` filter must stay the same across pages for cursor continuity.\n</pagination>";
/// Description of `getTableSchema` on MySQL.
pub const MYSQL_GET_TABLE_SCHEMA_DESCRIPTION: &'static str = "Get column definitions and foreign key relationships for a table.\n\n<usecase>\nALWAYS call this before writing queries to understand:\n- Column names and data types\n- Which columns are nullable, primary keys, or have defaults\n- Foreign key relationships for writing JOINs\n</usecase>\n\n<examples>\n✓ \"What columns does the orders table have?\" → getTableSchema(database=\"mydb\", table=\"orders\")\n✓ Before writing a SELECT → getTableSchema first to confirm column names\n✓ \"How are users and orders related?\" → check foreign keys in both tables\n</examples>\n\n<what_it_returns>\nA JSON object with table and columns keyed by column name, each containing type, nullable, key, default, and foreignKey info.\n</what_it_returns>";
/// Description of `listViews` on MySQL.
pub const MYSQL_LIST_VIEWS_DESCRIPTION: &'static str = "List all views in a database.\n\n<usecase>\nUse when:\n- Exploring a database to find defined views alongside tables\n- Verifying a view exists before querying it\n- The user asks what views are in a database\n</usecase>\n\n<examples>\n✓ \"What views are in the mydb database?\" → listViews(database=\"mydb\")\n✓ \"Does an active_users view exist?\" → listViews to check\n✗ \"Show me the columns of a view\" → use getTableSchema instead\n✗ \"List materialized views\" → use listMaterializedViews (PostgreSQL only)\n</examples>\n\n<what_it_returns>\nA sorted JSON array of view name strings.\n</what_it_returns>\n\n<pagination>\nPaginated. Pass the prior response's `nextCursor` as `cursor` to fetch the next page.\n</pagination>";
/// Description of `listTriggers` on MySQL.
pub const MYSQL_LIST_TRIGGERS_DESCRIPTION: &'static str = "List all triggers in a database.\n\n<usecase>\nUse when:\n- Investigating side-effects on INSERT/UPDATE/DELETE for a table\n- Auditing trigger coverage across a database\n- The user asks what triggers fire in a database\n</usecase>\n\n<examples>\n✓ \"What triggers are in the mydb database?\" → listTriggers(database=\"mydb\")\n✓ \"Does an order-audit trigger exist?\" → listTriggers to check\n✗ \"Show me a trigger's body\" → use readQuery against information_schema.TRIGGERS\n</examples>\n\n<what_it_returns>\nA sorted JSON array of trigger name strings.\n</what_it_returns>\n\n<pagination>\nPaginated. Pass the prior response's `nextCursor` as `cursor` to fetch the next page.\n</pagination>";
/// Description of `listFunctions` on MySQL.
pub const MYSQL_LIST_FUNCTIONS_DESCRIPTION: &'static str = "List all stored SQL functions in a specific database. Loadable UDFs (`mysql.func`) are not included.\n\n<usecase>\nUse when:\n- Exploring a database's stored logic\n- Verifying a function exists before calling it\n- The user asks what functions are defined\n</usecase>\n\n<examples>\n✓ \"What functions are in the mydb database?\" → listFunctions(database=\"mydb\")\n✓ \"Does a calc_total function exist?\" → listFunctions to check\n✗ \"List stored procedures\" → use listProcedures instead\n</examples>\n\n<what_it_returns>\nA sorted JSON array of function name strings.\n</what_it_returns>\n\n<pagination>\nPaginated. Pass the prior response's `nextCursor` as `cursor` to fetch the next page.\n</pagination>";
/// Description of `readQuery` on MySQL.
pub const MYSQL_READ_QUERY_DESCRIPTION: &'static str = "Execute a read-only SQL query. Allowed statements: SELECT, SHOW, DESCRIBE, USE, EXPLAIN.\n\n<usecase>\nUse when:\n- Querying data from tables (SELECT with WHERE, JOIN, GROUP BY, etc.)\n- Aggregations: COUNT, SUM, AVG, GROUP BY, HAVING\n- Listing server variables or status (SHOW)\n- Viewing table structure (DESCRIBE)\n- Switching database context (USE)\n</usecase>\n\n<when_not_to_use>\n- Data changes (INSERT, UPDATE, DELETE) → use writeQuery\n- Query performance analysis → use explainQuery\n- Discovering tables or columns → use listTables or getTableSchema\n</when_not_to_use>\n\n<examples>\n✓ \"SELECT * FROM users WHERE status = 'active'\"\n✓ \"SELECT COUNT(*) FROM orders GROUP BY region\"\n✓ \"SHOW TABLES\" or \"DESCRIBE users\"\n✗ \"INSERT INTO users ...\" → use writeQuery\n✗ \"EXPLAIN SELECT ...\" → use explainQuery for structured analysis\n</examples>\n\n<what_it_returns>\nA JSON array of row objects, each keyed by column name.\n</what_it_returns>\n\n<pagination>\n`SELECT` results are paginated. Pass the prior response's `nextCursor` as `cursor` to fetch the next page. `SHOW`, `DESCRIBE`, `USE`, and `EXPLAIN` return a single page and ignore `cursor`.\n</pagination>";
/// Description of `explainQuery` on MySQL.
pub const MYSQL_EXPLAIN_QUERY_DESCRIPTION: &'static str = "Return the execution plan for a SQL query to diagnose performance. Use this tool instead of running EXPLAIN directly through readQuery — it provides structured output.\n\n<usecase>\nUse when:\n- A query runs slowly and you need to understand why\n- Investigating performance bottlenecks\n- Planning index creation to optimize queries\n- Analyzing join methods, table scan strategies, and sort operations\n</usecase>\n\n<when_not_to_use>\n- Running actual queries → use readQuery or writeQuery\n- Checking table structure → use getTableSchema\n</when_not_to_use>\n\n<examples>\n✓ \"Why is my SELECT on orders slow?\" → explainQuery(query=\"SELECT ...\")\n✓ \"Should I add an index?\" → explainQuery with analyze=true\n✗ \"Run this SELECT\" → use readQuery\n</examples>\n\n<safety>\nSet `analyze` to true for actual execution statistics (EXPLAIN ANALYZE).\nIMPORTANT: EXPLAIN ANALYZE actually executes the query! In read-only mode, only read-only statements are allowed with analyze.\nWhen analyze is false, returns EXPLAIN FORMAT=JSON output without executing.\n</safety>\n\n<what_it_returns>\nA JSON array of execution plan rows showing access methods, join types, row estimates, and costs.\n</what_it_returns>";
/// Description of `writeQuery` on MySQL.
pub const MYSQL_WRITE_QUERY_DESCRIPTION: &'static str = "Execute a write SQL query (INSERT, UPDATE, DELETE, CREATE, ALTER, DROP).\n\n<usecase>\nUse when:\n- Inserting, updating, or deleting rows\n- Creating or altering tables, indexes, views, or other schema objects\n- Any data modification operation\n</usecase>\n\n<when_not_to_use>\n- Read-only queries (SELECT, SHOW) → use readQuery\n- Query performance analysis → use explainQuery\n- Creating/dropping entire databases → use createDatabase or dropDatabase\n</when_not_to_use>\n\n<examples>\n✓ \"INSERT INTO users (name, email) VALUES ('Alice', 'alice@example.com')\"\n✓ \"UPDATE orders SET status = 'shipped' WHERE id = 42\"\n✓ \"CREATE TABLE logs (id INT PRIMARY KEY, message TEXT)\"\n✗ \"SELECT * FROM users\" → use readQuery\n</examples>\n\n<what_it_returns>\nA JSON array of affected/returning row objects, each keyed by column name.\n</what_it_returns>";
/// Description of `createDatabase` on MySQL.
pub const MYSQL_CREATE_DATABASE_DESCRIPTION: &'static str = "Create a new database on the connected server.\n\n<usecase>\nUse when:\n- Setting up a new database for a project or application\n- The user asks to create a database\n</usecase>\n\n<examples>\n✓ \"Create a database called analytics\" → create_database(database_name=\"analytics\")\n✗ \"Create a table\" → use write_query with CREATE TABLE\n</examples>\n\n<important>\nDatabase names must contain only alphanumeric characters and underscores.\nIf the database already exists, returns a message indicating so without error.\n</important>\n\n<what_it_returns>\nA confirmation message with the created database name.\n</what_it_returns>";
/// Description of `dropDatabase` on MySQL.
pub const MYSQL_DROP_DATABASE_DESCRIPTION: &'static str = "Drop an existing database from the connected server.\n\n<usecase>\nUse when:\n- Removing a database that is no longer needed\n- Cleaning up test or temporary databases\n</usecase>\n\n<examples>\n✓ \"Drop the test_db database\" → drop_database(database_name=\"test_db\")\n✗ \"Drop a table\" → use drop_table instead\n</examples>\n\n<safety>\nIMPORTANT: This permanently deletes the database and ALL its data. This action cannot be undone.\nCannot drop the database you are currently connected to.\n</safety>\n\n<what_it_returns>\nA confirmation message with the dropped database name.\n</what_it_returns>";
/// Description of `dropTable` on MySQL.
pub const MYSQL_DROP_TABLE_DESCRIPTION: &'static str = "Drop a table from a database.";
/// Description of `listDatabases` on PostgreSQL.
pub const POSTGRES_LIST_DATABASES_DESCRIPTION: &'static str = "List all accessible databases on the connected server. Use this tool to discover what databases are available before using other tools.\n\n<usecase>\nALWAYS call this tool FIRST when:\n- You need to explore what databases exist on the server\n- You need a database name for list_tables, get_table_schema, or query tools\n- The user asks what data is available\n</usecase>\n\n<examples>\n✓ \"What databases are on this server?\"\n✓ \"Show me what's available\" → call list_databases first\n</examples>\n\n<what_it_returns>\nA sorted JSON array of database name strings.\n</what_it_returns>";
/// Description of `listTables` on PostgreSQL.
pub const POSTGRES_LIST_TABLES_DESCRIPTION: &'static str = "List tables in a database, optionally filtered and/or with full metadata.\n\n<usecase>\nUse when:\n- Exploring a database to find relevant tables (brief mode, default).\n- Searching for a table by partial name (pass `search`).\n- Inspecting a table's columns, constraints, indexes, and triggers before writing a query (pass `detailed: true`). This supersedes the legacy `getTableSchema` tool.\n</usecase>\n\n<parameters>\n- `database` — Database to target. Defaults to the active database.\n- `cursor` — Opaque pagination cursor; echo the prior response's `nextCursor`.\n- `search` — Case-insensitive filter on table names via `ILIKE`. `%` matches any sequence; `_` matches a single character.\n- `detailed` — When `true`, returns full metadata objects keyed by table name instead of bare name strings. Default `false`.\n</parameters>\n\n<examples>\n✓ \"What tables are in mydb?\" → listTables(database=\"mydb\")\n✓ \"Find the orders table\" → listTables(search=\"order\")\n✓ \"What columns does orders have?\" → listTables(search=\"orders\", detailed=true)\n</examples>\n\n<what_it_returns>\nBrief mode (default): a sorted JSON array of table-name strings, e.g. `[\"customers\", \"orders\"]`.\nDetailed mode: a JSON object keyed by table name; each value carries `schema`, `kind`, `owner`, `comment`, `columns`, `constraints`, `indexes`, and `triggers` (the name is the key and is not repeated inside the value). Keys iterate in the same alphabetical order brief mode uses. Example: `{\"orders\": {\"schema\": \"public\", \"kind\": \"TABLE\", …}}`.\n</what_it_returns>\n\n<pagination>\nPaginated. Pass the prior response's `nextCursor` as `cursor` to fetch the next page. The `search` filter must stay the same across pages for cursor continuity.\n</pagination>";
/// Description of `getTableSchema` on PostgreSQL.
pub const POSTGRES_GET_TABLE_SCHEMA_DESCRIPTION: &'static str = "Get column definitions and foreign key relationships for a table.\n\n<usecase>\nALWAYS call this before writing queries to understand:\n- Column names and data types\n- Which columns are nullable, primary keys, or have defaults\n- Foreign key relationships for writing JOINs\n</usecase>\n\n<examples>\n✓ \"What columns does the orders table have?\" → getTableSchema(database=\"mydb\", table=\"orders\")\n✓ Before writing a SELECT → getTableSchema first to confirm column names\n✓ \"How are users and orders related?\" → check foreign keys in both tables\n</examples>\n\n<what_it_returns>\nA JSON object with table and columns keyed by column name, each containing type, nullable, key, default, and foreignKey info.\n</what_it_returns>";
/// Description of `listViews` on PostgreSQL.
pub const POSTGRES_LIST_VIEWS_DESCRIPTION: &'static str = "List all views in a database.\n\n<usecase>\nUse when:\n- Exploring a database to find defined views alongside tables\n- Verifying a view exists before querying it\n- The user asks what views are in a database\n</usecase>\n\n<examples>\n✓ \"What views are in the mydb database?\" → listViews(database=\"mydb\")\n✓ \"Does an active_users view exist?\" → listViews to check\n✗ \"Show me the columns of a view\" → use getTableSchema instead\n✗ \"List materialized views\" → use listMaterializedViews\n</examples>\n\n<what_it_returns>\nA sorted JSON array of view name strings in the `public` schema.\n</what_it_returns>\n\n<pagination>\nPaginated. Pass the prior response's `nextCursor` as `cursor` to fetch the next page.\n</pagination>";
/// Description of `listTriggers` on PostgreSQL.
pub const POSTGRES_LIST_TRIGGERS_DESCRIPTION: &'static str = "List all user-defined triggers on tables in the `public` schema of a database. Internal constraint and foreign-key triggers are excluded.\n\n<usecase>\nUse when:\n- Investigating side-effects on INSERT/UPDATE/DELETE for a table\n- Auditing trigger coverage across a database\n- The user asks what triggers fire in a database\n</usecase>\n\n<examples>\n✓ \"What triggers are in the mydb database?\" → listTriggers(database=\"mydb\")\n✓ \"Does an order-audit trigger exist?\" → listTriggers to check\n✗ \"Show me a trigger's body\" → use readQuery against pg_trigger or information_schema.triggers\n</examples>\n\n<what_it_returns>\nA sorted JSON array of trigger name strings.\n</what_it_returns>\n\n<pagination>\nPaginated. Pass the prior response's `nextCursor` as `cursor` to fetch the next page.\n</pagination>";
/// Description of `listProcedures` on PostgreSQL.
pub const POSTGRES_LIST_PROCEDURES_DESCRIPTION: &'static str = "List all user-defined procedures in the `public` schema of a database (PostgreSQL 11+).\n\n<usecase>\nUse when:\n- Exploring a database's stored logic\n- Verifying a procedure exists before calling it\n- The user asks what procedures are defined\n</usecase>\n\n<examples>\n✓ \"What procedures are in the mydb database?\" → listProcedures(database=\"mydb\")\n✓ \"Does an archive_user procedure exist?\" → listProcedures to check\n✗ \"List functions\" → use listFunctions instead\n</examples>\n\n<what_it_returns>\nA sorted JSON array of procedure name strings.\n</what_it_returns>\n\n<pagination>\nPaginated. Pass the prior response's `nextCursor` as `cursor` to fetch the next page.\n</pagination>";
/// Description of `listMaterializedViews` on PostgreSQL.
pub const POSTGRES_LIST_MATERIALIZED_VIEWS_DESCRIPTION: &'static str = "List all materialized views in the `public` schema of a PostgreSQL database. Unlike regular views, materialized views store their results physically and must be refreshed explicitly.\n\n<usecase>\nUse when:\n- Exploring a database for stored aggregates that may be stale\n- Auditing which materialized views require refresh scheduling\n- The user asks what materialized views exist\n</usecase>\n\n<examples>\n✓ \"What materialized views are in mydb?\" → listMaterializedViews(database=\"mydb\")\n✓ \"Does an mv_recent_orders materialized view exist?\" → listMaterializedViews to check\n✗ \"List regular views\" → use listViews instead\n</examples>\n\n<what_it_returns>\nA sorted JSON array of materialized-view name strings.\n</what_it_returns>\n\n<pagination>\nPaginated. Pass the prior response's `nextCursor` as `cursor` to fetch the next page.\n</pagination>";
/// Description of `readQuery` on PostgreSQL.
pub const POSTGRES_READ_QUERY_DESCRIPTION: &'static str = "Execute a read-only SQL query (SELECT, SHOW, DESCRIBE, USE, EXPLAIN).";
/// Description of `explainQuery` on PostgreSQL.
pub const POSTGRES_EXPLAIN_QUERY_DESCRIPTION: &'static str = "Return the execution plan for a SQL query to diagnose performance. Use this tool instead of running EXPLAIN directly through read_query — it provides structured JSON output. Accepts an optional `database_name` to explain queries against a different database.\n\n<usecase>\nUse when:\n- A query runs slowly and you need to understand why\n- Investigating performance bottlenecks\n- Planning index creation to optimize queries\n- Analyzing join methods, table scan strategies, and sort operations\n</usecase>\n\n<when_not_to_use>\n- Running actual queries → use read_query or write_query\n- Checking table structure → use get_table_schema\n</when_not_to_use>\n\n<examples>\n✓ \"Why is my SELECT on orders slow?\" → explain_query(query=\"SELECT ...\")\n✓ \"Should I add an index?\" → explain_query with analyze=true\n✗ \"Run this SELECT\" → use read_query\n</examples>\n\n<safety>\nSet `analyze` to true for actual execution statistics (EXPLAIN ANALYZE).\nIMPORTANT: EXPLAIN ANALYZE actually executes the query! In read-only mode, only read-only statements are allowed with analyze.\nWhen analyze is false, returns EXPLAIN (FORMAT JSON) output without executing.\n</safety>\n\n<what_it_returns>\nA JSON array of execution plan rows showing access methods, join types, row estimates, and costs.\n</what_it_returns>";
/// Description of `writeQuery` on PostgreSQL.
pub const POSTGRES_WRITE_QUERY_DESCRIPTION: &'static str = "Execute a write SQL query (INSERT, UPDATE, DELETE, CREATE, ALTER, DROP).";
/// Description of `createDatabase` on PostgreSQL.
pub const POSTGRES_CREATE_DATABASE_DESCRIPTION: &'static str = "Create a new database on the connected server.\n\n<usecase>\nUse when:\n- Setting up a new database for a project or application\n- The user asks to create a database\n</usecase>\n\n<examples>\n✓ \"Create a database called analytics\" → create_database(database_name=\"analytics\")\n✗ \"Create a table\" → use write_query with CREATE TABLE\n</examples>\n\n<important>\nDatabase names must contain only alphanumeric characters and underscores.\n</important>\n\n<what_it_returns>\nA confirmation message with the created database name.\n</what_it_returns>";
/// Description of `dropDatabase` on PostgreSQL.
pub const POSTGRES_DROP_DATABASE_DESCRIPTION: &'static str = "Drop an existing database from the connected server.\n\n<usecase>\nUse when:\n- Removing a database that is no longer needed\n- Cleaning up test or temporary databases\n</usecase>\n\n<examples>\n✓ \"Drop the test_db database\" → drop_database(database_name=\"test_db\")\n✗ \"Drop a table\" → use drop_table instead\n</examples>\n\n<safety>\nIMPORTANT: This permanently deletes the database and ALL its data. This action cannot be undone.\nCannot drop the database you are currently connected to.\n</safety>\n\n<what_it_returns>\nA confirmation message with the dropped database name.\n</what_it_returns>";
/// Description of `dropTable` on PostgreSQL.
pub const POSTGRES_DROP_TABLE_DESCRIPTION: &'static str = "Drop a table from a database. Checks for foreign key dependencies via the database engine.\n\n<usecase>\nUse when:\n- Removing a table that is no longer needed\n- Cleaning up test or temporary tables\n</usecase>\n\n<examples>\n✓ \"Drop the temp_logs table\" → dropTable(database=\"mydb\", table=\"temp_logs\")\n✓ \"Force drop with dependencies\" → dropTable(..., cascade=true)\n✗ \"Delete rows from a table\" → use writeQuery with DELETE\n✗ \"Drop a database\" → use dropDatabase instead\n</examples>\n\n<safety>\nIMPORTANT: This permanently deletes the table and ALL its data. This action cannot be undone.\nSet `cascade` to true to also drop dependent foreign key constraints.\nWithout cascade, the drop will fail if other tables reference this one.\n</safety>\n\n<what_it_returns>\nA confirmation message with the dropped table name.\n</what_it_returns>";

/// Whether a tool changes the database.
pub open spec fn is_write_tool(k: ToolKind) -> bool {
    match k {
        ToolKind::WriteQuery | ToolKind::CreateDatabase | ToolKind::DropDatabase | ToolKind::DropTable => true,
        _ => false,
    }
}

/// Whether a tool works across the databases of the server.
pub open spec fn is_cross_database_tool(k: ToolKind) -> bool {
    match k {
        ToolKind::ListDatabases | ToolKind::CreateDatabase | ToolKind::DropDatabase => true,
        _ => false,
    }
}

/// The name of a tool.
pub open spec fn tool_name(k: ToolKind) -> Seq<char> {
    match k {
        ToolKind::ListDatabases => LIST_DATABASES_NAME@,
        ToolKind::ListTables => LIST_TABLES_NAME@,
        ToolKind::GetTableSchema => GET_TABLE_SCHEMA_NAME@,
        ToolKind::ListViews => LIST_VIEWS_NAME@,
        ToolKind::ListTriggers => LIST_TRIGGERS_NAME@,
        ToolKind::ListFunctions => LIST_FUNCTIONS_NAME@,
        ToolKind::ListProcedures => LIST_PROCEDURES_NAME@,
        ToolKind::ListMaterializedViews => LIST_MATERIALIZED_VIEWS_NAME@,
        ToolKind::ReadQuery => READ_QUERY_NAME@,
        ToolKind::ExplainQuery => EXPLAIN_QUERY_NAME@,
        ToolKind::WriteQuery => WRITE_QUERY_NAME@,
        ToolKind::CreateDatabase => CREATE_DATABASE_NAME@,
        ToolKind::DropDatabase => DROP_DATABASE_NAME@,
        ToolKind::DropTable => DROP_TABLE_NAME@,
    }
}

/// The title of a tool.
pub open spec fn tool_title(k: ToolKind) -> Seq<char> {
    match k {
        ToolKind::ListDatabases => "List Databases"@,
        ToolKind::ListTables => "List Tables"@,
        ToolKind::GetTableSchema => "Get Table Schema"@,
        ToolKind::ListViews => "List Views"@,
        ToolKind::ListTriggers => "List Triggers"@,
        ToolKind::ListFunctions => "List Functions"@,
        ToolKind::ListProcedures => "List Procedures"@,
        ToolKind::ListMaterializedViews => "List Materialized Views"@,
        ToolKind::ReadQuery => "Read Query"@,
        ToolKind::ExplainQuery => "Explain Query"@,
        ToolKind::WriteQuery => "Write Query"@,
        ToolKind::CreateDatabase => "Create Database"@,
        ToolKind::DropDatabase => "Drop Database"@,
        ToolKind::DropTable => "Drop Table"@,
    }
}

/// The behaviour hints of a tool.
pub open spec fn tool_annotations(k: ToolKind) -> ToolAnnotations {
    match k {
        ToolKind::ListDatabases => ToolAnnotations { read_only: true, destructive: false, idempotent: true, open_world: false },
        ToolKind::ListTables => ToolAnnotations { read_only: true, destructive: false, idempotent: true, open_world: false },
        ToolKind::GetTableSchema => ToolAnnotations { read_only: true, destructive: false, idempotent: true, open_world: false },
        ToolKind::ListViews => ToolAnnotations { read_only: true, destructive: false, idempotent: true, open_world: false },
        ToolKind::ListTriggers => ToolAnnotations { read_only: true, destructive: false, idempotent: true, open_world: false },
        ToolKind::ListFunctions => ToolAnnotations { read_only: true, destructive: false, idempotent: true, open_world: false },
        ToolKind::ListProcedures => ToolAnnotations { read_only: true, destructive: false, idempotent: true, open_world: false },
        ToolKind::ListMaterializedViews => ToolAnnotations { read_only: true, destructive: false, idempotent: true, open_world: false },
        ToolKind::ReadQuery => ToolAnnotations { read_only: true, destructive: false, idempotent: true, open_world: true },
        ToolKind::ExplainQuery => ToolAnnotations { read_only: true, destructive: false, idempotent: true, open_world: true },
        ToolKind::WriteQuery => ToolAnnotations { read_only: false, destructive: true, idempotent: false, open_world: true },
        ToolKind::CreateDatabase => ToolAnnotations { read_only: false, destructive: false, idempotent: false, open_world: false },
        ToolKind::DropDatabase => ToolAnnotations { read_only: false, destructive: true, idempotent: false, open_world: false },
        ToolKind::DropTable => ToolAnnotations { read_only: false, destructive: true, idempotent: false, open_world: false },
    }
}

impl ToolKind {
    /// The tool's name in MCP requests.
    pub fn name(self) -> (n: &'static str)
        ensures
            n@ == tool_name(self),
    {
        match self {
            ToolKind::ListDatabases => LIST_DATABASES_NAME,
            ToolKind::ListTables => LIST_TABLES_NAME,
            ToolKind::GetTableSchema => GET_TABLE_SCHEMA_NAME,
            ToolKind::ListViews => LIST_VIEWS_NAME,
            ToolKind::ListTriggers => LIST_TRIGGERS_NAME,
            ToolKind::ListFunctions => LIST_FUNCTIONS_NAME,
            ToolKind::ListProcedures => LIST_PROCEDURES_NAME,
            ToolKind::ListMaterializedViews => LIST_MATERIALIZED_VIEWS_NAME,
            ToolKind::ReadQuery => READ_QUERY_NAME,
            ToolKind::ExplainQuery => EXPLAIN_QUERY_NAME,
            ToolKind::WriteQuery => WRITE_QUERY_NAME,
            ToolKind::CreateDatabase => CREATE_DATABASE_NAME,
            ToolKind::DropDatabase => DROP_DATABASE_NAME,
            ToolKind::DropTable => DROP_TABLE_NAME,
        }
    }

    /// The tool's behaviour hints.
    pub fn annotations(self) -> (a: ToolAnnotations)
        ensures
            a == tool_annotations(self),
    {
        match self {
            ToolKind::ListDatabases => ToolAnnotations { read_only: true, destructive: false, idempotent: true, open_world: false },
            ToolKind::ListTables => ToolAnnotations { read_only: true, destructive: false, idempotent: true, open_world: false },
            ToolKind::GetTableSchema => ToolAnnotations { read_only: true, destructive: false, idempotent: true, open_world: false },
            ToolKind::ListViews => ToolAnnotations { read_only: true, destructive: false, idempotent: true, open_world: false },
            ToolKind::ListTriggers => ToolAnnotations { read_only: true, destructive: false, idempotent: true, open_world: false },
            ToolKind::ListFunctions => ToolAnnotations { read_only: true, destructive: false, idempotent: true, open_world: false },
            ToolKind::ListProcedures => ToolAnnotations { read_only: true, destructive: false, idempotent: true, open_world: false },
            ToolKind::ListMaterializedViews => ToolAnnotations { read_only: true, destructive: false, idempotent: true, open_world: false },
            ToolKind::ReadQuery => ToolAnnotations { read_only: true, destructive: false, idempotent: true, open_world: true },
            ToolKind::ExplainQuery => ToolAnnotations { read_only: true, destructive: false, idempotent: true, open_world: true },
            ToolKind::WriteQuery => ToolAnnotations { read_only: false, destructive: true, idempotent: false, open_world: true },
            ToolKind::CreateDatabase => ToolAnnotations { read_only: false, destructive: false, idempotent: false, open_world: false },
            ToolKind::DropDatabase => ToolAnnotations { read_only: false, destructive: true, idempotent: false, open_world: false },
            ToolKind::DropTable => ToolAnnotations { read_only: false, destructive: true, idempotent: false, open_world: false },
        }
    }

    /// Whether the tool changes the database.
    pub fn is_write(self) -> (w: bool)
        ensures
            w == is_write_tool(self),
    {
        match self {
            ToolKind::WriteQuery | ToolKind::CreateDatabase | ToolKind::DropDatabase | ToolKind::DropTable => true,
            _ => false,
        }
    }

    /// Whether the tool works across the databases of the server.
    pub fn is_cross_database(self) -> (c: bool)
        ensures
            c == is_cross_database_tool(self),
    {
        match self {
            ToolKind::ListDatabases | ToolKind::CreateDatabase | ToolKind::DropDatabase => true,
            _ => false,
        }
    }

    /// The tool's title.
    pub fn title(self) -> (t: Option<&'static str>)
        ensures
            t matches Some(x) && x@ == tool_title(self),
    {
        match self {
            ToolKind::ListDatabases => {
                proof {
                    reveal_strlit("List Databases");
                }
                Some("List Databases")
            },
            ToolKind::ListTables => {
                proof {
                    reveal_strlit("List Tables");
                }
                Some("List Tables")
            },
            ToolKind::GetTableSchema => {
                proof {
                    reveal_strlit("Get Table Schema");
                }
                Some("Get Table Schema")
            },
            ToolKind::ListViews => {
                proof {
                    reveal_strlit("List Views");
                }
                Some("List Views")
            },
            ToolKind::ListTriggers => {
                proof {
                    reveal_strlit("List Triggers");
                }
                Some("List Triggers")
            },
            ToolKind::ListFunctions => {
                proof {
                    reveal_strlit("List Functions");
                }
                Some("List Functions")
            },
            ToolKind::ListProcedures => {
                proof {
                    reveal_strlit("List Procedures");
                }
                Some("List Procedures")
            },
            ToolKind::ListMaterializedViews => {
                proof {
                    reveal_strlit("List Materialized Views");
                }
                Some("List Materialized Views")
            },
            ToolKind::ReadQuery => {
                proof {
                    reveal_strlit("Read Query");
                }
                Some("Read Query")
            },
            ToolKind::ExplainQuery => {
                proof {
                    reveal_strlit("Explain Query");
                }
                Some("Explain Query")
            },
            ToolKind::WriteQuery => {
                proof {
                    reveal_strlit("Write Query");
                }
                Some("Write Query")
            },
            ToolKind::CreateDatabase => {
                proof {
                    reveal_strlit("Create Database");
                }
                Some("Create Database")
            },
            ToolKind::DropDatabase => {
                proof {
                    reveal_strlit("Drop Database");
                }
                Some("Drop Database")
            },
            ToolKind::DropTable => {
                proof {
                    reveal_strlit("Drop Table");
                }
                Some("Drop Table")
            },
        }
    }
}

/// The description MySQL publishes for a tool.
pub open spec fn mysql_description_text(k: ToolKind) -> Seq<char> {
    match k {
        ToolKind::ListDatabases => MYSQL_LIST_DATABASES_DESCRIPTION@,
        ToolKind::ListTables => MYSQL_LIST_TABLES_DESCRIPTION@,
        ToolKind::GetTableSchema => MYSQL_GET_TABLE_SCHEMA_DESCRIPTION@,
        ToolKind::ListViews => MYSQL_LIST_VIEWS_DESCRIPTION@,
        ToolKind::ListTriggers => MYSQL_LIST_TRIGGERS_DESCRIPTION@,
        ToolKind::ListFunctions => MYSQL_LIST_FUNCTIONS_DESCRIPTION@,
        ToolKind::ListProcedures => POSTGRES_LIST_PROCEDURES_DESCRIPTION@,
        ToolKind::ListMaterializedViews => POSTGRES_LIST_MATERIALIZED_VIEWS_DESCRIPTION@,
        ToolKind::ReadQuery => MYSQL_READ_QUERY_DESCRIPTION@,
        ToolKind::ExplainQuery => MYSQL_EXPLAIN_QUERY_DESCRIPTION@,
        ToolKind::WriteQuery => MYSQL_WRITE_QUERY_DESCRIPTION@,
        ToolKind::CreateDatabase => MYSQL_CREATE_DATABASE_DESCRIPTION@,
        ToolKind::DropDatabase => MYSQL_DROP_DATABASE_DESCRIPTION@,
        ToolKind::DropTable => MYSQL_DROP_TABLE_DESCRIPTION@,
    }
}

/// The description MySQL publishes for a tool.
pub fn mysql_description(k: ToolKind) -> (d: &'static str)
    ensures
        d@ == mysql_description_text(k),
{
    match k {
        ToolKind::ListDatabases => MYSQL_LIST_DATABASES_DESCRIPTION,
        ToolKind::ListTables => MYSQL_LIST_TABLES_DESCRIPTION,
        ToolKind::GetTableSchema => MYSQL_GET_TABLE_SCHEMA_DESCRIPTION,
        ToolKind::ListViews => MYSQL_LIST_VIEWS_DESCRIPTION,
        ToolKind::ListTriggers => MYSQL_LIST_TRIGGERS_DESCRIPTION,
        ToolKind::ListFunctions => MYSQL_LIST_FUNCTIONS_DESCRIPTION,
        ToolKind::ListProcedures => POSTGRES_LIST_PROCEDURES_DESCRIPTION,
        ToolKind::ListMaterializedViews => POSTGRES_LIST_MATERIALIZED_VIEWS_DESCRIPTION,
        ToolKind::ReadQuery => MYSQL_READ_QUERY_DESCRIPTION,
        ToolKind::ExplainQuery => MYSQL_EXPLAIN_QUERY_DESCRIPTION,
        ToolKind::WriteQuery => MYSQL_WRITE_QUERY_DESCRIPTION,
        ToolKind::CreateDatabase => MYSQL_CREATE_DATABASE_DESCRIPTION,
        ToolKind::DropDatabase => MYSQL_DROP_DATABASE_DESCRIPTION,
        ToolKind::DropTable => MYSQL_DROP_TABLE_DESCRIPTION,
    }
}

/// What MySQL publishes about a tool.
pub fn mysql_tool_info(k: ToolKind) -> (i: ToolInfo)
    ensures
        i.name@ == tool_name(k),
        i.title matches Some(t) && t@ == tool_title(k),
        i.description@ == mysql_description_text(k),
        i.annotations == tool_annotations(k),
{
    ToolInfo { name: k.name(), title: k.title(), description: mysql_description(k), annotations: k.annotations() }
}

/// The description PostgreSQL publishes for a tool.
pub open spec fn postgres_description_text(k: ToolKind) -> Seq<char> {
    match k {
        ToolKind::ListDatabases => POSTGRES_LIST_DATABASES_DESCRIPTION@,
        ToolKind::ListTables => POSTGRES_LIST_TABLES_DESCRIPTION@,
        ToolKind::GetTableSchema => POSTGRES_GET_TABLE_SCHEMA_DESCRIPTION@,
        ToolKind::ListViews => POSTGRES_LIST_VIEWS_DESCRIPTION@,
        ToolKind::ListTriggers => POSTGRES_LIST_TRIGGERS_DESCRIPTION@,
        ToolKind::ListFunctions => MYSQL_LIST_FUNCTIONS_DESCRIPTION@,
        ToolKind::ListProcedures => POSTGRES_LIST_PROCEDURES_DESCRIPTION@,
        ToolKind::ListMaterializedViews => POSTGRES_LIST_MATERIALIZED_VIEWS_DESCRIPTION@,
        ToolKind::ReadQuery => POSTGRES_READ_QUERY_DESCRIPTION@,
        ToolKind::ExplainQuery => POSTGRES_EXPLAIN_QUERY_DESCRIPTION@,
        ToolKind::WriteQuery => POSTGRES_WRITE_QUERY_DESCRIPTION@,
        ToolKind::CreateDatabase => POSTGRES_CREATE_DATABASE_DESCRIPTION@,
        ToolKind::DropDatabase => POSTGRES_DROP_DATABASE_DESCRIPTION@,
        ToolKind::DropTable => POSTGRES_DROP_TABLE_DESCRIPTION@,
    }
}

/// The description PostgreSQL publishes for a tool.
pub fn postgres_description(k: ToolKind) -> (d: &'static str)
    ensures
        d@ == postgres_description_text(k),
{
    match k {
        ToolKind::ListDatabases => POSTGRES_LIST_DATABASES_DESCRIPTION,
        ToolKind::ListTables => POSTGRES_LIST_TABLES_DESCRIPTION,
        ToolKind::GetTableSchema => POSTGRES_GET_TABLE_SCHEMA_DESCRIPTION,
        ToolKind::ListViews => POSTGRES_LIST_VIEWS_DESCRIPTION,
        ToolKind::ListTriggers => POSTGRES_LIST_TRIGGERS_DESCRIPTION,
        ToolKind::ListFunctions => MYSQL_LIST_FUNCTIONS_DESCRIPTION,
        ToolKind::ListProcedures => POSTGRES_LIST_PROCEDURES_DESCRIPTION,
        ToolKind::ListMaterializedViews => POSTGRES_LIST_MATERIALIZED_VIEWS_DESCRIPTION,
        ToolKind::ReadQuery => POSTGRES_READ_QUERY_DESCRIPTION,
        ToolKind::ExplainQuery => POSTGRES_EXPLAIN_QUERY_DESCRIPTION,
        ToolKind::WriteQuery => POSTGRES_WRITE_QUERY_DESCRIPTION,
        ToolKind::CreateDatabase => POSTGRES_CREATE_DATABASE_DESCRIPTION,
        ToolKind::DropDatabase => POSTGRES_DROP_DATABASE_DESCRIPTION,
        ToolKind::DropTable => POSTGRES_DROP_TABLE_DESCRIPTION,
    }
}

/// What PostgreSQL publishes about a tool.
pub fn postgres_tool_info(k: ToolKind) -> (i: ToolInfo)
    ensures
        i.name@ == tool_name(k),
        i.title matches Some(t) && t@ == tool_title(k),
        i.description@ == postgres_description_text(k),
        i.annotations == tool_annotations(k),
{
    ToolInfo { name: k.name(), title: k.title(), description: postgres_description(k), annotations: k.annotations() }
}

/// The tools of a MySQL server: the read tools, followed in read-write mode
/// by the write tools.
pub open spec fn mysql_tool_list(read_only: bool) -> Seq<ToolKind> {
    let read = seq![
        ToolKind::ListDatabases,
        ToolKind::ListTables,
        ToolKind::GetTableSchema,
        ToolKind::ReadQuery,
        ToolKind::ExplainQuery,
    ];
    if read_only {
        read
    } else {
        read + seq![
            ToolKind::CreateDatabase,
            ToolKind::DropDatabase,
            ToolKind::DropTable,
            ToolKind::WriteQuery,
        ]
    }
}

/// The tools a MySQL server offers.
pub fn mysql_tools(read_only: bool) -> (v: Vec<ToolKind>)
    ensures
        v@ == mysql_tool_list(read_only),
{
    let mut v = Vec::new();
    v.push(ToolKind::ListDatabases);
    v.push(ToolKind::ListTables);
    v.push(ToolKind::GetTableSchema);
    v.push(ToolKind::ReadQuery);
    v.push(ToolKind::ExplainQuery);
    if !read_only {
        v.push(ToolKind::CreateDatabase);
        v.push(ToolKind::DropDatabase);
        v.push(ToolKind::DropTable);
        v.push(ToolKind::WriteQuery);
    }
    assert(v@ =~= mysql_tool_list(read_only));
    v
}

/// One entry of the PostgreSQL tool table: the tool, whether it is the
/// variant for a server pinned to one database, and whether it writes.
#[derive(Debug, Clone, Copy, PartialEq, Eq, Structural)]
pub struct ToolEntry {
    /// The tool.
    pub kind: ToolKind,
    /// The variant offered by a server pinned to one database.
    pub pinned: bool,
    /// The tool changes the database.
    pub write: bool,
}

/// Builds a table entry.
pub open spec fn entry(kind: ToolKind, pinned: bool, write: bool) -> ToolEntry {
    ToolEntry { kind, pinned, write }
}

/// The PostgreSQL tool table, in the order the tools are listed.
pub open spec fn postgres_catalog() -> Seq<ToolEntry> {
    seq![
        entry(ToolKind::ListDatabases, false, false),
        entry(ToolKind::ListTables, true, false),
        entry(ToolKind::ListTables, false, false),
        entry(ToolKind::ListViews, true, false),
        entry(ToolKind::ListViews, false, false),
        entry(ToolKind::ListTriggers, true, false),
        entry(ToolKind::ListTriggers, false, false),
        entry(ToolKind::ListFunctions, true, false),
        entry(ToolKind::ListFunctions, false, false),
        entry(ToolKind::ListProcedures, true, false),
        entry(ToolKind::ListProcedures, false, false),
        entry(ToolKind::ListMaterializedViews, true, false),
        entry(ToolKind::ListMaterializedViews, false, false),
        entry(ToolKind::ReadQuery, true, false),
        entry(ToolKind::ReadQuery, false, false),
        entry(ToolKind::ExplainQuery, true, false),
        entry(ToolKind::ExplainQuery, false, false),
        entry(ToolKind::CreateDatabase, false, true),
        entry(ToolKind::DropDatabase, false, true),
        entry(ToolKind::DropTable, true, true),
        entry(ToolKind::DropTable, false, true),
        entry(ToolKind::WriteQuery, true, true),
        entry(ToolKind::WriteQuery, false, true),
    ]
}

/// Returns the PostgreSQL tool table.
pub fn postgres_catalog_entries() -> (v: Vec<ToolEntry>)
    ensures
        v@ == postgres_catalog(),
{
    let mut v = Vec::new();
    v.push(ToolEntry { kind: ToolKind::ListDatabases, pinned: false, write: false });
    v.push(ToolEntry { kind: ToolKind::ListTables, pinned: true, write: false });
    v.push(ToolEntry { kind: ToolKind::ListTables, pinned: false, write: false });
    v.push(ToolEntry { kind: ToolKind::ListViews, pinned: true, write: false });
    v.push(ToolEntry { kind: ToolKind::ListViews, pinned: false, write: false });
    v.push(ToolEntry { kind: ToolKind::ListTriggers, pinned: true, write: false });
    v.push(ToolEntry { kind: ToolKind::ListTriggers, pinned: false, write: false });
    v.push(ToolEntry { kind: ToolKind::ListFunctions, pinned: true, write: false });
    v.push(ToolEntry { kind: ToolKind::ListFunctions, pinned: false, write: false });
    v.push(ToolEntry { kind: ToolKind::ListProcedures, pinned: true, write: false });
    v.push(ToolEntry { kind: ToolKind::ListProcedures, pinned: false, write: false });
    v.push(ToolEntry { kind: ToolKind::ListMaterializedViews, pinned: true, write: false });
    v.push(ToolEntry { kind: ToolKind::ListMaterializedViews, pinned: false, write: false });
    v.push(ToolEntry { kind: ToolKind::ReadQuery, pinned: true, write: false });
    v.push(ToolEntry { kind: ToolKind::ReadQuery, pinned: false, write: false });
    v.push(ToolEntry { kind: ToolKind::ExplainQuery, pinned: true, write: false });
    v.push(ToolEntry { kind: ToolKind::ExplainQuery, pinned: false, write: false });
    v.push(ToolEntry { kind: ToolKind::CreateDatabase, pinned: false, write: true });
    v.push(ToolEntry { kind: ToolKind::DropDatabase, pinned: false, write: true });
    v.push(ToolEntry { kind: ToolKind::DropTable, pinned: true, write: true });
    v.push(ToolEntry { kind: ToolKind::DropTable, pinned: false, write: true });
    v.push(ToolEntry { kind: ToolKind::WriteQuery, pinned: true, write: true });
    v.push(ToolEntry { kind: ToolKind::WriteQuery, pinned: false, write: true });
    assert(v@ =~= postgres_catalog());
    v
}

/// A table entry is offered when it is the variant for the server's pinning
/// mode and, in read-only mode, does not write.
pub open spec fn offered(e: ToolEntry, read_only: bool, pinned: bool) -> bool {
    e.pinned == pinned && (!e.write || !read_only)
}

/// The tools of the entries of `entries` that are offered, in order.
pub open spec fn select_tools(entries: Seq<ToolEntry>, read_only: bool, pinned: bool) -> Seq<ToolKind>
    decreases entries.len(),
{
    if entries.len() == 0 {
        Seq::empty()
    } else {
        let rest = select_tools(entries.drop_last(), read_only, pinned);
        if offered(entries.last(), read_only, pinned) {
            rest.push(entries.last().kind)
        } else {
            rest
        }
    }
}

/// The tools a PostgreSQL server offers.
pub open spec fn postgres_tool_list(read_only: bool, pinned: bool) -> Seq<ToolKind> {
    select_tools(postgres_catalog(), read_only, pinned)
}

/// The tools of `entries` that a server in the given mode offers.
pub fn select_offered(entries: &Vec<ToolEntry>, read_only: bool, pinned: bool) -> (v: Vec<ToolKind>)
    ensures
        v@ == select_tools(entries@, read_only, pinned),
{
    let mut v = Vec::new();
    for i in 0..entries.len()
        invariant
            v@ == select_tools(entries@.take(i as int), read_only, pinned),
    {
        let e = entries[i];
        proof {
            assert(entries@.take(i + 1).drop_last() =~= entries@.take(i as int));
        }
        if e.pinned == pinned && (!e.write || !read_only) {
            v.push(e.kind);
        }
    }
    proof {
        assert(entries@.take(entries@.len() as int) =~= entries@);
    }
    v
}

/// The tools a PostgreSQL server offers: the variants for its pinning mode,
/// without the write tools in read-only mode.
pub fn postgres_tools(read_only: bool, pinned: bool) -> (v: Vec<ToolKind>)
    ensures
        v@ == postgres_tool_list(read_only, pinned),
{
    let entries = postgres_catalog_entries();
    select_offered(&entries, read_only, pinned)
}

/// Every tool selected from `entries` comes from an offered entry.
proof fn lemma_selected_from_offered(entries: Seq<ToolEntry>, read_only: bool, pinned: bool, i: int)
    requires
        0 <= i < select_tools(entries, read_only, pinned).len(),
    ensures
        exists|j: int|
            0 <= j < entries.len() && offered(entries[j], read_only, pinned) && #[trigger] entries[j].kind
                == select_tools(entries, read_only, pinned)[i],
    decreases entries.len(),
{
    let rest = select_tools(entries.drop_last(), read_only, pinned);
    if i < rest.len() {
        lemma_selected_from_offered(entries.drop_last(), read_only, pinned, i);
        let j = choose|j: int|
            0 <= j < entries.drop_last().len() && offered(entries.drop_last()[j], read_only, pinned)
                && #[trigger] entries.drop_last()[j].kind == rest[i];
        assert(entries[j] == entries.drop_last()[j]);
    } else {
        let j = entries.len() - 1;
        assert(entries[j].kind == select_tools(entries, read_only, pinned)[i]);
    }
}

/// In the PostgreSQL table an entry writes exactly when its tool does, and
/// no pinned variant works across databases.
proof fn lemma_catalog_consistent(j: int)
    requires
        0 <= j < postgres_catalog().len(),
    ensures
        postgres_catalog()[j].write == is_write_tool(postgres_catalog()[j].kind),
        postgres_catalog()[j].pinned ==> !is_cross_database_tool(postgres_catalog()[j].kind),
{
}

/// A read-only server offers no tool that writes, and each tool it offers
/// is published as read-only (both backends).
pub proof fn lemma_read_only_offers_only_read_tools(pinned: bool)
    ensures
        forall|i: int|
            0 <= i < mysql_tool_list(true).len() ==> !is_write_tool(#[trigger] mysql_tool_list(true)[i])
                && tool_annotations(mysql_tool_list(true)[i]).read_only,
        forall|i: int|
            0 <= i < postgres_tool_list(true, pinned).len() ==> !is_write_tool(
                #[trigger] postgres_tool_list(true, pinned)[i],
            ) && tool_annotations(postgres_tool_list(true, pinned)[i]).read_only,
{
    assert forall|i: int| 0 <= i < postgres_tool_list(true, pinned).len() implies !is_write_tool(
        #[trigger] postgres_tool_list(true, pinned)[i],
    ) && tool_annotations(postgres_tool_list(true, pinned)[i]).read_only by {
        lemma_selected_from_offered(postgres_catalog(), true, pinned, i);
        let j = choose|j: int|
            0 <= j < postgres_catalog().len() && offered(postgres_catalog()[j], true, pinned)
                && #[trigger] postgres_catalog()[j].kind == postgres_tool_list(true, pinned)[i];
        lemma_catalog_consistent(j);
    }
}

/// A PostgreSQL server pinned to one database offers no tool that works
/// across databases (listing, creating or dropping databases).
pub proof fn lemma_pinned_offers_no_cross_database_tool(read_only: bool)
    ensures
        forall|i: int|
            0 <= i < postgres_tool_list(read_only, true).len() ==> !is_cross_database_tool(
                #[trigger] postgres_tool_list(read_only, true)[i],
            ),
{
    assert forall|i: int| 0 <= i < postgres_tool_list(read_only, true).len() implies !is_cross_database_tool(
        #[trigger] postgres_tool_list(read_only, true)[i],
    ) by {
        lemma_selected_from_offered(postgres_catalog(), read_only, true, i);
        let j = choose|j: int|
            0 <= j < postgres_catalog().len() && offered(postgres_catalog()[j], read_only, true)
                && #[trigger] postgres_catalog()[j].kind == postgres_tool_list(read_only, true)[i];
        lemma_catalog_consistent(j);
    }
}

/// The instructions a PostgreSQL server publishes, one text per mode.
#[derive(Debug, Clone, Copy, PartialEq, Eq, Structural)]
pub enum InstructionSet {
    /// Read-write, any database.
    ReadWrite,
    /// Read-only, any database.
    ReadOnly,
    /// Read-write, pinned to the configured database.
    Pinned,
    /// Read-only, pinned to the configured database.
    ReadOnlyPinned,
}

/// The instructions of a mode.
pub open spec fn instruction_set(read_only: bool, pinned: bool) -> InstructionSet {
    if read_only {
        if pinned {
            InstructionSet::ReadOnlyPinned
        } else {
            InstructionSet::ReadOnly
        }
    } else {
        if pinned {
            InstructionSet::Pinned
        } else {
            InstructionSet::ReadWrite
        }
    }
}

/// A PostgreSQL configuration pins the server to one database when it
/// names one (even an empty name).
pub open spec fn is_pinned(config: DatabaseConfig) -> bool {
    config.name is Some
}

/// The instructions a PostgreSQL server with `config` publishes.
pub fn postgres_instructions(config: &DatabaseConfig) -> (i: InstructionSet)
    ensures
        i == instruction_set(config.read_only, is_pinned(*config)),
{
    let pinned = config.name.is_some();
    if config.read_only {
        if pinned {
            InstructionSet::ReadOnlyPinned
        } else {
            InstructionSet::ReadOnly
        }
    } else {
        if pinned {
            InstructionSet::Pinned
        } else {
            InstructionSet::ReadWrite
        }
    }
}

/// The tools a PostgreSQL server with `config` offers.
pub fn postgres_server_tools(config: &DatabaseConfig) -> (v: Vec<ToolKind>)
    ensures
        v@ == postgres_tool_list(config.read_only, is_pinned(*config)),
{
    postgres_tools(config.read_only, config.name.is_some())
}

/// The tools a MySQL server with `config` offers.
pub fn mysql_server_tools(config: &DatabaseConfig) -> (v: Vec<ToolKind>)
    ensures
        v@ == mysql_tool_list(config.read_only),
{
    mysql_tools(config.read_only)
}

/// The tools of the backend-generic server, by name: database listing for
/// backends with several databases, the table and query tools, then in
/// read-write mode the write query and (again only with several databases)
/// database creation.
pub open spec fn generic_tool_names(multi_database: bool, read_only: bool) -> Seq<Seq<char>> {
    let list = if multi_database {
        seq!["list_databases"@]
    } else {
        Seq::empty()
    };
    let read = list + seq!["list_tables"@, "get_table_schema"@, "read_query"@];
    if read_only {
        read
    } else if multi_database {
        read + seq!["write_query"@, "create_database"@]
    } else {
        read.push("write_query"@)
    }
}

/// The views of a list of string slices.
pub open spec fn str_views(v: Seq<&str>) -> Seq<Seq<char>> {
    v.map_values(|s: &str| s@)
}

/// The names of the tools the backend-generic server offers.
pub fn generic_server_tools(multi_database: bool, read_only: bool) -> (v: Vec<&'static str>)
    ensures
        str_views(v@) == generic_tool_names(multi_database, read_only),
{
    proof {
        reveal_strlit("list_databases");
        reveal_strlit("list_tables");
        reveal_strlit("get_table_schema");
        reveal_strlit("read_query");
        reveal_strlit("write_query");
        reveal_strlit("create_database");
    }
    let mut v: Vec<&'static str> = Vec::new();
    if multi_database {
        v.push("list_databases");
    }
    v.push("list_tables");
    v.push("get_table_schema");
    v.push("read_query");
    if !read_only {
        v.push("write_query");
        if multi_database {
            v.push("create_database");
        }
    }
    assert(str_views(v@) =~= generic_tool_names(multi_database, read_only));
    v
}

/// The backend-generic server offers no write tool in read-only mode.
pub proof fn lemma_generic_read_only_offers_no_write_tool(multi_database: bool)
    ensures
        !generic_tool_names(multi_database, true).contains("write_query"@),
        !generic_tool_names(multi_database, true).contains("create_database"@),
{
    reveal_strlit("list_databases");
    reveal_strlit("list_tables");
    reveal_strlit("get_table_schema");
    reveal_strlit("read_query");
    reveal_strlit("write_query");
    reveal_strlit("create_database");
    let names = generic_tool_names(multi_database, true);
    assert forall|i: int| 0 <= i < names.len() implies names[i] != "write_query"@ && names[i]
        != "create_database"@ by {
        if multi_database {
            assert(names =~= seq!["list_databases"@, "list_tables"@, "get_table_schema"@, "read_query"@]);
        } else {
            assert(names =~= seq!["list_tables"@, "get_table_schema"@, "read_query"@]);
        }
        assert(names[i][0] != "write_query"@[0] && names[i][0] != "create_database"@[0]);
    }
}


/// A tool that a PostgreSQL server in the given mode hides: the write tools
/// in read-only mode, the cross-database tools when pinned to one database.
pub open spec fn is_hidden_tool(k: ToolKind, read_only: bool, pinned: bool) -> bool {
    (read_only && is_write_tool(k)) || (pinned && is_cross_database_tool(k))
}

/// `text` names a tool that the mode hides.
pub open spec fn names_hidden_tool(text: Seq<char>, read_only: bool, pinned: bool) -> bool {
    exists|k: ToolKind| is_hidden_tool(k, read_only, pinned) && #[trigger] contains_seq(text, tool_name(k))
}

/// Every tool, in declaration order.
pub open spec fn all_tool_kinds() -> Seq<ToolKind> {
    seq![
        ToolKind::ListDatabases,
        ToolKind::ListTables,
        ToolKind::GetTableSchema,
        ToolKind::ListViews,
        ToolKind::ListTriggers,
        ToolKind::ListFunctions,
        ToolKind::ListProcedures,
        ToolKind::ListMaterializedViews,
        ToolKind::ReadQuery,
        ToolKind::ExplainQuery,
        ToolKind::WriteQuery,
        ToolKind::CreateDatabase,
        ToolKind::DropDatabase,
        ToolKind::DropTable,
    ]
}

/// Every tool occurs in [`all_tool_kinds`].
proof fn lemma_all_tool_kinds(k: ToolKind)
    ensures
        exists|i: int| 0 <= i < all_tool_kinds().len() && #[trigger] all_tool_kinds()[i] == k,
{
    let all = all_tool_kinds();
    match k {
        ToolKind::ListDatabases => assert(all[0] == k),
        ToolKind::ListTables => assert(all[1] == k),
        ToolKind::GetTableSchema => assert(all[2] == k),
        ToolKind::ListViews => assert(all[3] == k),
        ToolKind::ListTriggers => assert(all[4] == k),
        ToolKind::ListFunctions => assert(all[5] == k),
        ToolKind::ListProcedures => assert(all[6] == k),
        ToolKind::ListMaterializedViews => assert(all[7] == k),
        ToolKind::ReadQuery => assert(all[8] == k),
        ToolKind::ExplainQuery => assert(all[9] == k),
        ToolKind::WriteQuery => assert(all[10] == k),
        ToolKind::CreateDatabase => assert(all[11] == k),
        ToolKind::DropDatabase => assert(all[12] == k),
        ToolKind::DropTable => assert(all[13] == k),
    }
}

/// No tool has an empty name.
proof fn lemma_tool_name_not_empty(k: ToolKind)
    ensures
        tool_name(k).len() > 0,
{
    reveal_strlit("listDatabases");
    reveal_strlit("listTables");
    reveal_strlit("getTableSchema");
    reveal_strlit("listViews");
    reveal_strlit("listTriggers");
    reveal_strlit("listFunctions");
    reveal_strlit("listProcedures");
    reveal_strlit("listMaterializedViews");
    reveal_strlit("readQuery");
    reveal_strlit("explainQuery");
    reveal_strlit("writeQuery");
    reveal_strlit("createDatabase");
    reveal_strlit("dropDatabase");
    reveal_strlit("dropTable");
}

/// Returns every tool, in declaration order.
fn all_tools() -> (v: Vec<ToolKind>)
    ensures
        v@ == all_tool_kinds(),
{
    let v = vec![
        ToolKind::ListDatabases,
        ToolKind::ListTables,
        ToolKind::GetTableSchema,
        ToolKind::ListViews,
        ToolKind::ListTriggers,
        ToolKind::ListFunctions,
        ToolKind::ListProcedures,
        ToolKind::ListMaterializedViews,
        ToolKind::ReadQuery,
        ToolKind::ExplainQuery,
        ToolKind::WriteQuery,
        ToolKind::CreateDatabase,
        ToolKind::DropDatabase,
        ToolKind::DropTable,
    ];
    assert(v@ =~= all_tool_kinds());
    v
}

/// Whether `text` names a tool that a server in the given mode hides.
pub fn mentions_hidden_tool(text: &str, read_only: bool, pinned: bool) -> (b: bool)
    ensures
        b == names_hidden_tool(text@, read_only, pinned),
{
    let tools = all_tools();
    let mut i: usize = 0;
    while i < tools.len()
        invariant
            tools@ == all_tool_kinds(),
            i <= tools.len(),
            forall|j: int|
                0 <= j < i ==> !(is_hidden_tool(tools@[j], read_only, pinned) && #[trigger] contains_seq(
                    text@,
                    tool_name(tools@[j]),
                )),
        decreases tools.len() - i,
    {
        let k = tools[i];
        let hidden = (read_only && k.is_write()) || (pinned && k.is_cross_database());
        if hidden && str_contains(text, k.name()) {
            return true;
        }
        i = i + 1;
    }
    proof {
        assert forall|k: ToolKind| !(is_hidden_tool(k, read_only, pinned) && #[trigger] contains_seq(
            text@,
            tool_name(k),
        )) by {
            lemma_all_tool_kinds(k);
        }
    }
    false
}

/// The lines of the PostgreSQL server instructions, before the tools that
/// a mode hides are taken out.
pub open spec fn postgres_instruction_lines() -> Seq<Seq<char>> {
    seq![
        INSTRUCTIONS_WORKFLOW@,
        INSTRUCTIONS_DATABASES@,
        INSTRUCTIONS_TABLES@,
        INSTRUCTIONS_OBJECTS@,
        INSTRUCTIONS_READ@,
        INSTRUCTIONS_WRITE@,
        INSTRUCTIONS_CREATE_DROP_DATABASE@,
        INSTRUCTIONS_DROP_TABLE@,
        INSTRUCTIONS_CONSTRAINTS@,
        INSTRUCTIONS_ONE_STATEMENT@,
        INSTRUCTIONS_PAGES@,
        INSTRUCTIONS_HIDDEN@,
    ]
}

/// Heading of the workflow.
pub const INSTRUCTIONS_WORKFLOW: &'static str = "## Workflow\n";
/// Discovering databases.
pub const INSTRUCTIONS_DATABASES: &'static str = "- Call `listDatabases` to discover the databases of the server.";
/// Listing tables.
pub const INSTRUCTIONS_TABLES: &'static str = "- Call `listTables` to see the tables of a database; pass `detailed: true` for their columns, constraints, indexes and triggers, and `search` to filter them by name.";
/// Listing the other objects.
pub const INSTRUCTIONS_OBJECTS: &'static str = "- Call `listViews`, `listMaterializedViews`, `listTriggers`, `listFunctions` and `listProcedures` for the other objects of a database.";
/// Reading.
pub const INSTRUCTIONS_READ: &'static str = "- Use `readQuery` for read-only SQL (SELECT, SHOW, EXPLAIN) and `explainQuery` for the execution plan of a statement.";
/// Writing.
pub const INSTRUCTIONS_WRITE: &'static str = "- Use `writeQuery` for data changes (INSERT, UPDATE, DELETE, CREATE, ALTER, DROP).";
/// Creating and dropping databases.
pub const INSTRUCTIONS_CREATE_DROP_DATABASE: &'static str = "- Use `createDatabase` to create a database and `dropDatabase` to drop one other than the connected database.";
/// Dropping tables.
pub const INSTRUCTIONS_DROP_TABLE: &'static str = "- Use `dropTable` to drop a table; pass `cascade: true` to drop the constraints that depend on it as well.";
/// Heading of the constraints.
pub const INSTRUCTIONS_CONSTRAINTS: &'static str = "\n## Constraints\n";
/// One statement per request.
pub const INSTRUCTIONS_ONE_STATEMENT: &'static str = "- Multi-statement queries are not supported. Send one statement per request.";
/// Pagination.
pub const INSTRUCTIONS_PAGES: &'static str = "- Listings are paginated: pass the `nextCursor` of a response as `cursor` to fetch the next page.";
/// The tools hidden in read-only mode.
pub const INSTRUCTIONS_HIDDEN: &'static str = "- The `writeQuery`, `createDatabase`, `dropDatabase` and `dropTable` tools are hidden when read-only mode is active.";

/// The instruction text kept from `lines`: each line in turn, followed by a
/// line break, unless the text with it would name a tool the mode hides.
pub open spec fn kept_instructions(lines: Seq<Seq<char>>, read_only: bool, pinned: bool) -> Seq<char>
    decreases lines.len(),
{
    if lines.len() == 0 {
        Seq::empty()
    } else {
        let text = kept_instructions(lines.drop_last(), read_only, pinned);
        let with_line = text + lines.last() + "\n"@;
        if names_hidden_tool(with_line, read_only, pinned) {
            text
        } else {
            with_line
        }
    }
}

/// The instructions of a PostgreSQL server in the given mode.
pub open spec fn postgres_instruction_text_spec(read_only: bool, pinned: bool) -> Seq<char> {
    kept_instructions(postgres_instruction_lines(), read_only, pinned)
}

/// No kept instruction text names a tool the mode hides.
proof fn lemma_kept_instructions_hide(lines: Seq<Seq<char>>, read_only: bool, pinned: bool)
    ensures
        !names_hidden_tool(kept_instructions(lines, read_only, pinned), read_only, pinned),
    decreases lines.len(),
{
    if lines.len() == 0 {
        assert forall|k: ToolKind| !(is_hidden_tool(k, read_only, pinned) && #[trigger] contains_seq(
            Seq::<char>::empty(),
            tool_name(k),
        )) by {
            lemma_tool_name_not_empty(k);
        }
    } else {
        lemma_kept_instructions_hide(lines.drop_last(), read_only, pinned);
    }
}

/// The instructions a PostgreSQL server publishes in the given mode: the
/// workflow and its constraints, without any line that would name a tool
/// the mode hides.
pub fn postgres_instruction_text(read_only: bool, pinned: bool) -> (t: String)
    ensures
        t@ == postgres_instruction_text_spec(read_only, pinned),
        forall|k: ToolKind|
            is_hidden_tool(k, read_only, pinned) ==> !contains_seq(t@, #[trigger] tool_name(k)),
{
    let lines: Vec<&'static str> = vec![
        INSTRUCTIONS_WORKFLOW,
        INSTRUCTIONS_DATABASES,
        INSTRUCTIONS_TABLES,
        INSTRUCTIONS_OBJECTS,
        INSTRUCTIONS_READ,
        INSTRUCTIONS_WRITE,
        INSTRUCTIONS_CREATE_DROP_DATABASE,
        INSTRUCTIONS_DROP_TABLE,
        INSTRUCTIONS_CONSTRAINTS,
        INSTRUCTIONS_ONE_STATEMENT,
        INSTRUCTIONS_PAGES,
        INSTRUCTIONS_HIDDEN,
    ];
    assert(str_views(lines@) =~= postgres_instruction_lines());
    let mut text = String::new();
    let mut i: usize = 0;
    while i < lines.len()
        invariant
            str_views(lines@) == postgres_instruction_lines(),
            i <= lines.len(),
            text@ == kept_instructions(postgres_instruction_lines().take(i as int), read_only, pinned),
        decreases lines.len() - i,
    {
        let mut candidate = text.clone();
        candidate.append(lines[i]);
        candidate.append("\n");
        proof {
            let ls = postgres_instruction_lines();
            assert(ls.take(i + 1).drop_last() =~= ls.take(i as int));
            assert(ls.take(i + 1).last() == lines@[i as int]@);
        }
        if !mentions_hidden_tool(candidate.as_str(), read_only, pinned) {
            text = candidate;
        }
        i = i + 1;
    }
    proof {
        assert(postgres_instruction_lines().take(lines.len() as int) =~= postgres_instruction_lines());
        lemma_kept_instructions_hide(postgres_instruction_lines(), read_only, pinned);
    }
    text
}

} // verus!
