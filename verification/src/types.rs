//! Request and response shapes of the MCP tools.

use vstd::prelude::*;
use crate::pagination::{Cursor, Pager, page_items, next_cursor};
use indexmap::IndexMap;
use serde_json::Value;

verus! {

/// Response for tools with no structured return data.
#[derive(Debug)]
pub struct MessageResponse {
    /// Description of the completed operation.
    pub message: String,
}

/// Request for the `listDatabases` tool.
#[derive(Debug, Default)]
pub struct ListDatabasesRequest {
    /// Opaque cursor from a prior response's `nextCursor`; `None` for the first page.
    pub cursor: Option<Cursor>,
}

/// Response for the `listDatabases` tool.
#[derive(Debug)]
pub struct ListDatabasesResponse {
    /// Sorted list of database names for this page.
    pub databases: Vec<String>,
    /// Cursor of the next page; absent on the final page.
    pub next_cursor: Option<Cursor>,
}

/// Request for the `createDatabase` tool.
#[derive(Debug, Default)]
pub struct CreateDatabaseRequest {
    /// Name of the database to create.
    pub database_name: String,
}

/// Request for the `dropDatabase` tool.
#[derive(Debug, Default)]
pub struct DropDatabaseRequest {
    /// Name of the database to drop.
    pub database_name: String,
}

/// Request for the `listViews` tool.
#[derive(Debug, Default)]
pub struct ListViewsRequest {
    /// Database to list views from; defaults to the active database.
    pub database: Option<String>,
    /// Opaque cursor from a prior response's `nextCursor`.
    pub cursor: Option<Cursor>,
}

/// Response for the `listViews` tool.
#[derive(Debug)]
pub struct ListViewsResponse {
    /// Sorted list of view names for this page.
    pub views: Vec<String>,
    /// Cursor of the next page; absent on the final page.
    pub next_cursor: Option<Cursor>,
}

/// Request for the `listTriggers` tool.
#[derive(Debug, Default)]
pub struct ListTriggersRequest {
    /// Database to list triggers from; defaults to the active database.
    pub database: Option<String>,
    /// Opaque cursor from a prior response's `nextCursor`.
    pub cursor: Option<Cursor>,
}

/// Response for the `listTriggers` tool.
#[derive(Debug)]
pub struct ListTriggersResponse {
    /// Sorted list of trigger names for this page.
    pub triggers: Vec<String>,
    /// Cursor of the next page; absent on the final page.
    pub next_cursor: Option<Cursor>,
}

/// Request for the `listFunctions` tool.
#[derive(Debug, Default)]
pub struct ListFunctionsRequest {
    /// Database to list functions from; defaults to the active database.
    pub database: Option<String>,
    /// Opaque cursor from a prior response's `nextCursor`.
    pub cursor: Option<Cursor>,
}

/// Response for the `listFunctions` tool.
#[derive(Debug)]
pub struct ListFunctionsResponse {
    /// Sorted list of function names for this page.
    pub functions: Vec<String>,
    /// Cursor of the next page; absent on the final page.
    pub next_cursor: Option<Cursor>,
}

/// Request for the `listProcedures` tool.
#[derive(Debug, Default)]
pub struct ListProceduresRequest {
    /// Database to list procedures from; defaults to the active database.
    pub database: Option<String>,
    /// Opaque cursor from a prior response's `nextCursor`.
    pub cursor: Option<Cursor>,
}

/// Response for the `listProcedures` tool.
#[derive(Debug)]
pub struct ListProceduresResponse {
    /// Sorted list of procedure names for this page.
    pub procedures: Vec<String>,
    /// Cursor of the next page; absent on the final page.
    pub next_cursor: Option<Cursor>,
}

/// Request for the `listMaterializedViews` tool.
#[derive(Debug, Default)]
pub struct ListMaterializedViewsRequest {
    /// Database to list materialized views from; defaults to the active database.
    pub database: Option<String>,
    /// Opaque cursor from a prior response's `nextCursor`.
    pub cursor: Option<Cursor>,
}

/// Response for the `listMaterializedViews` tool.
#[derive(Debug)]
pub struct ListMaterializedViewsResponse {
    /// Sorted list of materialized-view names for this page.
    pub materialized_views: Vec<String>,
    /// Cursor of the next page; absent on the final page.
    pub next_cursor: Option<Cursor>,
}

/// Request for the `listTables` tool.
#[derive(Debug, Default)]
pub struct ListTablesRequest {
    /// Database to list tables from; defaults to the active database.
    pub database: Option<String>,
    /// Opaque cursor from a prior response's `nextCursor`.
    pub cursor: Option<Cursor>,
    /// Optional case-insensitive filter on table names.
    pub search: Option<String>,
    /// Full metadata per table instead of bare names.
    pub detailed: bool,
}

/// Request for the `getTableSchema` tool.
#[derive(Debug, Default)]
pub struct GetTableSchemaRequest {
    /// Database holding the table; defaults to the active database.
    pub database: Option<String>,
    /// Name of the table.
    pub table: String,
}

/// Request for the `writeQuery` tool.
#[derive(Debug, Default)]
pub struct QueryRequest {
    /// The SQL query to execute.
    pub query: String,
    /// Database to run the query against; defaults to the active database.
    pub database: Option<String>,
}

/// Request for the `readQuery` tool.
#[derive(Debug, Default)]
pub struct ReadQueryRequest {
    /// The SQL query to execute.
    pub query: String,
    /// Database to run the query against; defaults to the active database.
    pub database: Option<String>,
    /// Opaque cursor from a prior response's `nextCursor`.
    pub cursor: Option<Cursor>,
}

/// Request for the `explainQuery` tool.
#[derive(Debug, Default)]
pub struct ExplainQueryRequest {
    /// Database to explain against; defaults to the active database.
    pub database: Option<String>,
    /// The SQL query to explain.
    pub query: String,
    /// Use `EXPLAIN ANALYZE` (executes the statement).
    pub analyze: bool,
}

/// Request for the `dropTable` tool.
#[derive(Debug, Default)]
pub struct DropTableRequest {
    /// Database containing the table; defaults to the active database.
    pub database: Option<String>,
    /// Name of the table to drop.
    pub table: String,
    /// Also drop dependent objects (`CASCADE`, PostgreSQL only).
    pub cascade: bool,
}

} // verus!

verus! {

/// `indexmap`'s insertion-ordered map.
#[verifier::external_type_specification]
#[verifier::external_body]
#[verifier::reject_recursive_types(K)]
#[verifier::reject_recursive_types(V)]
#[verifier::reject_recursive_types(S)]
pub struct ExIndexMap<K, V, S>(IndexMap<K, V, S>);

/// `serde_json`'s JSON value, carried as table metadata.
#[verifier::external_type_specification]
#[verifier::external_body]
pub struct ExJsonValue(Value);

/// The keys of a table map, in the map's order.
pub uninterp spec fn table_map_keys(m: IndexMap<String, Value>) -> Seq<Seq<char>>;

/// The entries of a table map: the value held under each key.
pub uninterp spec fn table_map_entries(m: IndexMap<String, Value>) -> Map<Seq<char>, Value>;

/// `m` holds, under each name of `pairs`, the value of the last pair with
/// that name.
pub open spec fn holds_last_values(m: IndexMap<String, Value>, pairs: Seq<(String, Value)>) -> bool {
    forall|i: int|
        0 <= i < pairs.len() && (forall|j: int| i < j < pairs.len() ==> pairs[j].0@ != pairs[i].0@)
            ==> table_map_entries(m).contains_key(#[trigger] pairs[i].0@) && table_map_entries(m)[pairs[i].0@]
            == pairs[i].1
}

/// The first occurrence of each name of `names`, in order.
pub open spec fn first_occurrences(names: Seq<Seq<char>>) -> Seq<Seq<char>>
    decreases names.len(),
{
    if names.len() == 0 {
        Seq::empty()
    } else {
        let prev = first_occurrences(names.drop_last());
        if prev.contains(names.last()) {
            prev
        } else {
            prev.push(names.last())
        }
    }
}

/// Keeping first occurrences never lengthens a sequence, and leaves no
/// name twice.
pub proof fn lemma_first_occurrences_len(names: Seq<Seq<char>>)
    ensures
        first_occurrences(names).len() <= names.len(),
        first_occurrences(names).no_duplicates(),
    decreases names.len(),
{
    if names.len() > 0 {
        lemma_first_occurrences_len(names.drop_last());
    }
}

/// The names of `(name, value)` pairs, in order.
pub open spec fn pair_names(pairs: Seq<(String, Value)>) -> Seq<Seq<char>> {
    pairs.map_values(|p: (String, Value)| p.0@)
}

/// `IndexMap::from_iter` over `(name, value)` pairs: each pair is inserted
/// in order, so a name keeps the position of its first pair and holds the
/// value of its last one.
#[verifier::external_body]
fn table_map_from_pairs(pairs: Vec<(String, Value)>) -> (m: IndexMap<String, Value>)
    ensures
        table_map_keys(m) == first_occurrences(pair_names(pairs@)),
        forall|i: int|
            0 <= i < pairs@.len() && (forall|j: int| i < j < pairs@.len() ==> pairs@[j].0@ != pairs@[i].0@)
                ==> table_map_entries(m).contains_key(#[trigger] pairs@[i].0@) && table_map_entries(
                m,
            )[pairs@[i].0@] == pairs@[i].1,
{
    pairs.into_iter().collect()
}

/// `IndexMap::len`: the number of keys.
#[verifier::external_body]
fn table_map_len(m: &IndexMap<String, Value>) -> (n: usize)
    ensures
        n == table_map_keys(*m).len(),
{
    m.len()
}

/// Table listing payload: bare names in brief mode, a name-keyed map of
/// metadata in detailed mode.
pub enum TableEntries {
    /// Brief mode: the table names, in order.
    Brief(Vec<String>),
    /// Detailed mode: metadata keyed by table name, in order.
    Detailed(IndexMap<String, Value>),
}

/// Number of entries of a listing, whatever its mode.
pub open spec fn entries_len(t: TableEntries) -> nat {
    match t {
        TableEntries::Brief(v) => v@.len(),
        TableEntries::Detailed(m) => table_map_keys(m).len(),
    }
}

impl TableEntries {
    /// Number of entries in the page, regardless of variant.
    pub fn len(&self) -> (n: usize)
        ensures
            n == entries_len(*self),
    {
        match self {
            TableEntries::Brief(v) => v.len(),
            TableEntries::Detailed(m) => table_map_len(m),
        }
    }

    /// Whether the page contains no entries.
    pub fn is_empty(&self) -> (b: bool)
        ensures
            b == (entries_len(*self) == 0),
    {
        self.len() == 0
    }

    /// The brief-mode names, or `None` in detailed mode.
    pub fn as_brief(&self) -> (r: Option<&[String]>)
        ensures
            match self {
                TableEntries::Brief(v) => r matches Some(s) && s@ == v@,
                TableEntries::Detailed(_) => r is None,
            },
    {
        match self {
            TableEntries::Brief(v) => Some(v.as_slice()),
            TableEntries::Detailed(_) => None,
        }
    }

    /// The detailed-mode map, or `None` in brief mode.
    pub fn as_detailed(&self) -> (r: Option<&IndexMap<String, Value>>)
        ensures
            match self {
                TableEntries::Detailed(m) => r matches Some(x) && *x == m,
                TableEntries::Brief(_) => r is None,
            },
    {
        match self {
            TableEntries::Detailed(m) => Some(m),
            TableEntries::Brief(_) => None,
        }
    }

    /// Consumes the payload, giving back the brief-mode names, or `None` in
    /// detailed mode.
    pub fn into_brief(self) -> (r: Option<Vec<String>>)
        ensures
            match self {
                TableEntries::Brief(v) => r matches Some(w) && w@ == v@,
                TableEntries::Detailed(_) => r is None,
            },
    {
        match self {
            TableEntries::Brief(v) => Some(v),
            TableEntries::Detailed(_) => None,
        }
    }
}

/// Response for the `listTables` tool.
pub struct ListTablesResponse {
    /// Page of matching tables; its shape follows the request's `detailed`.
    pub tables: TableEntries,
    /// Cursor of the next page; absent on the final page.
    pub next_cursor: Option<Cursor>,
}

impl ListTablesResponse {
    /// Builds a brief-mode response: trims the over-fetch and wraps the
    /// names.
    pub fn brief(rows: Vec<String>, pager: Pager) -> (r: Self)
        requires
            rows@.len() > pager.page_size() ==> pager.start() + pager.page_size() <= u64::MAX,
        ensures
            r.tables matches TableEntries::Brief(v) && v@ == page_items(rows@, pager.page_size()),
            r.next_cursor == next_cursor(rows@, pager.start(), pager.page_size()),
            entries_len(r.tables) <= pager.page_size(),
    {
        let (tables, next_cursor) = pager.finalize(rows);
        ListTablesResponse { tables: TableEntries::Brief(tables), next_cursor }
    }

    /// Builds a detailed-mode response from `(name, metadata)` pairs: trims
    /// the over-fetch and keys the page's metadata by name, each table
    /// holding the metadata of its (last) pair.
    pub fn detailed(pairs: Vec<(String, Value)>, pager: Pager) -> (r: Self)
        requires
            pairs@.len() > pager.page_size() ==> pager.start() + pager.page_size() <= u64::MAX,
        ensures
            r.tables matches TableEntries::Detailed(m) && table_map_keys(m) == first_occurrences(
                pair_names(page_items(pairs@, pager.page_size())),
            ) && holds_last_values(m, page_items(pairs@, pager.page_size())),
            r.next_cursor == next_cursor(pairs@, pager.start(), pager.page_size()),
            entries_len(r.tables) <= pager.page_size(),
    {
        let (page, next_cursor) = pager.finalize(pairs);
        proof {
            lemma_first_occurrences_len(pair_names(page@));
        }
        ListTablesResponse { tables: TableEntries::Detailed(table_map_from_pairs(page)), next_cursor }
    }
}

} // verus!
