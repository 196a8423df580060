//! Decisions shared by the database tools: which database a request
//! targets, how a page is appended to a statement, the statement kinds the
//! read-only validator reports, and the confirmation messages.
//!
//! Every tool call first asks a planning function of this crate what to
//! execute (or which error to answer); the caller then runs the statement
//! and hands the fetched rows back (see [`crate::pagination::Pager::finalize`]).

use vstd::prelude::*;
use crate::error::AppError;
use crate::identifier::{is_valid_identifier, validate_identifier};
use crate::pagination::{Cursor, Pager};
use crate::text::{decimal, push_decimal, trim_spec, str_trim};

verus! {

/// The database a request names: its trimmed text, absent when the request
/// names none or only white space.
pub open spec fn requested_database(d: Option<String>) -> Option<Seq<char>> {
    match d {
        Some(s) => if trim_spec(s@).len() == 0 {
            None
        } else {
            Some(trim_spec(s@))
        },
        None => None,
    }
}

/// The database a request targets when the server falls back to `default`.
pub open spec fn target_database(d: Option<String>, default: Seq<char>) -> Seq<char> {
    match requested_database(d) {
        Some(t) => t,
        None => default,
    }
}

/// `r` is the outcome of checking the name `t`: the name itself when it is a
/// valid identifier, otherwise the invalid-identifier error for it.
pub open spec fn checked_name(r: Result<String, AppError>, t: Seq<char>) -> bool {
    if is_valid_identifier(t) {
        r matches Ok(s) && s@ == t
    } else {
        r matches Err(AppError::InvalidIdentifier(s)) && s@ == t
    }
}

/// `e` is the invalid-identifier error for `t`.
pub open spec fn is_invalid_identifier_error(e: AppError, t: Seq<char>) -> bool {
    e matches AppError::InvalidIdentifier(s) && s@ == t
}

/// Checks the name `name` and returns an owned copy of it.
pub fn checked_identifier(name: &str) -> (r: Result<String, AppError>)
    ensures
        checked_name(r, name@),
{
    match validate_identifier(name) {
        Ok(()) => Ok(name.to_owned()),
        Err(e) => Err(e),
    }
}

/// Resolves the optional database of a request: blank means none; a named
/// database must be a valid identifier.
pub fn resolve_database(database: &Option<String>) -> (r: Result<Option<String>, AppError>)
    ensures
        match requested_database(*database) {
            None => r matches Ok(None),
            Some(t) => if is_valid_identifier(t) {
                r matches Ok(Some(s)) && s@ == t
            } else {
                r matches Err(e) && is_invalid_identifier_error(e, t)
            },
        },
{
    match database {
        Some(s) => {
            let t = str_trim(s.as_str());
            if t.is_empty() {
                Ok(None)
            } else {
                match checked_identifier(t) {
                    Ok(n) => Ok(Some(n)),
                    Err(e) => Err(e),
                }
            }
        },
        None => Ok(None),
    }
}

/// Resolves the database of a request, falling back to `default` when the
/// request names none; the result must be a valid identifier.
pub fn resolve_database_or(database: &Option<String>, default: &str) -> (r: Result<String, AppError>)
    ensures
        checked_name(r, target_database(*database, default@)),
{
    match database {
        Some(s) => {
            let t = str_trim(s.as_str());
            if t.is_empty() {
                checked_identifier(default)
            } else {
                checked_identifier(t)
            }
        },
        None => checked_identifier(default),
    }
}

/// The row offset a pager binds, saturated at `i64::MAX`.
pub open spec fn bound_offset(p: Pager) -> nat {
    if p.start() <= i64::MAX {
        p.start()
    } else {
        i64::MAX as nat
    }
}

/// The ` LIMIT <size + 1> OFFSET <offset>` clause of a page.
pub open spec fn limit_offset_clause(p: Pager) -> Seq<char> {
    " LIMIT "@ + decimal(p.page_size() + 1) + " OFFSET "@ + decimal(bound_offset(p))
}

/// Appends the ` LIMIT .. OFFSET ..` clause of `pager` to `out`.
pub fn push_limit_offset(out: &mut String, pager: &Pager)
    ensures
        final(out)@ == old(out)@ + limit_offset_clause(*pager),
{
    let limit = pager.limit();
    let offset = pager.offset();
    out.append(" LIMIT ");
    push_decimal(out, limit as u64);
    out.append(" OFFSET ");
    push_decimal(out, offset as u64);
    proof {
        assert(out@ =~= old(out)@ + limit_offset_clause(*pager));
    }
}

/// The offset a cursor points at (zero without a cursor).
pub open spec fn cursor_start(c: Option<Cursor>) -> nat {
    match c {
        Some(c) => c.offset as nat,
        None => 0,
    }
}

/// A paginated listing statement, the database it runs against, and the
/// page it fetches.
pub struct PagedQuery {
    /// The statement, ending with its `LIMIT`/`OFFSET` clause.
    pub sql: String,
    /// Database to run against (`None` = the connection's default).
    pub database: Option<String>,
    /// The page being fetched.
    pub pager: Pager,
}

/// A statement to execute and the database it runs against.
pub struct StatementPlan {
    /// The statement.
    pub sql: String,
    /// Database to run against (`None` = the connection's default).
    pub database: Option<String>,
}

/// The two statement kinds the read-only validator tells apart.
#[derive(Debug, Clone, Copy, PartialEq, Eq, Structural)]
pub enum StatementKind {
    /// A `SELECT` (paginated by `readQuery`).
    Select,
    /// `SHOW`, `DESCRIBE`, `USE` or `EXPLAIN` (returned as a single page).
    NonSelect,
}

/// A `readQuery` statement, its database and, for `SELECT`, the page.
pub struct ReadQueryPlan {
    /// The statement to run.
    pub sql: String,
    /// Database to run against (`None` = the connection's default).
    pub database: Option<String>,
    /// The page, for a `SELECT`; `None` for single-page statements.
    pub pager: Option<Pager>,
}

/// A `SELECT` wrapped in a subquery with a server-controlled page clause.
pub open spec fn paged_select(query: Seq<char>, p: Pager) -> Seq<char> {
    "SELECT * FROM ("@ + query + ") AS paged_query"@ + limit_offset_clause(p)
}

/// Plans `readQuery`.
///
/// `checked` is the read-only validator's verdict on the query (an error for a
/// statement that is not read-only, not single, or calls a forbidden
/// function). A `SELECT` is wrapped with the page clause of `cursor` and
/// `page_size`; other read statements run as they are, on one page.
pub fn plan_read_query(
    query: &str,
    database: &Option<String>,
    cursor: Option<Cursor>,
    page_size: u16,
    checked: Result<StatementKind, AppError>,
) -> (r: Result<ReadQueryPlan, AppError>)
    ensures
        checked matches Err(e0) ==> (r matches Err(e) && e == e0),
        checked is Ok ==> match requested_database(*database) {
            Some(t) if !is_valid_identifier(t) => r matches Err(e) && is_invalid_identifier_error(e, t),
            _ => r matches Ok(p) && (match requested_database(*database) {
                Some(t) => p.database matches Some(d) && d@ == t,
                None => p.database is None,
            }) && (match checked {
                Ok(StatementKind::Select) => p.pager matches Some(pg) && (pg.start() == cursor_start(
                    cursor,
                ) && pg.page_size() == page_size && p.sql@ == paged_select(query@, pg)),
                _ => p.pager is None && p.sql@ == query@,
            }),
        },
{
    let kind = match checked {
        Ok(k) => k,
        Err(e) => return Err(e),
    };
    let database = match resolve_database(database) {
        Ok(d) => d,
        Err(e) => return Err(e),
    };
    match kind {
        StatementKind::Select => {
            let pager = Pager::new(cursor, page_size);
            let mut sql = String::from_str("SELECT * FROM (");
            sql.append(query);
            sql.append(") AS paged_query");
            push_limit_offset(&mut sql, &pager);
            Ok(ReadQueryPlan { sql, database, pager: Some(pager) })
        },
        StatementKind::NonSelect => Ok(ReadQueryPlan { sql: query.to_owned(), database, pager: None }),
    }
}

/// Plans `writeQuery`: the query runs as given, against the requested
/// database (no statement check: the tool is only offered in read-write mode).
pub fn plan_write_query(query: &str, database: &Option<String>) -> (r: Result<StatementPlan, AppError>)
    ensures
        match requested_database(*database) {
            Some(t) if !is_valid_identifier(t) => r matches Err(e) && is_invalid_identifier_error(e, t),
            Some(t) => r matches Ok(p) && p.sql@ == query@ && (p.database matches Some(d) && d@ == t),
            None => r matches Ok(p) && p.sql@ == query@ && p.database is None,
        },
{
    let database = match resolve_database(database) {
        Ok(d) => d,
        Err(e) => return Err(e),
    };
    Ok(StatementPlan { sql: query.to_owned(), database })
}

/// Plans `explainQuery` with the backend's `EXPLAIN` prefixes.
///
/// With `analyze` in read-only mode the statement is executed, so the
/// validator's verdict `checked` must accept it; otherwise it is not consulted.
pub fn plan_explain(
    query: &str,
    database: &Option<String>,
    analyze: bool,
    read_only: bool,
    checked: Result<StatementKind, AppError>,
    analyze_prefix: &str,
    plain_prefix: &str,
) -> (r: Result<StatementPlan, AppError>)
    ensures
        analyze && read_only && checked is Err ==> (checked matches Err(e0) && r matches Err(e)
            && e == e0),
        !(analyze && read_only && checked is Err) ==> match requested_database(*database) {
            Some(t) if !is_valid_identifier(t) => r matches Err(e) && is_invalid_identifier_error(e, t),
            _ => r matches Ok(p) && p.sql@ == (if analyze {
                analyze_prefix@
            } else {
                plain_prefix@
            }) + query@ && (match requested_database(*database) {
                Some(t) => p.database matches Some(d) && d@ == t,
                None => p.database is None,
            }),
        },
{
    if analyze && read_only {
        if let Err(e) = checked {
            return Err(e);
        }
    }
    let database = match resolve_database(database) {
        Ok(d) => d,
        Err(e) => return Err(e),
    };
    let mut sql = if analyze {
        analyze_prefix.to_owned()
    } else {
        plain_prefix.to_owned()
    };
    sql.append(query);
    Ok(StatementPlan { sql, database })
}

/// `"<head>'<name>'<tail>"`.
pub open spec fn framed(head: Seq<char>, name: Seq<char>, tail: Seq<char>) -> Seq<char> {
    head + "'"@ + name + "'"@ + tail
}

/// Builds `"<head>'<name>'<tail>"`.
pub fn frame(head: &str, name: &str, tail: &str) -> (s: String)
    ensures
        s@ == framed(head@, name@, tail@),
{
    let mut s = head.to_owned();
    s.append("'");
    s.append(name);
    s.append("'");
    s.append(tail);
    s
}

/// Message of a created database.
pub open spec fn database_created_message(name: Seq<char>) -> Seq<char> {
    framed("Database "@, name, " created successfully."@)
}

/// Message of a database that already exists.
pub open spec fn database_exists_message(name: Seq<char>) -> Seq<char> {
    framed("Database "@, name, " already exists."@)
}

/// Message of a dropped database.
pub open spec fn database_dropped_message(name: Seq<char>) -> Seq<char> {
    framed("Database "@, name, " dropped successfully."@)
}

/// Message of a dropped table.
pub open spec fn table_dropped_message(name: Seq<char>) -> Seq<char> {
    framed("Table "@, name, " dropped successfully."@)
}

/// Message of the refusal to drop the database the server is connected to.
pub open spec fn cannot_drop_connected_message(name: Seq<char>) -> Seq<char> {
    framed("Cannot drop the currently connected database "@, name, "."@)
}

/// Builds the response of a created database.
pub fn database_created(name: &str) -> (m: String)
    ensures
        m@ == database_created_message(name@),
{
    frame("Database ", name, " created successfully.")
}

/// Builds the response of a database that already exists.
pub fn database_exists(name: &str) -> (m: String)
    ensures
        m@ == database_exists_message(name@),
{
    frame("Database ", name, " already exists.")
}

/// Builds the response of a dropped database.
pub fn database_dropped(name: &str) -> (m: String)
    ensures
        m@ == database_dropped_message(name@),
{
    frame("Database ", name, " dropped successfully.")
}

/// Builds the response of a dropped table.
pub fn table_dropped(name: &str) -> (m: String)
    ensures
        m@ == table_dropped_message(name@),
{
    frame("Table ", name, " dropped successfully.")
}

/// A `DROP DATABASE` to execute and the confirmation to answer once it ran.
pub struct DropDatabasePlan {
    /// The `DROP DATABASE` statement.
    pub sql: String,
    /// The dropped database (whose cached pool is then evicted).
    pub name: String,
    /// The confirmation message.
    pub message: String,
}

/// A `DROP TABLE` to execute, its database, and the confirmation to answer.
pub struct DropTablePlan {
    /// The `DROP TABLE` statement.
    pub sql: String,
    /// Database to run against (`None` = the connection's default).
    pub database: Option<String>,
    /// The confirmation message.
    pub message: String,
}

} // verus!
