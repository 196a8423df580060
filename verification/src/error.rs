//! Errors reported by the database tools.

use vstd::prelude::*;
use crate::text::{decimal, push_decimal, push_char};

verus! {

/// Errors that can occur while serving a database tool call.
#[derive(Debug)]
pub enum AppError {
    /// Database connection failed.
    Connection(String),
    /// Query blocked by read-only mode.
    ReadOnlyViolation,
    /// `LOAD_FILE()` blocked for security.
    LoadFileBlocked,
    /// `INTO OUTFILE` / `INTO DUMPFILE` blocked for security.
    IntoOutfileBlocked,
    /// More than one SQL statement in a request.
    MultiStatement,
    /// Invalid database or table name.
    InvalidIdentifier(String),
    /// The pool cache is full and no idle pool can be evicted.
    PoolCacheFull {
        /// Maximum number of cached pools.
        cap: usize,
    },
    /// The query exceeded the configured timeout.
    QueryTimeout {
        /// Elapsed wall-clock time before cancellation, in tenths of a second.
        elapsed_tenths: u64,
        /// The cancelled SQL statement.
        sql: String,
    },
    /// Database query execution failed.
    Query(String),
    /// The table does not exist.
    TableNotFound(String),
    /// JSON serialization failed.
    Serialization(String),
}

/// The user-facing message of an error.
pub open spec fn app_error_message(e: AppError) -> Seq<char> {
    match e {
        AppError::Connection(s) => "Database connection error: "@ + s@,
        AppError::ReadOnlyViolation =>
            "Query blocked: only SELECT, SHOW, DESC, DESCRIBE, USE queries are allowed in read-only mode"@,
        AppError::LoadFileBlocked =>
            "Operation forbidden: LOAD_FILE() is not allowed for security reasons"@,
        AppError::IntoOutfileBlocked =>
            "Operation forbidden: SELECT INTO OUTFILE/DUMPFILE is not allowed for security reasons"@,
        AppError::MultiStatement => "Query blocked: only single statements are allowed"@,
        AppError::InvalidIdentifier(s) => "Invalid identifier '"@ + s@
            + "': must not be empty, whitespace-only, or contain control characters"@,
        AppError::PoolCacheFull { cap } => "pool cache is full ("@ + decimal(cap as nat)
            + " pools, all in use); retry later"@,
        AppError::QueryTimeout { elapsed_tenths, sql } => "Query timed out after "@ + decimal(
            (elapsed_tenths / 10) as nat,
        ) + "."@ + decimal((elapsed_tenths % 10) as nat) + "s: "@ + sql@,
        AppError::Query(s) => "Database error: "@ + s@,
        AppError::TableNotFound(s) => "Table not found: "@ + s@,
        AppError::Serialization(s) => "Serialization error: "@ + s@,
    }
}

impl AppError {
    /// The user-facing message of this error.
    pub fn message(&self) -> (m: String)
        ensures
            m@ == app_error_message(*self),
    {
        match self {
            AppError::Connection(s) => {
                let mut m = String::from_str("Database connection error: ");
                m.append(s.as_str());
                m
            },
            AppError::ReadOnlyViolation => String::from_str(
                "Query blocked: only SELECT, SHOW, DESC, DESCRIBE, USE queries are allowed in read-only mode",
            ),
            AppError::LoadFileBlocked => String::from_str(
                "Operation forbidden: LOAD_FILE() is not allowed for security reasons",
            ),
            AppError::IntoOutfileBlocked => String::from_str(
                "Operation forbidden: SELECT INTO OUTFILE/DUMPFILE is not allowed for security reasons",
            ),
            AppError::MultiStatement => String::from_str(
                "Query blocked: only single statements are allowed",
            ),
            AppError::InvalidIdentifier(s) => {
                let mut m = String::from_str("Invalid identifier '");
                m.append(s.as_str());
                m.append("': must not be empty, whitespace-only, or contain control characters");
                m
            },
            AppError::PoolCacheFull { cap } => {
                let mut m = String::from_str("pool cache is full (");
                push_decimal(&mut m, *cap as u64);
                m.append(" pools, all in use); retry later");
                m
            },
            AppError::QueryTimeout { elapsed_tenths, sql } => {
                let mut m = String::from_str("Query timed out after ");
                push_decimal(&mut m, *elapsed_tenths / 10);
                m.append(".");
                push_decimal(&mut m, *elapsed_tenths % 10);
                m.append("s: ");
                m.append(sql.as_str());
                m
            },
            AppError::Query(s) => {
                let mut m = String::from_str("Database error: ");
                m.append(s.as_str());
                m
            },
            AppError::TableNotFound(s) => {
                let mut m = String::from_str("Table not found: ");
                m.append(s.as_str());
                m
            },
            AppError::Serialization(s) => {
                let mut m = String::from_str("Serialization error: ");
                m.append(s.as_str());
                m
            },
        }
    }
}

} // verus!
