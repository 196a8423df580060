//! Verified core of a database MCP server: identifier checks, SQL quoting,
//! configuration validation, cursor pagination, tool planning and NER label
//! decoding.

pub mod text;
pub mod error;
pub mod identifier;
pub mod pagination;
pub mod config;
pub mod types;
pub mod plan;
pub mod mysql;
pub mod postgres;
pub mod tools;
pub mod ner;
pub mod schema;
pub mod connection;
