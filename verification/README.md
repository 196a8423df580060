# dbmcp

The verified core of an MCP server for SQL databases (MySQL/MariaDB and
PostgreSQL), written in Verus.

## Layout

- `src/` — the library, verified; the calls it makes into std, base64,
  serde_json and indexmap go through a few small wrappers whose contracts
  are trusted:
  - `text` — character classes, trimming, SQL quoting, decimal rendering;
  - `identifier` — validation of database and table names;
  - `error` — the errors of the tools and their messages;
  - `config` — configuration defaults, validation, and the rendering that
    hides the password;
  - `pagination` — pages, opaque cursors and the laws of paging;
  - `types` — request and response shapes, table listings;
  - `plan`, `mysql`, `postgres` — what each tool executes, or the refusal
    it answers, per backend;
  - `schema` — assembly of a table schema from catalog rows;
  - `connection` — connection and pool settings, pool resolution;
  - `tools` — the tools each server offers and the instructions it
    publishes, with the laws of read-only and pinned modes;
  - `ner` — routing of text windows into model batches, packing of the
    batches, and decoding of token-classification output into entity spans.
- `tests/` — scenarios run against the compiled library.
- `app/` — the parts that talk to the outside world: JSON wire formats,
  database pools and queries (sqlx), the ONNX engine (ort, tokenizers).
