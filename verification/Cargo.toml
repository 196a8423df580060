[package]
name = "dbmcp"
version = "0.1.0"
edition = "2021"
publish = false

[dependencies]
base64 = "*"
serde = { version = "*", features = ["derive"] }
serde_json = "*"
indexmap = { version = "*", features = ["serde"] }
thiserror = "*"
clap = { version = "*", features = ["derive"] }
tracing = "*"
tokio = { version = "*", features = ["rt", "macros", "time"] }
moka = { version = "*", features = ["future"] }
sqlx = { version = "*", default-features = false, features = ["runtime-tokio", "mysql", "postgres", "json"] }
rmcp = { version = "*", features = ["server", "macros"] }
tokenizers = { version = "*", default-features = false, features = ["onig"] }
ort = { version = "2.0.0-rc.9", default-features = false, features = ["std"] }
