//! Configuration of the server: database connection settings, HTTP
//! transport settings and their validation.
//!
//! Values are fully resolved (CLI flags > environment variables > defaults)
//! before they reach these types.

use vstd::prelude::*;
use crate::text::{decimal, push_decimal, all_white_space, trim_spec, is_white_space, str_trim, quoted, push_quoted};

verus! {

/// Errors that can occur during configuration validation.
#[derive(Debug)]
pub enum ConfigError {
    /// `DB_NAME` is required for SQLite.
    MissingSqliteDbName,
    /// SSL certificate file not found: the setting's name and the path.
    SslCertNotFound(String, String),
    /// HTTP bind host is empty.
    EmptyHttpHost,
    /// `page_size` is outside the accepted range `1..=max`.
    PageSizeOutOfRange {
        /// The offending value.
        value: u16,
        /// The inclusive upper bound.
        max: u16,
    },
}

/// A configuration error with its texts taken by their views.
pub enum ConfigErrorSpec {
    MissingSqliteDbName,
    SslCertNotFound(Seq<char>, Seq<char>),
    EmptyHttpHost,
    PageSizeOutOfRange { value: u16, max: u16 },
}

impl View for ConfigError {
    type V = ConfigErrorSpec;

    open spec fn view(&self) -> ConfigErrorSpec {
        match self {
            ConfigError::MissingSqliteDbName => ConfigErrorSpec::MissingSqliteDbName,
            ConfigError::SslCertNotFound(n, p) => ConfigErrorSpec::SslCertNotFound(n@, p@),
            ConfigError::EmptyHttpHost => ConfigErrorSpec::EmptyHttpHost,
            ConfigError::PageSizeOutOfRange { value, max } => ConfigErrorSpec::PageSizeOutOfRange {
                value: *value,
                max: *max,
            },
        }
    }
}

/// The views of a list of errors.
pub open spec fn error_views(v: Seq<ConfigError>) -> Seq<ConfigErrorSpec> {
    v.map_values(|e: ConfigError| e@)
}

/// The user-facing message of a configuration error.
pub open spec fn config_error_message(e: ConfigErrorSpec) -> Seq<char> {
    match e {
        ConfigErrorSpec::MissingSqliteDbName => "DB_NAME (file path) is required for SQLite"@,
        ConfigErrorSpec::SslCertNotFound(n, p) => n + " file not found: "@ + p,
        ConfigErrorSpec::EmptyHttpHost => "HTTP_HOST must not be empty"@,
        ConfigErrorSpec::PageSizeOutOfRange { value, max } => "DB_PAGE_SIZE must be between 1 and "@
            + decimal(max as nat) + ", got "@ + decimal(value as nat),
    }
}

impl ConfigError {
    /// The user-facing message of this error.
    pub fn message(&self) -> (m: String)
        ensures
            m@ == config_error_message(self@),
    {
        match self {
            ConfigError::MissingSqliteDbName => String::from_str(
                "DB_NAME (file path) is required for SQLite",
            ),
            ConfigError::SslCertNotFound(n, p) => {
                let mut m = n.clone();
                m.append(" file not found: ");
                m.append(p.as_str());
                m
            },
            ConfigError::EmptyHttpHost => String::from_str("HTTP_HOST must not be empty"),
            ConfigError::PageSizeOutOfRange { value, max } => {
                let mut m = String::from_str("DB_PAGE_SIZE must be between 1 and ");
                push_decimal(&mut m, *max as u64);
                m.append(", got ");
                push_decimal(&mut m, *value as u64);
                m
            },
        }
    }
}

/// Supported database backends.
#[derive(Debug, Clone, Copy, PartialEq, Eq, Structural)]
pub enum DatabaseBackend {
    /// MySQL database.
    Mysql,
    /// MariaDB database (uses the MySQL driver).
    Mariadb,
    /// PostgreSQL database.
    Postgres,
    /// SQLite file-based database.
    Sqlite,
}

/// The default port of a backend.
pub open spec fn backend_default_port(b: DatabaseBackend) -> u16 {
    match b {
        DatabaseBackend::Postgres => 5432,
        DatabaseBackend::Mysql | DatabaseBackend::Mariadb => 3306,
        DatabaseBackend::Sqlite => 0,
    }
}

/// The default user name of a backend.
pub open spec fn backend_default_user(b: DatabaseBackend) -> Seq<char> {
    match b {
        DatabaseBackend::Mysql | DatabaseBackend::Mariadb => "root"@,
        DatabaseBackend::Postgres => "postgres"@,
        DatabaseBackend::Sqlite => ""@,
    }
}

/// The lower-case name of a backend, as it is displayed and given on the
/// command line.
pub open spec fn backend_name(b: DatabaseBackend) -> Seq<char> {
    match b {
        DatabaseBackend::Mysql => "mysql"@,
        DatabaseBackend::Mariadb => "mariadb"@,
        DatabaseBackend::Postgres => "postgres"@,
        DatabaseBackend::Sqlite => "sqlite"@,
    }
}

impl DatabaseBackend {
    /// Returns the default port for this backend.
    pub fn default_port(self) -> (p: u16)
        ensures
            p == backend_default_port(self),
    {
        match self {
            DatabaseBackend::Postgres => 5432,
            DatabaseBackend::Mysql | DatabaseBackend::Mariadb => 3306,
            DatabaseBackend::Sqlite => 0,
        }
    }

    /// Returns the default username for this backend.
    pub fn default_user(self) -> (u: &'static str)
        ensures
            u@ == backend_default_user(self),
    {
        match self {
            DatabaseBackend::Mysql | DatabaseBackend::Mariadb => {
                proof {
                    reveal_strlit("root");
                }
                "root"
            },
            DatabaseBackend::Postgres => {
                proof {
                    reveal_strlit("postgres");
                }
                "postgres"
            },
            DatabaseBackend::Sqlite => {
                proof {
                    reveal_strlit("");
                }
                ""
            },
        }
    }

    /// The lower-case name of this backend.
    pub fn as_str(self) -> (s: &'static str)
        ensures
            s@ == backend_name(self),
    {
        match self {
            DatabaseBackend::Mysql => {
                proof {
                    reveal_strlit("mysql");
                }
                "mysql"
            },
            DatabaseBackend::Mariadb => {
                proof {
                    reveal_strlit("mariadb");
                }
                "mariadb"
            },
            DatabaseBackend::Postgres => {
                proof {
                    reveal_strlit("postgres");
                }
                "postgres"
            },
            DatabaseBackend::Sqlite => {
                proof {
                    reveal_strlit("sqlite");
                }
                "sqlite"
            },
        }
    }
}

/// Default database host.
pub const DEFAULT_HOST: &'static str = "localhost";
/// Default connection pool size.
pub const DEFAULT_MAX_POOL_SIZE: u32 = 5;
/// Default idle timeout in seconds (10 minutes).
pub const DEFAULT_IDLE_TIMEOUT_SECS: u64 = 600;
/// Default max lifetime in seconds (30 minutes).
pub const DEFAULT_MAX_LIFETIME_SECS: u64 = 1800;
/// Default minimum connections in pool.
pub const DEFAULT_MIN_CONNECTIONS: u32 = 1;
/// Default query execution timeout in seconds.
pub const DEFAULT_QUERY_TIMEOUT_SECS: u64 = 30;
/// Default page size for paginated tool responses.
pub const DEFAULT_PAGE_SIZE: u16 = 100;
/// Maximum accepted value for `page_size`.
pub const MAX_PAGE_SIZE: u16 = 500;

/// Database connection and behavior settings, fully resolved.
#[derive(Clone)]
pub struct DatabaseConfig {
    /// Database backend type.
    pub backend: DatabaseBackend,
    /// Database host.
    pub host: String,
    /// Database port.
    pub port: u16,
    /// Database user.
    pub user: String,
    /// Database password.
    pub password: Option<String>,
    /// Database name or SQLite file path.
    pub name: Option<String>,
    /// Character set for MySQL/MariaDB connections.
    pub charset: Option<String>,
    /// Enable SSL/TLS for the database connection.
    pub ssl: bool,
    /// Path to the CA certificate for SSL.
    pub ssl_ca: Option<String>,
    /// Path to the client certificate for SSL.
    pub ssl_cert: Option<String>,
    /// Path to the client key for SSL.
    pub ssl_key: Option<String>,
    /// Whether to verify the server certificate.
    pub ssl_verify_cert: bool,
    /// Whether the server runs in read-only mode.
    pub read_only: bool,
    /// Maximum database connection pool size.
    pub max_pool_size: u32,
    /// Connection timeout in seconds (`None` = driver default).
    pub connection_timeout: Option<u64>,
    /// Query execution timeout in seconds (`None` = default, `Some(0)` = none).
    pub query_timeout: Option<u64>,
    /// Maximum items returned in a single paginated tool response (`1..=500`).
    pub page_size: u16,
}

/// Whether the files named by the SSL path settings exist on disk; a flag is
/// read only when its setting holds a path.
#[derive(Debug, Clone, Copy)]
pub struct SslFilesPresent {
    /// The `DB_SSL_CA` file exists.
    pub ca: bool,
    /// The `DB_SSL_CERT` file exists.
    pub cert: bool,
    /// The `DB_SSL_KEY` file exists.
    pub key: bool,
}

/// The error for one SSL path setting: present when a path is set and the
/// file is missing.
pub open spec fn ssl_file_errors(label: Seq<char>, path: Option<String>, exists: bool) -> Seq<
    ConfigErrorSpec,
> {
    match path {
        Some(p) => if exists {
            Seq::empty()
        } else {
            seq![ConfigErrorSpec::SslCertNotFound(label, p@)]
        },
        None => Seq::empty(),
    }
}

/// The name setting is absent or empty.
pub open spec fn name_missing(name: Option<String>) -> bool {
    match name {
        Some(n) => n@.len() == 0,
        None => true,
    }
}

impl DatabaseConfig {
    /// Every error that validation reports, in order: the missing SQLite
    /// file name, the missing SSL files (CA, certificate, key), the page size
    /// out of range.
    pub open spec fn errors(&self, present: SslFilesPresent) -> Seq<ConfigErrorSpec> {
        let sqlite = if self.backend == DatabaseBackend::Sqlite && name_missing(self.name) {
            seq![ConfigErrorSpec::MissingSqliteDbName]
        } else {
            Seq::empty()
        };
        let ssl = if self.ssl {
            ssl_file_errors("DB_SSL_CA"@, self.ssl_ca, present.ca) + ssl_file_errors(
                "DB_SSL_CERT"@,
                self.ssl_cert,
                present.cert,
            ) + ssl_file_errors("DB_SSL_KEY"@, self.ssl_key, present.key)
        } else {
            Seq::empty()
        };
        let page = if 1 <= self.page_size && self.page_size <= MAX_PAGE_SIZE {
            Seq::empty()
        } else {
            seq![ConfigErrorSpec::PageSizeOutOfRange { value: self.page_size, max: MAX_PAGE_SIZE }]
        };
        sqlite + ssl + page
    }

    /// Validates the database configuration and returns all errors found.
    ///
    /// `present` tells which of the configured SSL files exist.
    pub fn validate(&self, present: SslFilesPresent) -> (r: Result<(), Vec<ConfigError>>)
        ensures
            r is Ok <==> self.errors(present).len() == 0,
            r matches Err(v) ==> error_views(v@) == self.errors(present),
    {
        let mut errors: Vec<ConfigError> = Vec::new();
        let ghost sqlite = if self.backend == DatabaseBackend::Sqlite && name_missing(self.name) {
            seq![ConfigErrorSpec::MissingSqliteDbName]
        } else {
            Seq::<ConfigErrorSpec>::empty()
        };
        let name_empty = match &self.name {
            Some(n) => n.as_str().is_empty(),
            None => true,
        };
        if self.backend == DatabaseBackend::Sqlite && name_empty {
            errors.push(ConfigError::MissingSqliteDbName);
        }
        assert(error_views(errors@) =~= sqlite);
        if self.ssl {
            push_ssl_error(&mut errors, "DB_SSL_CA", &self.ssl_ca, present.ca);
            push_ssl_error(&mut errors, "DB_SSL_CERT", &self.ssl_cert, present.cert);
            push_ssl_error(&mut errors, "DB_SSL_KEY", &self.ssl_key, present.key);
        }
        if !(1 <= self.page_size && self.page_size <= MAX_PAGE_SIZE) {
            let ghost before = errors@;
            errors.push(ConfigError::PageSizeOutOfRange { value: self.page_size, max: MAX_PAGE_SIZE });
            assert(error_views(errors@) =~= error_views(before).push(errors@.last()@));
        }
        assert(error_views(errors@) =~= self.errors(present));
        if errors.len() == 0 {
            Ok(())
        } else {
            Err(errors)
        }
    }
}

/// `errors` reports the SSL setting `label` as missing at `path`.
pub open spec fn reports_missing(errors: Seq<ConfigErrorSpec>, label: Seq<char>, path: Seq<char>) -> bool {
    exists|i: int| 0 <= i < errors.len() && #[trigger] errors[i] == ConfigErrorSpec::SslCertNotFound(label, path)
}

/// The errors of one SSL setting report `label2` at `path` exactly when they
/// are that setting's error for a missing file at `path`.
proof fn lemma_ssl_file_errors_report(label: Seq<char>, p: Option<String>, exists: bool, label2: Seq<char>, path: Seq<char>)
    ensures
        reports_missing(ssl_file_errors(label, p, exists), label2, path) <==> (label2 == label && p is Some
            && p->0@ == path && !exists),
{
    let e = ssl_file_errors(label, p, exists);
    if label2 == label && p is Some && p->0@ == path && !exists {
        assert(e[0] == ConfigErrorSpec::SslCertNotFound(label2, path));
    }
    if reports_missing(e, label2, path) {
        let i = choose|i: int| 0 <= i < e.len() && #[trigger] e[i] == ConfigErrorSpec::SslCertNotFound(label2, path);
        assert(e[i] == e[0]);
    }
}

/// With SSL on, validation reports each SSL file setting that holds a path
/// exactly when that file (and not another one) is missing; with SSL off, or
/// without a path, it reports none of them.
pub proof fn lemma_ssl_files_reported_when_missing(c: DatabaseConfig, present: SslFilesPresent, path: Seq<char>)
    ensures
        reports_missing(c.errors(present), "DB_SSL_CA"@, path) <==> (c.ssl && c.ssl_ca is Some
            && c.ssl_ca->0@ == path && !present.ca),
        reports_missing(c.errors(present), "DB_SSL_CERT"@, path) <==> (c.ssl && c.ssl_cert is Some
            && c.ssl_cert->0@ == path && !present.cert),
        reports_missing(c.errors(present), "DB_SSL_KEY"@, path) <==> (c.ssl && c.ssl_key is Some
            && c.ssl_key->0@ == path && !present.key),
{
    reveal_strlit("DB_SSL_CA");
    reveal_strlit("DB_SSL_CERT");
    reveal_strlit("DB_SSL_KEY");
    let sqlite = if c.backend == DatabaseBackend::Sqlite && name_missing(c.name) {
        seq![ConfigErrorSpec::MissingSqliteDbName]
    } else {
        Seq::empty()
    };
    let ca = ssl_file_errors("DB_SSL_CA"@, c.ssl_ca, present.ca);
    let cert = ssl_file_errors("DB_SSL_CERT"@, c.ssl_cert, present.cert);
    let key = ssl_file_errors("DB_SSL_KEY"@, c.ssl_key, present.key);
    let ssl = if c.ssl {
        ca + cert + key
    } else {
        Seq::empty()
    };
    let page = if 1 <= c.page_size && c.page_size <= MAX_PAGE_SIZE {
        Seq::empty()
    } else {
        seq![ConfigErrorSpec::PageSizeOutOfRange { value: c.page_size, max: MAX_PAGE_SIZE }]
    };
    let e = c.errors(present);
    assert(e == sqlite + ssl + page);
    let labels = seq!["DB_SSL_CA"@, "DB_SSL_CERT"@, "DB_SSL_KEY"@];
    assert forall|label: Seq<char>| #[trigger] labels.contains(label) implies (reports_missing(e, label, path)
        <==> reports_missing(ssl, label, path)) by {
        if reports_missing(e, label, path) {
            let i = choose|i: int| 0 <= i < e.len() && #[trigger] e[i] == ConfigErrorSpec::SslCertNotFound(label, path);
            assert(i >= sqlite.len());
            assert(i < sqlite.len() + ssl.len());
            assert(ssl[i - sqlite.len()] == e[i]);
        }
        if reports_missing(ssl, label, path) {
            let i = choose|i: int| 0 <= i < ssl.len() && #[trigger] ssl[i] == ConfigErrorSpec::SslCertNotFound(label, path);
            assert(e[i + sqlite.len()] == ssl[i]);
        }
    }
    assert(labels.contains("DB_SSL_CA"@)) by { assert(labels[0] == "DB_SSL_CA"@); }
    assert(labels.contains("DB_SSL_CERT"@)) by { assert(labels[1] == "DB_SSL_CERT"@); }
    assert(labels.contains("DB_SSL_KEY"@)) by { assert(labels[2] == "DB_SSL_KEY"@); }
    assert("DB_SSL_CA"@.len() == 9);
    assert("DB_SSL_CERT"@.len() == 11);
    assert("DB_SSL_KEY"@.len() == 10);
    lemma_ssl_file_errors_report("DB_SSL_CA"@, c.ssl_ca, present.ca, "DB_SSL_CA"@, path);
    lemma_ssl_file_errors_report("DB_SSL_CA"@, c.ssl_ca, present.ca, "DB_SSL_CERT"@, path);
    lemma_ssl_file_errors_report("DB_SSL_CA"@, c.ssl_ca, present.ca, "DB_SSL_KEY"@, path);
    lemma_ssl_file_errors_report("DB_SSL_CERT"@, c.ssl_cert, present.cert, "DB_SSL_CA"@, path);
    lemma_ssl_file_errors_report("DB_SSL_CERT"@, c.ssl_cert, present.cert, "DB_SSL_CERT"@, path);
    lemma_ssl_file_errors_report("DB_SSL_CERT"@, c.ssl_cert, present.cert, "DB_SSL_KEY"@, path);
    lemma_ssl_file_errors_report("DB_SSL_KEY"@, c.ssl_key, present.key, "DB_SSL_CA"@, path);
    lemma_ssl_file_errors_report("DB_SSL_KEY"@, c.ssl_key, present.key, "DB_SSL_CERT"@, path);
    lemma_ssl_file_errors_report("DB_SSL_KEY"@, c.ssl_key, present.key, "DB_SSL_KEY"@, path);
    if c.ssl {
        assert forall|label: Seq<char>| #[trigger] labels.contains(label) implies (reports_missing(ssl, label, path)
            <==> (reports_missing(ca, label, path) || reports_missing(cert, label, path)
            || reports_missing(key, label, path))) by {
            if reports_missing(ssl, label, path) {
                let i = choose|i: int| 0 <= i < ssl.len() && #[trigger] ssl[i] == ConfigErrorSpec::SslCertNotFound(label, path);
                if i < ca.len() {
                    assert(ca[i] == ssl[i]);
                } else if i < ca.len() + cert.len() {
                    assert(cert[i - ca.len()] == ssl[i]);
                } else {
                    assert(key[i - ca.len() - cert.len()] == ssl[i]);
                }
            }
            if reports_missing(ca, label, path) {
                let i = choose|i: int| 0 <= i < ca.len() && #[trigger] ca[i] == ConfigErrorSpec::SslCertNotFound(label, path);
                assert(ssl[i] == ca[i]);
            }
            if reports_missing(cert, label, path) {
                let i = choose|i: int| 0 <= i < cert.len() && #[trigger] cert[i] == ConfigErrorSpec::SslCertNotFound(label, path);
                assert(ssl[i + ca.len()] == cert[i]);
            }
            if reports_missing(key, label, path) {
                let i = choose|i: int| 0 <= i < key.len() && #[trigger] key[i] == ConfigErrorSpec::SslCertNotFound(label, path);
                assert(ssl[i + ca.len() + cert.len()] == key[i]);
            }
        }
    }
}

/// Validation reports a missing SQLite file name exactly for a SQLite
/// configuration whose name is absent or empty, and a page size out of range
/// (with the value and the bound) exactly when the page size is not in
/// `1..=MAX_PAGE_SIZE`.
pub proof fn lemma_name_and_page_size_reported(c: DatabaseConfig, present: SslFilesPresent)
    ensures
        (exists|i: int| 0 <= i < c.errors(present).len() && (#[trigger] c.errors(present)[i]) is MissingSqliteDbName)
            <==> (c.backend == DatabaseBackend::Sqlite && (c.name is None || c.name->0@.len() == 0)),
        (exists|i: int| 0 <= i < c.errors(present).len() && (#[trigger] c.errors(present)[i]) is PageSizeOutOfRange)
            <==> (c.page_size < 1 || c.page_size > MAX_PAGE_SIZE),
        forall|i: int|
            0 <= i < c.errors(present).len() && (#[trigger] c.errors(present)[i]) is PageSizeOutOfRange
                ==> c.errors(present)[i] == (ConfigErrorSpec::PageSizeOutOfRange {
                value: c.page_size,
                max: MAX_PAGE_SIZE,
            }),
{
    let sqlite = if c.backend == DatabaseBackend::Sqlite && name_missing(c.name) {
        seq![ConfigErrorSpec::MissingSqliteDbName]
    } else {
        Seq::empty()
    };
    let ca = ssl_file_errors("DB_SSL_CA"@, c.ssl_ca, present.ca);
    let cert = ssl_file_errors("DB_SSL_CERT"@, c.ssl_cert, present.cert);
    let key = ssl_file_errors("DB_SSL_KEY"@, c.ssl_key, present.key);
    let ssl = if c.ssl {
        ca + cert + key
    } else {
        Seq::empty()
    };
    let page = if 1 <= c.page_size && c.page_size <= MAX_PAGE_SIZE {
        Seq::empty()
    } else {
        seq![ConfigErrorSpec::PageSizeOutOfRange { value: c.page_size, max: MAX_PAGE_SIZE }]
    };
    let e = c.errors(present);
    assert(e == sqlite + ssl + page);
    assert forall|i: int| 0 <= i < ssl.len() implies !((#[trigger] ssl[i]) is MissingSqliteDbName)
        && !(ssl[i] is PageSizeOutOfRange) by {
        if c.ssl {
            if i < ca.len() {
                assert(ssl[i] == ca[i]);
            } else if i < ca.len() + cert.len() {
                assert(ssl[i] == cert[i - ca.len()]);
            } else {
                assert(ssl[i] == key[i - ca.len() - cert.len()]);
            }
        }
    }
    assert forall|i: int| 0 <= i < e.len() implies ((#[trigger] e[i]) is MissingSqliteDbName <==> (i
        < sqlite.len())) && (e[i] is PageSizeOutOfRange <==> i >= sqlite.len() + ssl.len()) && (e[i] is PageSizeOutOfRange
        ==> e[i] == (ConfigErrorSpec::PageSizeOutOfRange { value: c.page_size, max: MAX_PAGE_SIZE })) by {
        if i >= sqlite.len() && i < sqlite.len() + ssl.len() {
            assert(e[i] == ssl[i - sqlite.len()]);
        }
    }
    if sqlite.len() > 0 {
        assert(e[0] is MissingSqliteDbName);
    }
    if page.len() > 0 {
        assert(e[(sqlite.len() + ssl.len()) as int] is PageSizeOutOfRange);
    }
}

/// Appends the error of one SSL path setting to `errors`.
fn push_ssl_error(errors: &mut Vec<ConfigError>, label: &str, path: &Option<String>, exists: bool)
    ensures
        error_views(final(errors)@) == error_views(old(errors)@) + ssl_file_errors(
            label@,
            *path,
            exists,
        ),
{
    let ghost before = errors@;
    match path {
        Some(p) => {
            if !exists {
                errors.push(ConfigError::SslCertNotFound(label.to_owned(), p.clone()));
            }
        },
        None => {},
    }
    assert(error_views(errors@) =~= error_views(before) + ssl_file_errors(label@, *path, exists));
}

/// The name of a backend as the redacted rendering shows it.
pub open spec fn backend_label(b: DatabaseBackend) -> Seq<char> {
    match b {
        DatabaseBackend::Mysql => "Mysql"@,
        DatabaseBackend::Mariadb => "Mariadb"@,
        DatabaseBackend::Postgres => "Postgres"@,
        DatabaseBackend::Sqlite => "Sqlite"@,
    }
}

/// An optional text setting as shown: `None`, or `Some("<text>")`.
pub open spec fn shown_opt_text(v: Option<String>) -> Seq<char> {
    match v {
        Some(s) => "Some("@ + quoted(s@, '"') + ")"@,
        None => "None"@,
    }
}

/// A flag as shown.
pub open spec fn shown_flag(b: bool) -> Seq<char> {
    if b {
        "true"@
    } else {
        "false"@
    }
}

/// An optional number as shown: `None`, or `Some(<n>)`.
pub open spec fn shown_opt_number(v: Option<u64>) -> Seq<char> {
    match v {
        Some(n) => "Some("@ + decimal(n as nat) + ")"@,
        None => "None"@,
    }
}

/// The rendering of a database configuration for logs and diagnostics:
/// every setting but the password, which is shown as `"[REDACTED]"`.
pub open spec fn redacted_rendering(c: DatabaseConfig) -> Seq<char> {
    "DatabaseConfig { backend: "@ + backend_label(c.backend) + ", host: "@ + quoted(c.host@, '"')
        + ", port: "@ + decimal(c.port as nat) + ", user: "@ + quoted(c.user@, '"')
        + ", password: \"[REDACTED]\", name: "@ + shown_opt_text(c.name) + ", charset: "@
        + shown_opt_text(c.charset) + ", ssl: "@ + shown_flag(c.ssl) + ", ssl_ca: "@
        + shown_opt_text(c.ssl_ca) + ", ssl_cert: "@ + shown_opt_text(c.ssl_cert) + ", ssl_key: "@
        + shown_opt_text(c.ssl_key) + ", ssl_verify_cert: "@ + shown_flag(c.ssl_verify_cert)
        + ", read_only: "@ + shown_flag(c.read_only) + ", max_pool_size: "@ + decimal(
        c.max_pool_size as nat,
    ) + ", connection_timeout: "@ + shown_opt_number(c.connection_timeout) + ", query_timeout: "@
        + shown_opt_number(c.query_timeout) + ", page_size: "@ + decimal(c.page_size as nat) + " }"@
}

/// The redacted rendering does not depend on the password: two
/// configurations that differ in their password alone render alike.
pub proof fn lemma_redaction_hides_password(c: DatabaseConfig, password: Option<String>)
    ensures
        redacted_rendering(c) == redacted_rendering((DatabaseConfig { password, ..c })),
{
}

/// Appends an optional text setting as shown.
fn push_opt_text(out: &mut String, v: &Option<String>)
    ensures
        final(out)@ == old(out)@ + shown_opt_text(*v),
{
    match v {
        Some(s) => {
            out.append("Some(");
            push_quoted(out, s.as_str(), '"');
            out.append(")");
        },
        None => out.append("None"),
    }
}

/// Appends a flag as shown.
fn push_flag(out: &mut String, b: bool)
    ensures
        final(out)@ == old(out)@ + shown_flag(b),
{
    if b {
        out.append("true");
    } else {
        out.append("false");
    }
}

/// Appends an optional number as shown.
fn push_opt_number(out: &mut String, v: Option<u64>)
    ensures
        final(out)@ == old(out)@ + shown_opt_number(v),
{
    match v {
        Some(n) => {
            out.append("Some(");
            push_decimal(out, n);
            out.append(")");
        },
        None => out.append("None"),
    }
}

impl DatabaseBackend {
    /// The name of the backend as the redacted rendering shows it.
    pub fn label(self) -> (l: &'static str)
        ensures
            l@ == backend_label(self),
    {
        match self {
            DatabaseBackend::Mysql => "Mysql",
            DatabaseBackend::Mariadb => "Mariadb",
            DatabaseBackend::Postgres => "Postgres",
            DatabaseBackend::Sqlite => "Sqlite",
        }
    }
}

impl DatabaseConfig {
    /// Renders the configuration for logs and diagnostics with the password
    /// replaced by `"[REDACTED]"`.
    pub fn redacted_text(&self) -> (t: String)
        ensures
            t@ == redacted_rendering(*self),
    {
        let mut out = String::from_str("DatabaseConfig { backend: ");
        out.append(self.backend.label());
        out.append(", host: ");
        push_quoted(&mut out, self.host.as_str(), '"');
        out.append(", port: ");
        push_decimal(&mut out, self.port as u64);
        out.append(", user: ");
        push_quoted(&mut out, self.user.as_str(), '"');
        out.append(", password: \"[REDACTED]\", name: ");
        push_opt_text(&mut out, &self.name);
        out.append(", charset: ");
        push_opt_text(&mut out, &self.charset);
        out.append(", ssl: ");
        push_flag(&mut out, self.ssl);
        out.append(", ssl_ca: ");
        push_opt_text(&mut out, &self.ssl_ca);
        out.append(", ssl_cert: ");
        push_opt_text(&mut out, &self.ssl_cert);
        out.append(", ssl_key: ");
        push_opt_text(&mut out, &self.ssl_key);
        out.append(", ssl_verify_cert: ");
        push_flag(&mut out, self.ssl_verify_cert);
        out.append(", read_only: ");
        push_flag(&mut out, self.read_only);
        out.append(", max_pool_size: ");
        push_decimal(&mut out, self.max_pool_size as u64);
        out.append(", connection_timeout: ");
        push_opt_number(&mut out, self.connection_timeout);
        out.append(", query_timeout: ");
        push_opt_number(&mut out, self.query_timeout);
        out.append(", page_size: ");
        push_decimal(&mut out, self.page_size as u64);
        out.append(" }");
        out
    }
}

impl Default for DatabaseConfig {
    /// A MySQL configuration with every setting at its default.
    fn default() -> (c: Self)
        ensures
            c.backend == DatabaseBackend::Mysql,
            c.host@ == "localhost"@,
            c.port == 3306,
            c.user@ == "root"@,
            c.password is None,
            c.name is None,
            c.charset is None,
            !c.ssl,
            c.ssl_ca is None,
            c.ssl_cert is None,
            c.ssl_key is None,
            c.ssl_verify_cert,
            c.read_only,
            c.max_pool_size == DEFAULT_MAX_POOL_SIZE,
            c.connection_timeout is None,
            c.query_timeout is None,
            c.page_size == DEFAULT_PAGE_SIZE,
    {
        let backend = DatabaseBackend::Mysql;
        DatabaseConfig {
            backend,
            host: DEFAULT_HOST.to_owned(),
            port: backend.default_port(),
            user: backend.default_user().to_owned(),
            password: None,
            name: None,
            charset: None,
            ssl: false,
            ssl_ca: None,
            ssl_cert: None,
            ssl_key: None,
            ssl_verify_cert: true,
            read_only: true,
            max_pool_size: DEFAULT_MAX_POOL_SIZE,
            connection_timeout: None,
            query_timeout: None,
            page_size: DEFAULT_PAGE_SIZE,
        }
    }
}

/// HTTP transport binding and security settings.
#[derive(Clone, Debug)]
pub struct HttpConfig {
    /// Bind host for HTTP transport.
    pub host: String,
    /// Bind port for HTTP transport.
    pub port: u16,
    /// Allowed CORS origins.
    pub allowed_origins: Vec<String>,
    /// Allowed host names.
    pub allowed_hosts: Vec<String>,
}

/// Default HTTP bind host.
pub const DEFAULT_HTTP_HOST: &'static str = "127.0.0.1";
/// Default HTTP bind port.
pub const DEFAULT_HTTP_PORT: u16 = 9001;

/// The views of a list of strings.
pub open spec fn string_views(v: Seq<String>) -> Seq<Seq<char>> {
    v.map_values(|s: String| s@)
}

impl HttpConfig {
    /// Returns the default allowed CORS origins.
    pub fn default_allowed_origins() -> (v: Vec<String>)
        ensures
            string_views(v@) == seq![
                "http://localhost"@,
                "http://127.0.0.1"@,
                "https://localhost"@,
                "https://127.0.0.1"@,
            ],
    {
        let mut v = Vec::new();
        v.push(String::from_str("http://localhost"));
        v.push(String::from_str("http://127.0.0.1"));
        v.push(String::from_str("https://localhost"));
        v.push(String::from_str("https://127.0.0.1"));
        assert(string_views(v@) =~= seq![
            "http://localhost"@,
            "http://127.0.0.1"@,
            "https://localhost"@,
            "https://127.0.0.1"@,
        ]);
        v
    }

    /// Returns the default allowed host names.
    pub fn default_allowed_hosts() -> (v: Vec<String>)
        ensures
            string_views(v@) == seq!["localhost"@, "127.0.0.1"@],
    {
        let mut v = Vec::new();
        v.push(String::from_str("localhost"));
        v.push(String::from_str("127.0.0.1"));
        assert(string_views(v@) =~= seq!["localhost"@, "127.0.0.1"@]);
        v
    }

    /// Validates the HTTP configuration and returns all errors found: the
    /// host is rejected when it is empty or white space only.
    pub fn validate(&self) -> (r: Result<(), Vec<ConfigError>>)
        ensures
            r is Ok <==> !all_white_space(self.host@),
            r matches Err(v) ==> error_views(v@) == seq![ConfigErrorSpec::EmptyHttpHost],
    {
        let trimmed = str_trim(self.host.as_str());
        proof {
            lemma_trim_empty_iff_blank(self.host@);
        }
        if trimmed.is_empty() {
            let mut v = Vec::new();
            v.push(ConfigError::EmptyHttpHost);
            assert(error_views(v@) =~= seq![ConfigErrorSpec::EmptyHttpHost]);
            Err(v)
        } else {
            Ok(())
        }
    }
}

/// Trimming leaves nothing exactly when every character is white space.
pub proof fn lemma_trim_empty_iff_blank(s: Seq<char>)
    ensures
        trim_spec(s).len() == 0 <==> all_white_space(s),
{
    lemma_trim_start_empty_iff_blank(s);
    let t = crate::text::trim_start_spec(s);
    lemma_trim_end_keeps_nonblank(t);
}

/// Removing leading white space leaves nothing exactly when every
/// character is white space; otherwise the result starts with a character
/// that is not white space.
proof fn lemma_trim_start_empty_iff_blank(s: Seq<char>)
    ensures
        crate::text::trim_start_spec(s).len() == 0 <==> all_white_space(s),
        crate::text::trim_start_spec(s).len() > 0 ==> !is_white_space(
            crate::text::trim_start_spec(s)[0],
        ),
    decreases s.len(),
{
    if s.len() > 0 && is_white_space(s[0]) {
        lemma_trim_start_empty_iff_blank(s.drop_first());
        if all_white_space(s.drop_first()) {
            assert forall|i: int| 0 <= i < s.len() implies #[trigger] is_white_space(s[i]) by {
                if i > 0 {
                    assert(s[i] == s.drop_first()[i - 1]);
                }
            }
        } else {
            let j = choose|j: int| 0 <= j < s.drop_first().len() && !is_white_space(s.drop_first()[j]);
            assert(s[j + 1] == s.drop_first()[j]);
        }
    } else if s.len() > 0 {
        assert(!is_white_space(s[0]));
    }
}

/// Removing trailing white space from a sequence that starts with a
/// character that is not white space leaves it non-empty.
proof fn lemma_trim_end_keeps_nonblank(t: Seq<char>)
    requires
        t.len() > 0 ==> !is_white_space(t[0]),
    ensures
        crate::text::trim_end_spec(t).len() == 0 <==> t.len() == 0,
    decreases t.len(),
{
    if t.len() > 0 && is_white_space(t.last()) {
        if t.len() == 1 {
            assert(t.last() == t[0]);
        } else {
            assert(t.drop_last()[0] == t[0]);
            lemma_trim_end_keeps_nonblank(t.drop_last());
        }
    }
}

/// Runtime configuration: database settings plus HTTP settings when the
/// HTTP transport is active.
#[derive(Clone)]
pub struct Config {
    /// Database connection and behavior settings.
    pub database: DatabaseConfig,
    /// HTTP transport settings (present only when HTTP transport is active).
    pub http: Option<HttpConfig>,
}

} // verus!
