//! Choice and settings of the storage backend, retries, and the health answer.

use vstd::prelude::*;
use vstd::string::*;

use crate::text::{eq_ignore_ascii_case, eq_ignore_ascii_case_text, trim_text, trimmed_text};

verus! {

/// Storage backends.
#[derive(Debug, Clone, Copy, PartialEq, Eq, Structural)]
pub enum StoreKind {
    /// MongoDB.
    Mongo,
    /// CouchDB.
    Couch,
}

/// `value`, trimmed, names MongoDB (`mongo` or `mongodb`, in any ASCII case).
pub open spec fn names_mongo(value: Seq<char>) -> bool {
    eq_ignore_ascii_case_text(trimmed_text(value), "mongo"@) || eq_ignore_ascii_case_text(trimmed_text(value), "mongodb"@)
}

/// `value`, trimmed, names CouchDB (`couch` or `couchdb`, in any ASCII case).
pub open spec fn names_couch(value: Seq<char>) -> bool {
    eq_ignore_ascii_case_text(trimmed_text(value), "couch"@) || eq_ignore_ascii_case_text(trimmed_text(value), "couchdb"@)
}

/// Whether a setting selects MongoDB.
pub fn is_mongo(value: &str) -> (b: bool)
    ensures
        b == names_mongo(value@),
{
    let trimmed = trim_text(value);
    eq_ignore_ascii_case(trimmed, "mongo") || eq_ignore_ascii_case(trimmed, "mongodb")
}

/// Whether a setting selects CouchDB.
pub fn is_couch(value: &str) -> (b: bool)
    ensures
        b == names_couch(value@),
{
    let trimmed = trim_text(value);
    eq_ignore_ascii_case(trimmed, "couch") || eq_ignore_ascii_case(trimmed, "couchdb")
}

/// The backend a setting selects (both backends being available), or the message refusing it.
pub fn resolve_store(value: &str) -> (r: Result<StoreKind, String>)
    ensures
        names_mongo(value@) ==> r == Ok::<StoreKind, String>(StoreKind::Mongo),
        !names_mongo(value@) && names_couch(value@) ==> r == Ok::<StoreKind, String>(StoreKind::Couch),
        !names_mongo(value@) && !names_couch(value@) ==> (r matches Err(m)
            && m@ == "Invalid NEON_STORE value `"@ + value@ + "` (expected `mongo` or `couch`)"@),
{
    if is_mongo(value) {
        Ok(StoreKind::Mongo)
    } else if is_couch(value) {
        Ok(StoreKind::Couch)
    } else {
        Err(crate::error::joined3("Invalid NEON_STORE value `", value, "` (expected `mongo` or `couch`)"))
    }
}

/// Without a setting, no backend is chosen when both are available: the message asking for one.
pub fn default_store() -> (r: Result<StoreKind, String>)
    ensures
        r matches Err(m) && m@ == "NEON_STORE must be set to `mongo` or `couch` when both storage backends are compiled"@,
{
    Err(String::from_str("NEON_STORE must be set to `mongo` or `couch` when both storage backends are compiled"))
}

/// Connection settings of CouchDB.
#[derive(Debug, Clone)]
pub struct CouchConfig {
    /// Base address of the server.
    pub base_url: String,
    /// Database name.
    pub database: String,
    /// User name, if any.
    pub username: Option<String>,
    /// Password, if any.
    pub password: Option<String>,
}

impl CouchConfig {
    /// Settings for a database at an address, without credentials.
    pub fn new(base_url: String, database: String) -> (c: Self)
        ensures
            c.base_url == base_url,
            c.database == database,
            c.username is None,
            c.password is None,
    {
        CouchConfig { base_url, database, username: None, password: None }
    }

    /// The same settings with credentials.
    pub fn with_credentials(self, username: String, password: String) -> (c: Self)
        ensures
            c.base_url == self.base_url,
            c.database == self.database,
            c.username == Some(username),
            c.password == Some(password),
    {
        let mut config = self;
        config.username = Some(username);
        config.password = Some(password);
        config
    }
}

/// Delays between attempts to reach the database, in milliseconds.
pub struct RetryPolicy;

/// Longest delay between attempts, in milliseconds.
pub open spec fn max_retry_delay_ms() -> u64 {
    5000
}

/// Delay after `current` milliseconds: twice as long, at most five seconds.
pub open spec fn next_delay_ms(current: u64) -> int {
    if 2 * current < max_retry_delay_ms() {
        2 * current
    } else {
        max_retry_delay_ms() as int
    }
}

impl RetryPolicy {
    /// Attempts made before giving up.
    pub const MAX_ATTEMPTS: u32 = 10;

    /// First delay, in milliseconds.
    pub const INITIAL_DELAY_MS: u64 = 250;

    /// Delay before the second attempt: 250 ms.
    pub fn initial_delay() -> (d: u64)
        ensures
            d == 250,
    {
        Self::INITIAL_DELAY_MS
    }

    /// Delay after `current`: twice as long, at most five seconds.
    pub fn next_delay(current: u64) -> (d: u64)
        requires
            current <= u64::MAX / 2,
        ensures
            d == next_delay_ms(current),
    {
        let doubled = current * 2;
        if doubled < 5000 {
            doubled
        } else {
            5000
        }
    }
}

/// Answer of the health check.
#[derive(Debug)]
pub struct HealthResponse {
    /// `ok` or `degraded`.
    pub status: String,
}

impl HealthResponse {
    /// Everything works.
    pub fn ok() -> (h: Self)
        ensures
            h.status@ == "ok"@,
    {
        HealthResponse { status: String::from_str("ok") }
    }

    /// Running without storage.
    pub fn degraded() -> (h: Self)
        ensures
            h.status@ == "degraded"@,
    {
        HealthResponse { status: String::from_str("degraded") }
    }
}

/// The health answer: degraded without storage, ok otherwise.
pub fn health_status(degraded: bool) -> (h: HealthResponse)
    ensures
        degraded ==> h.status@ == "degraded"@,
        !degraded ==> h.status@ == "ok"@,
{
    if degraded {
        HealthResponse::degraded()
    } else {
        HealthResponse::ok()
    }
}

} // verus!
