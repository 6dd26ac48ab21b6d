use vstd::prelude::*;

use crate::text::{concat, decimal, decimal_of, join_seq, owned};
use crate::types::Timestamp;

verus! {

/// Configuration of the memory plugin.
#[derive(Debug, Clone)]
pub struct MemoryConfig {
    /// Database file path (relative to working dir)
    pub db_path: String,
    /// Maximum entries per namespace
    pub max_entries_per_namespace: usize,
    /// Maximum value size (bytes)
    pub max_value_size: usize,
    /// Default TTL (seconds, 0 = no expiry)
    pub default_ttl_secs: u64,
    /// Enable vector similarity search
    pub enable_vector_search: bool,
    /// Vector dimension (if enabled)
    pub vector_dimension: usize,
}

impl Default for MemoryConfig {
    fn default() -> (r: Self)
        ensures
            r.db_path@ == ".mythos_memory.db"@,
            r.max_entries_per_namespace == 10000,
            r.max_value_size == 1024 * 1024,
            r.default_ttl_secs == 0,
            !r.enable_vector_search,
            r.vector_dimension == 1536,
    {
        MemoryConfig {
            db_path: ".mythos_memory.db".to_string(),
            max_entries_per_namespace: 10000,
            max_value_size: 1024 * 1024,
            default_ttl_secs: 0,
            enable_vector_search: false,
            vector_dimension: 1536,
        }
    }
}

/// Why the memory plugin refused to store an entry.
#[derive(Debug, Clone, PartialEq, Eq)]
pub enum MemoryError {
    /// The entry's key is empty
    EmptyKey,
    /// The entry's value, as JSON text, is larger than the maximum
    ValueTooLarge { size: usize, max: usize },
    /// The namespace already holds the maximum number of entries
    NamespaceFull(String),
}

impl MemoryError {
    /// The message of the error.
    pub fn message(&self) -> (r: String)
        ensures
            self is EmptyKey ==> r@ == "Key cannot be empty"@,
            self matches MemoryError::ValueTooLarge { size, max } ==> r@ == "Value too large: "@
                + decimal(size as nat) + " bytes (max: "@ + decimal(max as nat) + ")"@,
            self matches MemoryError::NamespaceFull(n) ==> r@ == "Namespace '"@ + n@
                + "' has reached max entries"@,
    {
        match self {
            MemoryError::EmptyKey => owned("Key cannot be empty"),
            MemoryError::ValueTooLarge { size, max } => {
                let mut r = owned("Value too large: ");
                let a = decimal_of(*size as u64);
                r.append(a.as_str());
                r.append(" bytes (max: ");
                let b = decimal_of(*max as u64);
                r.append(b.as_str());
                r.append(")");
                r
            },
            MemoryError::NamespaceFull(n) => {
                let mut r = concat("Namespace '", n.as_str());
                r.append("' has reached max entries");
                r
            },
        }
    }
}

/// Check an entry before it is stored: its key must not be empty and its
/// value, as JSON text of `value_len` bytes, no larger than the maximum.
pub fn check_entry(config: &MemoryConfig, key: &str, value_len: usize) -> (r: Result<(), MemoryError>)
    ensures
        key@.len() == 0 ==> r == Err::<(), MemoryError>(MemoryError::EmptyKey),
        key@.len() > 0 && value_len > config.max_value_size ==> r == Err::<(), MemoryError>(
            MemoryError::ValueTooLarge { size: value_len, max: config.max_value_size },
        ),
        key@.len() > 0 && value_len <= config.max_value_size ==> r is Ok,
{
    if key.unicode_len() == 0 {
        return Err(MemoryError::EmptyKey);
    }
    if value_len > config.max_value_size {
        return Err(MemoryError::ValueTooLarge { size: value_len, max: config.max_value_size });
    }
    Ok(())
}

/// A namespace holding `count` entries has room for one more: the count is
/// below the maximum, compared as a 64-bit signed count as the database
/// reports it.
pub open spec fn has_room(max_entries: usize, count: int) -> bool {
    count < max_entries as i64
}

/// Check that a namespace holding `count` entries has room for one more.
pub fn check_namespace_capacity(config: &MemoryConfig, namespace: &str, count: i64) -> (r: Result<
    (),
    MemoryError,
>)
    ensures
        !has_room(config.max_entries_per_namespace, count as int) ==> (r matches Err(
            MemoryError::NamespaceFull(n),
        ) && n@ == namespace@),
        has_room(config.max_entries_per_namespace, count as int) ==> r is Ok,
{
    if count >= config.max_entries_per_namespace as i64 {
        return Err(MemoryError::NamespaceFull(owned(namespace)));
    }
    Ok(())
}

/// `n` copies of the tag condition `tags LIKE ?`.
pub open spec fn tag_condition_list(n: nat) -> Seq<Seq<char>> {
    Seq::new(n, |i: int| "tags LIKE ?"@)
}

/// The number of entries of a namespace after a sequence of store requests
/// that passed the entry check, starting from `count` entries: a request is
/// refused by the capacity check when the namespace has no room, and
/// otherwise stores its entry, which adds one entry unless it replaces one
/// with the same key (`replaces`).
pub open spec fn count_after_stores(max_entries: usize, count: int, replaces: Seq<bool>) -> int
    decreases replaces.len(),
{
    if replaces.len() == 0 {
        count
    } else {
        let before = count_after_stores(max_entries, count, replaces.drop_last());
        if !has_room(max_entries, before) || replaces.last() {
            before
        } else {
            before + 1
        }
    }
}

/// No namespace ever holds more than the maximum number of entries: from a
/// namespace within the limit, any sequence of store requests, each refused
/// by `check_namespace_capacity` when the namespace is full, leaves it within
/// the limit, and never removes an entry.
pub proof fn lemma_namespace_never_overfills(max_entries: usize, count: int, replaces: Seq<bool>)
    requires
        0 <= count <= max_entries,
        max_entries <= i64::MAX,
    ensures
        count <= count_after_stores(max_entries, count, replaces) <= max_entries,
    decreases replaces.len(),
{
    if replaces.len() > 0 {
        lemma_namespace_never_overfills(max_entries, count, replaces.drop_last());
    }
}

/// The condition of a tag search over `n` tags: one `tags LIKE ?` per tag,
/// joined by ` OR `.
pub open spec fn tag_conditions(n: nat) -> Seq<char> {
    join_seq(tag_condition_list(n), " OR "@)
}

/// The condition of a tag search over `n` tags.
pub fn tag_search_conditions(n: usize) -> (r: String)
    ensures
        r@ == tag_conditions(n as nat),
{
    let mut out = String::new();
    let mut i: usize = 0;
    while i < n
        invariant
            i <= n,
            out@ == join_seq(tag_condition_list(i as nat), " OR "@),
        decreases n - i,
    {
        proof {
            assert(tag_condition_list((i + 1) as nat).drop_last() =~= tag_condition_list(
                i as nat,
            ));
        }
        if i > 0 {
            out.append(" OR ");
        } else {
            assert(out@ =~= Seq::<char>::empty());
        }
        out.append("tags LIKE ?");
        i = i + 1;
    }
    out
}

/// The query of a tag search over `n` tags.
pub open spec fn tag_search_sql(n: nat) -> Seq<char> {
    "SELECT key, namespace, value, tags, metadata, vector, created_at, updated_at, expires_at, access_count, last_accessed \n             FROM memory_entries WHERE namespace = ? AND ("@
        + tag_conditions(n) + ") ORDER BY updated_at DESC LIMIT ?"@
}

/// The SQL query of a tag search over `n` tags; its parameters are the
/// namespace, one pattern per tag, and the limit.
pub fn tag_search_query(n: usize) -> (r: String)
    ensures
        r@ == tag_search_sql(n as nat),
{
    let mut q = owned(
        "SELECT key, namespace, value, tags, metadata, vector, created_at, updated_at, expires_at, access_count, last_accessed \n             FROM memory_entries WHERE namespace = ? AND (",
    );
    let c = tag_search_conditions(n);
    q.append(c.as_str());
    q.append(") ORDER BY updated_at DESC LIMIT ?");
    q
}

/// The `LIKE` pattern that finds a tag anywhere in the stored tag list.
pub fn tag_like_pattern(tag: &str) -> (r: String)
    ensures
        r@ == "%"@ + tag@ + "%"@,
{
    let mut r = concat("%", tag);
    r.append("%");
    r
}

/// When an entry expires: at the time it was given, if any; otherwise, with
/// a default time to live of zero, never; otherwise that many seconds after
/// it was created (at the latest representable second when that lies
/// beyond it).
pub open spec fn expiry_of(
    expires_at: Option<Timestamp>,
    created_at: Timestamp,
    default_ttl_secs: u64,
) -> Option<Timestamp> {
    match expires_at {
        Some(t) => Some(t),
        None => if default_ttl_secs == 0 {
            None
        } else {
            let secs = created_at.secs + default_ttl_secs;
            Some(
                Timestamp {
                    secs: if secs > i64::MAX {
                        i64::MAX
                    } else {
                        secs as i64
                    },
                    nanos: created_at.nanos,
                },
            )
        },
    }
}

/// The expiry an entry is stored with, applying the configured default time
/// to live to an entry that has none.
pub fn entry_expiry(config: &MemoryConfig, expires_at: Option<Timestamp>, created_at: Timestamp) -> (r:
    Option<Timestamp>)
    ensures
        r == expiry_of(expires_at, created_at, config.default_ttl_secs),
{
    match expires_at {
        Some(t) => Some(t),
        None => {
            if config.default_ttl_secs == 0 {
                None
            } else {
                let secs: i128 = created_at.secs as i128 + config.default_ttl_secs as i128;
                let s: i64 = if secs > i64::MAX as i128 {
                    i64::MAX
                } else {
                    secs as i64
                };
                Some(Timestamp { secs: s, nanos: created_at.nanos })
            }
        },
    }
}

/// `a` is an earlier point in time than `b`.
pub open spec fn before(a: Timestamp, b: Timestamp) -> bool {
    a.secs < b.secs || (a.secs == b.secs && a.nanos < b.nanos)
}

/// Whether an entry that expires at `expires_at` has expired at `now`: its
/// expiry lies strictly before now.
pub fn is_expired(expires_at: Timestamp, now: Timestamp) -> (r: bool)
    ensures
        r == before(expires_at, now),
{
    expires_at.secs < now.secs || (expires_at.secs == now.secs && expires_at.nanos < now.nanos)
}

} // verus!
