//! Writes to the coordination store (a key/value store with expiry) that the
//! decision logic asks for, and the keys it uses.

use vstd::prelude::*;

use crate::json::Json;

verus! {

/// What a store write puts under its key.
pub enum StoreValue {
    Text(String),
    /// A document the caller serializes as JSON text.
    Doc(Json),
}

/// Set `key` to `value`, expiring after `ttl_secs` seconds.
pub struct StoreWrite {
    pub key: String,
    pub value: StoreValue,
    pub ttl_secs: u64,
}

/// Seconds a replay-guard key lives.
pub const REPLAY_TTL_SECS: u64 = 600;

/// Seconds a cached reference set lives.
pub const CACHE_TTL_SECS: u64 = 180;

pub open spec fn global_review_key_spec() -> Seq<char> {
    "Global_Review"@
}

/// The key of the global personnel review switch; `"1"` turns review on.
pub fn global_review_key() -> (r: String)
    ensures
        r@ == global_review_key_spec(),
{
    String::from_str("Global_Review")
}

/// `a + b + c + d + e` as one string.
pub fn join5(a: &str, b: &str, c: &str, d: &str, e: &str) -> (r: String)
    ensures
        r@ == a@ + b@ + c@ + d@ + e@,
{
    let mut s = String::from_str(a);
    s.append(b);
    s.append(c);
    s.append(d);
    s.append(e);
    s
}

/// The text of an optional string, empty when absent.
pub open spec fn or_empty(o: Option<String>) -> Seq<char> {
    match o {
        Some(s) => s@,
        None => Seq::empty(),
    }
}

pub fn as_str_or_empty(o: &Option<String>) -> (r: &str)
    ensures
        r@ == or_empty(*o),
{
    match o {
        Some(s) => s.as_str(),
        None => {
            let e = "";
            proof {
                reveal_strlit("");
            }
            e
        },
    }
}

} // verus!
