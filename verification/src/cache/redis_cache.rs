//! Decisions of the Redis-backed distributed cache: error texts, how a
//! lifetime is sent, how a TTL reply is read, and the arguments of
//! commands whose shape the cache chooses.

use vstd::prelude::*;

use crate::text::{decimal, u64_to_string, views};

verus! {

/// An error of the distributed cache, as text.
#[derive(Debug)]
pub struct RedisCacheError(pub String);

impl RedisCacheError {
    /// A connection could not be taken from the pool.
    pub fn pool(detail: &str) -> (e: Self)
        ensures
            e.0@ == "pool error: "@ + detail@,
    {
        let mut s = String::new();
        s.append("pool error: ");
        s.append(detail);
        RedisCacheError(s)
    }

    /// The server or the connection reported an error.
    pub fn redis(detail: &str) -> (e: Self)
        ensures
            e.0@ == "redis error: "@ + detail@,
    {
        let mut s = String::new();
        s.append("redis error: ");
        s.append(detail);
        RedisCacheError(s)
    }

    /// A value could not be (de)serialized.
    pub fn serde(detail: &str) -> (e: Self)
        ensures
            e.0@ == "serialization error: "@ + detail@,
    {
        let mut s = String::new();
        s.append("serialization error: ");
        s.append(detail);
        RedisCacheError(s)
    }

    /// The error's text.
    pub fn message(&self) -> (m: &str)
        ensures
            m@ == self.0@,
    {
        self.0.as_str()
    }
}

/// How a value is written.
#[derive(Debug, Clone, Copy, PartialEq, Eq)]
pub enum WriteExpiry {
    /// The key keeps no lifetime.
    Persistent,
    /// The key expires after this many seconds (`EX`).
    Seconds(u64),
}

/// The lifetime sent for a requested one: whole seconds, at least one.
pub open spec fn expiry_secs_spec(secs: u64) -> u64 {
    if secs >= 1 {
        secs
    } else {
        1
    }
}

/// Seconds sent for a lifetime of `secs` whole seconds: Redis has no
/// lifetime below one second, so shorter ones become one second.
pub fn expiry_seconds(secs: u64) -> (r: u64)
    ensures
        r == expiry_secs_spec(secs),
        r >= 1,
{
    if secs >= 1 {
        secs
    } else {
        1
    }
}

/// How a value written with an optional lifetime (in whole seconds) is
/// stored.
pub fn write_expiry(ttl_secs: Option<u64>) -> (w: WriteExpiry)
    ensures
        w == (match ttl_secs {
            Some(s) => WriteExpiry::Seconds(expiry_secs_spec(s)),
            None => WriteExpiry::Persistent,
        }),
{
    match ttl_secs {
        Some(s) => WriteExpiry::Seconds(expiry_seconds(s)),
        None => WriteExpiry::Persistent,
    }
}

/// The remaining lifetime that a `TTL` reply denotes: negative replies (no
/// such key, or no lifetime) mean none.
pub fn ttl_from_reply(secs: i64) -> (r: Option<u64>)
    ensures
        secs < 0 ==> r is None,
        secs >= 0 ==> r == Some(secs as u64),
{
    if secs < 0 {
        None
    } else {
        Some(secs as u64)
    }
}

fn append_all(out: &mut Vec<String>, items: &Vec<String>)
    ensures
        views(final(out)@) == views(old(out)@) + views(items@),
{
    let n = items.len();
    let mut i: usize = 0;
    let ghost start = out@;
    while i < n
        invariant
            i <= n,
            n == items@.len(),
            views(out@) =~= views(start) + views(items@).take(i as int),
        decreases n - i,
    {
        let ghost prev = out@;
        out.push(items[i].clone());
        assert(views(out@) =~= views(prev).push(items@[i as int]@));
        i = i + 1;
    }
    assert(views(items@).take(n as int) =~= views(items@));
}

/// Arguments of `EVALSHA`: the digest, the number of keys, the keys, then
/// the script arguments.
pub fn eval_sha_args(sha: &str, keys: &Vec<String>, args: &Vec<String>) -> (r: Vec<String>)
    ensures
        views(r@) == seq![sha@, decimal(keys@.len() as nat)] + views(keys@) + views(args@),
{
    let mut out: Vec<String> = Vec::new();
    out.push(sha.to_owned());
    out.push(u64_to_string(keys.len() as u64));
    assert(views(out@) =~= seq![sha@, decimal(keys@.len() as nat)]);
    append_all(&mut out, keys);
    append_all(&mut out, args);
    out
}

} // verus!
