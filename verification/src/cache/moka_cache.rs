//! Decisions of the in-process cache: its expiry policy, the lifetime of a
//! written entry, and the arithmetic of counters kept as JSON integers.

use vstd::prelude::*;

use crate::config::setting_repository::LocalCacheSetting;

verus! {

/// `serde_json::Error`, carried opaque inside `MokaCacheError::Serde`.
#[verifier::external_type_specification]
#[verifier::external_body]
pub struct ExSerdeJsonError(serde_json::Error);

/// Errors of the in-process cache.
#[derive(Debug)]
pub enum MokaCacheError {
    /// A value could not be (de)serialized.
    Serde(serde_json::Error),
    /// The stored value has the wrong type or is not a counter.
    InvalidType,
    /// The counter would leave the range of a 64-bit signed integer.
    Overflow,
}

/// A time span: whole seconds and the nanoseconds beyond them.
#[derive(Debug, Clone, Copy, PartialEq, Eq)]
pub struct TtlSpan {
    pub secs: u64,
    pub subsec_nanos: u32,
}

/// How the cache is built. Each entry carries its own lifetime (see
/// `entry_lifetime`); there is no cache-wide one, so a value written
/// without a lifetime stays until it is removed or evicted.
#[derive(Debug, Clone, Copy)]
pub struct MokaCachePolicy {
    pub max_capacity: u64,
    pub initial_capacity: u64,
    /// The configured lifetime; `None`: no limit.
    pub default_ttl: Option<TtlSpan>,
    /// Idle time after which entries go; `None`: they do not.
    pub time_to_idle: Option<TtlSpan>,
}

/// `Some(secs)` as a span when `secs > 0`, else `None`.
pub open spec fn positive_secs(secs: u64) -> Option<TtlSpan> {
    if secs > 0 {
        Some(TtlSpan { secs, subsec_nanos: 0 })
    } else {
        None
    }
}

/// The policy that a local cache setting asks for: 0 seconds means "no
/// limit" for both the lifetime and the idle time.
pub fn cache_policy(cfg: &LocalCacheSetting) -> (p: MokaCachePolicy)
    ensures
        p.max_capacity == cfg.max_capacity,
        p.initial_capacity == cfg.initial_capacity,
        p.default_ttl == positive_secs(cfg.time_to_live_secs),
        p.time_to_idle == positive_secs(cfg.time_to_idle_secs),
{
    let default_ttl = if cfg.time_to_live_secs > 0 {
        Some(TtlSpan { secs: cfg.time_to_live_secs, subsec_nanos: 0 })
    } else {
        None
    };
    let time_to_idle = if cfg.time_to_idle_secs > 0 {
        Some(TtlSpan { secs: cfg.time_to_idle_secs, subsec_nanos: 0 })
    } else {
        None
    };
    MokaCachePolicy {
        max_capacity: cfg.max_capacity,
        initial_capacity: cfg.initial_capacity,
        default_ttl,
        time_to_idle,
    }
}

/// What a write into the local cache stores.
#[derive(Debug, Clone, Copy, PartialEq, Eq)]
pub enum LocalWrite {
    /// A value stored by `set` (and so by `get_or_set` and `set_many`), with
    /// the lifetime the caller gave; `None`: it never expires.
    Value(Option<TtlSpan>),
    /// A value stored by `set_if_not_exists`, with the lifetime the caller
    /// gave; `None`: the configured lifetime.
    ValueIfAbsent(Option<TtlSpan>),
    /// A counter written by an increment or a decrement.
    Counter,
}

/// The lifetime of a stored entry.
#[derive(Debug, Clone, Copy, PartialEq, Eq)]
pub struct EntryLifetime {
    /// What `ttl` reports of the entry (counted from the write); `None`:
    /// no expiry.
    pub reported: Option<TtlSpan>,
    /// When the entry goes (counted from the write); `None`: never.
    pub expires: Option<TtlSpan>,
}

/// `a` is no longer than `b`.
pub open spec fn span_le(a: TtlSpan, b: TtlSpan) -> bool {
    a.secs < b.secs || (a.secs == b.secs && a.subsec_nanos <= b.subsec_nanos)
}

/// A lifetime held to a limit: the shorter of the two; a missing lifetime
/// or limit leaves the other.
pub open spec fn capped(t: Option<TtlSpan>, limit: Option<TtlSpan>) -> Option<TtlSpan> {
    match t {
        Some(a) => match limit {
            Some(b) => if span_le(a, b) {
                Some(a)
            } else {
                Some(b)
            },
            None => Some(a),
        },
        None => limit,
    }
}

/// The lifetime of a written entry. The configured lifetime bounds every
/// entry, with one exception: a value that `set` stores without a lifetime
/// never expires. A value stored by `set` with a lifetime reports that
/// lifetime; one stored by `set_if_not_exists` reports its own lifetime or,
/// lacking one, the configured one; a counter reports the configured one.
pub open spec fn entry_lifetime_spec(write: LocalWrite, policy: MokaCachePolicy) -> EntryLifetime {
    match write {
        LocalWrite::Value(None) => EntryLifetime { reported: None, expires: None },
        LocalWrite::Value(Some(t)) => EntryLifetime {
            reported: Some(t),
            expires: capped(Some(t), policy.default_ttl),
        },
        LocalWrite::ValueIfAbsent(ttl) => {
            let r = if ttl is Some {
                ttl
            } else {
                policy.default_ttl
            };
            EntryLifetime { reported: r, expires: capped(r, policy.default_ttl) }
        },
        LocalWrite::Counter => EntryLifetime {
            reported: policy.default_ttl,
            expires: policy.default_ttl,
        },
    }
}

fn cap(t: Option<TtlSpan>, limit: Option<TtlSpan>) -> (r: Option<TtlSpan>)
    ensures
        r == capped(t, limit),
{
    match t {
        Some(a) => match limit {
            Some(b) => if a.secs < b.secs || (a.secs == b.secs && a.subsec_nanos <= b.subsec_nanos) {
                Some(a)
            } else {
                Some(b)
            },
            None => Some(a),
        },
        None => limit,
    }
}

/// The lifetime of the entry that a write stores.
pub fn entry_lifetime(write: LocalWrite, policy: &MokaCachePolicy) -> (r: EntryLifetime)
    ensures
        r == entry_lifetime_spec(write, *policy),
{
    match write {
        LocalWrite::Value(None) => EntryLifetime { reported: None, expires: None },
        LocalWrite::Value(Some(t)) => EntryLifetime {
            reported: Some(t),
            expires: cap(Some(t), policy.default_ttl),
        },
        LocalWrite::ValueIfAbsent(ttl) => {
            let r = match ttl {
                Some(t) => Some(t),
                None => policy.default_ttl,
            };
            EntryLifetime { reported: r, expires: cap(r, policy.default_ttl) }
        },
        LocalWrite::Counter => EntryLifetime {
            reported: policy.default_ttl,
            expires: policy.default_ttl,
        },
    }
}

/// A value that `set` stores without a lifetime never expires and reports
/// no expiry, whatever lifetime the cache was configured with.
pub proof fn lemma_set_without_lifetime_never_expires(policy: MokaCachePolicy)
    ensures
        entry_lifetime_spec(LocalWrite::Value(None), policy) == (EntryLifetime {
            reported: None,
            expires: None,
        }),
{
}

/// A write that carries its own lifetime `t` (through `set` or
/// `set_if_not_exists`) reports `t` and goes no later than `t`, whatever
/// the configured lifetime; without a configured lifetime it goes exactly
/// at `t`. A `set_if_not_exists` without a lifetime reports and goes at
/// the configured lifetime; a counter likewise.
pub proof fn lemma_own_lifetime_kept(t: TtlSpan, policy: MokaCachePolicy)
    ensures
        entry_lifetime_spec(LocalWrite::Value(Some(t)), policy).reported == Some(t),
        entry_lifetime_spec(LocalWrite::ValueIfAbsent(Some(t)), policy).reported == Some(t),
        entry_lifetime_spec(LocalWrite::Value(Some(t)), policy).expires matches Some(e) && span_le(
            e,
            t,
        ),
        entry_lifetime_spec(LocalWrite::ValueIfAbsent(Some(t)), policy).expires matches Some(e)
            && span_le(e, t),
        policy.default_ttl is None ==> entry_lifetime_spec(LocalWrite::Value(Some(t)), policy).expires
            == Some(t) && entry_lifetime_spec(LocalWrite::ValueIfAbsent(Some(t)), policy).expires
            == Some(t),
        entry_lifetime_spec(LocalWrite::ValueIfAbsent(None), policy) == (EntryLifetime {
            reported: policy.default_ttl,
            expires: policy.default_ttl,
        }),
        entry_lifetime_spec(LocalWrite::Counter, policy) == (EntryLifetime {
            reported: policy.default_ttl,
            expires: policy.default_ttl,
        }),
{
}

/// Every other entry goes no later than the configured lifetime, and no
/// later than its own: the configured lifetime bounds the cache.
pub proof fn lemma_configured_lifetime_bounds(write: LocalWrite, policy: MokaCachePolicy)
    requires
        write != LocalWrite::Value(None),
    ensures
        policy.default_ttl matches Some(d) ==> (entry_lifetime_spec(write, policy).expires matches Some(
            e,
        ) && span_le(e, d)),
        entry_lifetime_spec(write, policy).reported matches Some(r) ==> (entry_lifetime_spec(
            write,
            policy,
        ).expires matches Some(e) && span_le(e, r)),
{
}

// ---------------------------------------------------------------------------
// Counters stored as JSON integers
// ---------------------------------------------------------------------------

/// JSON whitespace: space, line feed, tab, carriage return.
pub open spec fn is_json_ws(b: u8) -> bool {
    b == 0x20 || b == 0x0A || b == 0x09 || b == 0x0D
}

/// The bytes without leading and trailing JSON whitespace.
pub open spec fn trim_json_ws(b: Seq<u8>) -> Seq<u8>
    decreases b.len(),
{
    if b.len() > 0 && is_json_ws(b[0]) {
        trim_json_ws(b.drop_first())
    } else if b.len() > 0 && is_json_ws(b.last()) {
        trim_json_ws(b.drop_last())
    } else {
        b
    }
}

/// An ASCII decimal digit.
pub open spec fn is_digit_byte(b: u8) -> bool {
    0x30 <= b <= 0x39
}

/// The digits of a JSON integer: at least one, and no leading `0` unless
/// the number is `0` itself.
pub open spec fn json_digits(d: Seq<u8>) -> bool {
    &&& d.len() > 0
    &&& forall|i: int| 0 <= i < d.len() ==> is_digit_byte(#[trigger] d[i])
    &&& !(d.len() > 1 && d[0] == 0x30)
}

/// The value of ASCII decimal digits, most significant first.
pub open spec fn digits_bytes_value(d: Seq<u8>) -> nat
    decreases d.len(),
{
    if d.len() == 0 {
        0
    } else {
        digits_bytes_value(d.drop_last()) * 10 + (d.last() - 0x30) as nat
    }
}

/// The `i64` that `serde_json::from_slice::<i64>` reads from these bytes:
/// a JSON integer between optional whitespace, that is an optional `-`
/// and digits without a leading zero, whose value fits in an `i64`. A
/// fraction or an exponent is a float and is not read; neither is `-0`,
/// which serde_json reads as the float `-0.0`.
pub open spec fn json_i64(bytes: Seq<u8>) -> Option<i64> {
    let t = trim_json_ws(bytes);
    if t.len() > 0 && t[0] == 0x2D {
        let d = t.drop_first();
        if json_digits(d) && 1 <= digits_bytes_value(d) <= 0x8000_0000_0000_0000 {
            Some((-digits_bytes_value(d)) as i64)
        } else {
            None
        }
    } else if json_digits(t) && digits_bytes_value(t) <= i64::MAX {
        Some(digits_bytes_value(t) as i64)
    } else {
        None
    }
}

/// Decimal digits of `n` as ASCII bytes: no sign, no leading zeros.
pub open spec fn decimal_bytes(n: nat) -> Seq<u8>
    decreases n,
{
    if n < 10 {
        seq![(0x30 + n) as u8]
    } else {
        decimal_bytes(n / 10).push((0x30 + n % 10) as u8)
    }
}

/// JSON text of an integer: optional `-`, then its decimal digits.
pub open spec fn json_int_text(n: int) -> Seq<u8> {
    if n < 0 {
        seq![0x2Du8] + decimal_bytes((-n) as nat)
    } else {
        decimal_bytes(n as nat)
    }
}

proof fn lemma_decimal_bytes(n: nat)
    ensures
        json_digits(decimal_bytes(n)),
        digits_bytes_value(decimal_bytes(n)) == n,
        is_digit_byte(decimal_bytes(n).last()),
    decreases n,
{
    if n < 10 {
        assert(decimal_bytes(n).drop_last() =~= Seq::<u8>::empty());
        assert(decimal_bytes(n).last() == (0x30 + n) as u8);
        assert(digits_bytes_value(decimal_bytes(n)) == digits_bytes_value(Seq::<u8>::empty()) * 10
            + (decimal_bytes(n).last() - 0x30) as nat);
    } else {
        lemma_decimal_bytes(n / 10);
        let d = decimal_bytes(n);
        let p = decimal_bytes(n / 10);
        assert(d.drop_last() =~= p);
        assert(d.last() == (0x30 + n % 10) as u8);
        assert(digits_bytes_value(d) == digits_bytes_value(p) * 10 + (d.last() - 0x30) as nat);
        assert(digits_bytes_value(d) == (n / 10) * 10 + n % 10);
        assert(d[0] == p[0]);
        assert forall|i: int| 0 <= i < d.len() implies is_digit_byte(#[trigger] d[i]) by {
            if i < d.len() - 1 {
                assert(d[i] == p[i]);
            }
        }
        if p.len() == 1 {
            assert(n / 10 < 10) by {
                if n / 10 >= 10 {
                    assert(decimal_bytes(n / 10 / 10).len() >= 1);
                }
            }
        }
    }
}

/// Text that starts and ends with something other than whitespace is its
/// own trimmed form.
proof fn lemma_trim_untouched(t: Seq<u8>)
    requires
        t.len() > 0,
        !is_json_ws(t[0]),
        !is_json_ws(t.last()),
    ensures
        trim_json_ws(t) == t,
{
}

/// What an increment writes reads back as the same integer: for every
/// `i64` `n`, serde_json reads the JSON text of `n` as `n`.
pub proof fn lemma_json_int_text_reads_back(n: i64)
    ensures
        json_i64(json_int_text(n as int)) == Some(n),
{
    if n < 0 {
        let m = (-(n as int)) as nat;
        lemma_decimal_bytes(m);
        let t = json_int_text(n as int);
        assert(t.drop_first() =~= decimal_bytes(m));
        assert(t.last() == decimal_bytes(m).last());
        lemma_trim_untouched(t);
    } else {
        let m = n as nat;
        lemma_decimal_bytes(m);
        lemma_trim_untouched(decimal_bytes(m));
    }
}

/// `serde_json::to_vec` on an `i64`. The contract claims that it succeeds
/// (the integer is written to a `Vec`, which cannot fail) and that the
/// bytes are the integer's decimal text, with a leading `-` when negative.
#[verifier::external_body]
fn json_encode_i64(n: i64) -> (r: Result<Vec<u8>, serde_json::Error>)
    ensures
        r is Ok,
        r->Ok_0@ == json_int_text(n as int),
{
    serde_json::to_vec(&n)
}

/// `serde_json::from_slice::<i64>`, with a failure read as `None`. The
/// contract claims that it reads exactly what `json_i64` states.
#[verifier::external_body]
fn json_decode_i64(bytes: &[u8]) -> (r: Option<i64>)
    ensures
        r == json_i64(bytes@),
{
    serde_json::from_slice::<i64>(bytes).ok()
}

/// The counter held by a stored value: its integer, or 0 when nothing is
/// stored or the value is not an integer.
pub open spec fn counter_value(stored: Option<Seq<u8>>) -> int {
    match stored {
        Some(b) => match json_i64(b) {
            Some(n) => n as int,
            None => 0,
        },
        None => 0,
    }
}

/// The new value of a counter after adding `delta`, and the bytes to store
/// for it; `Overflow` when the sum leaves the `i64` range.
pub fn next_counter(stored: Option<&[u8]>, delta: i64) -> (r: Result<(i64, Vec<u8>), MokaCacheError>)
    ensures
        ({
            let sum = counter_value(match stored {
                Some(b) => Some(b@),
                None => None,
            }) + delta;
            if i64::MIN <= sum <= i64::MAX {
                r matches Ok((v, bytes)) && v == sum && bytes@ == json_int_text(sum)
                    && json_i64(bytes@) == Some(v)
            } else {
                r matches Err(MokaCacheError::Overflow)
            }
        }),
{
    let current: i64 = match stored {
        Some(b) => match json_decode_i64(b) {
            Some(n) => n,
            None => 0,
        },
        None => 0,
    };
    let new_val = match current.checked_add(delta) {
        Some(v) => v,
        None => {
            return Err(MokaCacheError::Overflow);
        },
    };
    proof {
        lemma_json_int_text_reads_back(new_val);
    }
    match json_encode_i64(new_val) {
        Ok(bytes) => Ok((new_val, bytes)),
        Err(e) => Err(MokaCacheError::Serde(e)),
    }
}

/// Decrementing by `delta` is incrementing by `-delta`.
pub fn next_counter_decrement(stored: Option<&[u8]>, delta: i64) -> (r: Result<
    (i64, Vec<u8>),
    MokaCacheError,
>)
    requires
        delta > i64::MIN,
    ensures
        ({
            let diff = counter_value(match stored {
                Some(b) => Some(b@),
                None => None,
            }) - delta;
            if i64::MIN <= diff <= i64::MAX {
                r matches Ok((v, bytes)) && v == diff && bytes@ == json_int_text(diff)
                    && json_i64(bytes@) == Some(v)
            } else {
                r matches Err(MokaCacheError::Overflow)
            }
        }),
{
    next_counter(stored, -delta)
}

/// A counter reads back as the value it was written with: the bytes that
/// an increment stores for `v` count as `v` for the next increment, so
/// successive increments add up.
pub proof fn lemma_counter_reads_back(v: i64, bytes: Seq<u8>)
    requires
        json_i64(bytes) == Some(v),
    ensures
        counter_value(Some(bytes)) == v,
{
}

} // verus!
