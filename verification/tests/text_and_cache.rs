use temp_rs_ddd::cache::moka_cache::{
    cache_policy, entry_lifetime, next_counter, next_counter_decrement, EntryLifetime, LocalWrite,
    MokaCacheError, TtlSpan,
};
use temp_rs_ddd::cache::redis_cache::{
    eval_sha_args, expiry_seconds, ttl_from_reply, write_expiry, RedisCacheError, WriteExpiry,
};
use temp_rs_ddd::config::setting_repository::LocalCacheSetting;
use temp_rs_ddd::server::{config_layers, Server};
use temp_rs_ddd::text::{
    append_decimal, bool_to_string, find_last, join, parse_u16, to_ascii_uppercase,
    u64_to_string,
};
use temp_rs_ddd::wiring::repositories::Repositories;
use temp_rs_ddd::wiring::{services, use_cases};

// --- text ---

#[test]
fn decimal_rendering_matches_to_string() {
    for n in [0u64, 7, 10, 99, 100, 12345, 1_000_000_007, u64::MAX] {
        assert_eq!(u64_to_string(n), n.to_string());
    }
    let mut s = String::from("port=");
    append_decimal(&mut s, 8080);
    assert_eq!(s, "port=8080");
    assert_eq!(bool_to_string(true), "true");
    assert_eq!(bool_to_string(false), "false");
}

#[test]
fn port_parsing_matches_std() {
    for t in ["0", "80", "+80", "0080", "65535", "65536", "", "+", "-1", "8a", " 80", "99999999999"] {
        assert_eq!(parse_u16(t), t.parse::<u16>().ok(), "input {:?}", t);
    }
}

#[test]
fn written_ports_read_back() {
    for n in [0u16, 1, 9, 10, 443, 5432, 65535] {
        assert_eq!(parse_u16(&u64_to_string(n as u64)), Some(n));
    }
}

#[test]
fn search_join_and_case() {
    assert_eq!(find_last("a:b:c", ':'), Some(3));
    assert_eq!(find_last("abc", ':'), None);
    assert_eq!(find_last("", ':'), None);
    assert_eq!(join(&vec![], ","), "");
    assert_eq!(join(&vec![String::from("a")], ","), "a");
    assert_eq!(join(&vec![String::from("a"), String::from("b"), String::from("c")], ", "), "a, b, c");
    assert_eq!(to_ascii_uppercase("Local_quorum-1é"), "LOCAL_QUORUM-1é");
}

// --- in-process cache ---

#[test]
fn policy_treats_zero_as_unlimited() {
    let cfg = LocalCacheSetting {
        max_capacity: 10_000,
        initial_capacity: 100,
        time_to_live_secs: 0,
        time_to_idle_secs: 30,
    };
    let p = cache_policy(&cfg);
    assert_eq!(p.max_capacity, 10_000);
    assert_eq!(p.initial_capacity, 100);
    assert_eq!(p.default_ttl, None);
    assert_eq!(p.time_to_idle, Some(TtlSpan { secs: 30, subsec_nanos: 0 }));
    let p = cache_policy(&LocalCacheSetting { time_to_live_secs: 60, time_to_idle_secs: 0, ..cfg });
    assert_eq!(p.default_ttl, Some(TtlSpan { secs: 60, subsec_nanos: 0 }));
    assert_eq!(p.time_to_idle, None);
}

#[test]
fn entry_lifetimes() {
    let cfg = LocalCacheSetting {
        max_capacity: 10_000,
        initial_capacity: 100,
        time_to_live_secs: 60,
        time_to_idle_secs: 0,
    };
    let p = cache_policy(&cfg);
    let sixty = Some(TtlSpan { secs: 60, subsec_nanos: 0 });
    let short = Some(TtlSpan { secs: 1, subsec_nanos: 500 });
    let long = Some(TtlSpan { secs: 60, subsec_nanos: 1 });
    // `set` without a lifetime: never expires, despite the 60 s setting.
    assert_eq!(
        entry_lifetime(LocalWrite::Value(None), &p),
        EntryLifetime { reported: None, expires: None }
    );
    // `set` with a lifetime: reported as given, held to the setting.
    assert_eq!(
        entry_lifetime(LocalWrite::Value(short), &p),
        EntryLifetime { reported: short, expires: short }
    );
    assert_eq!(
        entry_lifetime(LocalWrite::Value(long), &p),
        EntryLifetime { reported: long, expires: sixty }
    );
    // `set_if_not_exists` without a lifetime takes the setting.
    assert_eq!(
        entry_lifetime(LocalWrite::ValueIfAbsent(None), &p),
        EntryLifetime { reported: sixty, expires: sixty }
    );
    assert_eq!(
        entry_lifetime(LocalWrite::ValueIfAbsent(long), &p),
        EntryLifetime { reported: long, expires: sixty }
    );
    // Counters take the setting.
    assert_eq!(
        entry_lifetime(LocalWrite::Counter, &p),
        EntryLifetime { reported: sixty, expires: sixty }
    );
    // Without a configured lifetime nothing is held.
    let p = cache_policy(&LocalCacheSetting { time_to_live_secs: 0, ..cfg });
    assert_eq!(
        entry_lifetime(LocalWrite::ValueIfAbsent(None), &p),
        EntryLifetime { reported: None, expires: None }
    );
    assert_eq!(
        entry_lifetime(LocalWrite::Value(long), &p),
        EntryLifetime { reported: long, expires: long }
    );
    assert_eq!(
        entry_lifetime(LocalWrite::Counter, &p),
        EntryLifetime { reported: None, expires: None }
    );
}

#[test]
fn counters_start_at_zero_and_add_up() {
    let (v, bytes) = next_counter(None, 5).unwrap();
    assert_eq!(v, 5);
    assert_eq!(bytes, b"5".to_vec());
    let (v, bytes) = next_counter(Some(&bytes), -8).unwrap();
    assert_eq!(v, -3);
    assert_eq!(bytes, b"-3".to_vec());
    let (v, _) = next_counter(Some(b"\"text\""), 2).unwrap();
    assert_eq!(v, 2);
    let (v, _) = next_counter_decrement(Some(b"10"), 4).unwrap();
    assert_eq!(v, 6);
    assert!(matches!(next_counter(Some(b"9223372036854775807"), 1), Err(MokaCacheError::Overflow)));
    assert!(matches!(
        next_counter_decrement(Some(b"-9223372036854775808"), 1),
        Err(MokaCacheError::Overflow)
    ));
}

#[test]
fn counters_read_json_integers() {
    // Whitespace around the integer is allowed.
    assert_eq!(next_counter(Some(b" \n7\t "), 1).unwrap().0, 8);
    // Leading zeros, fractions, exponents, a plus sign and `-0` are no i64.
    assert_eq!(next_counter(Some(b"007"), 1).unwrap().0, 1);
    assert_eq!(next_counter(Some(b"1.5"), 1).unwrap().0, 1);
    assert_eq!(next_counter(Some(b"1e3"), 1).unwrap().0, 1);
    assert_eq!(next_counter(Some(b"+4"), 1).unwrap().0, 1);
    assert_eq!(next_counter(Some(b"-0"), 1).unwrap().0, 1);
    assert_eq!(next_counter(Some(b"0"), 1).unwrap().0, 1);
    assert_eq!(next_counter(Some(b"3 4"), 1).unwrap().0, 1);
    // Beyond the i64 range nothing is read.
    assert_eq!(next_counter(Some(b"9223372036854775808"), 1).unwrap().0, 1);
    assert_eq!(next_counter(Some(b"-9223372036854775809"), 1).unwrap().0, 1);
    // The extremes are read.
    assert_eq!(next_counter(Some(b"-9223372036854775808"), 0).unwrap().0, i64::MIN);
    assert_eq!(next_counter(Some(b"9223372036854775807"), 0).unwrap().0, i64::MAX);
    // What an increment writes reads back as its value.
    let (v, bytes) = next_counter(None, i64::MIN).unwrap();
    assert_eq!(bytes, b"-9223372036854775808".to_vec());
    assert_eq!(next_counter(Some(&bytes), 0).unwrap().0, v);
}

// --- distributed cache ---

#[test]
fn redis_error_texts() {
    assert_eq!(RedisCacheError::pool("timeout").message(), "pool error: timeout");
    assert_eq!(RedisCacheError::redis("WRONGTYPE").message(), "redis error: WRONGTYPE");
    assert_eq!(RedisCacheError::serde("eof").message(), "serialization error: eof");
}

#[test]
fn lifetimes_are_at_least_one_second() {
    assert_eq!(expiry_seconds(0), 1);
    assert_eq!(expiry_seconds(30), 30);
    assert_eq!(write_expiry(None), WriteExpiry::Persistent);
    assert_eq!(write_expiry(Some(0)), WriteExpiry::Seconds(1));
    assert_eq!(write_expiry(Some(90)), WriteExpiry::Seconds(90));
    assert_eq!(ttl_from_reply(-2), None);
    assert_eq!(ttl_from_reply(-1), None);
    assert_eq!(ttl_from_reply(0), Some(0));
    assert_eq!(ttl_from_reply(42), Some(42));
}

#[test]
fn eval_sha_argument_layout() {
    let keys = vec![String::from("k1"), String::from("k2")];
    let args = vec![String::from("a1")];
    assert_eq!(eval_sha_args("abc123", &keys, &args), vec!["abc123", "2", "k1", "k2", "a1"]);
    assert_eq!(eval_sha_args("abc123", &vec![], &vec![]), vec!["abc123", "0"]);
}

// --- server ---

#[test]
fn config_layers_by_run_mode() {
    let l = config_layers(None);
    assert_eq!(l.run_mode, "production");
    assert_eq!(l.default_base, "config/default");
    assert_eq!(l.mode_base, "config/production");
    assert_eq!(l.local_base, "config/local");
    assert_eq!(l.env_prefix, "APP");
    assert_eq!(l.env_separator, "__");
    let l = config_layers(Some("staging"));
    assert_eq!(l.mode_base, "config/staging");
}

#[test]
fn wiring_never_fails() {
    let repos = Repositories {};
    let services = services::build(&repos).unwrap();
    assert!(use_cases::build(&services).is_ok());
    let _server = Server;
}
