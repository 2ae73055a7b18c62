//! librdkafka client configurations for the producer and the consumer.
//!
//! The configurations are built on `rdkafka::ClientConfig`, whose contents
//! (parameter name to value) the contracts below speak of.

use vstd::prelude::*;

use crate::config::setting::TLSSetting;
use crate::config::setting_mq::{KafkaConnectionSetting, KafkaConsumerSetting, KafkaProducerSetting};
use crate::text::{bool_text, bool_to_string, decimal, join, join_spec, str_eq, u64_to_string, views};
use rdkafka::ClientConfig;

verus! {

/// `rdkafka::ClientConfig`, carried as an opaque value; its parameters are
/// read through `client_config_entries`.
#[verifier::external_type_specification]
#[verifier::external_body]
pub struct ExClientConfig(rdkafka::ClientConfig);

/// `anyhow::Error`, the error type of the builders' results, carried opaque.
#[verifier::external_type_specification]
#[verifier::external_body]
pub struct ExAnyhowError(anyhow::Error);

/// The parameters that an `rdkafka::ClientConfig` holds, by name.
pub uninterp spec fn client_config_entries(c: rdkafka::ClientConfig) -> Map<Seq<char>, Seq<char>>;

/// `rdkafka::ClientConfig::new`: the contract claims that the new
/// configuration holds no parameters (its log level is not modelled).
#[verifier::external_body]
fn config_new() -> (r: ClientConfig)
    ensures
        client_config_entries(r) =~= Map::empty(),
{
    ClientConfig::new()
}

/// `rdkafka::ClientConfig::set`: the contract claims that afterwards `key`
/// maps to `value` (an earlier value is replaced) and every other parameter
/// is unchanged.
#[verifier::external_body]
fn config_set(c: &mut ClientConfig, key: &str, value: &str)
    ensures
        client_config_entries(*final(c)) == client_config_entries(*old(c)).insert(key@, value@),
{
    c.set(key, value);
}

/// `rdkafka::ClientConfig::clone`: the contract claims that the copy holds
/// the same parameters.
#[verifier::external_body]
fn config_clone(c: &ClientConfig) -> (r: ClientConfig)
    ensures
        client_config_entries(r) == client_config_entries(*c),
{
    c.clone()
}

// ---------------------------------------------------------------------------
// Specifications
// ---------------------------------------------------------------------------

/// The `security.protocol` for the given authentication and encryption.
pub open spec fn security_protocol(has_sasl: bool, has_tls: bool) -> Seq<char> {
    if !has_sasl && !has_tls {
        "PLAINTEXT"@
    } else if has_sasl && !has_tls {
        "SASL_PLAINTEXT"@
    } else if !has_sasl && has_tls {
        "SSL"@
    } else {
        "SASL_SSL"@
    }
}

/// The protocol names its two parts: `SASL_` exactly when SASL
/// authenticates, then `SSL` exactly when TLS encrypts, else `PLAINTEXT`.
pub proof fn lemma_security_protocol_parts(has_sasl: bool, has_tls: bool)
    ensures
        security_protocol(has_sasl, has_tls) == (if has_sasl {
            "SASL_"@
        } else {
            ""@
        }) + (if has_tls {
            "SSL"@
        } else {
            "PLAINTEXT"@
        }),
{
    reveal_strlit("SASL_");
    reveal_strlit("");
    reveal_strlit("SSL");
    reveal_strlit("PLAINTEXT");
    reveal_strlit("SASL_PLAINTEXT");
    reveal_strlit("SASL_SSL");
    assert(("SASL_"@ + "SSL"@) =~= "SASL_SSL"@);
    assert(("SASL_"@ + "PLAINTEXT"@) =~= "SASL_PLAINTEXT"@);
    assert((""@ + "SSL"@) =~= "SSL"@);
    assert((""@ + "PLAINTEXT"@) =~= "PLAINTEXT"@);
}

/// TLS is in use: configured and enabled.
pub open spec fn tls_on(tls: Option<TLSSetting>) -> bool {
    tls matches Some(t) && t.is_enabled
}

/// `m` with the security parameters of `conn` applied.
pub open spec fn with_security(m: Map<Seq<char>, Seq<char>>, conn: KafkaConnectionSetting) -> Map<
    Seq<char>,
    Seq<char>,
> {
    let m1 = m.insert("security.protocol"@, security_protocol(conn.sasl is Some, tls_on(conn.tls)));
    let m2 = match conn.sasl {
        Some(sasl) => m1.insert("sasl.mechanism"@, sasl.mechanism@).insert(
            "sasl.username"@,
            sasl.username@,
        ).insert("sasl.password"@, sasl.password@),
        None => m1,
    };
    match conn.tls {
        Some(tls) => if tls.is_enabled {
            let m3 = match tls.client_ca_file {
                Some(ca) => m2.insert("ssl.ca.location"@, ca@),
                None => m2,
            };
            let m4 = if tls.cert_file@.len() > 0 {
                m3.insert("ssl.certificate.location"@, tls.cert_file@)
            } else {
                m3
            };
            if tls.key_file@.len() > 0 {
                m4.insert("ssl.key.location"@, tls.key_file@)
            } else {
                m4
            }
        } else {
            m2
        },
        None => m2,
    }
}

/// Each security parameter carries its own setting: with TLS enabled, the
/// CA, certificate and key locations are exactly the configured CA file,
/// certificate file and key file (when set); with SASL, the mechanism,
/// user name and password are the configured ones; without TLS in use, no
/// `ssl.*` location is touched.
pub proof fn lemma_security_parameters(m: Map<Seq<char>, Seq<char>>, conn: KafkaConnectionSetting)
    ensures
        ({
            let r = with_security(m, conn);
            &&& r.contains_key("security.protocol"@)
            &&& (tls_on(conn.tls) ==> {
                let t = conn.tls->0;
                &&& (t.client_ca_file matches Some(ca) ==> r.contains_key("ssl.ca.location"@)
                    && r["ssl.ca.location"@] == ca@)
                &&& (t.cert_file@.len() > 0 ==> r.contains_key("ssl.certificate.location"@)
                    && r["ssl.certificate.location"@] == t.cert_file@)
                &&& (t.key_file@.len() > 0 ==> r.contains_key("ssl.key.location"@)
                    && r["ssl.key.location"@] == t.key_file@)
            })
            &&& (!tls_on(conn.tls) ==> {
                &&& r.contains_key("ssl.ca.location"@) == m.contains_key("ssl.ca.location"@)
                &&& r.contains_key("ssl.certificate.location"@) == m.contains_key(
                    "ssl.certificate.location"@,
                )
                &&& r.contains_key("ssl.key.location"@) == m.contains_key("ssl.key.location"@)
                &&& r["ssl.ca.location"@] == m["ssl.ca.location"@]
                &&& r["ssl.certificate.location"@] == m["ssl.certificate.location"@]
                &&& r["ssl.key.location"@] == m["ssl.key.location"@]
            })
            &&& (conn.sasl is Some ==> {
                let sa = conn.sasl->0;
                &&& r.contains_key("sasl.mechanism"@) && r["sasl.mechanism"@] == sa.mechanism@
                &&& r.contains_key("sasl.username"@) && r["sasl.username"@] == sa.username@
                &&& r.contains_key("sasl.password"@) && r["sasl.password"@] == sa.password@
            })
        }),
{
    reveal_strlit("security.protocol");
    reveal_strlit("sasl.mechanism");
    reveal_strlit("sasl.username");
    reveal_strlit("sasl.password");
    reveal_strlit("ssl.ca.location");
    reveal_strlit("ssl.certificate.location");
    reveal_strlit("ssl.key.location");
    assert("security.protocol"@.len() == 17);
    assert("sasl.mechanism"@.len() == 14);
    assert("sasl.username"@.len() == 13);
    assert("sasl.password"@.len() == 13);
    assert("ssl.ca.location"@.len() == 15);
    assert("ssl.certificate.location"@.len() == 24);
    assert("ssl.key.location"@.len() == 16);
    assert("sasl.username"@[5] != "sasl.password"@[5]);
}

/// Parameters shared by the producer and the consumer.
pub open spec fn base_entries(conn: KafkaConnectionSetting) -> Map<Seq<char>, Seq<char>> {
    with_security(
        Map::empty().insert(
            "bootstrap.servers"@,
            join_spec(views(conn.cluster.brokers@), ","@),
        ).insert("client.id"@, conn.cluster.client_id@).insert(
            "socket.timeout.ms"@,
            decimal(conn.timeouts.socket_timeout_ms as nat),
        ).insert(
            "socket.connection.setup.timeout.ms"@,
            decimal(conn.timeouts.connection_timeout_ms as nat),
        ).insert("retry.backoff.ms"@, decimal(conn.retry.retry_backoff_ms as nat)).insert(
            "reconnect.backoff.ms"@,
            decimal(conn.retry.reconnect_backoff_ms as nat),
        ).insert("reconnect.backoff.max.ms"@, decimal(conn.retry.reconnect_backoff_max_ms as nat)),
        conn,
    )
}

/// librdkafka's name for a configured partitioner.
pub open spec fn partitioner_name(s: Seq<char>) -> Seq<char> {
    if s == "round_robin"@ {
        "random"@
    } else if s == "uniform_sticky"@ {
        "murmur2_random"@
    } else {
        "consistent_random"@
    }
}

/// The producer's queue size in kilobytes: the buffer memory in bytes,
/// divided by 1024, at least 1.
pub open spec fn buffer_kbytes(buffer_memory: usize) -> nat {
    if buffer_memory / 1024 >= 1 {
        (buffer_memory / 1024) as nat
    } else {
        1
    }
}

/// `base` with the producer parameters applied.
pub open spec fn producer_entries(
    base: Map<Seq<char>, Seq<char>>,
    conn: KafkaConnectionSetting,
    prod: KafkaProducerSetting,
) -> Map<Seq<char>, Seq<char>> {
    let m = base.insert("request.timeout.ms"@, decimal(conn.timeouts.request_timeout_ms as nat)).insert(
        "acks"@,
        prod.reliability.acks@,
    ).insert("enable.idempotence"@, bool_text(prod.reliability.enable_idempotence)).insert(
        "max.in.flight.requests.per.connection"@,
        decimal(prod.reliability.max_in_flight_requests_per_connection as nat),
    ).insert("retries"@, decimal(prod.reliability.retries as nat)).insert(
        "delivery.timeout.ms"@,
        decimal(prod.reliability.delivery_timeout_ms as nat),
    ).insert("batch.size"@, decimal(prod.batching.batch_size as nat)).insert(
        "linger.ms"@,
        decimal(prod.batching.linger_ms as nat),
    ).insert(
        "queue.buffering.max.kbytes"@,
        decimal(buffer_kbytes(prod.batching.buffer_memory)),
    ).insert("message.max.bytes"@, decimal(prod.batching.max_request_size as nat)).insert(
        "compression.type"@,
        prod.compression_type@,
    ).insert("partitioner"@, partitioner_name(prod.partitioner@));
    match prod.transaction {
        Some(tx) => m.insert("transactional.id"@, tx.transactional_id@).insert(
            "transaction.timeout.ms"@,
            decimal(tx.transaction_timeout_ms as nat),
        ),
        None => m,
    }
}

/// `base` with the consumer parameters applied.
pub open spec fn consumer_entries(base: Map<Seq<char>, Seq<char>>, cons: KafkaConsumerSetting) -> Map<
    Seq<char>,
    Seq<char>,
> {
    let m = base.insert("allow.auto.create.topics"@, "true"@).insert(
        "group.id"@,
        cons.group.group_id@,
    ).insert("auto.offset.reset"@, cons.offset.auto_offset_reset@).insert(
        "enable.auto.commit"@,
        bool_text(cons.offset.enable_auto_commit),
    ).insert("auto.commit.interval.ms"@, decimal(cons.offset.auto_commit_interval_ms as nat)).insert(
        "isolation.level"@,
        cons.offset.isolation_level@,
    ).insert("fetch.min.bytes"@, decimal(cons.fetch.fetch_min_bytes as nat)).insert(
        "max.partition.fetch.bytes"@,
        decimal(cons.fetch.max_partition_fetch_bytes as nat),
    ).insert("fetch.wait.max.ms"@, decimal(cons.fetch.fetch_max_wait_ms as nat)).insert(
        "max.poll.interval.ms"@,
        decimal(cons.fetch.max_poll_interval_ms as nat),
    ).insert("session.timeout.ms"@, decimal(cons.session.session_timeout_ms as nat)).insert(
        "heartbeat.interval.ms"@,
        decimal(cons.session.heartbeat_interval_ms as nat),
    );
    match cons.group.group_instance_id {
        Some(iid) => m.insert("group.instance.id"@, iid@),
        None => m,
    }
}


/// Parameter names that the producer sets on top of the shared ones.
pub open spec fn producer_keys() -> Set<Seq<char>> {
    set![
        "request.timeout.ms"@,
        "acks"@,
        "enable.idempotence"@,
        "max.in.flight.requests.per.connection"@,
        "retries"@,
        "delivery.timeout.ms"@,
        "batch.size"@,
        "linger.ms"@,
        "queue.buffering.max.kbytes"@,
        "message.max.bytes"@,
        "compression.type"@,
        "partitioner"@,
        "transactional.id"@,
        "transaction.timeout.ms"@,
    ]
}

/// Parameter names that the consumer sets on top of the shared ones.
pub open spec fn consumer_keys() -> Set<Seq<char>> {
    set![
        "allow.auto.create.topics"@,
        "group.id"@,
        "auto.offset.reset"@,
        "enable.auto.commit"@,
        "auto.commit.interval.ms"@,
        "isolation.level"@,
        "fetch.min.bytes"@,
        "max.partition.fetch.bytes"@,
        "fetch.wait.max.ms"@,
        "max.poll.interval.ms"@,
        "session.timeout.ms"@,
        "heartbeat.interval.ms"@,
        "group.instance.id"@,
    ]
}

/// The producer keeps the shared connection: a shared parameter that the
/// producer does not set itself reaches the producer unchanged.
pub proof fn lemma_producer_keeps_shared(
    base: Map<Seq<char>, Seq<char>>,
    conn: KafkaConnectionSetting,
    prod: KafkaProducerSetting,
    k: Seq<char>,
)
    requires
        base.contains_key(k),
        !producer_keys().contains(k),
    ensures
        producer_entries(base, conn, prod).contains_key(k),
        producer_entries(base, conn, prod)[k] == base[k],
{
}

/// The consumer keeps the shared connection: a shared parameter that the
/// consumer does not set itself reaches the consumer unchanged.
pub proof fn lemma_consumer_keeps_shared(
    base: Map<Seq<char>, Seq<char>>,
    cons: KafkaConsumerSetting,
    k: Seq<char>,
)
    requires
        base.contains_key(k),
        !consumer_keys().contains(k),
    ensures
        consumer_entries(base, cons).contains_key(k),
        consumer_entries(base, cons)[k] == base[k],
{
}

// ---------------------------------------------------------------------------
// Builders
// ---------------------------------------------------------------------------

fn set_decimal(c: &mut ClientConfig, key: &str, n: u64)
    ensures
        client_config_entries(*final(c)) == client_config_entries(*old(c)).insert(
            key@,
            decimal(n as nat),
        ),
{
    let v = u64_to_string(n);
    config_set(c, key, v.as_str());
}

fn set_bool(c: &mut ClientConfig, key: &str, b: bool)
    ensures
        client_config_entries(*final(c)) == client_config_entries(*old(c)).insert(
            key@,
            bool_text(b),
        ),
{
    let v = bool_to_string(b);
    config_set(c, key, v.as_str());
}

/// Parameters shared by the producer and the consumer: brokers, client id,
/// socket and reconnect timings, then the security parameters.
pub fn build_base_config(conn: &KafkaConnectionSetting) -> (r: Result<ClientConfig, anyhow::Error>)
    ensures
        r matches Ok(c) && client_config_entries(c) == base_entries(*conn),
{
    let brokers = join(&conn.cluster.brokers, ",");
    let mut cfg = config_new();
    config_set(&mut cfg, "bootstrap.servers", brokers.as_str());
    config_set(&mut cfg, "client.id", conn.cluster.client_id.as_str());
    set_decimal(&mut cfg, "socket.timeout.ms", conn.timeouts.socket_timeout_ms);
    set_decimal(&mut cfg, "socket.connection.setup.timeout.ms", conn.timeouts.connection_timeout_ms);
    set_decimal(&mut cfg, "retry.backoff.ms", conn.retry.retry_backoff_ms);
    set_decimal(&mut cfg, "reconnect.backoff.ms", conn.retry.reconnect_backoff_ms);
    set_decimal(&mut cfg, "reconnect.backoff.max.ms", conn.retry.reconnect_backoff_max_ms);
    match apply_security(&mut cfg, conn) {
        Ok(()) => Ok(cfg),
        Err(e) => Err(e),
    }
}

/// Sets `security.protocol` from whether SASL and TLS are in use, then the
/// SASL credentials and the TLS file locations that are configured.
pub fn apply_security(cfg: &mut ClientConfig, conn: &KafkaConnectionSetting) -> (r: Result<
    (),
    anyhow::Error,
>)
    ensures
        r is Ok,
        client_config_entries(*final(cfg)) == with_security(client_config_entries(*old(cfg)), *conn),
{
    let has_sasl = conn.sasl.is_some();
    let has_tls = match &conn.tls {
        Some(t) => t.is_enabled,
        None => false,
    };
    let protocol = if !has_sasl && !has_tls {
        "PLAINTEXT"
    } else if has_sasl && !has_tls {
        "SASL_PLAINTEXT"
    } else if !has_sasl && has_tls {
        "SSL"
    } else {
        "SASL_SSL"
    };
    config_set(cfg, "security.protocol", protocol);
    if let Some(sasl) = &conn.sasl {
        config_set(cfg, "sasl.mechanism", sasl.mechanism.as_str());
        config_set(cfg, "sasl.username", sasl.username.as_str());
        config_set(cfg, "sasl.password", sasl.password.as_str());
    }
    if let Some(tls) = &conn.tls {
        if tls.is_enabled {
            if let Some(ca) = &tls.client_ca_file {
                config_set(cfg, "ssl.ca.location", ca.as_str());
            }
            if !tls.cert_file.as_str().is_empty() {
                config_set(cfg, "ssl.certificate.location", tls.cert_file.as_str());
            }
            if !tls.key_file.as_str().is_empty() {
                config_set(cfg, "ssl.key.location", tls.key_file.as_str());
            }
        }
    }
    Ok(())
}

/// librdkafka's name for a configured partitioner: `round_robin` is
/// `random`, `uniform_sticky` is `murmur2_random`, anything else is
/// `consistent_random`.
pub fn map_partitioner(s: &str) -> (r: &'static str)
    ensures
        r@ == partitioner_name(s@),
{
    if str_eq(s, "round_robin") {
        "random"
    } else if str_eq(s, "uniform_sticky") {
        "murmur2_random"
    } else {
        "consistent_random"
    }
}

/// The producer's configuration: `base` plus reliability, batching,
/// compression, partitioner and, if configured, transaction parameters.
pub fn build_producer_config(
    base: &ClientConfig,
    conn: &KafkaConnectionSetting,
    prod: &KafkaProducerSetting,
) -> (r: Result<ClientConfig, anyhow::Error>)
    ensures
        r matches Ok(c) && client_config_entries(c) == producer_entries(
            client_config_entries(*base),
            *conn,
            *prod,
        ),
{
    let mut cfg = config_clone(base);
    let kb = prod.batching.buffer_memory / 1024;
    let buffer_kb: usize = if kb >= 1 {
        kb
    } else {
        1
    };
    set_decimal(&mut cfg, "request.timeout.ms", conn.timeouts.request_timeout_ms);
    config_set(&mut cfg, "acks", prod.reliability.acks.as_str());
    set_bool(&mut cfg, "enable.idempotence", prod.reliability.enable_idempotence);
    set_decimal(
        &mut cfg,
        "max.in.flight.requests.per.connection",
        prod.reliability.max_in_flight_requests_per_connection as u64,
    );
    set_decimal(&mut cfg, "retries", prod.reliability.retries as u64);
    set_decimal(&mut cfg, "delivery.timeout.ms", prod.reliability.delivery_timeout_ms);
    set_decimal(&mut cfg, "batch.size", prod.batching.batch_size as u64);
    set_decimal(&mut cfg, "linger.ms", prod.batching.linger_ms);
    set_decimal(&mut cfg, "queue.buffering.max.kbytes", buffer_kb as u64);
    set_decimal(&mut cfg, "message.max.bytes", prod.batching.max_request_size as u64);
    config_set(&mut cfg, "compression.type", prod.compression_type.as_str());
    config_set(&mut cfg, "partitioner", map_partitioner(prod.partitioner.as_str()));
    if let Some(tx) = &prod.transaction {
        config_set(&mut cfg, "transactional.id", tx.transactional_id.as_str());
        set_decimal(&mut cfg, "transaction.timeout.ms", tx.transaction_timeout_ms);
    }
    Ok(cfg)
}

/// The consumer's configuration: `base` plus group, offset, fetch and
/// session parameters (topics may be created on subscription).
pub fn build_consumer_config(base: &ClientConfig, cons: &KafkaConsumerSetting) -> (r: Result<
    ClientConfig,
    anyhow::Error,
>)
    ensures
        r matches Ok(c) && client_config_entries(c) == consumer_entries(
            client_config_entries(*base),
            *cons,
        ),
{
    let mut cfg = config_clone(base);
    config_set(&mut cfg, "allow.auto.create.topics", "true");
    config_set(&mut cfg, "group.id", cons.group.group_id.as_str());
    config_set(&mut cfg, "auto.offset.reset", cons.offset.auto_offset_reset.as_str());
    set_bool(&mut cfg, "enable.auto.commit", cons.offset.enable_auto_commit);
    set_decimal(&mut cfg, "auto.commit.interval.ms", cons.offset.auto_commit_interval_ms);
    config_set(&mut cfg, "isolation.level", cons.offset.isolation_level.as_str());
    set_decimal(&mut cfg, "fetch.min.bytes", cons.fetch.fetch_min_bytes as u64);
    set_decimal(&mut cfg, "max.partition.fetch.bytes", cons.fetch.max_partition_fetch_bytes as u64);
    set_decimal(&mut cfg, "fetch.wait.max.ms", cons.fetch.fetch_max_wait_ms);
    set_decimal(&mut cfg, "max.poll.interval.ms", cons.fetch.max_poll_interval_ms);
    set_decimal(&mut cfg, "session.timeout.ms", cons.session.session_timeout_ms);
    set_decimal(&mut cfg, "heartbeat.interval.ms", cons.session.heartbeat_interval_ms);
    if let Some(iid) = &cons.group.group_instance_id {
        config_set(&mut cfg, "group.instance.id", iid.as_str());
    }
    Ok(cfg)
}

} // verus!
