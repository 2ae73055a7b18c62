//! The ScyllaDB session and execution profile derived from the repository
//! setting.

use vstd::prelude::*;

use crate::config::setting_repository::ScyllaDbSettingRepository;
use crate::text::{concat3, str_eq, to_ascii_uppercase, upper};

verus! {

/// Consistency level of ordinary statements.
#[derive(Debug, Clone, Copy, PartialEq, Eq)]
pub enum Consistency {
    Any,
    One,
    Two,
    Three,
    Quorum,
    All,
    LocalQuorum,
    EachQuorum,
    LocalOne,
}

/// Consistency level of lightweight transactions.
#[derive(Debug, Clone, Copy, PartialEq, Eq)]
pub enum SerialConsistency {
    Serial,
    LocalSerial,
}

/// Frame compression.
#[derive(Debug, Clone, Copy, PartialEq, Eq)]
pub enum Compression {
    Snappy,
    Lz4,
}

/// Retry policy of the execution profile.
#[derive(Debug, Clone, Copy, PartialEq, Eq)]
pub enum RetryPolicyKind {
    Default,
    Downgrading,
    Fallthrough,
}

/// Why the session cannot be planned.
#[derive(Debug)]
pub enum ScyllaConfigError {
    /// Compression other than none, snappy or lz4.
    UnknownCompression(String),
    /// Consistency not known (upper-cased as it was compared).
    UnknownConsistency(String),
    /// Serial consistency not known (upper-cased as it was compared).
    UnknownSerialConsistency(String),
    /// Retry policy other than default, downgrading or fallthrough.
    UnknownRetryPolicy(String),
}

/// The text of a ScyllaDB setting error.
pub open spec fn scylla_config_message(e: ScyllaConfigError) -> Seq<char> {
    match e {
        ScyllaConfigError::UnknownCompression(c) => "unknown compression '"@ + c@
            + "'; expected none|snappy|lz4"@,
        ScyllaConfigError::UnknownConsistency(c) => "unknown consistency '"@ + c@
            + "'; expected ANY|ONE|TWO|THREE|QUORUM|ALL|LOCAL_QUORUM|EACH_QUORUM|LOCAL_ONE"@,
        ScyllaConfigError::UnknownSerialConsistency(c) => "unknown serial consistency '"@ + c@
            + "'; expected SERIAL|LOCAL_SERIAL"@,
        ScyllaConfigError::UnknownRetryPolicy(p) => "unknown retry policy '"@ + p@
            + "'; expected default|downgrading|fallthrough"@,
    }
}

impl ScyllaConfigError {
    /// The error's text.
    pub fn message(&self) -> (m: String)
        ensures
            m@ == scylla_config_message(*self),
    {
        match self {
            ScyllaConfigError::UnknownCompression(c) => concat3(
                "unknown compression '",
                c.as_str(),
                "'; expected none|snappy|lz4",
            ),
            ScyllaConfigError::UnknownConsistency(c) => concat3(
                "unknown consistency '",
                c.as_str(),
                "'; expected ANY|ONE|TWO|THREE|QUORUM|ALL|LOCAL_QUORUM|EACH_QUORUM|LOCAL_ONE",
            ),
            ScyllaConfigError::UnknownSerialConsistency(c) => concat3(
                "unknown serial consistency '",
                c.as_str(),
                "'; expected SERIAL|LOCAL_SERIAL",
            ),
            ScyllaConfigError::UnknownRetryPolicy(p) => concat3(
                "unknown retry policy '",
                p.as_str(),
                "'; expected default|downgrading|fallthrough",
            ),
        }
    }
}

/// The compression a setting names: `None` for none or empty, an error
/// (`Err`) for an unknown name.
pub open spec fn compression_spec(s: Seq<char>) -> Result<Option<Compression>, ()> {
    if s == "none"@ || s == ""@ {
        Ok(None)
    } else if s == "snappy"@ {
        Ok(Some(Compression::Snappy))
    } else if s == "lz4"@ {
        Ok(Some(Compression::Lz4))
    } else {
        Err(())
    }
}

/// The consistency that an upper-cased name denotes.
pub open spec fn consistency_spec(u: Seq<char>) -> Option<Consistency> {
    if u == "ANY"@ {
        Some(Consistency::Any)
    } else if u == "ONE"@ {
        Some(Consistency::One)
    } else if u == "TWO"@ {
        Some(Consistency::Two)
    } else if u == "THREE"@ {
        Some(Consistency::Three)
    } else if u == "QUORUM"@ {
        Some(Consistency::Quorum)
    } else if u == "ALL"@ {
        Some(Consistency::All)
    } else if u == "LOCAL_QUORUM"@ {
        Some(Consistency::LocalQuorum)
    } else if u == "EACH_QUORUM"@ {
        Some(Consistency::EachQuorum)
    } else if u == "LOCAL_ONE"@ {
        Some(Consistency::LocalOne)
    } else {
        None
    }
}

/// The name of each consistency level, as ScyllaDB spells it.
pub open spec fn consistency_name(c: Consistency) -> Seq<char> {
    match c {
        Consistency::Any => "ANY"@,
        Consistency::One => "ONE"@,
        Consistency::Two => "TWO"@,
        Consistency::Three => "THREE"@,
        Consistency::Quorum => "QUORUM"@,
        Consistency::All => "ALL"@,
        Consistency::LocalQuorum => "LOCAL_QUORUM"@,
        Consistency::EachQuorum => "EACH_QUORUM"@,
        Consistency::LocalOne => "LOCAL_ONE"@,
    }
}

/// Each consistency name denotes the level of that name and no other: the
/// name of every level reads as that level, and a name that reads as a
/// level is that level's name (so distinct names give distinct levels).
pub proof fn lemma_consistency_names(c: Consistency, u: Seq<char>)
    ensures
        consistency_spec(consistency_name(c)) == Some(c),
        consistency_spec(u) matches Some(d) ==> u == consistency_name(d),
{
    reveal_strlit("ANY");
    reveal_strlit("ONE");
    reveal_strlit("TWO");
    reveal_strlit("THREE");
    reveal_strlit("QUORUM");
    reveal_strlit("ALL");
    reveal_strlit("LOCAL_QUORUM");
    reveal_strlit("EACH_QUORUM");
    reveal_strlit("LOCAL_ONE");
    assert("ANY"@.len() == 3 && "ONE"@.len() == 3 && "TWO"@.len() == 3 && "ALL"@.len() == 3);
    assert("THREE"@.len() == 5 && "QUORUM"@.len() == 6 && "LOCAL_QUORUM"@.len() == 12);
    assert("EACH_QUORUM"@.len() == 11 && "LOCAL_ONE"@.len() == 9);
    assert("ANY"@[0] != "ONE"@[0] && "ANY"@[0] != "TWO"@[0] && "ANY"@[1] != "ALL"@[1]);
    assert("ONE"@[0] != "TWO"@[0] && "ONE"@[0] != "ALL"@[0] && "TWO"@[0] != "ALL"@[0]);
}

/// The name of each serial consistency level.
pub open spec fn serial_consistency_name(c: SerialConsistency) -> Seq<char> {
    match c {
        SerialConsistency::Serial => "SERIAL"@,
        SerialConsistency::LocalSerial => "LOCAL_SERIAL"@,
    }
}

/// Each serial consistency name denotes the level of that name and no
/// other.
pub proof fn lemma_serial_consistency_names(c: SerialConsistency, u: Seq<char>)
    ensures
        serial_consistency_spec(serial_consistency_name(c)) == Some(c),
        serial_consistency_spec(u) matches Some(d) ==> u == serial_consistency_name(d),
{
    reveal_strlit("SERIAL");
    reveal_strlit("LOCAL_SERIAL");
    assert("SERIAL"@.len() != "LOCAL_SERIAL"@.len());
}

/// The name of each frame compression.
pub open spec fn compression_name(c: Compression) -> Seq<char> {
    match c {
        Compression::Snappy => "snappy"@,
        Compression::Lz4 => "lz4"@,
    }
}

/// `none` and the empty name ask for no compression; each compression's
/// name asks for it; a name that asks for a compression is its name.
pub proof fn lemma_compression_names(c: Compression, s: Seq<char>)
    ensures
        compression_spec("none"@) == Ok::<Option<Compression>, ()>(None),
        compression_spec(""@) == Ok::<Option<Compression>, ()>(None),
        compression_spec(compression_name(c)) == Ok::<Option<Compression>, ()>(Some(c)),
        compression_spec(s) matches Ok(Some(d)) ==> s == compression_name(d),
{
    reveal_strlit("none");
    reveal_strlit("");
    reveal_strlit("snappy");
    reveal_strlit("lz4");
    assert("none"@.len() == 4 && ""@.len() == 0 && "snappy"@.len() == 6 && "lz4"@.len() == 3);
}

/// The name of each retry policy.
pub open spec fn retry_policy_name(p: RetryPolicyKind) -> Seq<char> {
    match p {
        RetryPolicyKind::Default => "default"@,
        RetryPolicyKind::Downgrading => "downgrading"@,
        RetryPolicyKind::Fallthrough => "fallthrough"@,
    }
}

/// Each retry policy's name asks for it, and a name that asks for a policy
/// is its name.
pub proof fn lemma_retry_policy_names(p: RetryPolicyKind, s: Seq<char>)
    ensures
        retry_policy_spec(retry_policy_name(p)) == Some(p),
        retry_policy_spec(s) matches Some(q) ==> s == retry_policy_name(q),
{
    reveal_strlit("default");
    reveal_strlit("downgrading");
    reveal_strlit("fallthrough");
    assert("default"@.len() == 7 && "downgrading"@.len() == 11 && "fallthrough"@.len() == 11);
    assert("downgrading"@[0] != "fallthrough"@[0]);
}

/// The serial consistency that an upper-cased name denotes.
pub open spec fn serial_consistency_spec(u: Seq<char>) -> Option<SerialConsistency> {
    if u == "SERIAL"@ {
        Some(SerialConsistency::Serial)
    } else if u == "LOCAL_SERIAL"@ {
        Some(SerialConsistency::LocalSerial)
    } else {
        None
    }
}

/// The retry policy a setting names.
pub open spec fn retry_policy_spec(s: Seq<char>) -> Option<RetryPolicyKind> {
    if s == "default"@ {
        Some(RetryPolicyKind::Default)
    } else if s == "downgrading"@ {
        Some(RetryPolicyKind::Downgrading)
    } else if s == "fallthrough"@ {
        Some(RetryPolicyKind::Fallthrough)
    } else {
        None
    }
}

/// Reads a compression name (case matters).
pub fn parse_compression(s: &str) -> (r: Result<Option<Compression>, ScyllaConfigError>)
    ensures
        match compression_spec(s@) {
            Ok(c) => r == Ok::<Option<Compression>, ScyllaConfigError>(c),
            Err(_) => r matches Err(ScyllaConfigError::UnknownCompression(t)) && t@ == s@,
        },
{
    if str_eq(s, "none") || str_eq(s, "") {
        Ok(None)
    } else if str_eq(s, "snappy") {
        Ok(Some(Compression::Snappy))
    } else if str_eq(s, "lz4") {
        Ok(Some(Compression::Lz4))
    } else {
        Err(ScyllaConfigError::UnknownCompression(s.to_owned()))
    }
}

/// Reads a consistency name, ignoring ASCII case.
pub fn parse_consistency(s: &str) -> (r: Result<Consistency, ScyllaConfigError>)
    ensures
        match consistency_spec(upper(s@)) {
            Some(c) => r == Ok::<Consistency, ScyllaConfigError>(c),
            None => r matches Err(ScyllaConfigError::UnknownConsistency(t)) && t@ == upper(s@),
        },
{
    let u = to_ascii_uppercase(s);
    let t = u.as_str();
    if str_eq(t, "ANY") {
        Ok(Consistency::Any)
    } else if str_eq(t, "ONE") {
        Ok(Consistency::One)
    } else if str_eq(t, "TWO") {
        Ok(Consistency::Two)
    } else if str_eq(t, "THREE") {
        Ok(Consistency::Three)
    } else if str_eq(t, "QUORUM") {
        Ok(Consistency::Quorum)
    } else if str_eq(t, "ALL") {
        Ok(Consistency::All)
    } else if str_eq(t, "LOCAL_QUORUM") {
        Ok(Consistency::LocalQuorum)
    } else if str_eq(t, "EACH_QUORUM") {
        Ok(Consistency::EachQuorum)
    } else if str_eq(t, "LOCAL_ONE") {
        Ok(Consistency::LocalOne)
    } else {
        Err(ScyllaConfigError::UnknownConsistency(u))
    }
}

/// Reads a serial consistency name, ignoring ASCII case.
pub fn parse_serial_consistency(s: &str) -> (r: Result<SerialConsistency, ScyllaConfigError>)
    ensures
        match serial_consistency_spec(upper(s@)) {
            Some(c) => r == Ok::<SerialConsistency, ScyllaConfigError>(c),
            None => r matches Err(ScyllaConfigError::UnknownSerialConsistency(t)) && t@ == upper(
                s@,
            ),
        },
{
    let u = to_ascii_uppercase(s);
    if str_eq(u.as_str(), "SERIAL") {
        Ok(SerialConsistency::Serial)
    } else if str_eq(u.as_str(), "LOCAL_SERIAL") {
        Ok(SerialConsistency::LocalSerial)
    } else {
        Err(ScyllaConfigError::UnknownSerialConsistency(u))
    }
}

/// Reads a retry policy name.
pub fn parse_retry_policy(s: &str) -> (r: Result<RetryPolicyKind, ScyllaConfigError>)
    ensures
        match retry_policy_spec(s@) {
            Some(p) => r == Ok::<RetryPolicyKind, ScyllaConfigError>(p),
            None => r matches Err(ScyllaConfigError::UnknownRetryPolicy(t)) && t@ == s@,
        },
{
    if str_eq(s, "default") {
        Ok(RetryPolicyKind::Default)
    } else if str_eq(s, "downgrading") {
        Ok(RetryPolicyKind::Downgrading)
    } else if str_eq(s, "fallthrough") {
        Ok(RetryPolicyKind::Fallthrough)
    } else {
        Err(ScyllaConfigError::UnknownRetryPolicy(s.to_owned()))
    }
}

/// Speculative execution: extra attempts and the delay before each.
#[derive(Debug, Clone, Copy)]
pub struct SpeculativePlan {
    pub max_retry_count: usize,
    /// Milliseconds
    pub retry_interval_ms: u64,
}

/// The default execution profile of the session.
#[derive(Debug)]
pub struct ExecutionProfilePlan {
    pub consistency: Consistency,
    pub serial_consistency: SerialConsistency,
    /// Milliseconds
    pub request_timeout_ms: u64,
    /// Datacenter preferred by the load balancer (which is token aware).
    pub preferred_datacenter: String,
    pub retry_policy: RetryPolicyKind,
    pub speculative: Option<SpeculativePlan>,
}

/// The profile that a setting asks for, once its names are known.
pub open spec fn profile_matches(setting: ScyllaDbSettingRepository, p: ExecutionProfilePlan) -> bool {
    &&& Some(p.consistency) == consistency_spec(upper(setting.consistency.default@))
    &&& Some(p.serial_consistency) == serial_consistency_spec(upper(setting.consistency.serial@))
    &&& Some(p.retry_policy) == retry_policy_spec(setting.retry.policy@)
    &&& p.request_timeout_ms == setting.timeouts.request_timeout_ms
    &&& p.preferred_datacenter@ == setting.cluster.local_dc@
    &&& p.speculative == (if setting.speculative.enabled {
        Some(
            SpeculativePlan {
                max_retry_count: setting.speculative.max_speculative_executions as usize,
                retry_interval_ms: setting.speculative.delay_ms,
            },
        )
    } else {
        None
    })
}

/// Builds the default execution profile; consistency, serial consistency
/// and retry policy are read in that order and the first unknown name is
/// reported.
pub fn build_execution_profile(setting: &ScyllaDbSettingRepository) -> (r: Result<
    ExecutionProfilePlan,
    ScyllaConfigError,
>)
    ensures
        if build_execution_profile_outcome(*setting) {
            r matches Ok(p) && profile_matches(*setting, p)
        } else {
            r matches Err(e) && profile_error(*setting, e)
        },
{
    let consistency = match parse_consistency(setting.consistency.default.as_str()) {
        Ok(c) => c,
        Err(e) => {
            return Err(e);
        },
    };
    let serial_consistency = match parse_serial_consistency(setting.consistency.serial.as_str()) {
        Ok(c) => c,
        Err(e) => {
            return Err(e);
        },
    };
    let retry_policy = match parse_retry_policy(setting.retry.policy.as_str()) {
        Ok(p) => p,
        Err(e) => {
            return Err(e);
        },
    };
    let speculative = if setting.speculative.enabled {
        Some(
            SpeculativePlan {
                max_retry_count: setting.speculative.max_speculative_executions as usize,
                retry_interval_ms: setting.speculative.delay_ms,
            },
        )
    } else {
        None
    };
    Ok(
        ExecutionProfilePlan {
            consistency,
            serial_consistency,
            request_timeout_ms: setting.timeouts.request_timeout_ms,
            preferred_datacenter: setting.cluster.local_dc.clone(),
            retry_policy,
            speculative,
        },
    )
}

/// How the session is opened.
#[derive(Debug)]
pub struct SessionPlan {
    pub known_nodes: Vec<String>,
    /// Milliseconds
    pub connection_timeout_ms: u64,
    /// User name and password, when a user name is configured.
    pub credentials: Option<(String, String)>,
    /// Keyspace to use, when one is configured.
    pub keyspace: Option<String>,
    pub compression: Option<Compression>,
    /// Connections per host, at least one.
    pub pool_size_per_host: usize,
    /// Milliseconds; `None` when keep-alive is off (configured as 0).
    pub keepalive_interval_ms: Option<u64>,
    /// Whether a TLS context is set up.
    pub tls_enabled: bool,
    pub profile: ExecutionProfilePlan,
}

/// The session that a setting asks for, once its names are known.
pub open spec fn session_matches(setting: ScyllaDbSettingRepository, s: SessionPlan) -> bool {
    let local = setting.pool.connections_per_host_local;
    &&& s.known_nodes@.map_values(|n: String| n@) == setting.cluster.contact_points@.map_values(
        |n: String| n@,
    )
    &&& s.connection_timeout_ms == setting.timeouts.connect_timeout_ms
    &&& (if setting.authentication.username@.len() > 0 {
        s.credentials matches Some(c) && c.0@ == setting.authentication.username@ && c.1@
            == setting.authentication.password@
    } else {
        s.credentials is None
    })
    &&& (if setting.cluster.keyspace@.len() > 0 {
        s.keyspace matches Some(k) && k@ == setting.cluster.keyspace@
    } else {
        s.keyspace is None
    })
    &&& Ok::<Option<Compression>, ()>(s.compression) == compression_spec(
        setting.cluster.compression@,
    )
    &&& s.pool_size_per_host == (if local as usize > 0 {
        local as usize
    } else {
        1usize
    })
    &&& s.keepalive_interval_ms == (if setting.pool.keepalive_interval_ms > 0 {
        Some(setting.pool.keepalive_interval_ms)
    } else {
        None
    })
    &&& s.tls_enabled == setting.ssl.enabled
    &&& profile_matches(setting, s.profile)
}

fn clone_strings(v: &Vec<String>) -> (r: Vec<String>)
    ensures
        r@.map_values(|n: String| n@) == v@.map_values(|n: String| n@),
{
    let mut out: Vec<String> = Vec::new();
    let n = v.len();
    let mut i: usize = 0;
    while i < n
        invariant
            i <= n,
            n == v@.len(),
            out@.map_values(|s: String| s@) =~= v@.map_values(|s: String| s@).take(i as int),
        decreases n - i,
    {
        let ghost prev = out@;
        out.push(v[i].clone());
        assert(out@.map_values(|s: String| s@) =~= prev.map_values(|s: String| s@).push(
            v@[i as int]@,
        ));
        i = i + 1;
    }
    assert(v@.map_values(|s: String| s@).take(n as int) =~= v@.map_values(|s: String| s@));
    out
}

/// Plans the session: the execution profile first, then the compression;
/// the first unknown name is reported.
pub fn build_session(setting: &ScyllaDbSettingRepository) -> (r: Result<SessionPlan, ScyllaConfigError>)
    ensures
        match build_execution_profile_outcome(*setting) {
            false => r matches Err(e) && profile_error(*setting, e),
            true => match compression_spec(setting.cluster.compression@) {
                Err(_) => r matches Err(ScyllaConfigError::UnknownCompression(t)) && t@
                    == setting.cluster.compression@,
                Ok(_) => r matches Ok(s) && session_matches(*setting, s),
            },
        },
{
    let profile = match build_execution_profile(setting) {
        Ok(p) => p,
        Err(e) => {
            return Err(e);
        },
    };
    let compression = match parse_compression(setting.cluster.compression.as_str()) {
        Ok(c) => c,
        Err(e) => {
            return Err(e);
        },
    };
    let credentials = if !setting.authentication.username.as_str().is_empty() {
        Some((setting.authentication.username.clone(), setting.authentication.password.clone()))
    } else {
        None
    };
    let keyspace = if !setting.cluster.keyspace.as_str().is_empty() {
        Some(setting.cluster.keyspace.clone())
    } else {
        None
    };
    let local = setting.pool.connections_per_host_local as usize;
    let pool_size_per_host = if local > 0 {
        local
    } else {
        1
    };
    let keepalive_interval_ms = if setting.pool.keepalive_interval_ms > 0 {
        Some(setting.pool.keepalive_interval_ms)
    } else {
        None
    };
    Ok(
        SessionPlan {
            known_nodes: clone_strings(&setting.cluster.contact_points),
            connection_timeout_ms: setting.timeouts.connect_timeout_ms,
            credentials,
            keyspace,
            compression,
            pool_size_per_host,
            keepalive_interval_ms,
            tls_enabled: setting.ssl.enabled,
            profile,
        },
    )
}

/// The error for the first unknown name that the execution profile reads.
pub open spec fn profile_error(setting: ScyllaDbSettingRepository, e: ScyllaConfigError) -> bool {
    if consistency_spec(upper(setting.consistency.default@)) is None {
        e matches ScyllaConfigError::UnknownConsistency(t) && t@ == upper(setting.consistency.default@)
    } else if serial_consistency_spec(upper(setting.consistency.serial@)) is None {
        e matches ScyllaConfigError::UnknownSerialConsistency(t) && t@ == upper(
            setting.consistency.serial@,
        )
    } else {
        e matches ScyllaConfigError::UnknownRetryPolicy(t) && t@ == setting.retry.policy@
    }
}

/// All names that the execution profile reads are known.
pub open spec fn build_execution_profile_outcome(setting: ScyllaDbSettingRepository) -> bool {
    &&& consistency_spec(upper(setting.consistency.default@)) is Some
    &&& serial_consistency_spec(upper(setting.consistency.serial@)) is Some
    &&& retry_policy_spec(setting.retry.policy@) is Some
}

} // verus!
