//! The object-storage client derived from the repository setting.

use vstd::prelude::*;

use crate::config::setting_repository::ObjectStorageSetting;
use crate::text::{concat3, opt_text, str_eq};

verus! {

/// How the S3 client is configured.
#[derive(Debug)]
pub struct S3ClientPlan {
    pub access_key_id: String,
    pub secret_access_key: String,
    /// `None` when no session token is configured.
    pub session_token: Option<String>,
    pub region: String,
    /// Attempts per request: the first one plus the configured retries.
    pub max_attempts: u32,
    /// Milliseconds
    pub connect_timeout_ms: u64,
    /// Milliseconds
    pub read_timeout_ms: u64,
    /// Milliseconds
    pub operation_attempt_timeout_ms: u64,
    pub force_path_style: bool,
    /// `None` when the default endpoint is used.
    pub endpoint_url: Option<String>,
    /// Bucket whose reachability is checked at startup.
    pub bucket_name: String,
}

/// Why no client can be configured.
#[derive(Debug)]
pub enum S3ConfigError {
    /// Only `s3` is implemented.
    UnsupportedType(String),
}

/// The text of an object storage setting error.
pub open spec fn s3_config_message(e: S3ConfigError) -> Seq<char> {
    match e {
        S3ConfigError::UnsupportedType(t) => "unsupported object storage type '"@ + t@
            + "'; only 's3' is implemented"@,
    }
}

impl S3ConfigError {
    /// The error's text.
    pub fn message(&self) -> (m: String)
        ensures
            m@ == s3_config_message(*self),
    {
        match self {
            S3ConfigError::UnsupportedType(t) => concat3(
                "unsupported object storage type '",
                t.as_str(),
                "'; only 's3' is implemented",
            ),
        }
    }
}

/// `Some(s)` for a non-empty `s`, `None` for an empty one.
pub open spec fn non_empty(s: Seq<char>) -> Option<Seq<char>> {
    if s.len() > 0 {
        Some(s)
    } else {
        None
    }
}

fn non_empty_string(s: &String) -> (r: Option<String>)
    ensures
        opt_text(r) == non_empty(s@),
{
    if s.as_str().is_empty() {
        None
    } else {
        Some(s.clone())
    }
}

/// Configures the client for an `s3` setting; other storage types are
/// refused.
pub fn plan_client(setting: &ObjectStorageSetting) -> (r: Result<S3ClientPlan, S3ConfigError>)
    requires
        setting.retry.max_retries < u32::MAX,
    ensures
        setting.kind@ != "s3"@ ==> (r matches Err(S3ConfigError::UnsupportedType(t)) && t@
            == setting.kind@),
        setting.kind@ == "s3"@ ==> (r matches Ok(p) && {
            &&& p.access_key_id@ == setting.access_key_id@
            &&& p.secret_access_key@ == setting.secret_access_key@
            &&& opt_text(p.session_token) == non_empty(setting.session_token@)
            &&& p.region@ == setting.region@
            &&& p.max_attempts == setting.retry.max_retries + 1
            &&& p.connect_timeout_ms == setting.timeouts.connect_timeout_ms
            &&& p.read_timeout_ms == setting.timeouts.request_timeout_ms
            &&& p.operation_attempt_timeout_ms == setting.timeouts.operation_timeout_ms
            &&& p.force_path_style == setting.force_path_style
            &&& opt_text(p.endpoint_url) == non_empty(setting.endpoint@)
            &&& p.bucket_name@ == setting.bucket_name@
        }),
{
    if !str_eq(setting.kind.as_str(), "s3") {
        return Err(S3ConfigError::UnsupportedType(setting.kind.clone()));
    }
    Ok(
        S3ClientPlan {
            access_key_id: setting.access_key_id.clone(),
            secret_access_key: setting.secret_access_key.clone(),
            session_token: non_empty_string(&setting.session_token),
            region: setting.region.clone(),
            max_attempts: setting.retry.max_retries + 1,
            connect_timeout_ms: setting.timeouts.connect_timeout_ms,
            read_timeout_ms: setting.timeouts.request_timeout_ms,
            operation_attempt_timeout_ms: setting.timeouts.operation_timeout_ms,
            force_path_style: setting.force_path_style,
            endpoint_url: non_empty_string(&setting.endpoint),
            bucket_name: setting.bucket_name.clone(),
        },
    )
}

} // verus!
