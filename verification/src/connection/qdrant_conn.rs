//! The Qdrant client derived from its repository setting.

use vstd::prelude::*;

use crate::config::setting_repository::QdrantSettingRepository;
use crate::text::{append_decimal, concat3, decimal, opt_text, str_eq};

verus! {

/// Transport compression of the Qdrant client.
#[derive(Debug, Clone, Copy, PartialEq, Eq)]
pub enum QdrantCompression {
    Gzip,
}

/// Why no client can be configured.
#[derive(Debug)]
pub enum QdrantConfigError {
    /// TLS is not supported for Qdrant connections.
    TlsUnsupported,
    /// Compression other than none or gzip.
    UnknownCompression(String),
}

/// The text of a Qdrant setting error.
pub open spec fn qdrant_config_message(e: QdrantConfigError) -> Seq<char> {
    match e {
        QdrantConfigError::TlsUnsupported => "TLS is not supported for Qdrant connection"@,
        QdrantConfigError::UnknownCompression(c) => "unknown qdrant compression '"@ + c@
            + "'; expected none|gzip"@,
    }
}

impl QdrantConfigError {
    /// The error's text.
    pub fn message(&self) -> (m: String)
        ensures
            m@ == qdrant_config_message(*self),
    {
        match self {
            QdrantConfigError::TlsUnsupported => String::from_str(
                "TLS is not supported for Qdrant connection",
            ),
            QdrantConfigError::UnknownCompression(c) => concat3(
                "unknown qdrant compression '",
                c.as_str(),
                "'; expected none|gzip",
            ),
        }
    }
}

/// How the Qdrant client is configured.
#[derive(Debug)]
pub struct QdrantClientPlan {
    pub uri: String,
    pub api_key: String,
    /// Milliseconds
    pub timeout_ms: u64,
    /// Milliseconds
    pub connect_timeout_ms: u64,
    pub keep_alive_while_idle: bool,
    pub custom_headers: Vec<(String, String)>,
    pub pool_size: usize,
    pub check_compatibility: bool,
    pub compression: Option<QdrantCompression>,
    /// Collection that must exist (it is created when missing).
    pub collection: String,
    /// Vector size of a created collection (cosine distance).
    pub dimension: u64,
}

/// The compression a setting names: absent or `none` means none, `gzip`
/// gzip, anything else is unknown (`Err`).
pub open spec fn qdrant_compression_spec(c: Option<String>) -> Result<Option<QdrantCompression>, ()> {
    match c {
        None => Ok(None),
        Some(s) => if s@ == "gzip"@ {
            Ok(Some(QdrantCompression::Gzip))
        } else if s@ == "none"@ {
            Ok(None)
        } else {
            Err(())
        },
    }
}

/// Plain HTTP address of the server.
pub open spec fn qdrant_uri(setting: QdrantSettingRepository) -> Seq<char> {
    "http://"@ + setting.host@ + ":"@ + decimal(setting.port as nat)
}

fn clone_headers(v: &Vec<(String, String)>) -> (r: Vec<(String, String)>)
    ensures
        r@.len() == v@.len(),
        forall|i: int| 0 <= i < v@.len() ==> (#[trigger] r@[i]).0@ == v@[i].0@ && r@[i].1@ == v@[i].1@,
{
    let mut out: Vec<(String, String)> = Vec::new();
    let n = v.len();
    let mut i: usize = 0;
    while i < n
        invariant
            i <= n,
            n == v@.len(),
            out@.len() == i,
            forall|j: int| 0 <= j < i ==> (#[trigger] out@[j]).0@ == v@[j].0@ && out@[j].1@ == v@[j].1@,
        decreases n - i,
    {
        out.push((v[i].0.clone(), v[i].1.clone()));
        i = i + 1;
    }
    out
}

/// Configures the client: TLS is refused first, then an unknown
/// compression.
pub fn plan_qdrant_client(setting: &QdrantSettingRepository) -> (r: Result<
    QdrantClientPlan,
    QdrantConfigError,
>)
    ensures
        setting.tls.is_enabled ==> (r matches Err(QdrantConfigError::TlsUnsupported)),
        !setting.tls.is_enabled ==> match qdrant_compression_spec(setting.compression) {
            Err(_) => r matches Err(QdrantConfigError::UnknownCompression(t))
                && Some(t@) == opt_text(setting.compression),
            Ok(c) => r matches Ok(p) && {
                &&& p.uri@ == qdrant_uri(*setting)
                &&& p.api_key@ == setting.api_key@
                &&& p.timeout_ms == setting.timeout_ms
                &&& p.connect_timeout_ms == setting.connect_timeout_ms
                &&& p.keep_alive_while_idle == setting.keep_alive_interval
                &&& p.custom_headers@.len() == setting.custom_headers@.len()
                &&& (forall|i: int|
                    0 <= i < setting.custom_headers@.len() ==> (#[trigger] p.custom_headers@[i]).0@
                        == setting.custom_headers@[i].0@ && p.custom_headers@[i].1@
                        == setting.custom_headers@[i].1@)
                &&& p.pool_size == setting.pool_size
                &&& p.check_compatibility == setting.check_compatibility
                &&& p.compression == c
                &&& p.collection@ == setting.collection@
                &&& p.dimension == setting.dimension
            },
        },
{
    if setting.tls.is_enabled {
        return Err(QdrantConfigError::TlsUnsupported);
    }
    let mut uri = String::new();
    uri.append("http://");
    uri.append(setting.host.as_str());
    uri.append(":");
    append_decimal(&mut uri, setting.port as u64);
    assert(uri@ =~= qdrant_uri(*setting));
    let compression = match &setting.compression {
        None => None,
        Some(c) => {
            if str_eq(c.as_str(), "gzip") {
                Some(QdrantCompression::Gzip)
            } else if str_eq(c.as_str(), "none") {
                None
            } else {
                return Err(QdrantConfigError::UnknownCompression(c.clone()));
            }
        },
    };
    Ok(
        QdrantClientPlan {
            uri,
            api_key: setting.api_key.clone(),
            timeout_ms: setting.timeout_ms,
            connect_timeout_ms: setting.connect_timeout_ms,
            keep_alive_while_idle: setting.keep_alive_interval,
            custom_headers: clone_headers(&setting.custom_headers),
            pool_size: setting.pool_size,
            check_compatibility: setting.check_compatibility,
            compression,
            collection: setting.collection.clone(),
            dimension: setting.dimension,
        },
    )
}

} // verus!
