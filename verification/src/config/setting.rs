use vstd::prelude::*;

verus! {

/// An IP address as written in a listening setting.
#[derive(Debug, Clone, Copy, PartialEq, Eq)]
pub enum IpAddress {
    V4([u8; 4]),
    V6([u16; 8]),
}

/// System setting
#[derive(Debug)]
pub struct SystemSetting {
    pub name: String,
    pub version: String,
    pub region: String,
    pub shard_id: String,
    pub timezone: String,
    pub mode: String,
}

/// --- TLS Setting (shared) ---
#[derive(Debug)]
pub struct TLSSetting {
    pub is_enabled: bool,
    pub cert_file: String,
    pub key_file: String,
    pub client_ca_file: Option<String>,
    pub require_client_cert: bool,
    pub min_version: String,
}

} // verus!
