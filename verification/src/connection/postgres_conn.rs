//! The PostgreSQL connection parameters derived from the repository setting.

use vstd::prelude::*;

use crate::config::setting_repository::PostgresqlSettingRepository;
use crate::text::{
    append_decimal, concat3, decimal, find_last, is_digit, last_index_of, lemma_decimal_digits,
    lemma_last_index_found, lemma_parse_u16_of_decimal, parse_u16, parse_u16_spec,
};

verus! {

/// What a PostgreSQL connection is opened with.
#[derive(Debug)]
pub struct PgConnectionConfig {
    pub host: String,
    pub port: u16,
    pub dbname: String,
    pub user: String,
    pub password: String,
    pub application_name: String,
    /// Server options sent at connection start (`-c name=value ...`).
    pub options: String,
    /// Seconds
    pub connect_timeout_secs: u64,
    /// TLS is required (else disabled).
    pub ssl_required: bool,
}

/// Why the connection parameters cannot be derived.
#[derive(Debug)]
pub enum PgConfigError {
    /// `connection.address` is empty.
    EmptyAddress,
    /// The address has no `:` separating host and port.
    MissingPort(String),
    /// The text after the last `:` is not a port number.
    InvalidPort(String),
}

/// The text of a PostgreSQL setting error.
pub open spec fn pg_config_message(e: PgConfigError) -> Seq<char> {
    match e {
        PgConfigError::EmptyAddress => "postgresql.connection.address must not be empty"@,
        PgConfigError::MissingPort(a) => "address '"@ + a@ + "' must be host:port"@,
        PgConfigError::InvalidPort(p) => "port '"@ + p@ + "' is not a valid u16"@,
    }
}

impl PgConfigError {
    /// The error's text.
    pub fn message(&self) -> (m: String)
        ensures
            m@ == pg_config_message(*self),
    {
        match self {
            PgConfigError::EmptyAddress => String::from_str(
                "postgresql.connection.address must not be empty",
            ),
            PgConfigError::MissingPort(a) => concat3("address '", a.as_str(), "' must be host:port"),
            PgConfigError::InvalidPort(p) => concat3("port '", p.as_str(), "' is not a valid u16"),
        }
    }
}

/// The host part of `addr`: everything before its last `:`.
pub open spec fn host_part(addr: Seq<char>) -> Seq<char> {
    addr.subrange(0, last_index_of(addr, ':')->0)
}

/// The port part of `addr`: everything after its last `:`.
pub open spec fn port_part(addr: Seq<char>) -> Seq<char> {
    addr.subrange(last_index_of(addr, ':')->0 + 1, addr.len() as int)
}

/// An address written as `host:port` splits back into that host and port,
/// whatever the host holds (an IPv6 host's own colons included): the split
/// is at the last `:`, and a port is written without one.
pub proof fn lemma_address_splits_back(host: Seq<char>, port: u16)
    ensures
        ({
            let addr = host + seq![':'] + decimal(port as nat);
            &&& last_index_of(addr, ':') == Some(host.len() as int)
            &&& host_part(addr) == host
            &&& port_part(addr) == decimal(port as nat)
            &&& parse_u16_spec(port_part(addr)) == Some(port)
        }),
{
    let d = decimal(port as nat);
    let addr = host + seq![':'] + d;
    lemma_decimal_digits(port as nat);
    assert forall|j: int| host.len() < j < addr.len() implies addr[j] != ':' by {
        assert(addr[j] == d[j - host.len() - 1]);
        assert(is_digit(d[j - host.len() - 1]));
    }
    lemma_last_index_found(addr, ':', host.len() as int);
    assert(host_part(addr) =~= host);
    assert(port_part(addr) =~= d);
    lemma_parse_u16_of_decimal(port);
}

/// The server options: statement and idle-in-transaction timeouts in
/// milliseconds, and the session time zone.
pub open spec fn options_spec(setting: PostgresqlSettingRepository) -> Seq<char> {
    "-c statement_timeout="@ + decimal((setting.timeouts.statement_timeout * 1000) as nat)
        + " -c idle_in_transaction_session_timeout="@ + decimal(
        (setting.timeouts.idle_in_transaction_timeout * 1000) as nat,
    ) + " -c TimeZone="@ + setting.tz@
}

/// The connection parameters for a setting whose first address splits into
/// a host and a valid port. Only the first address is used.
pub open spec fn pg_config_matches(
    setting: PostgresqlSettingRepository,
    cfg: PgConnectionConfig,
) -> bool {
    let addr = setting.connection.address@[0]@;
    &&& cfg.host@ == host_part(addr)
    &&& Some(cfg.port) == parse_u16_spec(port_part(addr))
    &&& cfg.dbname@ == setting.connection.database@
    &&& cfg.user@ == setting.connection.username@
    &&& cfg.password@ == setting.connection.password@
    &&& cfg.application_name@ == setting.appname@
    &&& cfg.options@ == options_spec(setting)
    &&& cfg.connect_timeout_secs == setting.timeouts.connection_timeout
    &&& cfg.ssl_required == setting.tls.is_enabled
}

/// Derives the connection parameters from the first configured address
/// (`host:port`, split at the last `:`).
pub fn build_pg_config(setting: &PostgresqlSettingRepository) -> (r: Result<
    PgConnectionConfig,
    PgConfigError,
>)
    requires
        setting.timeouts.statement_timeout * 1000 <= u64::MAX,
        setting.timeouts.idle_in_transaction_timeout * 1000 <= u64::MAX,
    ensures
        setting.connection.address@.len() == 0 ==> r matches Err(PgConfigError::EmptyAddress),
        setting.connection.address@.len() > 0 ==> {
            let addr = setting.connection.address@[0]@;
            match last_index_of(addr, ':') {
                None => r matches Err(PgConfigError::MissingPort(a)) && a@ == addr,
                Some(_) => match parse_u16_spec(port_part(addr)) {
                    None => r matches Err(PgConfigError::InvalidPort(p)) && p@ == port_part(addr),
                    Some(_) => r matches Ok(cfg) && pg_config_matches(*setting, cfg),
                },
            }
        },
{
    let addrs = &setting.connection.address;
    if addrs.len() == 0 {
        return Err(PgConfigError::EmptyAddress);
    }
    let addr = addrs[0].as_str();
    let len = addr.unicode_len();
    let colon = match find_last(addr, ':') {
        Some(i) => i,
        None => {
            return Err(PgConfigError::MissingPort(addrs[0].clone()));
        },
    };
    let host = addr.substring_char(0, colon);
    let port_str = addr.substring_char(colon + 1, len);
    let port = match parse_u16(port_str) {
        Some(p) => p,
        None => {
            return Err(PgConfigError::InvalidPort(port_str.to_owned()));
        },
    };
    let t = &setting.timeouts;
    let mut options = String::new();
    options.append("-c statement_timeout=");
    append_decimal(&mut options, t.statement_timeout * 1000);
    options.append(" -c idle_in_transaction_session_timeout=");
    append_decimal(&mut options, t.idle_in_transaction_timeout * 1000);
    options.append(" -c TimeZone=");
    options.append(setting.tz.as_str());
    assert(options@ =~= options_spec(*setting));
    Ok(
        PgConnectionConfig {
            host: host.to_owned(),
            port,
            dbname: setting.connection.database.clone(),
            user: setting.connection.username.clone(),
            password: setting.connection.password.clone(),
            application_name: setting.appname.clone(),
            options,
            connect_timeout_secs: t.connection_timeout,
            ssl_required: setting.tls.is_enabled,
        },
    )
}

} // verus!
