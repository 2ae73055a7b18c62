//! gRPC client channels: which endpoints a service is reached at, how the
//! channel connects, its TLS material, and how a health check is judged.

use vstd::prelude::*;

use crate::config::setting_client::{GrpcClientSetting, GrpcClientsSetting};
use crate::text::{concat3, opt_text, str_eq, views};

verus! {

/// How the channel of a service connects.
#[derive(Debug, Clone, Copy, PartialEq, Eq)]
pub enum ChannelMode {
    /// One endpoint, connected on first use.
    Lazy,
    /// One endpoint, connected at startup.
    Eager,
    /// Several endpoints, balanced (connected on first use).
    Balanced,
}

/// Options applied to every endpoint of a channel.
#[derive(Debug, Clone, Copy)]
pub struct EndpointOptions {
    /// Milliseconds
    pub connect_timeout_ms: u64,
    pub tcp_nodelay: bool,
    /// Milliseconds
    pub tcp_keepalive_ms: u64,
    /// Milliseconds
    pub http2_keepalive_interval_ms: u64,
    /// Milliseconds
    pub keep_alive_timeout_ms: u64,
    pub keep_alive_while_idle: bool,
    pub http2_adaptive_window: bool,
}

/// The TLS material of a channel; the files are read when it is built.
#[derive(Debug)]
pub struct GrpcTlsPlan {
    /// Name checked against the server certificate, when an authority is set.
    pub domain_name: Option<String>,
    /// Client certificate and key files, when a client certificate is required.
    pub identity_files: Option<(String, String)>,
    /// File of the CA that signs the server certificate, when configured.
    pub ca_file: Option<String>,
}

/// How the channel of one service is built.
#[derive(Debug)]
pub struct ChannelPlan {
    pub uris: Vec<String>,
    pub mode: ChannelMode,
    pub tls: Option<GrpcTlsPlan>,
    pub options: EndpointOptions,
}

/// Why no channel can be planned.
#[derive(Debug)]
pub enum GrpcConnError {
    /// Static discovery without addresses.
    EmptyStaticAddresses,
    /// DNS discovery without a service name.
    MissingServiceName,
    /// Discovery other than `static` or `dns`.
    UnsupportedDiscovery(String),
    /// An endpoint URI that tonic does not accept.
    InvalidUri(String),
}

/// The text of a gRPC channel error.
pub open spec fn grpc_conn_message(e: GrpcConnError) -> Seq<char> {
    match e {
        GrpcConnError::EmptyStaticAddresses => "endpoint.addresses must not be empty for static discovery"@,
        GrpcConnError::MissingServiceName => "endpoint.service_name is required for dns discovery"@,
        GrpcConnError::UnsupportedDiscovery(d) => "unsupported endpoint discovery mode '"@ + d@
            + "'; expected 'static' or 'dns'"@,
        GrpcConnError::InvalidUri(u) => "parsing gRPC endpoint URI '"@ + u@ + "'"@,
    }
}

impl GrpcConnError {
    /// The error's text.
    pub fn message(&self) -> (m: String)
        ensures
            m@ == grpc_conn_message(*self),
    {
        match self {
            GrpcConnError::EmptyStaticAddresses => String::from_str(
                "endpoint.addresses must not be empty for static discovery",
            ),
            GrpcConnError::MissingServiceName => String::from_str(
                "endpoint.service_name is required for dns discovery",
            ),
            GrpcConnError::UnsupportedDiscovery(d) => concat3(
                "unsupported endpoint discovery mode '",
                d.as_str(),
                "'; expected 'static' or 'dns'",
            ),
            GrpcConnError::InvalidUri(u) => concat3("parsing gRPC endpoint URI '", u.as_str(), "'"),
        }
    }
}

/// `https` with TLS, `http` without.
pub open spec fn scheme(tls: bool) -> Seq<char> {
    if tls {
        "https"@
    } else {
        "http"@
    }
}

/// The URI of an address under a scheme.
pub open spec fn uri_of(tls: bool, addr: Seq<char>) -> Seq<char> {
    scheme(tls) + "://"@ + addr
}

/// Lazy or eager, as configured, for a single endpoint.
pub open spec fn single_mode(lazy: bool) -> ChannelMode {
    if lazy {
        ChannelMode::Lazy
    } else {
        ChannelMode::Eager
    }
}

/// The endpoint options a setting asks for.
pub open spec fn options_spec(cfg: GrpcClientSetting) -> EndpointOptions {
    EndpointOptions {
        connect_timeout_ms: cfg.connection.connect_timeout_ms,
        tcp_nodelay: cfg.connection.tcp_nodelay,
        tcp_keepalive_ms: cfg.keepalive.tcp_keepalive_ms,
        http2_keepalive_interval_ms: cfg.keepalive.http2_keepalive_interval_ms,
        keep_alive_timeout_ms: cfg.keepalive.http2_keepalive_timeout_ms,
        keep_alive_while_idle: cfg.keepalive.keepalive_while_idle,
        http2_adaptive_window: true,
    }
}

/// The TLS material a setting asks for.
pub open spec fn tls_plan_matches(cfg: GrpcClientSetting, t: GrpcTlsPlan) -> bool {
    &&& opt_text(t.domain_name) == opt_text(cfg.endpoint.authority)
    &&& (if cfg.tls.require_client_cert {
        t.identity_files matches Some(f) && f.0@ == cfg.tls.cert_file@ && f.1@ == cfg.tls.key_file@
    } else {
        t.identity_files is None
    })
    &&& opt_text(t.ca_file) == opt_text(cfg.tls.client_ca_file)
}

fn clone_opt(o: &Option<String>) -> (r: Option<String>)
    ensures
        opt_text(r) == opt_text(*o),
{
    match o {
        Some(s) => Some(s.clone()),
        None => None,
    }
}

/// The TLS material of a service's channel.
pub fn build_tls(cfg: &GrpcClientSetting) -> (t: GrpcTlsPlan)
    ensures
        tls_plan_matches(*cfg, t),
{
    let identity_files = if cfg.tls.require_client_cert {
        Some((cfg.tls.cert_file.clone(), cfg.tls.key_file.clone()))
    } else {
        None
    };
    GrpcTlsPlan {
        domain_name: clone_opt(&cfg.endpoint.authority),
        identity_files,
        ca_file: clone_opt(&cfg.tls.client_ca_file),
    }
}

/// The options applied to each endpoint.
pub fn make_endpoint_options(cfg: &GrpcClientSetting) -> (o: EndpointOptions)
    ensures
        o == options_spec(*cfg),
{
    EndpointOptions {
        connect_timeout_ms: cfg.connection.connect_timeout_ms,
        tcp_nodelay: cfg.connection.tcp_nodelay,
        tcp_keepalive_ms: cfg.keepalive.tcp_keepalive_ms,
        http2_keepalive_interval_ms: cfg.keepalive.http2_keepalive_interval_ms,
        keep_alive_timeout_ms: cfg.keepalive.http2_keepalive_timeout_ms,
        keep_alive_while_idle: cfg.keepalive.keepalive_while_idle,
        http2_adaptive_window: true,
    }
}

fn make_uri(tls: bool, addr: &str) -> (u: String)
    ensures
        u@ == uri_of(tls, addr@),
{
    let mut u = String::new();
    if tls {
        u.append("https");
    } else {
        u.append("http");
    }
    u.append("://");
    u.append(addr);
    u
}

/// Whether the discovery settings name endpoints at all: `static` with at
/// least one address, or `dns` with a service name.
pub open spec fn discovery_valid(cfg: GrpcClientSetting) -> bool {
    ||| cfg.endpoint.discovery@ == "static"@ && cfg.endpoint.addresses@.len() > 0
    ||| cfg.endpoint.discovery@ == "dns"@ && cfg.endpoint.service_name is Some
}

/// The URIs of a setting's endpoints: one per address for `static`, the
/// service name for `dns`.
pub open spec fn planned_uris(cfg: GrpcClientSetting) -> Seq<Seq<char>> {
    if cfg.endpoint.discovery@ == "static"@ {
        Seq::new(
            cfg.endpoint.addresses@.len(),
            |i: int| uri_of(cfg.tls.is_enabled, cfg.endpoint.addresses@[i]@),
        )
    } else {
        seq![uri_of(cfg.tls.is_enabled, cfg.endpoint.service_name->0@)]
    }
}

/// How the endpoints of a setting connect: one endpoint lazily or eagerly as
/// configured, several balanced.
pub open spec fn planned_mode(cfg: GrpcClientSetting) -> ChannelMode {
    if planned_uris(cfg).len() == 1 {
        single_mode(cfg.connection.lazy_connect)
    } else {
        ChannelMode::Balanced
    }
}

/// `p` is the channel plan of a setting whose discovery is valid.
pub open spec fn plan_matches(cfg: GrpcClientSetting, p: ChannelPlan) -> bool {
    &&& views(p.uris@) == planned_uris(cfg)
    &&& p.mode == planned_mode(cfg)
    &&& p.options == options_spec(cfg)
    &&& (cfg.tls.is_enabled <==> p.tls is Some)
    &&& (p.tls matches Some(t) ==> tls_plan_matches(cfg, t))
}

/// The error a setting whose discovery is not valid is refused with.
pub open spec fn discovery_error_matches(cfg: GrpcClientSetting, e: GrpcConnError) -> bool {
    if cfg.endpoint.discovery@ == "static"@ {
        e is EmptyStaticAddresses
    } else if cfg.endpoint.discovery@ == "dns"@ {
        e is MissingServiceName
    } else {
        e matches GrpcConnError::UnsupportedDiscovery(d) && d@ == cfg.endpoint.discovery@
    }
}

/// The scheme prefix of every endpoint URI: `https://` exactly when TLS is
/// enabled, whatever the discovery mode.
pub proof fn lemma_channel_uri_scheme(cfg: GrpcClientSetting)
    requires
        discovery_valid(cfg),
    ensures
        ({
            let prefix = if cfg.tls.is_enabled {
                "https://"@
            } else {
                "http://"@
            };
            &&& planned_uris(cfg).len() > 0
            &&& forall|i: int|
                0 <= i < planned_uris(cfg).len() ==> #[trigger] planned_uris(cfg)[i].take(
                    prefix.len() as int,
                ) == prefix
            &&& cfg.endpoint.discovery@ == "static"@ ==> planned_uris(cfg).len()
                == cfg.endpoint.addresses@.len() && forall|i: int|
                0 <= i < cfg.endpoint.addresses@.len() ==> #[trigger] planned_uris(cfg)[i] == prefix
                + cfg.endpoint.addresses@[i]@
            &&& cfg.endpoint.discovery@ != "static"@ ==> planned_uris(cfg) == seq![
                prefix + cfg.endpoint.service_name->0@,
            ]
        }),
{
    reveal_strlit("https");
    reveal_strlit("http");
    reveal_strlit("://");
    reveal_strlit("https://");
    reveal_strlit("http://");
    reveal_strlit("static");
    reveal_strlit("dns");
    assert("static"@.len() != "dns"@.len());
    let prefix = if cfg.tls.is_enabled {
        "https://"@
    } else {
        "http://"@
    };
    assert(scheme(cfg.tls.is_enabled) + "://"@ =~= prefix);
    assert forall|a: Seq<char>| #[trigger] uri_of(cfg.tls.is_enabled, a) == prefix + a by {
        assert(uri_of(cfg.tls.is_enabled, a) =~= prefix + a);
    }
    assert forall|i: int| 0 <= i < planned_uris(cfg).len() implies #[trigger] planned_uris(
        cfg,
    )[i].take(prefix.len() as int) == prefix by {
        let u = planned_uris(cfg)[i];
        if cfg.endpoint.discovery@ == "static"@ {
            assert(u == uri_of(cfg.tls.is_enabled, cfg.endpoint.addresses@[i]@));
            assert((prefix + cfg.endpoint.addresses@[i]@).take(prefix.len() as int) =~= prefix);
        } else {
            assert(u == uri_of(cfg.tls.is_enabled, cfg.endpoint.service_name->0@));
            assert((prefix + cfg.endpoint.service_name->0@).take(prefix.len() as int) =~= prefix);
        }
    }
    if cfg.endpoint.discovery@ != "static"@ {
        assert(planned_uris(cfg) =~= seq![prefix + cfg.endpoint.service_name->0@]);
    }
}

/// How the endpoints connect: several static addresses are balanced; a
/// single endpoint (one static address, or a DNS name) connects lazily
/// exactly when `lazy_connect` is set, else eagerly at startup.
pub proof fn lemma_channel_mode(cfg: GrpcClientSetting)
    requires
        discovery_valid(cfg),
    ensures
        (planned_mode(cfg) == ChannelMode::Balanced) <==> (cfg.endpoint.discovery@ == "static"@
            && cfg.endpoint.addresses@.len() > 1),
        planned_mode(cfg) != ChannelMode::Balanced ==> (planned_mode(cfg) == ChannelMode::Lazy
            <==> cfg.connection.lazy_connect),
{
    reveal_strlit("static");
    reveal_strlit("dns");
    assert("static"@.len() != "dns"@.len());
    if cfg.endpoint.discovery@ == "static"@ {
        assert(planned_uris(cfg).len() == cfg.endpoint.addresses@.len());
    } else {
        assert(planned_uris(cfg).len() == 1);
    }
}

/// Each TLS file of a channel is its own configured file: the client
/// certificate first and its key second, and the CA file; the server name
/// checked is the configured authority.
pub proof fn lemma_tls_files(cfg: GrpcClientSetting, t: GrpcTlsPlan)
    requires
        tls_plan_matches(cfg, t),
    ensures
        cfg.tls.require_client_cert ==> (t.identity_files matches Some(f) && f.0@
            == cfg.tls.cert_file@ && f.1@ == cfg.tls.key_file@),
        !cfg.tls.require_client_cert ==> t.identity_files is None,
        opt_text(t.ca_file) == opt_text(cfg.tls.client_ca_file),
        opt_text(t.domain_name) == opt_text(cfg.endpoint.authority),
{
}

/// Plans the channel of one service from its discovery settings.
///
/// - `static`: one URI per address (at least one is required); a single
///   endpoint connects lazily or eagerly as configured, several are
///   balanced.
/// - `dns`: one URI for the service name, which is required.
/// - Other discovery modes are refused.
///
/// URIs use `https` when TLS is enabled, else `http`.
pub fn plan_channel(cfg: &GrpcClientSetting) -> (r: Result<ChannelPlan, GrpcConnError>)
    ensures
        discovery_valid(*cfg) ==> (r matches Ok(p) && plan_matches(*cfg, p)),
        !discovery_valid(*cfg) ==> (r matches Err(e) && discovery_error_matches(*cfg, e)),
{
    let tls_on = cfg.tls.is_enabled;
    let tls = if tls_on {
        Some(build_tls(cfg))
    } else {
        None
    };
    let options = make_endpoint_options(cfg);
    let discovery = cfg.endpoint.discovery.as_str();
    if str_eq(discovery, "static") {
        let n = cfg.endpoint.addresses.len();
        if n == 0 {
            proof {
                reveal_strlit("static");
                reveal_strlit("dns");
                assert("static"@.len() != "dns"@.len());
            }
            return Err(GrpcConnError::EmptyStaticAddresses);
        }
        let mut uris: Vec<String> = Vec::new();
        let mut i: usize = 0;
        while i < n
            invariant
                i <= n,
                n == cfg.endpoint.addresses@.len(),
                uris@.len() == i,
                forall|j: int|
                    0 <= j < i ==> #[trigger] uris@[j]@ == uri_of(
                        tls_on,
                        cfg.endpoint.addresses@[j]@,
                    ),
            decreases n - i,
        {
            uris.push(make_uri(tls_on, cfg.endpoint.addresses[i].as_str()));
            i = i + 1;
        }
        assert(views(uris@) =~= planned_uris(*cfg));
        let mode = if n == 1 {
            if cfg.connection.lazy_connect {
                ChannelMode::Lazy
            } else {
                ChannelMode::Eager
            }
        } else {
            ChannelMode::Balanced
        };
        Ok(ChannelPlan { uris, mode, tls, options })
    } else if str_eq(discovery, "dns") {
        let name = match &cfg.endpoint.service_name {
            Some(n) => n,
            None => {
                return Err(GrpcConnError::MissingServiceName);
            },
        };
        let mut uris: Vec<String> = Vec::new();
        uris.push(make_uri(tls_on, name.as_str()));
        assert(views(uris@) =~= planned_uris(*cfg));
        let mode = if cfg.connection.lazy_connect {
            ChannelMode::Lazy
        } else {
            ChannelMode::Eager
        };
        Ok(ChannelPlan { uris, mode, tls, options })
    } else {
        Err(GrpcConnError::UnsupportedDiscovery(cfg.endpoint.discovery.clone()))
    }
}

/// Whether tonic's `Channel::from_shared` accepts this text as an endpoint
/// URI (its parse depends on the text alone).
pub uninterp spec fn endpoint_uri_accepted(uri: Seq<char>) -> bool;

/// `tonic::transport::Channel::from_shared` (which is
/// `Endpoint::from_shared`), reporting only whether the
/// text was accepted. The contract claims that the answer is the named
/// function `endpoint_uri_accepted` of the text; URI syntax is left
/// unstated.
#[verifier::external_body]
fn endpoint_uri_parses(uri: &str) -> (ok: bool)
    ensures
        ok == endpoint_uri_accepted(uri@),
{
    tonic::transport::Channel::from_shared(uri.to_owned()).is_ok()
}

/// Every entry is `true`.
pub open spec fn all_accepted(accepted: Seq<bool>) -> bool {
    forall|i: int| 0 <= i < accepted.len() ==> #[trigger] accepted[i]
}

/// `i` is the first position holding `false`.
pub open spec fn first_refused(accepted: Seq<bool>, i: int) -> bool {
    &&& 0 <= i < accepted.len()
    &&& !accepted[i]
    &&& forall|j: int| 0 <= j < i ==> #[trigger] accepted[j]
}

/// Whether tonic accepts each of these URIs.
pub open spec fn acceptance(uris: Seq<Seq<char>>) -> Seq<bool> {
    Seq::new(uris.len(), |i: int| endpoint_uri_accepted(uris[i]))
}

/// Keeps a plan whose endpoint URIs were all accepted (`accepted[i]` tells
/// whether `plan.uris[i]` was); otherwise refuses it with the first URI
/// that was not, as building the endpoints in order would.
pub fn check_endpoint_uris(plan: ChannelPlan, accepted: &Vec<bool>) -> (r: Result<
    ChannelPlan,
    GrpcConnError,
>)
    requires
        accepted@.len() == plan.uris@.len(),
    ensures
        all_accepted(accepted@) ==> r == Ok::<ChannelPlan, GrpcConnError>(plan),
        !all_accepted(accepted@) ==> (r matches Err(GrpcConnError::InvalidUri(u)) && exists|i: int|
            first_refused(accepted@, i) && u@ == plan.uris@[i]@),
{
    let n = accepted.len();
    let mut i: usize = 0;
    while i < n
        invariant
            i <= n,
            n == accepted@.len(),
            n == plan.uris@.len(),
            forall|j: int| 0 <= j < i ==> #[trigger] accepted@[j],
        decreases n - i,
    {
        if !accepted[i] {
            assert(first_refused(accepted@, i as int));
            return Err(GrpcConnError::InvalidUri(plan.uris[i].clone()));
        }
        i = i + 1;
    }
    Ok(plan)
}

/// Plans the channel of one service and checks that tonic accepts each
/// endpoint URI, as building the endpoints does: the discovery errors of
/// `plan_channel` first, then the first URI tonic refuses.
pub fn build_channel(cfg: &GrpcClientSetting) -> (r: Result<ChannelPlan, GrpcConnError>)
    ensures
        !discovery_valid(*cfg) ==> (r matches Err(e) && discovery_error_matches(*cfg, e)),
        discovery_valid(*cfg) && all_accepted(acceptance(planned_uris(*cfg))) ==> (r matches Ok(
            p,
        ) && plan_matches(*cfg, p)),
        discovery_valid(*cfg) && !all_accepted(acceptance(planned_uris(*cfg))) ==> (r matches Err(
            GrpcConnError::InvalidUri(u),
        ) && exists|i: int|
            first_refused(acceptance(planned_uris(*cfg)), i) && u@ == planned_uris(*cfg)[i]),
{
    let plan = match plan_channel(cfg) {
        Ok(p) => p,
        Err(e) => {
            return Err(e);
        },
    };
    let n = plan.uris.len();
    let mut accepted: Vec<bool> = Vec::new();
    let mut i: usize = 0;
    while i < n
        invariant
            i <= n,
            n == plan.uris@.len(),
            accepted@.len() == i,
            forall|j: int|
                0 <= j < i ==> #[trigger] accepted@[j] == endpoint_uri_accepted(plan.uris@[j]@),
        decreases n - i,
    {
        accepted.push(endpoint_uri_parses(plan.uris[i].as_str()));
        i = i + 1;
    }
    proof {
        assert(views(plan.uris@) == planned_uris(*cfg));
        assert(accepted@ =~= acceptance(planned_uris(*cfg))) by {
            assert forall|j: int| 0 <= j < n implies accepted@[j] == acceptance(
                planned_uris(*cfg),
            )[j] by {
                assert(views(plan.uris@)[j] == plan.uris@[j]@);
            }
        }
    }
    let ghost planned = plan;
    let r = check_endpoint_uris(plan, &accepted);
    proof {
        if !all_accepted(accepted@) {
            let u = r->Err_0->InvalidUri_0;
            let i = choose|i: int| first_refused(accepted@, i) && u@ == planned.uris@[i]@;
            assert(views(planned.uris@)[i] == planned.uris@[i]@);
        }
    }
    r
}

/// What startup does for one configured service.
#[derive(Debug)]
pub struct ServiceStartup {
    /// How its channel is built.
    pub plan: ChannelPlan,
    /// Whether its health is checked before startup goes on.
    pub health_check: bool,
}

/// Startup's decision for one configured service: nothing when the gRPC
/// clients are disabled; else the service's channel plan (or the error
/// that refuses it, as `build_channel` gives it) and whether its health is
/// checked, which it is exactly when the service asks for it.
pub fn service_startup(setting: &GrpcClientsSetting, cfg: &GrpcClientSetting) -> (r: Result<
    Option<ServiceStartup>,
    GrpcConnError,
>)
    ensures
        !setting.is_enabled ==> r matches Ok(None),
        setting.is_enabled && !discovery_valid(*cfg) ==> (r matches Err(e)
            && discovery_error_matches(*cfg, e)),
        setting.is_enabled && discovery_valid(*cfg) && all_accepted(
            acceptance(planned_uris(*cfg)),
        ) ==> (r matches Ok(Some(s)) && plan_matches(*cfg, s.plan) && s.health_check
            == cfg.health_check_enabled),
        setting.is_enabled && discovery_valid(*cfg) && !all_accepted(
            acceptance(planned_uris(*cfg)),
        ) ==> (r matches Err(GrpcConnError::InvalidUri(u)) && exists|i: int|
            first_refused(acceptance(planned_uris(*cfg)), i) && u@ == planned_uris(*cfg)[i]),
{
    if !setting.is_enabled {
        return Ok(None);
    }
    match build_channel(cfg) {
        Ok(plan) => Ok(Some(ServiceStartup { plan, health_check: cfg.health_check_enabled })),
        Err(e) => Err(e),
    }
}

// ---------------------------------------------------------------------------
// Health check
// ---------------------------------------------------------------------------

/// gRPC status code `UNIMPLEMENTED`.
pub const CODE_UNIMPLEMENTED: i32 = 12;
/// `grpc.health.v1` serving status `SERVING`.
pub const STATUS_SERVING: i32 = 1;

/// What a `grpc.health.v1.Health/Check` call came back with.
#[derive(Debug, Clone, Copy, PartialEq, Eq)]
pub enum HealthOutcome {
    /// No answer within the connect timeout.
    TimedOut,
    /// The call failed with this gRPC status code.
    RpcFailed(i32),
    /// The server answered with this serving status.
    Answered(i32),
}

/// How a health check is judged.
#[derive(Debug, Clone, Copy, PartialEq, Eq)]
pub enum HealthVerdict {
    /// The service is serving.
    Healthy,
    /// The server does not take part in the health protocol; not checked.
    Skipped,
    /// No answer in time.
    TimedOut,
    /// The call failed with this code.
    RpcFailed(i32),
    /// The service answered with a status other than serving.
    NotServing(i32),
}

/// The verdict on a health-check outcome: a server that answers
/// `UNIMPLEMENTED` has not opted in to the health protocol and is skipped;
/// a timeout, any other failed call, or a status other than serving is an
/// error.
pub open spec fn verdict_spec(o: HealthOutcome) -> HealthVerdict {
    match o {
        HealthOutcome::TimedOut => HealthVerdict::TimedOut,
        HealthOutcome::RpcFailed(code) => if code == CODE_UNIMPLEMENTED {
            HealthVerdict::Skipped
        } else {
            HealthVerdict::RpcFailed(code)
        },
        HealthOutcome::Answered(status) => if status == STATUS_SERVING {
            HealthVerdict::Healthy
        } else {
            HealthVerdict::NotServing(status)
        },
    }
}

/// Judges a health-check outcome.
pub fn health_verdict(outcome: HealthOutcome) -> (v: HealthVerdict)
    ensures
        v == verdict_spec(outcome),
{
    match outcome {
        HealthOutcome::TimedOut => HealthVerdict::TimedOut,
        HealthOutcome::RpcFailed(code) => {
            if code == CODE_UNIMPLEMENTED {
                HealthVerdict::Skipped
            } else {
                HealthVerdict::RpcFailed(code)
            }
        },
        HealthOutcome::Answered(status) => {
            if status == STATUS_SERVING {
                HealthVerdict::Healthy
            } else {
                HealthVerdict::NotServing(status)
            }
        },
    }
}

/// A health check lets startup go on exactly when the service answered
/// `SERVING` in time, or the call failed with `UNIMPLEMENTED`; a timeout,
/// every other failed call and every other serving status stop it.
pub proof fn lemma_health_check_passes(o: HealthOutcome)
    ensures
        verdict_passes(verdict_spec(o)) <==> (o == HealthOutcome::Answered(STATUS_SERVING) || o
            == HealthOutcome::RpcFailed(CODE_UNIMPLEMENTED)),
{
}

/// A verdict lets startup go on.
pub open spec fn verdict_passes(v: HealthVerdict) -> bool {
    v is Healthy || v is Skipped
}

/// Whether startup may go on after this verdict.
pub fn health_passes(v: HealthVerdict) -> (b: bool)
    ensures
        b == verdict_passes(v),
{
    match v {
        HealthVerdict::Healthy => true,
        HealthVerdict::Skipped => true,
        _ => false,
    }
}

} // verus!
