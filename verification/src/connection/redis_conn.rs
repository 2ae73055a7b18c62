//! Redis deployment modes and the connection URLs of each.

use vstd::prelude::*;

use crate::config::setting_repository::RedisSettingRepository;
use crate::text::{append_decimal, concat3, decimal, join, join_spec, str_eq, views};

verus! {

/// Which kind of pool a Redis deployment needs.
#[derive(Debug, Clone, Copy, PartialEq, Eq)]
pub enum RedisPoolKind {
    /// One server, possibly found through sentinels.
    Single,
    /// A Redis cluster.
    Cluster,
}

/// Why no Redis connection can be planned.
#[derive(Debug)]
pub enum RedisConnError {
    /// `type` names no known deployment.
    UnknownType(String),
    /// `type = standalone` without a `standalone` section.
    MissingStandalone,
    /// `type = sentinel` without a `sentinel` section.
    MissingSentinel,
    /// `type = cluster` without a `cluster` section.
    MissingCluster,
}

/// The text of a Redis connection error.
pub open spec fn redis_conn_message(e: RedisConnError) -> Seq<char> {
    match e {
        RedisConnError::UnknownType(t) => "unknown redis type '"@ + t@
            + "'; expected standalone|sentinel|cluster"@,
        RedisConnError::MissingStandalone => "standalone config missing for type=standalone"@,
        RedisConnError::MissingSentinel => "sentinel config missing for type=sentinel"@,
        RedisConnError::MissingCluster => "cluster config missing for type=cluster"@,
    }
}

impl RedisConnError {
    /// The error's text.
    pub fn message(&self) -> (m: String)
        ensures
            m@ == redis_conn_message(*self),
    {
        match self {
            RedisConnError::UnknownType(t) => concat3(
                "unknown redis type '",
                t.as_str(),
                "'; expected standalone|sentinel|cluster",
            ),
            RedisConnError::MissingStandalone => String::from_str(
                "standalone config missing for type=standalone",
            ),
            RedisConnError::MissingSentinel => String::from_str(
                "sentinel config missing for type=sentinel",
            ),
            RedisConnError::MissingCluster => String::from_str(
                "cluster config missing for type=cluster",
            ),
        }
    }
}

/// The pool kind that a deployment type names.
pub open spec fn pool_kind_spec(kind: Seq<char>) -> Option<RedisPoolKind> {
    if kind == "standalone"@ || kind == "sentinel"@ {
        Some(RedisPoolKind::Single)
    } else if kind == "cluster"@ {
        Some(RedisPoolKind::Cluster)
    } else {
        None
    }
}

/// `standalone` and `sentinel` use one pool, `cluster` a cluster pool; any
/// other type is refused.
pub fn pool_kind(setting: &RedisSettingRepository) -> (r: Result<RedisPoolKind, RedisConnError>)
    ensures
        match pool_kind_spec(setting.kind@) {
            Some(k) => r == Ok::<RedisPoolKind, RedisConnError>(k),
            None => r matches Err(RedisConnError::UnknownType(t)) && t@ == setting.kind@,
        },
{
    let t = setting.kind.as_str();
    if str_eq(t, "standalone") || str_eq(t, "sentinel") {
        Ok(RedisPoolKind::Single)
    } else if str_eq(t, "cluster") {
        Ok(RedisPoolKind::Cluster)
    } else {
        Err(RedisConnError::UnknownType(setting.kind.clone()))
    }
}

/// `rediss` with TLS, `redis` without.
pub open spec fn plain_scheme(tls: bool) -> Seq<char> {
    if tls {
        "rediss"@
    } else {
        "redis"@
    }
}

/// `redis+sentinels` with TLS, `redis+sentinel` without.
pub open spec fn sentinel_scheme(tls: bool) -> Seq<char> {
    if tls {
        "redis+sentinels"@
    } else {
        "redis+sentinel"@
    }
}

/// The URL of a standalone server: credentials only when a password is set.
pub open spec fn standalone_url_spec(setting: RedisSettingRepository) -> Seq<char>
    recommends
        setting.standalone is Some,
{
    let sa = setting.standalone->0;
    let scheme = plain_scheme(setting.tls.is_enabled);
    if setting.password@.len() == 0 {
        scheme + "://"@ + sa.host@ + ":"@ + decimal(sa.port as nat) + "/"@ + decimal(
            setting.db as nat,
        )
    } else {
        scheme + "://"@ + setting.username@ + ":"@ + setting.password@ + "@"@ + sa.host@ + ":"@
            + decimal(sa.port as nat) + "/"@ + decimal(setting.db as nat)
    }
}

/// The URL of a sentinel-managed server: all sentinels, the master name and
/// the database; sentinel credentials only when a sentinel password is set.
pub open spec fn sentinel_url_spec(setting: RedisSettingRepository) -> Seq<char>
    recommends
        setting.sentinel is Some,
{
    let se = setting.sentinel->0;
    let scheme = sentinel_scheme(setting.tls.is_enabled);
    let addrs = join_spec(views(se.sentinel_addrs@), ","@);
    if se.sentinel_password@.len() == 0 {
        scheme + "://"@ + addrs + "/"@ + se.master_name@ + "/"@ + decimal(setting.db as nat)
    } else {
        scheme + "://"@ + se.sentinel_username@ + ":"@ + se.sentinel_password@ + "@"@ + addrs
            + "/"@ + se.master_name@ + "/"@ + decimal(setting.db as nat)
    }
}

/// The URL of one cluster node: credentials only when a password is set.
pub open spec fn cluster_node_url_spec(setting: RedisSettingRepository, addr: Seq<char>) -> Seq<
    char,
> {
    let scheme = plain_scheme(setting.tls.is_enabled);
    if setting.password@.len() == 0 {
        scheme + "://"@ + addr
    } else {
        scheme + "://"@ + setting.username@ + ":"@ + setting.password@ + "@"@ + addr
    }
}

fn append_plain_scheme(s: &mut String, tls: bool)
    ensures
        final(s)@ == old(s)@ + plain_scheme(tls) + "://"@,
{
    if tls {
        s.append("rediss");
    } else {
        s.append("redis");
    }
    s.append("://");
}

/// The URL of the standalone server.
pub fn build_standalone_url(setting: &RedisSettingRepository) -> (r: Result<String, RedisConnError>)
    ensures
        match setting.standalone {
            Some(_) => r matches Ok(u) && u@ == standalone_url_spec(*setting),
            None => r matches Err(RedisConnError::MissingStandalone),
        },
{
    let standalone = match &setting.standalone {
        Some(s) => s,
        None => {
            return Err(RedisConnError::MissingStandalone);
        },
    };
    let mut url = String::new();
    append_plain_scheme(&mut url, setting.tls.is_enabled);
    if !setting.password.as_str().is_empty() {
        url.append(setting.username.as_str());
        url.append(":");
        url.append(setting.password.as_str());
        url.append("@");
    }
    url.append(standalone.host.as_str());
    url.append(":");
    append_decimal(&mut url, standalone.port as u64);
    url.append("/");
    append_decimal(&mut url, setting.db as u64);
    proof {
        assert(url@ =~= standalone_url_spec(*setting));
    }
    Ok(url)
}

/// The URL of the server behind the sentinels.
pub fn build_sentinel_url(setting: &RedisSettingRepository) -> (r: Result<String, RedisConnError>)
    ensures
        match setting.sentinel {
            Some(_) => r matches Ok(u) && u@ == sentinel_url_spec(*setting),
            None => r matches Err(RedisConnError::MissingSentinel),
        },
{
    let sentinel = match &setting.sentinel {
        Some(s) => s,
        None => {
            return Err(RedisConnError::MissingSentinel);
        },
    };
    let addrs = join(&sentinel.sentinel_addrs, ",");
    let mut url = String::new();
    if setting.tls.is_enabled {
        url.append("redis+sentinels");
    } else {
        url.append("redis+sentinel");
    }
    url.append("://");
    if !sentinel.sentinel_password.as_str().is_empty() {
        url.append(sentinel.sentinel_username.as_str());
        url.append(":");
        url.append(sentinel.sentinel_password.as_str());
        url.append("@");
    }
    url.append(addrs.as_str());
    url.append("/");
    url.append(sentinel.master_name.as_str());
    url.append("/");
    append_decimal(&mut url, setting.db as u64);
    proof {
        assert(url@ =~= sentinel_url_spec(*setting));
    }
    Ok(url)
}

/// The URL that the single pool connects to: through the sentinels for
/// `type = sentinel`, else the standalone server.
pub fn single_pool_url(setting: &RedisSettingRepository) -> (r: Result<String, RedisConnError>)
    ensures
        if setting.kind@ == "sentinel"@ {
            match setting.sentinel {
                Some(_) => r matches Ok(u) && u@ == sentinel_url_spec(*setting),
                None => r matches Err(RedisConnError::MissingSentinel),
            }
        } else {
            match setting.standalone {
                Some(_) => r matches Ok(u) && u@ == standalone_url_spec(*setting),
                None => r matches Err(RedisConnError::MissingStandalone),
            }
        },
{
    if str_eq(setting.kind.as_str(), "sentinel") {
        build_sentinel_url(setting)
    } else {
        build_standalone_url(setting)
    }
}

/// The nodes of a cluster and whether replicas serve reads.
#[derive(Debug)]
pub struct ClusterPlan {
    pub nodes: Vec<String>,
    pub read_only: bool,
}

/// One URL per configured cluster address, in order.
pub fn build_cluster_nodes(setting: &RedisSettingRepository) -> (r: Result<ClusterPlan, RedisConnError>)
    ensures
        match setting.cluster {
            Some(c) => r matches Ok(plan) && plan.read_only == c.read_only && plan.nodes@.len()
                == c.cluster_addrs@.len() && (forall|i: int|
                0 <= i < plan.nodes@.len() ==> #[trigger] plan.nodes@[i]@ == cluster_node_url_spec(
                    *setting,
                    c.cluster_addrs@[i]@,
                )),
            None => r matches Err(RedisConnError::MissingCluster),
        },
{
    let cluster = match &setting.cluster {
        Some(c) => c,
        None => {
            return Err(RedisConnError::MissingCluster);
        },
    };
    let mut nodes: Vec<String> = Vec::new();
    let n = cluster.cluster_addrs.len();
    let mut i: usize = 0;
    while i < n
        invariant
            i <= n,
            n == cluster.cluster_addrs@.len(),
            nodes@.len() == i,
            forall|j: int|
                0 <= j < i ==> #[trigger] nodes@[j]@ == cluster_node_url_spec(
                    *setting,
                    cluster.cluster_addrs@[j]@,
                ),
        decreases n - i,
    {
        let mut url = String::new();
        append_plain_scheme(&mut url, setting.tls.is_enabled);
        if !setting.password.as_str().is_empty() {
            url.append(setting.username.as_str());
            url.append(":");
            url.append(setting.password.as_str());
            url.append("@");
        }
        url.append(cluster.cluster_addrs[i].as_str());
        assert(url@ =~= cluster_node_url_spec(*setting, cluster.cluster_addrs@[i as int]@));
        nodes.push(url);
        i = i + 1;
    }
    Ok(ClusterPlan { nodes, read_only: cluster.read_only })
}

/// Every Redis URL names TLS in its scheme exactly when TLS is enabled: a
/// standalone server and each cluster node are reached at `rediss://` with
/// TLS and `redis://` without, the sentinels at `redis+sentinels://` with
/// TLS and `redis+sentinel://` without. A cluster node's URL ends with its
/// address, and carries the credentials only when a password is set.
pub proof fn lemma_redis_url_schemes(setting: RedisSettingRepository, addr: Seq<char>)
    ensures
        ({
            let plain = if setting.tls.is_enabled {
                "rediss://"@
            } else {
                "redis://"@
            };
            let sentinels = if setting.tls.is_enabled {
                "redis+sentinels://"@
            } else {
                "redis+sentinel://"@
            };
            &&& standalone_url_spec(setting).take(plain.len() as int) == plain
            &&& sentinel_url_spec(setting).take(sentinels.len() as int) == sentinels
            &&& cluster_node_url_spec(setting, addr) == plain + (if setting.password@.len() == 0 {
                addr
            } else {
                setting.username@ + ":"@ + setting.password@ + "@"@ + addr
            })
        }),
{
    reveal_strlit("rediss");
    reveal_strlit("redis");
    reveal_strlit("redis+sentinels");
    reveal_strlit("redis+sentinel");
    reveal_strlit("://");
    reveal_strlit("rediss://");
    reveal_strlit("redis://");
    reveal_strlit("redis+sentinels://");
    reveal_strlit("redis+sentinel://");
    let tls = setting.tls.is_enabled;
    let plain = if tls {
        "rediss://"@
    } else {
        "redis://"@
    };
    let sentinels = if tls {
        "redis+sentinels://"@
    } else {
        "redis+sentinel://"@
    };
    assert(plain_scheme(tls) + "://"@ =~= plain);
    assert(sentinel_scheme(tls) + "://"@ =~= sentinels);
    let sa = standalone_url_spec(setting);
    let se = sentinel_url_spec(setting);
    assert(sa.take(plain.len() as int) =~= plain);
    assert(se.take(sentinels.len() as int) =~= sentinels);
    assert(cluster_node_url_spec(setting, addr) =~= plain + (if setting.password@.len() == 0 {
        addr
    } else {
        setting.username@ + ":"@ + setting.password@ + "@"@ + addr
    }));
}

/// The database is named last: a standalone URL ends with `host:port/db`,
/// a sentinel URL with `/master/db`.
pub proof fn lemma_redis_url_database(setting: RedisSettingRepository)
    ensures
        ({
            let sa = setting.standalone->0;
            let tail = sa.host@ + ":"@ + decimal(sa.port as nat) + "/"@ + decimal(setting.db as nat);
            let u = standalone_url_spec(setting);
            u.len() >= tail.len() && u.subrange(u.len() - tail.len(), u.len() as int) == tail
        }),
        ({
            let se = setting.sentinel->0;
            let tail = "/"@ + se.master_name@ + "/"@ + decimal(setting.db as nat);
            let u = sentinel_url_spec(setting);
            u.len() >= tail.len() && u.subrange(u.len() - tail.len(), u.len() as int) == tail
        }),
{
    let sa = setting.standalone->0;
    let tail = sa.host@ + ":"@ + decimal(sa.port as nat) + "/"@ + decimal(setting.db as nat);
    let u = standalone_url_spec(setting);
    let scheme = plain_scheme(setting.tls.is_enabled);
    let head = if setting.password@.len() == 0 {
        scheme + "://"@
    } else {
        scheme + "://"@ + setting.username@ + ":"@ + setting.password@ + "@"@
    };
    assert(u =~= head + tail);
    assert(u.subrange(u.len() - tail.len(), u.len() as int) =~= tail);
    let se = setting.sentinel->0;
    let tail2 = "/"@ + se.master_name@ + "/"@ + decimal(setting.db as nat);
    let v = sentinel_url_spec(setting);
    let addrs = join_spec(views(se.sentinel_addrs@), ","@);
    let sscheme = sentinel_scheme(setting.tls.is_enabled);
    let head2 = if se.sentinel_password@.len() == 0 {
        sscheme + "://"@ + addrs
    } else {
        sscheme + "://"@ + se.sentinel_username@ + ":"@ + se.sentinel_password@ + "@"@ + addrs
    };
    assert(v =~= head2 + tail2);
    assert(v.subrange(v.len() - tail2.len(), v.len() as int) =~= tail2);
}

} // verus!
