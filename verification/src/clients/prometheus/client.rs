//! The client of the Prometheus API: the queries it makes for the volume
//! statistics of a server's backup volume.

use vstd::prelude::*;

use crate::strings::concat;
use super::config::PrometheusConfig;

verus! {

/// The metrics of the kubelet's volume statistics that are asked for.
#[derive(Debug, Clone, Copy, PartialEq, Eq, Structural)]
pub enum VolumeMetric {
    Capacity,
    Used,
    Available,
}

/// The name of a volume metric.
pub open spec fn volume_metric_name(m: VolumeMetric) -> Seq<char> {
    match m {
        VolumeMetric::Capacity => "kubelet_volume_stats_capacity_bytes"@,
        VolumeMetric::Used => "kubelet_volume_stats_used_bytes"@,
        VolumeMetric::Available => "kubelet_volume_stats_available_bytes"@,
    }
}

/// The instant query for a metric of the claim `pvc` in `ns`.
pub open spec fn volume_query_text(m: VolumeMetric, pvc: Seq<char>, ns: Seq<char>) -> Seq<char> {
    volume_metric_name(m) + "{namespace=\""@ + ns + "\", persistentvolumeclaim=\""@ + pvc + "\"}"@
}

/// `s` without its trailing slashes.
pub open spec fn without_trailing_slashes(s: Seq<char>) -> Seq<char>
    decreases s.len(),
{
    if s.len() > 0 && s.last() == '/' {
        without_trailing_slashes(s.drop_last())
    } else {
        s
    }
}

/// The client's side of the Prometheus API: its settings. Requests are sent
/// by the caller; this type says what to ask.
#[derive(Debug, Clone)]
pub struct PrometheusClient {
    pub cfg: PrometheusConfig,
}

impl PrometheusClient {
    /// A client with the given settings.
    pub fn new(cfg: PrometheusConfig) -> (c: PrometheusClient)
        ensures
            c.cfg == cfg,
    {
        PrometheusClient { cfg }
    }

    /// Whether the client is enabled.
    pub fn is_enabled(&self) -> (r: bool)
        ensures
            r == self.cfg.enabled,
    {
        self.cfg.enabled
    }

    /// The query endpoint under `base_url`, its trailing slashes dropped.
    pub fn query_url(base_url: &str) -> (u: String)
        ensures
            u@ == without_trailing_slashes(base_url@) + "/api/v1/query"@,
    {
        let mut n = base_url.unicode_len();
        assert(base_url@.subrange(0, n as int) =~= base_url@);
        while n > 0 && base_url.get_char(n - 1) == '/'
            invariant
                n <= base_url@.len(),
                without_trailing_slashes(base_url@) == without_trailing_slashes(
                    base_url@.subrange(0, n as int),
                ),
            decreases n,
        {
            assert(base_url@.subrange(0, n as int).drop_last() =~= base_url@.subrange(
                0,
                n - 1,
            ));
            n = n - 1;
        }
        assert(n == 0 || base_url@.subrange(0, n as int).last() != '/');
        let base = base_url.substring_char(0, n);
        concat(base, "/api/v1/query")
    }

    /// The claim that holds the backups of the server `name`.
    pub fn backup_pvc_name(name: &str) -> (pvc: String)
        ensures
            pvc@ == name@ + "-backup"@,
    {
        concat(name, "-backup")
    }

    /// The instant query for `metric` of the claim `pvc` in `ns`.
    pub fn volume_query(metric: VolumeMetric, pvc: &str, ns: &str) -> (q: String)
        ensures
            q@ == volume_query_text(metric, pvc@, ns@),
    {
        let name = match metric {
            VolumeMetric::Capacity => "kubelet_volume_stats_capacity_bytes",
            VolumeMetric::Used => "kubelet_volume_stats_used_bytes",
            VolumeMetric::Available => "kubelet_volume_stats_available_bytes",
        };
        let a = concat(name, "{namespace=\"");
        let b = concat(a.as_str(), ns);
        let c = concat(b.as_str(), "\", persistentvolumeclaim=\"");
        let d = concat(c.as_str(), pvc);
        concat(d.as_str(), "\"}")
    }
}

/// The query for a volume metric begins with the kubelet metric of that
/// name: capacity, used and available bytes.
pub proof fn lemma_volume_query_names_its_metric(m: VolumeMetric, pvc: Seq<char>, ns: Seq<char>)
    ensures
        m == VolumeMetric::Capacity ==> volume_query_text(m, pvc, ns).subrange(0, 35)
            == "kubelet_volume_stats_capacity_bytes"@,
        m == VolumeMetric::Used ==> volume_query_text(m, pvc, ns).subrange(0, 31)
            == "kubelet_volume_stats_used_bytes"@,
        m == VolumeMetric::Available ==> volume_query_text(m, pvc, ns).subrange(0, 36)
            == "kubelet_volume_stats_available_bytes"@,
{
    reveal_strlit("kubelet_volume_stats_capacity_bytes");
    reveal_strlit("kubelet_volume_stats_used_bytes");
    reveal_strlit("kubelet_volume_stats_available_bytes");
    let q = volume_query_text(m, pvc, ns);
    let n = volume_metric_name(m);
    assert(q.subrange(0, n.len() as int) =~= n);
}

/// Different metrics of the same claim give different queries: each query
/// asks for its own metric.
pub proof fn lemma_volume_queries_differ(
    m1: VolumeMetric,
    m2: VolumeMetric,
    pvc: Seq<char>,
    ns: Seq<char>,
)
    requires
        m1 != m2,
    ensures
        volume_query_text(m1, pvc, ns) != volume_query_text(m2, pvc, ns),
{
    reveal_strlit("kubelet_volume_stats_capacity_bytes");
    reveal_strlit("kubelet_volume_stats_used_bytes");
    reveal_strlit("kubelet_volume_stats_available_bytes");
    lemma_volume_query_names_its_metric(m1, pvc, ns);
    lemma_volume_query_names_its_metric(m2, pvc, ns);
    let q1 = volume_query_text(m1, pvc, ns);
    let q2 = volume_query_text(m2, pvc, ns);
    assert(q1.subrange(0, 31)[21] == q1[21]);
    assert(q2.subrange(0, 31)[21] == q2[21]);
    assert(q1[21] != q2[21]);
}

} // verus!
