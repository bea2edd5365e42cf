//! The management API of the servers and the Prometheus API: their
//! settings, the requests made to them and the reading of their answers.

pub mod mgmt;
pub mod prometheus;

use vstd::prelude::*;

use crate::config::models::AppConfig;

verus! {

/// Whether each client is enabled, in one place.
#[derive(Debug, Clone, Copy)]
pub struct Clients {
    pub mgmt_enabled: bool,
    pub prometheus_enabled: bool,
}

impl Clients {
    /// The clients' enabled flags under `config`.
    pub fn snapshot(config: &AppConfig) -> (c: Clients)
        ensures
            c.mgmt_enabled == config.mgmt.enabled,
            c.prometheus_enabled == config.prometheus.enabled,
    {
        Clients { mgmt_enabled: config.mgmt.enabled, prometheus_enabled: config.prometheus.enabled }
    }
}

/// The clients that are enabled, in the order `MGMT`, `Prometheus`.
pub open spec fn enabled_clients(mgmt: bool, prometheus: bool) -> Seq<Seq<char>> {
    let a: Seq<Seq<char>> = if mgmt {
        seq!["MGMT"@]
    } else {
        Seq::empty()
    };
    if prometheus {
        a.push("Prometheus"@)
    } else {
        a
    }
}

/// The views of a list of names.
pub open spec fn name_views(v: Seq<&'static str>) -> Seq<Seq<char>> {
    v.map_values(|s: &'static str| s@)
}

/// The enabled and the disabled clients under `config`, each in the order
/// `MGMT`, `Prometheus`: what the operator logs on start and on reload.
pub fn log_clients(config: &AppConfig) -> (r: (Vec<&'static str>, Vec<&'static str>))
    ensures
        name_views(r.0@) == enabled_clients(config.mgmt.enabled, config.prometheus.enabled),
        name_views(r.1@) == enabled_clients(!config.mgmt.enabled, !config.prometheus.enabled),
{
    let mut enabled: Vec<&'static str> = Vec::new();
    let mut disabled: Vec<&'static str> = Vec::new();
    if config.mgmt.enabled {
        enabled.push("MGMT");
    } else {
        disabled.push("MGMT");
    }
    if config.prometheus.enabled {
        enabled.push("Prometheus");
    } else {
        disabled.push("Prometheus");
    }
    assert(name_views(enabled@) =~= enabled_clients(
        config.mgmt.enabled,
        config.prometheus.enabled,
    ));
    assert(name_views(disabled@) =~= enabled_clients(
        !config.mgmt.enabled,
        !config.prometheus.enabled,
    ));
    (enabled, disabled)
}

} // verus!
