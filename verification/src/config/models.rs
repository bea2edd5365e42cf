//! The operator's configuration.

use vstd::prelude::*;

use crate::clients::mgmt::config::MGMTConfig;
use crate::clients::prometheus::config::PrometheusConfig;
use crate::interval::Interval;

verus! {

/// A toleration the server's pod carries, as Kubernetes defines it.
#[derive(Debug, Clone)]
pub struct Toleration {
    pub effect: Option<String>,
    pub key: Option<String>,
    pub operator: Option<String>,
    pub toleration_seconds: Option<i64>,
    pub value: Option<String>,
}

/// Image of the utility containers.
#[derive(Debug, Clone)]
pub struct Utils {
    pub registry: String,
    pub image: String,
}

/// Whether every field of `c` holds its type's default: false, zero, empty or absent.
pub open spec fn is_default_utils(c: Utils) -> bool {
    c.registry@ == Seq::<char>::empty()
    && c.image@ == Seq::<char>::empty()
}

impl Default for Utils {
    fn default() -> (c: Self)
        ensures
            is_default_utils(c),
    {
        Utils {
            registry: String::new(),
            image: String::new(),
        }
    }
}

/// One health probe of the server container.
#[derive(Debug, Clone)]
pub struct Probe {
    pub enabled: bool,
    pub initial_delay_seconds: Option<i32>,
    pub period_seconds: Option<i32>,
    pub timeout_seconds: Option<i32>,
    pub failure_threshold: Option<i32>,
    pub path: Option<String>,
}

/// Whether every field of `c` holds its type's default: false, zero, empty or absent.
pub open spec fn is_default_probe(c: Probe) -> bool {
    c.enabled == false
    && c.initial_delay_seconds is None
    && c.period_seconds is None
    && c.timeout_seconds is None
    && c.failure_threshold is None
    && c.path is None
}

impl Default for Probe {
    fn default() -> (c: Self)
        ensures
            is_default_probe(c),
    {
        Probe {
            enabled: false,
            initial_delay_seconds: None,
            period_seconds: None,
            timeout_seconds: None,
            failure_threshold: None,
            path: None,
        }
    }
}

/// The liveness and readiness probes.
#[derive(Debug, Clone)]
pub struct Probes {
    pub liveness: Probe,
    pub readiness: Probe,
}

/// Whether every field of `c` holds its type's default: false, zero, empty or absent.
pub open spec fn is_default_probes(c: Probes) -> bool {
    is_default_probe(c.liveness)
    && is_default_probe(c.readiness)
}

impl Default for Probes {
    fn default() -> (c: Self)
        ensures
            is_default_probes(c),
    {
        Probes {
            liveness: Probe::default(),
            readiness: Probe::default(),
        }
    }
}

/// Exposure through an ingress controller.
#[derive(Debug, Clone)]
pub struct IngressControllerConfig {
    pub enabled: bool,
    pub annotations: Option<Vec<(String, String)>>,
    pub cert_secret_name: String,
    pub ingress_class: String,
}

/// Whether every field of `c` holds its type's default: false, zero, empty or absent.
pub open spec fn is_default_ingresscontrollerconfig(c: IngressControllerConfig) -> bool {
    c.enabled == false
    && c.annotations is None
    && c.cert_secret_name@ == Seq::<char>::empty()
    && c.ingress_class@ == Seq::<char>::empty()
}

impl Default for IngressControllerConfig {
    fn default() -> (c: Self)
        ensures
            is_default_ingresscontrollerconfig(c),
    {
        IngressControllerConfig {
            enabled: false,
            annotations: None,
            cert_secret_name: String::new(),
            ingress_class: String::new(),
        }
    }
}

/// Exposure through an Istio gateway.
#[derive(Debug, Clone)]
pub struct IstioGatewayConfig {
    pub enabled: bool,
    pub gateway_name: String,
    pub istio_namespace: String,
    pub cert_issuer_name: String,
    pub cert_issuer_kind: String,
}

/// Whether every field of `c` holds its type's default: false, zero, empty or absent.
pub open spec fn is_default_istiogatewayconfig(c: IstioGatewayConfig) -> bool {
    c.enabled == false
    && c.gateway_name@ == Seq::<char>::empty()
    && c.istio_namespace@ == Seq::<char>::empty()
    && c.cert_issuer_name@ == Seq::<char>::empty()
    && c.cert_issuer_kind@ == Seq::<char>::empty()
}

impl Default for IstioGatewayConfig {
    fn default() -> (c: Self)
        ensures
            is_default_istiogatewayconfig(c),
    {
        IstioGatewayConfig {
            enabled: false,
            gateway_name: String::new(),
            istio_namespace: String::new(),
            cert_issuer_name: String::new(),
            cert_issuer_kind: String::new(),
        }
    }
}

/// How servers are exposed outside the cluster; common to ingress controllers and the Istio gateway.
#[derive(Debug, Clone)]
pub struct IngressConfig {
    pub domain: String,
    pub hostname_separator: String,
    pub namespace_in_domain: bool,
    pub controller: IngressControllerConfig,
    pub istio_gateway: IstioGatewayConfig,
}

/// Whether every field of `c` holds its type's default: false, zero, empty or absent.
pub open spec fn is_default_ingressconfig(c: IngressConfig) -> bool {
    c.domain@ == Seq::<char>::empty()
    && c.hostname_separator@ == Seq::<char>::empty()
    && c.namespace_in_domain == false
    && is_default_ingresscontrollerconfig(c.controller)
    && is_default_istiogatewayconfig(c.istio_gateway)
}

impl Default for IngressConfig {
    fn default() -> (c: Self)
        ensures
            is_default_ingressconfig(c),
    {
        IngressConfig {
            domain: String::new(),
            hostname_separator: String::new(),
            namespace_in_domain: false,
            controller: IngressControllerConfig::default(),
            istio_gateway: IstioGatewayConfig::default(),
        }
    }
}

/// An HTTP proxy for the server.
#[derive(Debug, Clone)]
pub struct Proxy {
    pub enabled: bool,
    pub address: String,
    pub no_proxy_list: String,
}

/// Whether every field of `c` holds its type's default: false, zero, empty or absent.
pub open spec fn is_default_proxy(c: Proxy) -> bool {
    c.enabled == false
    && c.address@ == Seq::<char>::empty()
    && c.no_proxy_list@ == Seq::<char>::empty()
}

impl Default for Proxy {
    fn default() -> (c: Self)
        ensures
            is_default_proxy(c),
    {
        Proxy {
            enabled: false,
            address: String::new(),
            no_proxy_list: String::new(),
        }
    }
}

/// The initial administrator password and how long beyond the default it stays valid.
#[derive(Debug, Clone)]
pub struct InitialPassword {
    pub enabled: bool,
    pub additional_time_limit: Interval,
}

/// Whether every field of `c` holds its type's default: false, zero, empty or absent.
pub open spec fn is_default_initialpassword(c: InitialPassword) -> bool {
    c.enabled == false
    && c.additional_time_limit@ == (0u64, 0u32)
}

impl Default for InitialPassword {
    fn default() -> (c: Self)
        ensures
            is_default_initialpassword(c),
    {
        InitialPassword {
            enabled: false,
            additional_time_limit: Interval::from_secs(0),
        }
    }
}

/// Settings for the servers the operator deploys. Label, annotation and node-selector maps are pairs in key order.
#[derive(Debug, Clone)]
pub struct EboConfig {
    pub labels: Option<Vec<(String, String)>>,
    pub annotations: Option<Vec<(String, String)>>,
    pub node_selector: Option<Vec<(String, String)>>,
    pub tolerations: Option<Vec<Toleration>>,
    pub probes: Probes,
    pub registry: String,
    pub pull_secret: Option<String>,
    pub custom_config_secret: String,
    pub backups: i8,
    pub environment: String,
    pub utils: Utils,
    pub ingress: IngressConfig,
    pub proxy: Proxy,
    pub initial_password: InitialPassword,
    pub nsp_machine_id: bool,
}

/// Whether every field of `c` holds its type's default: false, zero, empty or absent.
pub open spec fn is_default_eboconfig(c: EboConfig) -> bool {
    c.labels is None
    && c.annotations is None
    && c.node_selector is None
    && c.tolerations is None
    && is_default_probes(c.probes)
    && c.registry@ == Seq::<char>::empty()
    && c.pull_secret is None
    && c.custom_config_secret@ == Seq::<char>::empty()
    && c.backups == 0
    && c.environment@ == Seq::<char>::empty()
    && is_default_utils(c.utils)
    && is_default_ingressconfig(c.ingress)
    && is_default_proxy(c.proxy)
    && is_default_initialpassword(c.initial_password)
    && c.nsp_machine_id == false
}

impl Default for EboConfig {
    fn default() -> (c: Self)
        ensures
            is_default_eboconfig(c),
    {
        EboConfig {
            labels: None,
            annotations: None,
            node_selector: None,
            tolerations: None,
            probes: Probes::default(),
            registry: String::new(),
            pull_secret: None,
            custom_config_secret: String::new(),
            backups: 0,
            environment: String::new(),
            utils: Utils::default(),
            ingress: IngressConfig::default(),
            proxy: Proxy::default(),
            initial_password: InitialPassword::default(),
            nsp_machine_id: false,
        }
    }
}

/// The whole configuration of the operator.
#[derive(Debug, Clone)]
pub struct AppConfig {
    pub namespace_scope: Option<String>,
    pub ebo: EboConfig,
    pub mgmt: MGMTConfig,
    pub prometheus: PrometheusConfig,
}

impl AppConfig {
    /// The configuration used when none can be read: no namespace scope,
    /// default server settings, and both clients disabled with no address.
    pub fn fallback() -> (c: AppConfig)
        ensures
            c.namespace_scope is None,
            is_default_eboconfig(c.ebo),
            !c.mgmt.enabled && c.mgmt.api_url@ == Seq::<char>::empty(),
            !c.prometheus.enabled && c.prometheus.api_url@ == Seq::<char>::empty(),
    {
        AppConfig {
            namespace_scope: None,
            ebo: EboConfig::default(),
            mgmt: MGMTConfig::default(),
            prometheus: PrometheusConfig::default(),
        }
    }
}


/// The lowercase form of a text, as Unicode defines it.
pub uninterp spec fn lowercase(s: Seq<char>) -> Seq<char>;

/// Calls `str::to_lowercase`; the result is the named lowercase form of the
/// text.
#[verifier::external_body]
fn to_lowercase(s: &str) -> (r: String)
    ensures
        r@ == lowercase(s@),
{
    s.to_lowercase()
}

/// Whether an environment switch is on: it is set and reads `true` in any
/// case; an unset switch is off.
pub fn env_flag_enabled(value: Option<&str>) -> (on: bool)
    ensures
        on == (match value {
            Some(v) => lowercase(v@) == "true"@,
            None => false,
        }),
{
    match value {
        Some(v) => {
            let l = to_lowercase(v);
            crate::strings::str_eq(l.as_str(), "true")
        },
        None => false,
    }
}

} // verus!
