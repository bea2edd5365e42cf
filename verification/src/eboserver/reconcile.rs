//! Reconcile-level logic of an `EboServer`: identifiers read from its
//! labels, the resources it should have, and the start of each round.

use vstd::prelude::*;

use crate::config::models::{EboConfig, IngressConfig};
use crate::eboserver::fsm::phases::preparing_for_password_reset::password_reset_job_name;
use crate::eboserver::fsm::phases::preparing_for_restore::restore_job_name;
use crate::eboserver::fsm::phases::preparing_for_upgrade::upgrade_job_name;
use crate::crd::v1alpha6::EboServerPhase;
use crate::events::OperatorEvent;
use crate::interval::Interval;
use crate::labels::{label_lookup, label_value};
use crate::strings::concat;

verus! {

/// The first of two labels that is set.
pub open spec fn first_label2(labels: Seq<(String, String)>, a: Seq<char>, b: Seq<char>) -> Option<
    Seq<char>,
> {
    match label_lookup(labels, a) {
        Some(v) => Some(v),
        None => label_lookup(labels, b),
    }
}

/// The first of three labels that is set.
pub open spec fn first_label3(
    labels: Seq<(String, String)>,
    a: Seq<char>,
    b: Seq<char>,
    c: Seq<char>,
) -> Option<Seq<char>> {
    match first_label2(labels, a, b) {
        Some(v) => Some(v),
        None => label_lookup(labels, c),
    }
}

fn first_label(labels: &Vec<(String, String)>, a: &str, b: &str) -> (r: Option<String>)
    ensures
        opt_seq(r) == first_label2(labels@, a@, b@),
{
    match label_value(labels, a) {
        Some(v) => Some(v),
        None => label_value(labels, b),
    }
}

/// An optional string by its view.
pub open spec fn opt_seq(o: Option<String>) -> Option<Seq<char>> {
    match o {
        Some(s) => Some(s@),
        None => None,
    }
}

/// The EBO system id: the label `eboserver.digbld.em.se.com/ebo-system-id`,
/// else `projectId`.
pub fn get_system_id(labels: &Vec<(String, String)>) -> (r: Option<String>)
    ensures
        opt_seq(r) == first_label2(
            labels@,
            "eboserver.digbld.em.se.com/ebo-system-id"@,
            "projectId"@,
        ),
{
    first_label(labels, "eboserver.digbld.em.se.com/ebo-system-id", "projectId")
}

/// The EBO system instance id: the label
/// `eboserver.digbld.em.se.com/ebo-system-instance-id`, else `projectId`.
pub fn get_system_instance_id(labels: &Vec<(String, String)>) -> (r: Option<String>)
    ensures
        opt_seq(r) == first_label2(
            labels@,
            "eboserver.digbld.em.se.com/ebo-system-instance-id"@,
            "projectId"@,
        ),
{
    first_label(labels, "eboserver.digbld.em.se.com/ebo-system-instance-id", "projectId")
}

/// The EBO server id: the label `eboserver.digbld.em.se.com/ebo-server-id`,
/// else `eboserverId`, else `systemId`.
pub fn get_server_id(labels: &Vec<(String, String)>) -> (r: Option<String>)
    ensures
        opt_seq(r) == first_label3(
            labels@,
            "eboserver.digbld.em.se.com/ebo-server-id"@,
            "eboserverId"@,
            "systemId"@,
        ),
{
    match first_label(labels, "eboserver.digbld.em.se.com/ebo-server-id", "eboserverId") {
        Some(v) => Some(v),
        None => label_value(labels, "systemId"),
    }
}

/// The EBO server instance id: the label
/// `eboserver.digbld.em.se.com/ebo-server-instance-id`, else `eboserverId`,
/// else `systemId`.
pub fn get_server_instance_id(labels: &Vec<(String, String)>) -> (r: Option<String>)
    ensures
        opt_seq(r) == first_label3(
            labels@,
            "eboserver.digbld.em.se.com/ebo-server-instance-id"@,
            "eboserverId"@,
            "systemId"@,
        ),
{
    match first_label(labels, "eboserver.digbld.em.se.com/ebo-server-instance-id", "eboserverId") {
        Some(v) => Some(v),
        None => label_value(labels, "systemId"),
    }
}

/// The NSP machine id, only when the configuration enables it: the label
/// `eboserver.digbld.em.se.com/nsp-machine-id`, else `nspMachineId`, else the
/// server id.
pub fn get_nsp_machine_id(labels: &Vec<(String, String)>, cfg: &EboConfig) -> (r: Option<String>)
    ensures
        opt_seq(r) == (if cfg.nsp_machine_id {
            match first_label2(
                labels@,
                "eboserver.digbld.em.se.com/nsp-machine-id"@,
                "nspMachineId"@,
            ) {
                Some(v) => Some(v),
                None => first_label3(
                    labels@,
                    "eboserver.digbld.em.se.com/ebo-server-id"@,
                    "eboserverId"@,
                    "systemId"@,
                ),
            }
        } else {
            None
        }),
{
    if cfg.nsp_machine_id {
        match first_label(labels, "eboserver.digbld.em.se.com/nsp-machine-id", "nspMachineId") {
            Some(v) => Some(v),
            None => get_server_id(labels),
        }
    } else {
        None
    }
}

/// Who deployed the server: the label `deployedBy`, else `<unknown>`.
pub open spec fn deployed_by_spec(labels: Seq<(String, String)>) -> Seq<char> {
    match label_lookup(labels, "deployedBy"@) {
        Some(v) => v,
        None => "<unknown>"@,
    }
}

/// Who deployed the server: the label `deployedBy`, else `<unknown>`.
pub fn get_deployed_by(labels: &Vec<(String, String)>) -> (r: String)
    ensures
        r@ == deployed_by_spec(labels@),
{
    match label_value(labels, "deployedBy") {
        Some(v) => v,
        None => String::from_str("<unknown>"),
    }
}

} // verus!

verus! {

/// How a reconcile round begins.
#[derive(Debug, Clone, PartialEq, Eq)]
pub enum RoundStart {
    /// The server has no phase yet: announce it, move it to `phase` and look
    /// again after `requeue`.
    Initialize { event: OperatorEvent, phase: EboServerPhase, requeue: Interval },
    /// Run the state machine from this phase.
    Run(EboServerPhase),
}

/// A server without a phase is announced as created and moved to
/// `Starting`, with a short requeue; a server with one runs the machine.
pub fn round_start(phase: Option<EboServerPhase>) -> (r: RoundStart)
    ensures
        match phase {
            None => r matches RoundStart::Initialize { event, phase: p, requeue } && event
                == OperatorEvent::EboCreated && p == EboServerPhase::Starting && requeue@ == (
            15u64, 0u32),
            Some(p) => r == RoundStart::Run(p),
        },
{
    match phase {
        None => RoundStart::Initialize {
            event: OperatorEvent::EboCreated,
            phase: EboServerPhase::Starting,
            requeue: Interval::from_secs(crate::eboserver::fsm::SHORT_REQUEUE_SECS),
        },
        Some(p) => RoundStart::Run(p),
    }
}

/// Whether an optional resource is to be applied or removed.
#[derive(Debug, Clone, Copy, PartialEq, Eq, Structural)]
pub enum Presence {
    Ensure,
    Delete,
}

/// What to do with the Istio resources of a server.
#[derive(Debug, Clone, Copy, PartialEq, Eq, Structural)]
pub enum IstioPlan {
    /// Apply the route, listener set and certificate.
    Ensure,
    /// Delete them, if the Istio namespace exists.
    DeleteIfNamespaceExists,
}

/// The optional resources of a server: the service, cron job and both
/// volume claims are always applied; the ingress follows the ingress
/// controller setting, the Istio resources the gateway setting.
#[derive(Debug, Clone, Copy, PartialEq, Eq)]
pub struct ResourcePlan {
    pub ingress: Presence,
    pub istio: IstioPlan,
}

/// The plan for the optional resources under `ingress`.
pub fn resource_plan(ingress: &IngressConfig) -> (p: ResourcePlan)
    ensures
        p.ingress == (if ingress.controller.enabled {
            Presence::Ensure
        } else {
            Presence::Delete
        }),
        p.istio == (if ingress.istio_gateway.enabled {
            IstioPlan::Ensure
        } else {
            IstioPlan::DeleteIfNamespaceExists
        }),
{
    ResourcePlan {
        ingress: if ingress.controller.enabled {
            Presence::Ensure
        } else {
            Presence::Delete
        },
        istio: if ingress.istio_gateway.enabled {
            IstioPlan::Ensure
        } else {
            IstioPlan::DeleteIfNamespaceExists
        },
    }
}

/// The names of a server's Istio resources, in the order route,
/// certificate, listener set.
#[derive(Debug, Clone, PartialEq, Eq)]
pub struct IstioNames {
    pub route: String,
    pub certificate: String,
    pub listener_set: String,
}

/// The Istio resource names of the server `name` in `ns`: the route is named
/// after the server, the certificate `{name}-{ns}-eboserver-tls-cert`, the
/// listener set `{name}-{ns}-listener`.
pub fn istio_names(name: &str, ns: &str) -> (n: IstioNames)
    ensures
        n.route@ == name@,
        n.certificate@ == name@ + "-"@ + ns@ + "-eboserver-tls-cert"@,
        n.listener_set@ == name@ + "-"@ + ns@ + "-listener"@,
{
    let a = concat(name, "-");
    let b = concat(a.as_str(), ns);
    IstioNames {
        route: String::from_str(name),
        certificate: concat(b.as_str(), "-eboserver-tls-cert"),
        listener_set: concat(b.as_str(), "-listener"),
    }
}

/// What removing a server involves: announcing it, and deleting its Istio
/// resources when the gateway is enabled.
#[derive(Debug, Clone, Copy, PartialEq, Eq)]
pub struct CleanupPlan {
    pub event: OperatorEvent,
    pub delete_istio: bool,
}

/// The cleanup of a deleted server under `ingress`.
pub fn cleanup_plan(ingress: &IngressConfig) -> (p: CleanupPlan)
    ensures
        p.event == OperatorEvent::EboDeleting,
        p.delete_istio == ingress.istio_gateway.enabled,
{
    CleanupPlan { event: OperatorEvent::EboDeleting, delete_istio: ingress.istio_gateway.enabled }
}

/// The name of a server's initial-password secret.
pub fn init_pass_secret_name(name: &str) -> (s: String)
    ensures
        s@ == name@ + "-init-pass"@,
{
    concat(name, "-init-pass")
}

/// The names of a server's jobs.
#[derive(Debug, Clone, PartialEq, Eq)]
pub struct JobNames {
    pub upgrade: String,
    pub password_reset: String,
    pub restore: String,
}

/// The names of the jobs of the server `name`: the same names the phase
/// handlers ask to create.
pub fn job_names(name: &str) -> (n: JobNames)
    ensures
        n.upgrade@ == upgrade_job_name(name@),
        n.password_reset@ == password_reset_job_name(name@),
        n.restore@ == restore_job_name(name@),
{
    JobNames {
        upgrade: concat(name, "-prepare-upgrade"),
        password_reset: concat(name, "-password-reset"),
        restore: concat(name, "-restore"),
    }
}

/// The name of a server's data volume claim.
pub fn data_pvc_name(name: &str) -> (s: String)
    ensures
        s@ == name@ + "-data"@,
{
    concat(name, "-data")
}

} // verus!
