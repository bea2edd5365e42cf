//! The in-memory side of managing one `EboServer`: the facts the operator
//! reads from its pod, jobs and volumes, and the status record it keeps.

use vstd::prelude::*;

use crate::crd::v1alpha6::{
    empty_status, EboAdminPasswordStatus, EboLicenseStatus, EboServerPhase, EboServerStatus,
    EboUpgradeStatus, EboWafStatus,
};
use crate::eboserver::fsm::types::{Effect, EffectView, effect_views, Transition};
use crate::eboserver::fsm::act::{final_transition, phase_after};
use crate::interval::Interval;
use crate::events::{event_kind, event_level, event_message, event_sent_to_k8s, Level, OperatorEvent};
use crate::labels::{label_lookup, label_value};
use crate::strings::{after_last, after_last_spec, str_eq};
use crate::clients::mgmt::client::is_lower_hex;

verus! {

/// One condition of a pod, such as `Ready` = `True`.
#[derive(Clone, Debug, PartialEq, Eq)]
pub struct PodConditionInfo {
    pub type_: String,
    pub status: String,
}

/// What the operator reads of one container's status. `waiting_reason` is
/// the reason of the container's waiting state, when it is waiting and one
/// is given.
#[derive(Clone, Debug, PartialEq, Eq)]
pub struct ContainerStatusInfo {
    pub name: String,
    pub image: String,
    pub restart_count: i32,
    pub waiting_reason: Option<String>,
}

/// What the operator reads of a pod's status.
#[derive(Clone, Debug, PartialEq, Eq)]
pub struct PodStatusInfo {
    pub phase: Option<String>,
    pub conditions: Option<Vec<PodConditionInfo>>,
    pub container_statuses: Option<Vec<ContainerStatusInfo>>,
}

/// What the operator reads of a pod: whether a deletion timestamp is set,
/// and its status.
#[derive(Clone, Debug, PartialEq, Eq)]
pub struct PodInfo {
    pub deletion_requested: bool,
    pub status: Option<PodStatusInfo>,
}

/// What the operator reads of a job's status: its count of succeeded pods.
#[derive(Clone, Debug, PartialEq, Eq)]
pub struct JobStatusInfo {
    pub succeeded: Option<i32>,
}

/// What the operator reads of a job.
#[derive(Clone, Debug, PartialEq, Eq)]
pub struct JobInfo {
    pub status: Option<JobStatusInfo>,
}

/// What the operator reads of a persistent volume claim: whether a deletion
/// timestamp is set, and the phase in its status.
#[derive(Clone, Debug, PartialEq, Eq)]
pub struct PvcInfo {
    pub deletion_requested: bool,
    pub phase: Option<String>,
}

/// A secret the operator found, by name.
#[derive(Clone, Debug, PartialEq, Eq)]
pub struct SecretInfo {
    pub name: String,
}

/// Whether an optional text is present and equal to `s`.
pub open spec fn opt_text_is(o: Option<String>, s: Seq<char>) -> bool {
    o is Some && o->0@ == s
}

fn opt_text_eq(o: &Option<String>, s: &str) -> (r: bool)
    ensures
        r == opt_text_is(*o, s@),
{
    match o {
        Some(v) => str_eq(v.as_str(), s),
        None => false,
    }
}

/// The pod's phase is `Running`.
pub open spec fn pod_running_spec(p: PodInfo) -> bool {
    p.status is Some && opt_text_is(p.status->0.phase, "Running"@)
}

/// The pod has a condition `Ready` whose status is `True`.
pub open spec fn pod_ready_spec(p: PodInfo) -> bool {
    &&& p.status is Some
    &&& p.status->0.conditions is Some
    &&& exists|i: int|
        0 <= i < p.status->0.conditions->0@.len() && (
        #[trigger] p.status->0.conditions->0@[i]).type_@ == "Ready"@
            && p.status->0.conditions->0@[i].status@ == "True"@
}

/// Some container of the pod is waiting with reason `CrashLoopBackOff`.
pub open spec fn crash_looping_spec(p: PodInfo) -> bool {
    &&& p.status is Some
    &&& p.status->0.container_statuses is Some
    &&& exists|i: int|
        0 <= i < p.status->0.container_statuses->0@.len() && opt_text_is(
            (#[trigger] p.status->0.container_statuses->0@[i]).waiting_reason,
            "CrashLoopBackOff"@,
        )
}

/// The sum of the restart counts of the containers.
pub open spec fn restart_sum(cs: Seq<ContainerStatusInfo>) -> int
    decreases cs.len(),
{
    if cs.len() == 0 {
        0
    } else {
        restart_sum(cs.drop_last()) + cs.last().restart_count as int
    }
}

/// Every partial sum of the restart counts, taken in order, fits in an `i32`.
pub open spec fn restart_sums_fit(cs: Seq<ContainerStatusInfo>) -> bool {
    forall|k: int|
        0 <= k <= cs.len() ==> i32::MIN <= #[trigger] restart_sum(cs.subrange(0, k))
            <= i32::MAX
}

/// The total restart count of a pod: the sum over its containers, 0 without
/// container statuses.
pub open spec fn total_restart_spec(p: PodInfo) -> int {
    if p.status is Some && p.status->0.container_statuses is Some {
        restart_sum(p.status->0.container_statuses->0@)
    } else {
        0
    }
}

/// The pod's phase is `Failed` or `Succeeded`.
pub open spec fn pod_stopped_spec(p: PodInfo) -> bool {
    p.status is Some && (opt_text_is(p.status->0.phase, "Failed"@) || opt_text_is(
        p.status->0.phase,
        "Succeeded"@,
    ))
}

/// The job has at least one succeeded pod.
pub open spec fn job_succeeded_spec(j: JobInfo) -> bool {
    j.status is Some && j.status->0.succeeded is Some && j.status->0.succeeded->0 > 0
}

/// Whether the pod's phase is `Running`.
pub fn is_pod_running(pod: &PodInfo) -> (r: bool)
    ensures
        r == pod_running_spec(*pod),
{
    match &pod.status {
        Some(st) => opt_text_eq(&st.phase, "Running"),
        None => false,
    }
}

/// Whether the pod has the condition `Ready` with status `True`.
pub fn is_pod_ready(p: &PodInfo) -> (r: bool)
    ensures
        r == pod_ready_spec(*p),
{
    let st = match &p.status {
        Some(st) => st,
        None => return false,
    };
    let conds = match &st.conditions {
        Some(c) => c,
        None => return false,
    };
    let mut i: usize = 0;
    while i < conds.len()
        invariant
            p.status == Some(*st),
            st.conditions == Some(*conds),
            i <= conds@.len(),
            forall|j: int|
                0 <= j < i ==> !((#[trigger] conds@[j]).type_@ == "Ready"@ && conds@[j].status@
                    == "True"@),
        decreases conds.len() - i,
    {
        if str_eq(conds[i].type_.as_str(), "Ready") && str_eq(conds[i].status.as_str(), "True") {
            assert(p.status->0.conditions->0@[i as int].type_@ == "Ready"@);
            return true;
        }
        i = i + 1;
    }
    false
}

/// Whether some container of the pod waits with reason `CrashLoopBackOff`.
pub fn is_crash_looping(p: &PodInfo) -> (r: bool)
    ensures
        r == crash_looping_spec(*p),
{
    let st = match &p.status {
        Some(st) => st,
        None => return false,
    };
    let cs = match &st.container_statuses {
        Some(c) => c,
        None => return false,
    };
    let mut i: usize = 0;
    while i < cs.len()
        invariant
            p.status == Some(*st),
            st.container_statuses == Some(*cs),
            i <= cs@.len(),
            forall|j: int|
                0 <= j < i ==> !opt_text_is(
                    (#[trigger] cs@[j]).waiting_reason,
                    "CrashLoopBackOff"@,
                ),
        decreases cs.len() - i,
    {
        if opt_text_eq(&cs[i].waiting_reason, "CrashLoopBackOff") {
            assert(opt_text_is(
                p.status->0.container_statuses->0@[i as int].waiting_reason,
                "CrashLoopBackOff"@,
            ));
            return true;
        }
        i = i + 1;
    }
    false
}

/// The sum of the restart counts of the pod's containers; 0 when it has no
/// container statuses. The sum is taken in order, each partial sum fitting
/// in an `i32`.
pub fn total_restart_count(p: &PodInfo) -> (r: i32)
    requires
        p.status is Some && p.status->0.container_statuses is Some ==> restart_sums_fit(
            p.status->0.container_statuses->0@,
        ),
    ensures
        r as int == total_restart_spec(*p),
{
    let st = match &p.status {
        Some(st) => st,
        None => return 0,
    };
    let cs = match &st.container_statuses {
        Some(c) => c,
        None => return 0,
    };
    let mut total: i32 = 0;
    let mut i: usize = 0;
    while i < cs.len()
        invariant
            p.status == Some(*st),
            st.container_statuses == Some(*cs),
            restart_sums_fit(cs@),
            i <= cs@.len(),
            total as int == restart_sum(cs@.subrange(0, i as int)),
        decreases cs.len() - i,
    {
        proof {
            let next = cs@.subrange(0, i + 1);
            assert(next.drop_last() =~= cs@.subrange(0, i as int));
            assert(i32::MIN <= restart_sum(next) <= i32::MAX);
        }
        total = total + cs[i].restart_count;
        i = i + 1;
    }
    assert(cs@.subrange(0, cs@.len() as int) =~= cs@);
    total
}

/// Whether the pod has a deletion timestamp.
pub fn is_pod_terminating(pod: &PodInfo) -> (r: bool)
    ensures
        r == pod.deletion_requested,
{
    pod.deletion_requested
}

/// Whether the claim has a deletion timestamp.
pub fn is_pvc_being_deleted(pvc: &PvcInfo) -> (r: bool)
    ensures
        r == pvc.deletion_requested,
{
    pvc.deletion_requested
}

/// Whether the claim's phase is `Pending`.
pub fn is_pvc_pending(pvc: &PvcInfo) -> (r: bool)
    ensures
        r == opt_text_is(pvc.phase, "Pending"@),
{
    opt_text_eq(&pvc.phase, "Pending")
}

/// Whether the pod's phase is `Failed` or `Succeeded`.
pub fn has_pod_stopped(pod: &PodInfo) -> (r: bool)
    ensures
        r == pod_stopped_spec(*pod),
{
    match &pod.status {
        Some(st) => opt_text_eq(&st.phase, "Failed") || opt_text_eq(&st.phase, "Succeeded"),
        None => false,
    }
}

/// Whether the job has at least one succeeded pod.
pub fn has_job_succeeded(job: &JobInfo) -> (r: bool)
    ensures
        r == job_succeeded_spec(*job),
{
    match &job.status {
        Some(st) => match st.succeeded {
            Some(s) => s > 0,
            None => false,
        },
        None => false,
    }
}

} // verus!

verus! {

/// A version-4 UUID in its hyphenated lowercase form: 36 characters, hyphens
/// at 8, 13, 18 and 23, lowercase hexadecimal digits elsewhere, the version
/// digit `4` at 14 and the variant digit (one of `8`, `9`, `a`, `b`) at 19.
pub open spec fn uuid_v4_shape(s: Seq<char>) -> bool {
    &&& s.len() == 36
    &&& s[8] == '-' && s[13] == '-' && s[18] == '-' && s[23] == '-'
    &&& forall|i: int|
        0 <= i < 36 && i != 8 && i != 13 && i != 18 && i != 23 ==> is_lower_hex(#[trigger] s[i])
    &&& s[14] == '4'
    &&& (s[19] == '8' || s[19] == '9' || s[19] == 'a' || s[19] == 'b')
}

/// Calls the `uuid` crate's `Uuid::new_v4()` and formats it. `new_v4` sets
/// the version and variant bits of a random value, and its `Display` form is
/// the hyphenated lowercase one. Which identifier comes out is random and
/// not stated.
#[verifier::external_body]
fn new_uuid_v4() -> (s: String)
    ensures
        uuid_v4_shape(s@),
{
    uuid::Uuid::new_v4().to_string()
}

/// A decimal digit.
pub open spec fn is_digit(c: char) -> bool {
    '0' <= c <= '9'
}

/// The text chrono's `to_rfc3339` writes for a time at offset zero: at
/// least 25 characters, ending in `+00:00`; when the year has four digits
/// (it begins with no sign), `YYYY-MM-DDTHH:MM:SS` in digits comes first.
pub open spec fn rfc3339_utc_shape(s: Seq<char>) -> bool {
    let n = s.len() as int;
    &&& n >= 25
    &&& s[n - 6] == '+' && s[n - 5] == '0' && s[n - 4] == '0' && s[n - 3] == ':'
        && s[n - 2] == '0' && s[n - 1] == '0'
    &&& (s[0] != '+' && s[0] != '-') ==> {
        &&& s[4] == '-' && s[7] == '-' && s[10] == 'T' && s[13] == ':' && s[16] == ':'
        &&& forall|i: int|
            0 <= i < 19 && i != 4 && i != 7 && i != 10 && i != 13 && i != 16 ==> is_digit(
                #[trigger] s[i],
            )
    }
}

/// Calls chrono's `Utc::now()` and formats it in RFC 3339 with its fixed
/// offset, which is zero. chrono writes `%Y-%m-%dT%H:%M:%S`, the nonzero
/// fraction of a second, and `+00:00`; a year outside 0 to 9999 is written
/// with its sign. Which moment it reads is not stated.
#[verifier::external_body]
fn now_rfc3339() -> (s: String)
    ensures
        rfc3339_utc_shape(s@),
{
    chrono::Utc::now().fixed_offset().to_rfc3339()
}

/// An optional text by its view.
pub open spec fn opt_view(o: Option<String>) -> Option<Seq<char>> {
    match o {
        Some(s) => Some(s@),
        None => None,
    }
}

/// The status a job is reported with: none without a job status,
/// `Succeeded` once a pod of it succeeded, `Running` before.
pub open spec fn job_status_text(job: Option<JobInfo>) -> Option<Seq<char>> {
    match job {
        Some(j) => match j.status {
            Some(st) => if st.succeeded is Some && st.succeeded->0 > 0 {
                Some("Succeeded"@)
            } else {
                Some("Running"@)
            },
            None => None,
        },
        None => None,
    }
}

/// The image of the last container named `nsp-servers`, or `current` when
/// there is none.
pub open spec fn last_server_image(cs: Seq<ContainerStatusInfo>, current: Option<String>) -> Option<
    String,
>
    decreases cs.len(),
{
    if cs.len() == 0 {
        current
    } else if cs.last().name@ == "nsp-servers"@ {
        Some(cs.last().image)
    } else {
        last_server_image(cs.drop_last(), current)
    }
}

/// The pod fields of a status after reading `pod`: its phase, and the image
/// of its `nsp-servers` container when it reports one (the image recorded
/// before stays otherwise).
pub open spec fn pod_fields_after(pod: Option<PodInfo>, status: EboServerStatus) -> (
    Option<String>,
    Option<String>,
) {
    match pod {
        Some(p) => match p.status {
            Some(st) => (
                st.phase,
                match st.container_statuses {
                    Some(cs) => last_server_image(cs@, status.pod_image),
                    None => status.pod_image,
                },
            ),
            None => (None, status.pod_image),
        },
        None => (None, status.pod_image),
    }
}

fn job_status_string(job: Option<&JobInfo>) -> (r: Option<String>)
    ensures
        opt_view(r) == job_status_text(match job {
            Some(j) => Some(*j),
            None => None,
        }),
{
    match job {
        Some(j) => match &j.status {
            Some(st) => {
                let done = match st.succeeded {
                    Some(s) => s > 0,
                    None => false,
                };
                if done {
                    Some(String::from_str("Succeeded"))
                } else {
                    Some(String::from_str("Running"))
                }
            },
            None => None,
        },
        None => None,
    }
}

fn clone_opt_string(o: &Option<String>) -> (r: Option<String>)
    ensures
        r == *o,
{
    match o {
        Some(s) => Some(s.clone()),
        None => None,
    }
}

} // verus!

verus! {

/// The record the operator keeps of one server while it reconciles it: the
/// server's name and namespace, its status as last read or written, and an
/// identifier.
pub struct EboServerManager {
    name: String,
    ns: String,
    status: EboServerStatus,
    pub id: String,
}

impl EboServerManager {
    /// The status as recorded in the manager.
    pub closed spec fn status_of(&self) -> EboServerStatus {
        self.status
    }

    /// The server's name.
    pub closed spec fn name_of(&self) -> Seq<char> {
        self.name@
    }

    /// The server's namespace.
    pub closed spec fn ns_of(&self) -> Seq<char> {
        self.ns@
    }

    /// The identifier.
    pub closed spec fn id_of(&self) -> Seq<char> {
        self.id@
    }

    /// A manager for the server `name` in `ns`, starting from its recorded
    /// status (an empty one if it has none). The identifier is the label
    /// `systemId` when it is set, and a new random UUID otherwise.
    pub fn new(
        name: String,
        ns: String,
        status: Option<EboServerStatus>,
        labels: &Vec<(String, String)>,
    ) -> (m: EboServerManager)
        ensures
            m.name_of() == name@,
            m.ns_of() == ns@,
            m.status_of() == (match status {
                Some(s) => s,
                None => empty_status(),
            }),
            label_lookup(labels@, "systemId"@) is Some ==> Some(m.id_of()) == label_lookup(
                labels@,
                "systemId"@,
            ),
            label_lookup(labels@, "systemId"@) is None ==> uuid_v4_shape(m.id_of()),
    {
        let status = match status {
            Some(s) => s,
            None => EboServerStatus::default(),
        };
        let id = match label_value(labels, "systemId") {
            Some(v) => v,
            None => new_uuid_v4(),
        };
        EboServerManager { name, ns, status, id }
    }

    /// The server's name.
    pub fn name(&self) -> (r: &String)
        ensures
            r@ == self.name_of(),
    {
        &self.name
    }

    /// The server's namespace.
    pub fn ns(&self) -> (r: &String)
        ensures
            r@ == self.ns_of(),
    {
        &self.ns
    }

    /// The recorded status.
    pub fn status(&self) -> (r: &EboServerStatus)
        ensures
            *r == self.status_of(),
    {
        &self.status
    }

    /// The recorded phase.
    pub fn phase(&self) -> (r: &Option<EboServerPhase>)
        ensures
            *r == self.status_of().phase,
    {
        &self.status.phase
    }

    /// The recorded image of the server container.
    pub fn pod_image(&self) -> (r: Option<&String>)
        ensures
            match r {
                Some(s) => self.status_of().pod_image == Some(*s),
                None => self.status_of().pod_image is None,
            },
    {
        self.status.pod_image.as_ref()
    }

    /// Records a move to `phase`.
    pub fn move_to(&mut self, phase: EboServerPhase)
        ensures
            final(self).status_of() == (EboServerStatus { phase: Some(phase), ..old(self).status_of() }),
            final(self).name_of() == old(self).name_of(),
            final(self).ns_of() == old(self).ns_of(),
    {
        self.status.phase = Some(phase);
    }

    /// Ends a reconcile round: records the phase that the forced transition,
    /// or else the decided one, leads to, and returns the decided requeue
    /// interval, which a forced transition does not change.
    pub fn finish_round(
        &mut self,
        forced: Option<Transition<EboServerPhase>>,
        decided: Transition<EboServerPhase>,
        requeue: Interval,
    ) -> (r: Interval)
        ensures
            r == requeue,
            final(self).status_of() == (EboServerStatus {
                phase: phase_after(old(self).status_of().phase, forced, decided),
                ..old(self).status_of()
            }),
            final(self).name_of() == old(self).name_of(),
            final(self).ns_of() == old(self).ns_of(),
    {
        if let Transition::To(next) = final_transition(forced, decided) {
            self.move_to(next);
        }
        requeue
    }

    /// Records what `pod` shows: its phase (none without a pod or a pod
    /// status) and the image of its last `nsp-servers` container.
    pub fn update_pod_status(&mut self, pod: Option<&PodInfo>)
        ensures
            ({
                let (phase, image) = pod_fields_after(
                    match pod {
                        Some(p) => Some(*p),
                        None => None,
                    },
                    old(self).status_of(),
                );
                final(self).status_of() == (EboServerStatus {
                    pod_phase: phase,
                    pod_image: image,
                    ..old(self).status_of()
                })
            }),
            final(self).name_of() == old(self).name_of(),
            final(self).ns_of() == old(self).ns_of(),
    {
        self.status.pod_phase = None;
        if let Some(p) = pod {
            if let Some(st) = &p.status {
                self.status.pod_phase = clone_opt_string(&st.phase);
                if let Some(css) = &st.container_statuses {
                    let ghost before = self.status;
                    let mut i: usize = 0;
                    while i < css.len()
                        invariant
                            i <= css@.len(),
                            self.name == old(self).name,
                            self.ns == old(self).ns,
                            self.status == (EboServerStatus {
                                pod_image: last_server_image(
                                    css@.subrange(0, i as int),
                                    before.pod_image,
                                ),
                                ..before
                            }),
                        decreases css.len() - i,
                    {
                        proof {
                            assert(css@.subrange(0, i + 1).drop_last() =~= css@.subrange(
                                0,
                                i as int,
                            ));
                        }
                        if str_eq(css[i].name.as_str(), "nsp-servers") {
                            self.status.pod_image = Some(css[i].image.clone());
                        }
                        i = i + 1;
                    }
                    assert(css@.subrange(0, css@.len() as int) =~= css@);
                }
            }
        }
    }

    /// Records the state of the upgrade job: none without a job or a job
    /// status, `Succeeded` once one of its pods succeeded, `Running` before.
    pub fn update_upgrade_job_status(&mut self, job: Option<&JobInfo>)
        ensures
            opt_view(final(self).status_of().upgrade_job_status) == job_status_text(
                match job {
                    Some(j) => Some(*j),
                    None => None,
                },
            ),
            final(self).status_of() == (EboServerStatus {
                upgrade_job_status: final(self).status_of().upgrade_job_status,
                ..old(self).status_of()
            }),
            final(self).name_of() == old(self).name_of(),
            final(self).ns_of() == old(self).ns_of(),
    {
        self.status.upgrade_job_status = job_status_string(job);
    }

    /// Records the state of the restore job: none without a job or a job
    /// status, `Succeeded` once one of its pods succeeded, `Running` before.
    pub fn update_restore_job_status(&mut self, job: Option<&JobInfo>)
        ensures
            opt_view(final(self).status_of().restore_job_status) == job_status_text(
                match job {
                    Some(j) => Some(*j),
                    None => None,
                },
            ),
            final(self).status_of() == (EboServerStatus {
                restore_job_status: final(self).status_of().restore_job_status,
                ..old(self).status_of()
            }),
            final(self).name_of() == old(self).name_of(),
            final(self).ns_of() == old(self).ns_of(),
    {
        self.status.restore_job_status = job_status_string(job);
    }

    /// Records the state of the password-reset job: none without a job or a job
    /// status, `Succeeded` once one of its pods succeeded, `Running` before.
    pub fn update_password_reset_job_status(&mut self, job: Option<&JobInfo>)
        ensures
            opt_view(final(self).status_of().password_reset_job_status) == job_status_text(
                match job {
                    Some(j) => Some(*j),
                    None => None,
                },
            ),
            final(self).status_of() == (EboServerStatus {
                password_reset_job_status: final(self).status_of().password_reset_job_status,
                ..old(self).status_of()
            }),
            final(self).name_of() == old(self).name_of(),
            final(self).ns_of() == old(self).ns_of(),
    {
        self.status.password_reset_job_status = job_status_string(job);
    }

    /// The firewall status; `NotReady` when none is recorded.
    pub fn get_waf_status(&self) -> (r: EboWafStatus)
        ensures
            r == (match self.status_of().waf_status {
                Some(v) => v,
                None => EboWafStatus::NotReady,
            }),
    {
        match self.status.waf_status {
            Some(v) => v,
            None => EboWafStatus::NotReady,
        }
    }

    /// Records the firewall status.
    pub fn update_waf_status(&mut self, value: EboWafStatus)
        ensures
            final(self).status_of() == (EboServerStatus { waf_status: Some(value), ..old(self).status_of() }),
            final(self).name_of() == old(self).name_of(),
            final(self).ns_of() == old(self).ns_of(),
    {
        self.status.waf_status = Some(value);
    }

    /// Whether the server is registered; no when nothing is recorded.
    pub fn get_registration_status(&self) -> (r: bool)
        ensures
            r == (match self.status_of().registered {
                Some(v) => v,
                None => false,
            }),
    {
        match self.status.registered {
            Some(v) => v,
            None => false,
        }
    }

    /// Records whether the server is registered.
    pub fn set_registration_status(&mut self, value: bool)
        ensures
            final(self).status_of() == (EboServerStatus { registered: Some(value), ..old(self).status_of() }),
            final(self).name_of() == old(self).name_of(),
            final(self).ns_of() == old(self).ns_of(),
    {
        self.status.registered = Some(value);
    }

    /// Whether the server is a top server; no when nothing is recorded.
    pub fn get_top_server_status(&self) -> (r: bool)
        ensures
            r == (match self.status_of().is_top_server {
                Some(v) => v,
                None => false,
            }),
    {
        match self.status.is_top_server {
            Some(v) => v,
            None => false,
        }
    }

    /// Records whether the server is a top server.
    pub fn set_top_server_status(&mut self, value: bool)
        ensures
            final(self).status_of() == (EboServerStatus { is_top_server: Some(value), ..old(self).status_of() }),
            final(self).name_of() == old(self).name_of(),
            final(self).ns_of() == old(self).ns_of(),
    {
        self.status.is_top_server = Some(value);
    }

    /// The license status; `NotActivated` when none is recorded.
    pub fn get_license_status(&self) -> (r: EboLicenseStatus)
        ensures
            r == (match self.status_of().license_status {
                Some(v) => v,
                None => EboLicenseStatus::NotActivated,
            }),
    {
        match self.status.license_status {
            Some(v) => v,
            None => EboLicenseStatus::NotActivated,
        }
    }

    /// Records the license status.
    pub fn update_license_status(&mut self, value: EboLicenseStatus)
        ensures
            final(self).status_of() == (EboServerStatus { license_status: Some(value), ..old(self).status_of() }),
            final(self).name_of() == old(self).name_of(),
            final(self).ns_of() == old(self).ns_of(),
    {
        self.status.license_status = Some(value);
    }

    /// The admin password status; `Temporary` when none is recorded.
    pub fn get_admin_password_status(&self) -> (r: EboAdminPasswordStatus)
        ensures
            r == (match self.status_of().admin_password_status {
                Some(v) => v,
                None => EboAdminPasswordStatus::Temporary,
            }),
    {
        match self.status.admin_password_status {
            Some(v) => v,
            None => EboAdminPasswordStatus::Temporary,
        }
    }

    /// Records the admin password status.
    pub fn update_admin_password_status(&mut self, value: EboAdminPasswordStatus)
        ensures
            final(self).status_of() == (EboServerStatus { admin_password_status: Some(value), ..old(self).status_of() }),
            final(self).name_of() == old(self).name_of(),
            final(self).ns_of() == old(self).ns_of(),
    {
        self.status.admin_password_status = Some(value);
    }

    /// Whether upgrades are disabled; no when nothing is recorded.
    pub fn get_upgrade_disabled(&self) -> (r: bool)
        ensures
            r == (match self.status_of().upgrade_disabled {
                Some(v) => v,
                None => false,
            }),
    {
        match self.status.upgrade_disabled {
            Some(v) => v,
            None => false,
        }
    }

    /// Records whether upgrades are disabled.
    pub fn set_upgrade_disabled(&mut self, value: bool)
        ensures
            final(self).status_of() == (EboServerStatus { upgrade_disabled: Some(value), ..old(self).status_of() }),
            final(self).name_of() == old(self).name_of(),
            final(self).ns_of() == old(self).ns_of(),
    {
        self.status.upgrade_disabled = Some(value);
    }

    /// The upgrade status; `Ready` when none is recorded.
    pub fn get_upgrade_status(&self) -> (r: EboUpgradeStatus)
        ensures
            r == (match self.status_of().upgrade_status {
                Some(v) => v,
                None => EboUpgradeStatus::Ready,
            }),
    {
        match self.status.upgrade_status {
            Some(v) => v,
            None => EboUpgradeStatus::Ready,
        }
    }

    /// Records the upgrade status.
    pub fn update_upgrade_status(&mut self, value: EboUpgradeStatus)
        ensures
            final(self).status_of() == (EboServerStatus { upgrade_status: Some(value), ..old(self).status_of() }),
            final(self).name_of() == old(self).name_of(),
            final(self).ns_of() == old(self).ns_of(),
    {
        self.status.upgrade_status = Some(value);
    }

    /// Whether a crash loop has been reported; no when nothing is recorded.
    pub fn get_crash_loop_reported(&self) -> (r: bool)
        ensures
            r == (match self.status_of().crash_loop_reported {
                Some(v) => v,
                None => false,
            }),
    {
        match self.status.crash_loop_reported {
            Some(v) => v,
            None => false,
        }
    }

    /// Records whether a crash loop has been reported.
    pub fn set_crash_loop_reported(&mut self, value: bool)
        ensures
            final(self).status_of() == (EboServerStatus { crash_loop_reported: Some(value), ..old(self).status_of() }),
            final(self).name_of() == old(self).name_of(),
            final(self).ns_of() == old(self).ns_of(),
    {
        self.status.crash_loop_reported = Some(value);
    }

    /// The recorded backup name; empty when none is recorded.
    pub fn get_backup_name(&self) -> (r: String)
        ensures
            r@ == (match self.status_of().backup_name {
                Some(v) => v@,
                None => Seq::empty(),
            }),
    {
        match &self.status.backup_name {
            Some(v) => v.clone(),
            None => String::new(),
        }
    }

    /// When the last restore was carried out; empty when never.
    pub fn get_restore_status(&self) -> (r: String)
        ensures
            r@ == (match self.status_of().last_restore {
                Some(v) => v@,
                None => Seq::empty(),
            }),
    {
        match &self.status.last_restore {
            Some(v) => v.clone(),
            None => String::new(),
        }
    }

    /// When the last password reset was carried out; empty when never.
    pub fn get_password_reset_mode_status(&self) -> (r: String)
        ensures
            r@ == (match self.status_of().last_password_reset_mode {
                Some(v) => v@,
                None => Seq::empty(),
            }),
    {
        match &self.status.last_password_reset_mode {
            Some(v) => v.clone(),
            None => String::new(),
        }
    }

    /// When the temporary password was last reset; empty when never.
    pub fn get_reset_temporary_password_status(&self) -> (r: String)
        ensures
            r@ == (match self.status_of().last_reset_temporary_password {
                Some(v) => v@,
                None => Seq::empty(),
            }),
    {
        match &self.status.last_reset_temporary_password {
            Some(v) => v.clone(),
            None => String::new(),
        }
    }

    /// Records the backup name.
    pub fn set_backup_name(&mut self, backup_name: String)
        ensures
            final(self).status_of() == (EboServerStatus {
                backup_name: Some(backup_name),
                ..old(self).status_of()
            }),
            final(self).name_of() == old(self).name_of(),
            final(self).ns_of() == old(self).ns_of(),
    {
        self.status.backup_name = Some(backup_name);
    }

    /// Records that a restore was carried out now, as the current UTC time in RFC 3339.
    pub fn set_restore_status(&mut self)
        ensures
            final(self).status_of().last_restore matches Some(t) && rfc3339_utc_shape(t@),
            final(self).status_of() == (EboServerStatus {
                last_restore: final(self).status_of().last_restore,
                ..old(self).status_of()
            }),
            final(self).name_of() == old(self).name_of(),
            final(self).ns_of() == old(self).ns_of(),
    {
        self.status.last_restore = Some(now_rfc3339());
    }

    /// Records that a password reset was carried out now, as the current UTC time in RFC 3339.
    pub fn set_password_reset_mode_status(&mut self)
        ensures
            final(self).status_of().last_password_reset_mode matches Some(t) && rfc3339_utc_shape(t@),
            final(self).status_of() == (EboServerStatus {
                last_password_reset_mode: final(self).status_of().last_password_reset_mode,
                ..old(self).status_of()
            }),
            final(self).name_of() == old(self).name_of(),
            final(self).ns_of() == old(self).ns_of(),
    {
        self.status.last_password_reset_mode = Some(now_rfc3339());
    }

    /// Records that the temporary password was reset now, as the current UTC time in RFC 3339.
    pub fn set_reset_temporary_password_status(&mut self)
        ensures
            final(self).status_of().last_reset_temporary_password matches Some(t) && rfc3339_utc_shape(t@),
            final(self).status_of() == (EboServerStatus {
                last_reset_temporary_password: final(self).status_of().last_reset_temporary_password,
                ..old(self).status_of()
            }),
            final(self).name_of() == old(self).name_of(),
            final(self).ns_of() == old(self).ns_of(),
    {
        self.status.last_reset_temporary_password = Some(now_rfc3339());
    }

    /// The version of the running server: the tag of the recorded image,
    /// that is what follows its last `:` (all of it without one); empty
    /// when no image is recorded.
    pub fn get_running_ebo_version(&self) -> (r: &str)
        ensures
            r@ == (match self.status_of().pod_image {
                Some(img) => after_last_spec(img@, ':'),
                None => Seq::empty(),
            }),
    {
        match &self.status.pod_image {
            Some(img) => after_last(img.as_str(), ':'),
            None => {
                proof {
                    reveal_strlit("");
                }
                ""
            },
        }
    }
}

} // verus!

verus! {

/// A pod is ready as soon as any of its conditions, at whatever position,
/// is `Ready` with status `True`.
pub proof fn lemma_pod_ready_from_any_condition(p: PodInfo, i: int)
    requires
        p.status is Some,
        p.status->0.conditions is Some,
        0 <= i < p.status->0.conditions->0@.len(),
        p.status->0.conditions->0@[i].type_@ == "Ready"@,
        p.status->0.conditions->0@[i].status@ == "True"@,
    ensures
        pod_ready_spec(p),
{
}

/// A pod none of whose conditions is `Ready` with status `True` (or that
/// reports no conditions) is not ready.
pub proof fn lemma_pod_not_ready_without_ready_condition(p: PodInfo)
    requires
        p.status is Some && p.status->0.conditions is Some ==> forall|i: int|
            0 <= i < p.status->0.conditions->0@.len() ==> !((#[trigger] p.status->0.conditions->0@[
                i
            ]).type_@ == "Ready"@ && p.status->0.conditions->0@[i].status@ == "True"@),
    ensures
        !pod_ready_spec(p),
{
}

/// A pod is running exactly when its status reports the phase `Running`.
pub proof fn lemma_pod_running_iff_phase_running(p: PodInfo)
    ensures
        pod_running_spec(p) <==> (p.status is Some && p.status->0.phase is Some
            && p.status->0.phase->0@ == "Running"@),
{
}

/// A pod is crash-looping as soon as any of its containers, at whatever
/// position, waits with reason `CrashLoopBackOff`.
pub proof fn lemma_crash_loop_from_any_container(p: PodInfo, i: int)
    requires
        p.status is Some,
        p.status->0.container_statuses is Some,
        0 <= i < p.status->0.container_statuses->0@.len(),
        p.status->0.container_statuses->0@[i].waiting_reason is Some,
        p.status->0.container_statuses->0@[i].waiting_reason->0@ == "CrashLoopBackOff"@,
    ensures
        crash_looping_spec(p),
{
}

proof fn lemma_last_server_image_at(cs: Seq<ContainerStatusInfo>, current: Option<String>, i: int)
    requires
        0 <= i < cs.len(),
        cs[i].name@ == "nsp-servers"@,
        forall|j: int| i < j < cs.len() ==> (#[trigger] cs[j]).name@ != "nsp-servers"@,
    ensures
        last_server_image(cs, current) == Some(cs[i].image),
    decreases cs.len(),
{
    if i < cs.len() - 1 {
        assert(cs.last() == cs[cs.len() - 1]);
        let d = cs.drop_last();
        assert forall|j: int| i < j < d.len() implies (#[trigger] d[j]).name@ != "nsp-servers"@ by {
            assert(d[j] == cs[j]);
        }
        lemma_last_server_image_at(d, current, i);
    }
}

proof fn lemma_last_server_image_none(cs: Seq<ContainerStatusInfo>, current: Option<String>)
    requires
        forall|j: int| 0 <= j < cs.len() ==> (#[trigger] cs[j]).name@ != "nsp-servers"@,
    ensures
        last_server_image(cs, current) == current,
    decreases cs.len(),
{
    if cs.len() > 0 {
        assert(cs.last() == cs[cs.len() - 1]);
        let d = cs.drop_last();
        assert forall|j: int| 0 <= j < d.len() implies (#[trigger] d[j]).name@ != "nsp-servers"@ by {
            assert(d[j] == cs[j]);
        }
        lemma_last_server_image_none(d, current);
    }
}

/// Reading a pod records as the server image that of the last container
/// named `nsp-servers` among its container statuses; containers with other
/// names never change the recorded image, so with no `nsp-servers`
/// container the image recorded before stays. The pod phase recorded is the
/// pod's.
pub proof fn lemma_pod_image_from_server_container(p: PodInfo, status: EboServerStatus, i: int)
    requires
        p.status is Some,
        p.status->0.container_statuses is Some,
        0 <= i < p.status->0.container_statuses->0@.len() ==> (
        p.status->0.container_statuses->0@[i].name@ == "nsp-servers"@ && forall|j: int|
            i < j < p.status->0.container_statuses->0@.len() ==> (
            #[trigger] p.status->0.container_statuses->0@[j]).name@ != "nsp-servers"@),
        !(0 <= i < p.status->0.container_statuses->0@.len()) ==> forall|j: int|
            0 <= j < p.status->0.container_statuses->0@.len() ==> (
            #[trigger] p.status->0.container_statuses->0@[j]).name@ != "nsp-servers"@,
    ensures
        pod_fields_after(Some(p), status).0 == p.status->0.phase,
        0 <= i < p.status->0.container_statuses->0@.len() ==> pod_fields_after(Some(p), status).1
            == Some(p.status->0.container_statuses->0@[i].image),
        !(0 <= i < p.status->0.container_statuses->0@.len()) ==> pod_fields_after(
            Some(p),
            status,
        ).1 == status.pod_image,
{
    let cs = p.status->0.container_statuses->0@;
    if 0 <= i < cs.len() {
        lemma_last_server_image_at(cs, status.pod_image, i);
    } else {
        lemma_last_server_image_none(cs, status.pod_image);
    }
}

/// What a manager reads back is what was written: after a move to a phase
/// the phase is that one; after recording a backup name, an upgrade status,
/// whether upgrades are disabled, a crash-loop report or an admin password
/// status, the matching getter returns it.
pub proof fn lemma_read_after_write(
    s: EboServerStatus,
    phase: EboServerPhase,
    backup_name: String,
    upgrade: EboUpgradeStatus,
    disabled: bool,
    reported: bool,
    password: EboAdminPasswordStatus,
)
    ensures
        (EboServerStatus { phase: Some(phase), ..s }).phase == Some(phase),
        (match (EboServerStatus { backup_name: Some(backup_name), ..s }).backup_name {
            Some(v) => v@,
            None => Seq::empty(),
        }) == backup_name@,
        (match (EboServerStatus { upgrade_status: Some(upgrade), ..s }).upgrade_status {
            Some(v) => v,
            None => EboUpgradeStatus::Ready,
        }) == upgrade,
        (match (EboServerStatus { upgrade_disabled: Some(disabled), ..s }).upgrade_disabled {
            Some(v) => v,
            None => false,
        }) == disabled,
        (match (EboServerStatus { crash_loop_reported: Some(reported), ..s }).crash_loop_reported {
            Some(v) => v,
            None => false,
        }) == reported,
        (match (EboServerStatus { admin_password_status: Some(password), ..s }).admin_password_status {
            Some(v) => v,
            None => EboAdminPasswordStatus::Temporary,
        }) == password,
{
}

/// The type of a Kubernetes event.
#[derive(Debug, Clone, Copy, PartialEq, Eq, Structural)]
pub enum EventType {
    Normal,
    Warning,
}

/// A Kubernetes event about the server, as the operator publishes it.
#[derive(Debug, Clone, PartialEq, Eq)]
pub struct EventRecord {
    pub type_: EventType,
    pub reason: String,
    pub note: String,
    pub action: String,
}

/// Informational events are normal; warnings and errors are warnings.
pub open spec fn event_type_for(level: Level) -> EventType {
    match level {
        Level::Info => EventType::Normal,
        Level::Warning | Level::Error => EventType::Warning,
    }
}

/// The Kubernetes event published for `kind`: of the type its level calls
/// for, with its kind as reason, its message as note and the action
/// `PhaseUpdated`; none when the kind is not sent to Kubernetes.
pub fn event_record(kind: OperatorEvent) -> (r: Option<EventRecord>)
    ensures
        r is Some == event_sent_to_k8s(kind),
        r is Some ==> {
            &&& r->0.type_ == event_type_for(event_level(kind))
            &&& r->0.reason@ == event_kind(kind)
            &&& r->0.note@ == event_message(kind)
            &&& r->0.action@ == "PhaseUpdated"@
        },
{
    if !kind.send_to_k8s() {
        return None;
    }
    let type_ = match kind.level() {
        Level::Info => EventType::Normal,
        Level::Warning | Level::Error => EventType::Warning,
    };
    Some(
        EventRecord {
            type_,
            reason: String::from_str(kind.kind()),
            note: String::from_str(kind.message()),
            action: String::from_str("PhaseUpdated"),
        },
    )
}

/// What follows the management API's answer on the admin password, in
/// order: an active password is recorded and then announced, an expired one
/// announced and then recorded; a temporary one changes nothing.
pub open spec fn admin_password_followups(answer: EboAdminPasswordStatus) -> Seq<EffectView> {
    match answer {
        EboAdminPasswordStatus::Active => seq![
            EffectView::UpdatePasswordStatus(EboAdminPasswordStatus::Active),
            EffectView::Publish(OperatorEvent::TemporaryPasswordActive),
        ],
        EboAdminPasswordStatus::Expired => seq![
            EffectView::Publish(OperatorEvent::TemporaryPasswordExpired),
            EffectView::UpdatePasswordStatus(EboAdminPasswordStatus::Expired),
        ],
        EboAdminPasswordStatus::Temporary => Seq::empty(),
    }
}

/// The effects to carry out, in order, after the management API reported
/// the admin password status `answer`.
pub fn admin_password_effects(answer: EboAdminPasswordStatus) -> (r: Vec<Effect>)
    ensures
        effect_views(r@) == admin_password_followups(answer),
{
    broadcast use crate::eboserver::fsm::types::group_effect_views;

    match answer {
        EboAdminPasswordStatus::Active => vec![
            Effect::UpdatePasswordStatus(EboAdminPasswordStatus::Active),
            Effect::Publish(OperatorEvent::TemporaryPasswordActive),
        ],
        EboAdminPasswordStatus::Expired => vec![
            Effect::Publish(OperatorEvent::TemporaryPasswordExpired),
            Effect::UpdatePasswordStatus(EboAdminPasswordStatus::Expired),
        ],
        EboAdminPasswordStatus::Temporary => Vec::new(),
    }
}

/// The event announcing the answer to a backup request: started when the
/// server accepted it, failed otherwise.
pub fn backup_request_event(accepted: bool) -> (e: OperatorEvent)
    ensures
        e == (if accepted {
            OperatorEvent::BackupStarted
        } else {
            OperatorEvent::BackupFailed
        }),
{
    if accepted {
        OperatorEvent::BackupStarted
    } else {
        OperatorEvent::BackupFailed
    }
}

/// Whether `backup_name` is one of the listed backups' names (an exact
/// match).
pub fn backup_listed(backups: &Vec<String>, backup_name: &str) -> (found: bool)
    ensures
        found == backups@.map_values(|s: String| s@).contains(backup_name@),
{
    let ghost names = backups@.map_values(|s: String| s@);
    let mut i: usize = 0;
    while i < backups.len()
        invariant
            i <= backups@.len(),
            names == backups@.map_values(|s: String| s@),
            forall|j: int| 0 <= j < i ==> (#[trigger] backups@[j])@ != backup_name@,
        decreases backups.len() - i,
    {
        if str_eq(backups[i].as_str(), backup_name) {
            assert(names[i as int] == backup_name@);
            return true;
        }
        i = i + 1;
    }
    assert forall|j: int| 0 <= j < names.len() implies names[j] != backup_name@ by {
        assert(names[j] == backups@[j]@);
    }
    false
}

/// The event announcing whether the backup was found: succeeded or failed.
pub fn backup_check_event(found: bool) -> (e: OperatorEvent)
    ensures
        e == (if found {
            OperatorEvent::BackupSucceeded
        } else {
            OperatorEvent::BackupFailed
        }),
{
    if found {
        OperatorEvent::BackupSucceeded
    } else {
        OperatorEvent::BackupFailed
    }
}

/// The event announcing that there is no room for a backup, when there is
/// none.
pub fn backup_space_event(ok: bool) -> (e: Option<OperatorEvent>)
    ensures
        e == (if ok {
            None
        } else {
            Some(OperatorEvent::OutOfSpaceBackup)
        }),
{
    if ok {
        None
    } else {
        Some(OperatorEvent::OutOfSpaceBackup)
    }
}

} // verus!
