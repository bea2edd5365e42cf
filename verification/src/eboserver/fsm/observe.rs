//! What the machine knows about a server when it decides: the facts read
//! from the cluster, the server and the status record, and what follows from
//! them.

use vstd::prelude::*;

use crate::crd::v1alpha6::{EboAdminPasswordStatus, EboUpgradeStatus};
use crate::eboserver::manager::{
    crash_looping_spec, has_job_succeeded, has_pod_stopped, is_crash_looping, is_pod_ready,
    is_pod_running, is_pod_terminating, job_succeeded_spec, pod_ready_spec, pod_running_spec,
    pod_stopped_spec, restart_sums_fit, total_restart_count, total_restart_spec, EboServerManager,
    JobInfo, PodInfo, PvcInfo, SecretInfo,
};
use crate::eboserver::reconcile::{deployed_by_spec, get_deployed_by};
use crate::strings::{after_last, after_last_spec, str_eq};

verus! {

/// Whether a backup is running on the server, as far as it is known.
#[derive(Debug, Clone, Copy, PartialEq, Eq, Structural)]
pub enum BackupOngoing {
    /// The management API is disabled, so nothing can be known.
    Disabled,
    /// The management API could not be asked.
    Unknown,
    Known(bool),
}

/// Everything the phase handlers read.
#[derive(Debug, Clone)]
pub struct Observed {
    pub name: String,
    pub deployed_by: String,
    pub top_server: bool,
    pub password_reset_mode: String,
    pub reset_temporary_password: String,
    pub pod: Option<PodInfo>,
    pub init_pass_secret: Option<SecretInfo>,
    pub data_pvc: Option<PvcInfo>,
    pub upgrade_job: Option<JobInfo>,
    pub password_reset_job: Option<JobInfo>,
    pub last_password_reset_mode: String,
    pub last_reset_temporary_password: String,
    pub pod_running: bool,
    pub pod_ready: bool,
    pub crash_loop: bool,
    pub restart_count: i32,
    pub crash_loop_reported: bool,
    pub pod_terminating: bool,
    pub pod_stopped: bool,
    pub drift_detected: bool,
    pub image_changed: bool,
    pub pvc_needs_resize: bool,
    pub upgrade_job_succeeded: bool,
    pub password_reset_job_succeeded: bool,
    pub restore: String,
    pub last_restore: String,
    pub restore_name: String,
    pub restore_job: Option<JobInfo>,
    pub restore_job_succeeded: bool,
    pub admin_pwd_status: EboAdminPasswordStatus,
    pub mgmt_enabled: bool,
    pub backup_name: String,
    pub backup_ongoing: BackupOngoing,
    pub upgrade_status: EboUpgradeStatus,
    pub upgrade_disabled: bool,
}

impl Observed {
    /// Whether the server's pod exists.
    pub fn pod_exists(&self) -> (r: bool)
        ensures
            r == self.pod is Some,
    {
        self.pod.is_some()
    }

    /// Whether the data volume claim exists.
    pub fn data_pvc_exists(&self) -> (r: bool)
        ensures
            r == self.data_pvc is Some,
    {
        self.data_pvc.is_some()
    }

    /// Whether the initial-password secret exists.
    pub fn secret_exists(&self) -> (r: bool)
        ensures
            r == self.init_pass_secret is Some,
    {
        self.init_pass_secret.is_some()
    }

    /// Whether the upgrade job exists.
    pub fn upgrade_job_exists(&self) -> (r: bool)
        ensures
            r == self.upgrade_job is Some,
    {
        self.upgrade_job.is_some()
    }

    /// Whether the restore job exists.
    pub fn restore_job_exists(&self) -> (r: bool)
        ensures
            r == self.restore_job is Some,
    {
        self.restore_job.is_some()
    }

    /// Whether the password-reset job exists.
    pub fn password_reset_job_exists(&self) -> (r: bool)
        ensures
            r == self.password_reset_job is Some,
    {
        self.password_reset_job.is_some()
    }
}

} // verus!

verus! {

/// What is read from the cluster and the server for one round, besides the
/// status record. `drift_detected` and `pvc_needs_update` are the results of
/// comparing the live pod and data volume claim with the generated ones, and
/// `expected_image` the image the server should run; `backup_query` is the
/// management API's answer on whether a backup is running, `None` when it
/// could not be asked.
#[derive(Debug, Clone)]
pub struct ObserveInput {
    pub name: String,
    pub labels: Vec<(String, String)>,
    pub top_server: Option<bool>,
    pub password_reset_mode: Option<String>,
    pub reset_temporary_password: Option<String>,
    pub restore: Option<String>,
    pub restore_name: Option<String>,
    pub pod: Option<PodInfo>,
    pub init_pass_secret: Option<SecretInfo>,
    pub data_pvc: Option<PvcInfo>,
    pub upgrade_job: Option<JobInfo>,
    pub password_reset_job: Option<JobInfo>,
    pub restore_job: Option<JobInfo>,
    pub drift_detected: bool,
    pub pvc_needs_update: bool,
    pub expected_image: String,
    pub mgmt_enabled: bool,
    pub backup_query: Option<bool>,
}

/// Whether the management API is to be asked if a backup is running: only
/// with the API enabled, the pod ready, and an upgrade under way.
pub open spec fn backup_query_due(mgmt_enabled: bool, pod_ready: bool, upgrade_status: EboUpgradeStatus) -> bool {
    mgmt_enabled && pod_ready && upgrade_status != EboUpgradeStatus::Ready
}

/// Whether the management API is to be asked if a backup is running.
pub fn needs_backup_query(mgmt_enabled: bool, pod_ready: bool, upgrade_status: EboUpgradeStatus) -> (r: bool)
    ensures
        r == backup_query_due(mgmt_enabled, pod_ready, upgrade_status),
{
    mgmt_enabled && pod_ready && upgrade_status != EboUpgradeStatus::Ready
}

/// Whether a backup is running: unknowable with the management API
/// disabled, not with the pod unready or no upgrade under way, and otherwise
/// the API's answer (unknown when it could not be asked).
pub open spec fn backup_ongoing_spec(
    mgmt_enabled: bool,
    pod_ready: bool,
    upgrade_status: EboUpgradeStatus,
    answer: Option<bool>,
) -> BackupOngoing {
    if !mgmt_enabled {
        BackupOngoing::Disabled
    } else if !backup_query_due(mgmt_enabled, pod_ready, upgrade_status) {
        BackupOngoing::Known(false)
    } else {
        match answer {
            Some(v) => BackupOngoing::Known(v),
            None => BackupOngoing::Unknown,
        }
    }
}

/// Whether a backup is running, from the management API's answer.
pub fn backup_ongoing(
    mgmt_enabled: bool,
    pod_ready: bool,
    upgrade_status: EboUpgradeStatus,
    answer: Option<bool>,
) -> (r: BackupOngoing)
    ensures
        r == backup_ongoing_spec(mgmt_enabled, pod_ready, upgrade_status, answer),
{
    if !mgmt_enabled {
        BackupOngoing::Disabled
    } else if !pod_ready {
        BackupOngoing::Known(false)
    } else if upgrade_status != EboUpgradeStatus::Ready {
        match answer {
            Some(v) => BackupOngoing::Known(v),
            None => BackupOngoing::Unknown,
        }
    } else {
        BackupOngoing::Known(false)
    }
}

/// The image changed: the pod exists, an image is recorded, and the last
/// path segment of the recorded image differs from that of the expected one
/// (so a change of registry alone is no change).
pub open spec fn image_changed_spec(pod_exists: bool, recorded: Option<String>, expected: Seq<char>) -> bool {
    pod_exists && recorded is Some && after_last_spec(recorded->0@, '/') != after_last_spec(
        expected,
        '/',
    )
}

/// Whether the image changed.
pub fn image_changed(pod_exists: bool, recorded: Option<&String>, expected: &str) -> (r: bool)
    ensures
        r == image_changed_spec(
            pod_exists,
            match recorded {
                Some(s) => Some(*s),
                None => None,
            },
            expected@,
        ),
{
    match recorded {
        Some(img) => if pod_exists {
            !str_eq(after_last(img.as_str(), '/'), after_last(expected, '/'))
        } else {
            false
        },
        None => false,
    }
}

/// An optional text, or the empty text.
pub open spec fn text_or_empty(o: Option<String>) -> Seq<char> {
    match o {
        Some(s) => s@,
        None => Seq::empty(),
    }
}

fn string_or_empty(o: Option<String>) -> (r: String)
    ensures
        r@ == text_or_empty(o),
{
    match o {
        Some(s) => s,
        None => String::new(),
    }
}

/// The pod of `p`, if there is one, satisfies `f`.
pub open spec fn pod_has(p: Option<PodInfo>, f: spec_fn(PodInfo) -> bool) -> bool {
    p is Some && f(p->0)
}

/// The job of `j`, if there is one, has succeeded.
pub open spec fn job_has_succeeded(j: Option<JobInfo>) -> bool {
    j is Some && job_succeeded_spec(j->0)
}

/// Everything the handlers read, from the round's input and the manager's
/// status record.
pub open spec fn observed_matches(o: Observed, i: ObserveInput, m: EboServerManager) -> bool {
    let status = m.status_of();
    let pod_ready = pod_has(i.pod, |p: PodInfo| pod_ready_spec(p));
    let upgrade_status = match status.upgrade_status {
        Some(s) => s,
        None => EboUpgradeStatus::Ready,
    };
    &&& o.name@ == i.name@
    &&& o.deployed_by@ == deployed_by_spec(i.labels@)
    &&& o.top_server == (match i.top_server {
        Some(b) => b,
        None => false,
    })
    &&& o.password_reset_mode@ == text_or_empty(i.password_reset_mode)
    &&& o.reset_temporary_password@ == text_or_empty(i.reset_temporary_password)
    &&& o.restore@ == text_or_empty(i.restore)
    &&& o.restore_name@ == text_or_empty(i.restore_name)
    &&& o.pod == i.pod
    &&& o.init_pass_secret == i.init_pass_secret
    &&& o.data_pvc == i.data_pvc
    &&& o.upgrade_job == i.upgrade_job
    &&& o.password_reset_job == i.password_reset_job
    &&& o.restore_job == i.restore_job
    &&& o.pod_running == pod_has(i.pod, |p: PodInfo| pod_running_spec(p))
    &&& o.pod_ready == pod_ready
    &&& o.crash_loop == pod_has(i.pod, |p: PodInfo| crash_looping_spec(p))
    &&& o.restart_count as int == (match i.pod {
        Some(p) => total_restart_spec(p),
        None => 0,
    })
    &&& o.pod_terminating == pod_has(i.pod, |p: PodInfo| p.deletion_requested)
    &&& o.pod_stopped == pod_has(i.pod, |p: PodInfo| pod_stopped_spec(p))
    &&& o.drift_detected == (i.pod is Some && i.drift_detected)
    &&& o.image_changed == image_changed_spec(i.pod is Some, status.pod_image, i.expected_image@)
    &&& o.pvc_needs_resize == (i.data_pvc is Some && i.pvc_needs_update)
    &&& o.upgrade_job_succeeded == job_has_succeeded(i.upgrade_job)
    &&& o.password_reset_job_succeeded == job_has_succeeded(i.password_reset_job)
    &&& o.restore_job_succeeded == job_has_succeeded(i.restore_job)
    &&& o.crash_loop_reported == (match status.crash_loop_reported {
        Some(b) => b,
        None => false,
    })
    &&& o.last_password_reset_mode@ == text_or_empty(status.last_password_reset_mode)
    &&& o.last_reset_temporary_password@ == text_or_empty(status.last_reset_temporary_password)
    &&& o.last_restore@ == text_or_empty(status.last_restore)
    &&& o.backup_name@ == text_or_empty(status.backup_name)
    &&& o.admin_pwd_status == (match status.admin_password_status {
        Some(s) => s,
        None => EboAdminPasswordStatus::Temporary,
    })
    &&& o.upgrade_status == upgrade_status
    &&& o.upgrade_disabled == (match status.upgrade_disabled {
        Some(b) => b,
        None => false,
    })
    &&& o.mgmt_enabled == i.mgmt_enabled
    &&& o.backup_ongoing == backup_ongoing_spec(
        i.mgmt_enabled,
        pod_ready,
        upgrade_status,
        i.backup_query,
    )
}

/// Derives what the handlers read from the round's input and the status
/// record of `mgr`.
pub fn observe(input: ObserveInput, mgr: &EboServerManager) -> (o: Observed)
    requires
        input.pod is Some && input.pod->0.status is Some
            && input.pod->0.status->0.container_statuses is Some ==> restart_sums_fit(
            input.pod->0.status->0.container_statuses->0@,
        ),
    ensures
        observed_matches(o, input, *mgr),
{
    let ghost i = input;
    let deployed_by = get_deployed_by(&input.labels);
    let pod_running = match &input.pod {
        Some(p) => is_pod_running(p),
        None => false,
    };
    let pod_ready = match &input.pod {
        Some(p) => is_pod_ready(p),
        None => false,
    };
    let crash_loop = match &input.pod {
        Some(p) => is_crash_looping(p),
        None => false,
    };
    let restart_count = match &input.pod {
        Some(p) => total_restart_count(p),
        None => 0,
    };
    let pod_terminating = match &input.pod {
        Some(p) => is_pod_terminating(p),
        None => false,
    };
    let pod_stopped = match &input.pod {
        Some(p) => has_pod_stopped(p),
        None => false,
    };
    let pod_exists = input.pod.is_some();
    let drift_detected = pod_exists && input.drift_detected;
    let image_changed = image_changed(pod_exists, mgr.pod_image(), input.expected_image.as_str());
    let pvc_needs_resize = input.data_pvc.is_some() && input.pvc_needs_update;
    let upgrade_job_succeeded = match &input.upgrade_job {
        Some(j) => has_job_succeeded(j),
        None => false,
    };
    let password_reset_job_succeeded = match &input.password_reset_job {
        Some(j) => has_job_succeeded(j),
        None => false,
    };
    let restore_job_succeeded = match &input.restore_job {
        Some(j) => has_job_succeeded(j),
        None => false,
    };
    let upgrade_status = mgr.get_upgrade_status();
    let backup_ongoing = backup_ongoing(
        input.mgmt_enabled,
        pod_ready,
        upgrade_status,
        input.backup_query,
    );
    let top_server = match input.top_server {
        Some(b) => b,
        None => false,
    };
    Observed {
        name: input.name,
        deployed_by,
        top_server,
        password_reset_mode: string_or_empty(input.password_reset_mode),
        reset_temporary_password: string_or_empty(input.reset_temporary_password),
        pod: input.pod,
        init_pass_secret: input.init_pass_secret,
        data_pvc: input.data_pvc,
        upgrade_job: input.upgrade_job,
        password_reset_job: input.password_reset_job,
        last_password_reset_mode: mgr.get_password_reset_mode_status(),
        last_reset_temporary_password: mgr.get_reset_temporary_password_status(),
        pod_running,
        pod_ready,
        crash_loop,
        restart_count,
        crash_loop_reported: mgr.get_crash_loop_reported(),
        pod_terminating,
        pod_stopped,
        drift_detected,
        image_changed,
        pvc_needs_resize,
        upgrade_job_succeeded,
        password_reset_job_succeeded,
        restore: string_or_empty(input.restore),
        last_restore: mgr.get_restore_status(),
        restore_name: string_or_empty(input.restore_name),
        restore_job: input.restore_job,
        restore_job_succeeded,
        admin_pwd_status: mgr.get_admin_password_status(),
        mgmt_enabled: input.mgmt_enabled,
        backup_name: mgr.get_backup_name(),
        backup_ongoing,
        upgrade_status,
        upgrade_disabled: mgr.get_upgrade_disabled(),
    }
}

} // verus!
