use vstd::prelude::*;

verus! {

/// The kind of EBO server that a resource deploys.
#[derive(Clone, Copy, Debug, PartialEq, Eq, Structural)]
pub enum EboServerType {
    EdgeServer,
    EnterpriseServer,
    EnterpriseCentral,
    EnterpriseServerCloud,
    EnterpriseCentralCloud,
}

/// The short code under which each server type is known.
pub open spec fn server_type_code(t: EboServerType) -> Seq<char> {
    match t {
        EboServerType::EdgeServer => "CS"@,
        EboServerType::EnterpriseServer => "ESC"@,
        EboServerType::EnterpriseCentral => "ECC"@,
        EboServerType::EnterpriseServerCloud => "ESCC"@,
        EboServerType::EnterpriseCentralCloud => "ECCC"@,
    }
}

impl EboServerType {
    /// The short code of the server type, as it is printed.
    pub fn to_string(&self) -> (s: String)
        ensures
            s@ == server_type_code(*self),
    {
        match self {
            EboServerType::EdgeServer => String::from_str("CS"),
            EboServerType::EnterpriseServer => String::from_str("ESC"),
            EboServerType::EnterpriseCentral => String::from_str("ECC"),
            EboServerType::EnterpriseServerCloud => String::from_str("ESCC"),
            EboServerType::EnterpriseCentralCloud => String::from_str("ECCC"),
        }
    }
}

impl Default for EboServerType {
    fn default() -> (t: Self)
        ensures
            t == EboServerType::EnterpriseServerCloud,
    {
        EboServerType::EnterpriseServerCloud
    }
}


/// What becomes of a volume when the resource that owns it is deleted.
#[derive(Clone, Copy, Debug, PartialEq, Eq, Structural)]
pub enum EboServerRetentionPolicy {
    Retain,
    Delete,
}

impl Default for EboServerRetentionPolicy {
    fn default() -> (p: Self)
        ensures
            p == EboServerRetentionPolicy::Retain,
    {
        EboServerRetentionPolicy::Retain
    }
}

/// How the server's Kubernetes service is exposed.
#[derive(Clone, Copy, Debug, PartialEq, Eq, Structural)]
pub enum EboServerServiceType {
    ClusterIp,
    NodePort,
}

/// The Kubernetes name of a service type.
pub open spec fn service_type_name(t: EboServerServiceType) -> Seq<char> {
    match t {
        EboServerServiceType::ClusterIp => "ClusterIP"@,
        EboServerServiceType::NodePort => "NodePort"@,
    }
}

impl EboServerServiceType {
    /// The Kubernetes name of the service type, as it is printed.
    pub fn to_string(&self) -> (s: String)
        ensures
            s@ == service_type_name(*self),
    {
        match self {
            EboServerServiceType::ClusterIp => String::from_str("ClusterIP"),
            EboServerServiceType::NodePort => String::from_str("NodePort"),
        }
    }
}

impl Default for EboServerServiceType {
    fn default() -> (t: Self)
        ensures
            t == EboServerServiceType::ClusterIp,
    {
        EboServerServiceType::ClusterIp
    }
}

/// The lifecycle phase of an `EboServer`, as recorded in its status.
#[derive(Clone, Copy, Debug, PartialEq, Eq, Structural)]
pub enum EboServerPhase {
    Starting,
    Ready,
    PerformingBackup,
    CheckingBackup,
    StoppingForUpgrade,
    PreparingForUpgrade,
    StoppingForSpecUpdate,
    PreparingForSpecUpdate,
    StoppingForPasswordReset,
    PreparingForPasswordReset,
    StoppingForPVCDelete,
    DeletingPVC,
    StartingForRestore,
    StoppingForRestore,
    PreparingForRestore,
    ResetTemporaryPassword,
}

/// The printed name of a phase: the variant's own name.
pub open spec fn phase_name(p: EboServerPhase) -> Seq<char> {
    match p {
        EboServerPhase::Starting => "Starting"@,
        EboServerPhase::Ready => "Ready"@,
        EboServerPhase::PerformingBackup => "PerformingBackup"@,
        EboServerPhase::CheckingBackup => "CheckingBackup"@,
        EboServerPhase::StoppingForUpgrade => "StoppingForUpgrade"@,
        EboServerPhase::PreparingForUpgrade => "PreparingForUpgrade"@,
        EboServerPhase::StoppingForSpecUpdate => "StoppingForSpecUpdate"@,
        EboServerPhase::PreparingForSpecUpdate => "PreparingForSpecUpdate"@,
        EboServerPhase::StoppingForPasswordReset => "StoppingForPasswordReset"@,
        EboServerPhase::PreparingForPasswordReset => "PreparingForPasswordReset"@,
        EboServerPhase::StoppingForPVCDelete => "StoppingForPVCDelete"@,
        EboServerPhase::DeletingPVC => "DeletingPVC"@,
        EboServerPhase::StartingForRestore => "StartingForRestore"@,
        EboServerPhase::StoppingForRestore => "StoppingForRestore"@,
        EboServerPhase::PreparingForRestore => "PreparingForRestore"@,
        EboServerPhase::ResetTemporaryPassword => "ResetTemporaryPassword"@,
    }
}

impl EboServerPhase {
    /// The printed name of the phase.
    pub fn to_string(&self) -> (s: String)
        ensures
            s@ == phase_name(*self),
    {
        let name = match self {
            EboServerPhase::Starting => "Starting",
            EboServerPhase::Ready => "Ready",
            EboServerPhase::PerformingBackup => "PerformingBackup",
            EboServerPhase::CheckingBackup => "CheckingBackup",
            EboServerPhase::StoppingForUpgrade => "StoppingForUpgrade",
            EboServerPhase::PreparingForUpgrade => "PreparingForUpgrade",
            EboServerPhase::StoppingForSpecUpdate => "StoppingForSpecUpdate",
            EboServerPhase::PreparingForSpecUpdate => "PreparingForSpecUpdate",
            EboServerPhase::StoppingForPasswordReset => "StoppingForPasswordReset",
            EboServerPhase::PreparingForPasswordReset => "PreparingForPasswordReset",
            EboServerPhase::StoppingForPVCDelete => "StoppingForPVCDelete",
            EboServerPhase::DeletingPVC => "DeletingPVC",
            EboServerPhase::StartingForRestore => "StartingForRestore",
            EboServerPhase::StoppingForRestore => "StoppingForRestore",
            EboServerPhase::PreparingForRestore => "PreparingForRestore",
            EboServerPhase::ResetTemporaryPassword => "ResetTemporaryPassword",
        };
        String::from_str(name)
    }
}

/// State of the web application firewall in front of the server.
#[derive(Clone, Copy, Debug, PartialEq, Eq, Structural)]
pub enum EboWafStatus {
    Ready,
    Creating,
    NotReady,
}

/// The printed name of a firewall status.
pub open spec fn waf_status_name(s: EboWafStatus) -> Seq<char> {
    match s {
        EboWafStatus::Ready => "Ready"@,
        EboWafStatus::Creating => "Creating"@,
        EboWafStatus::NotReady => "NotReady"@,
    }
}

impl EboWafStatus {
    /// The printed name of the firewall status.
    pub fn to_string(&self) -> (s: String)
        ensures
            s@ == waf_status_name(*self),
    {
        match self {
            EboWafStatus::Ready => String::from_str("Ready"),
            EboWafStatus::Creating => String::from_str("Creating"),
            EboWafStatus::NotReady => String::from_str("NotReady"),
        }
    }
}

impl Default for EboWafStatus {
    fn default() -> (s: Self)
        ensures
            s == EboWafStatus::NotReady,
    {
        EboWafStatus::NotReady
    }
}

/// Licensing state of the server.
#[derive(Clone, Copy, Debug, PartialEq, Eq, Structural)]
pub enum EboLicenseStatus {
    NotActivated,
    Activated,
    Returned,
    Incorrect,
}

impl Default for EboLicenseStatus {
    fn default() -> (s: Self)
        ensures
            s == EboLicenseStatus::NotActivated,
    {
        EboLicenseStatus::NotActivated
    }
}

/// State of the server's administrator password.
#[derive(Clone, Copy, Debug, PartialEq, Eq, Structural)]
pub enum EboAdminPasswordStatus {
    Temporary,
    Active,
    Expired,
}

impl Default for EboAdminPasswordStatus {
    fn default() -> (s: Self)
        ensures
            s == EboAdminPasswordStatus::Temporary,
    {
        EboAdminPasswordStatus::Temporary
    }
}

/// Progress of an image upgrade and of the backup taken before it.
#[derive(Clone, Copy, Debug, PartialEq, Eq, Structural)]
pub enum EboUpgradeStatus {
    Ready,
    BackupOngoing,
    BackupPerformed,
    BackupSucceeded,
    BackupFailed,
    UpgradeJobCreated,
    UpgradeJobSucceeded,
}

impl Default for EboUpgradeStatus {
    fn default() -> (s: Self)
        ensures
            s == EboUpgradeStatus::Ready,
    {
        EboUpgradeStatus::Ready
    }
}

/// Storage of one persistent volume of the server. A capacity is a Kubernetes
/// quantity in its textual form (such as `4Gi`).
#[derive(Clone, Debug, PartialEq, Eq)]
pub struct EboServerStorage {
    pub capacity: Option<String>,
    pub storage_class_name: Option<String>,
    pub retention_policy: EboServerRetentionPolicy,
}

/// CPU and memory limits, as Kubernetes quantities in textual form.
#[derive(Clone, Debug, PartialEq, Eq)]
pub struct EboServerLimits {
    pub cpu: String,
    pub memory: String,
}

/// CPU and memory requests, as Kubernetes quantities in textual form.
#[derive(Clone, Debug, PartialEq, Eq)]
pub struct EboServerRequests {
    pub cpu: String,
    pub memory: String,
}

/// Resource limits and requests of the server container.
#[derive(Clone, Debug, PartialEq, Eq)]
pub struct EboServerResources {
    pub limits: EboServerLimits,
    pub requests: EboServerRequests,
}

/// The desired state of an `EboServer`.
#[derive(Clone, Debug, PartialEq, Eq)]
pub struct EboServerSpec {
    pub type_: EboServerType,
    pub version: String,
    pub top_server: Option<bool>,
    pub inject_license: Option<bool>,
    pub db_storage: EboServerStorage,
    pub bckp_storage: EboServerStorage,
    pub service_type: EboServerServiceType,
    pub resources: EboServerResources,
    pub backup_schedule: Option<String>,
    pub password_reset_mode: Option<String>,
    pub reset_temporary_password: Option<String>,
    pub restore: Option<String>,
    pub restore_name: Option<String>,
}

/// The observed state of an `EboServer`, as the operator records it.
#[derive(Clone, Debug, PartialEq, Eq)]
pub struct EboServerStatus {
    pub phase: Option<EboServerPhase>,
    pub pod_phase: Option<String>,
    pub pod_image: Option<String>,
    pub upgrade_job_status: Option<String>,
    pub restore_job_status: Option<String>,
    pub password_reset_job_status: Option<String>,
    pub last_password_reset_mode: Option<String>,
    pub last_reset_temporary_password: Option<String>,
    pub waf_status: Option<EboWafStatus>,
    pub registered: Option<bool>,
    pub license_status: Option<EboLicenseStatus>,
    pub admin_password_status: Option<EboAdminPasswordStatus>,
    pub backup_name: Option<String>,
    pub upgrade_status: Option<EboUpgradeStatus>,
    pub last_restore: Option<String>,
    pub upgrade_disabled: Option<bool>,
    pub is_top_server: Option<bool>,
    pub dns_records_created: Option<bool>,
    pub crash_loop_reported: Option<bool>,
}

/// A status with nothing recorded yet.
pub open spec fn empty_status() -> EboServerStatus {
    EboServerStatus {
        phase: None,
        pod_phase: None,
        pod_image: None,
        upgrade_job_status: None,
        restore_job_status: None,
        password_reset_job_status: None,
        last_password_reset_mode: None,
        last_reset_temporary_password: None,
        waf_status: None,
        registered: None,
        license_status: None,
        admin_password_status: None,
        backup_name: None,
        upgrade_status: None,
        last_restore: None,
        upgrade_disabled: None,
        is_top_server: None,
        dns_records_created: None,
        crash_loop_reported: None,
    }
}

impl Default for EboServerStatus {
    fn default() -> (s: Self)
        ensures
            s == empty_status(),
    {
        EboServerStatus {
            phase: None,
            pod_phase: None,
            pod_image: None,
            upgrade_job_status: None,
            restore_job_status: None,
            password_reset_job_status: None,
            last_password_reset_mode: None,
            last_reset_temporary_password: None,
            waf_status: None,
            registered: None,
            license_status: None,
            admin_password_status: None,
            backup_name: None,
            upgrade_status: None,
            last_restore: None,
            upgrade_disabled: None,
            is_top_server: None,
            dns_records_created: None,
            crash_loop_reported: None,
        }
    }
}

// ---- Defaults used by the resource definition ----

/// Default CPU limit: `350m`.
pub fn default_cpu_limit() -> (q: String)
    ensures
        q@ == "350m"@,
{
    String::from_str("350m")
}

/// Default memory limit: `384Mi`.
pub fn default_memory_limit() -> (q: String)
    ensures
        q@ == "384Mi"@,
{
    String::from_str("384Mi")
}

/// Default CPU request: `250m`.
pub fn default_cpu_request() -> (q: String)
    ensures
        q@ == "250m"@,
{
    String::from_str("250m")
}

/// Default memory request: `256Mi`.
pub fn default_memory_request() -> (q: String)
    ensures
        q@ == "256Mi"@,
{
    String::from_str("256Mi")
}

/// Default limits: the default CPU and memory limits.
pub fn default_limits() -> (l: EboServerLimits)
    ensures
        l.cpu@ == "350m"@,
        l.memory@ == "384Mi"@,
{
    EboServerLimits { cpu: default_cpu_limit(), memory: default_memory_limit() }
}

/// Default requests: the default CPU and memory requests.
pub fn default_requests() -> (r: EboServerRequests)
    ensures
        r.cpu@ == "250m"@,
        r.memory@ == "256Mi"@,
{
    EboServerRequests { cpu: default_cpu_request(), memory: default_memory_request() }
}

/// Default resources: the default limits and the default requests.
pub fn default_resources() -> (r: EboServerResources)
    ensures
        r.limits.cpu@ == "350m"@,
        r.limits.memory@ == "384Mi"@,
        r.requests.cpu@ == "250m"@,
        r.requests.memory@ == "256Mi"@,
{
    EboServerResources { limits: default_limits(), requests: default_requests() }
}

} // verus!
