//! Operator events: each kind carries a fixed message, a severity level and
//! whether it is published as a Kubernetes event.

use vstd::prelude::*;

verus! {

/// Severity of an operator event.
#[derive(Debug, Clone, Copy, PartialEq, Eq, Structural)]
pub enum Level {
    Info,
    Warning,
    Error,
}

/// Every kind of event the operator reports about an `EboServer`.
#[derive(Debug, Clone, Copy, PartialEq, Eq, Structural)]
pub enum OperatorEvent {
    EboCreated,
    EboDeleting,
    BackupScheduleChange,
    ImageUpgrade,
    BackupStarted,
    BackupOngoing,
    BackupPerformed,
    BackupSucceeded,
    BackupFailed,
    OutOfSpaceBackup,
    UpgradeFailed,
    UpgradeDisabled,
    VolumeResizeRequest,
    PasswordSecretCreated,
    TemporaryPasswordActive,
    TemporaryPasswordExpired,
    TemporaryPasswordReset,
    PasswordResetInitiated,
    PasswordResetJobCreated,
    PasswordResetJobSucceeded,
    RestoreInitiated,
    PodCreated,
    PodReady,
    PodDeleted,
    PodStopping,
    PodStopped,
    SpecDriftDetected,
    CrashLoopDetected,
    CrashLoopRecovered,
    UpgradeJobCreated,
    UpgradeJobSucceeded,
    RestoreJobCreated,
    RestoreJobSucceeded,
    Registered,
    NotRegistered,
    LicensesActivated,
    LicensesReturned,
    LicensesSeatActivated,
    LicensesSeatReturned,
    LicensesNotActivated,
    LicensesNotReturned,
    LicensesSeatNotActivated,
    LicensesSeatNotReturned,
    HTTPChallengeCreated,
    DNSRecordCreated,
    DNSRecordError,
    OriginDNSRecordCreated,
    WAFHostnameExists,
    WAFHostnameCreated,
    SecurityConfigHostnameAdded,
}

/// The human-readable message of an event kind.
pub open spec fn event_message(e: OperatorEvent) -> Seq<char> {
    match e {
        OperatorEvent::EboCreated => "New EboServer"@,
        OperatorEvent::EboDeleting => "Start deleting EBO"@,
        OperatorEvent::BackupScheduleChange => "Backup schedule changed"@,
        OperatorEvent::ImageUpgrade => "Image/version changed"@,
        OperatorEvent::BackupStarted => "Backup started"@,
        OperatorEvent::BackupOngoing => "Backup ongoing"@,
        OperatorEvent::BackupPerformed => "Backup performed"@,
        OperatorEvent::BackupSucceeded => "Backup succeeded"@,
        OperatorEvent::BackupFailed => "Backup failed"@,
        OperatorEvent::OutOfSpaceBackup => "Out of space for backup"@,
        OperatorEvent::UpgradeFailed => "Upgrade failed"@,
        OperatorEvent::UpgradeDisabled => "Upgrading is disabled"@,
        OperatorEvent::VolumeResizeRequest => "Volume resize requested"@,
        OperatorEvent::PasswordSecretCreated => "Password secret created"@,
        OperatorEvent::TemporaryPasswordActive => "Temporary password active"@,
        OperatorEvent::TemporaryPasswordExpired => "Temporary password expired"@,
        OperatorEvent::TemporaryPasswordReset => "Temporary password reset"@,
        OperatorEvent::PasswordResetInitiated => "Password reset initiated"@,
        OperatorEvent::PasswordResetJobCreated => "Password reset job created"@,
        OperatorEvent::PasswordResetJobSucceeded => "Password reset job finished"@,
        OperatorEvent::RestoreInitiated => "Restore initiated"@,
        OperatorEvent::PodCreated => "Pod created"@,
        OperatorEvent::PodReady => "Pod running"@,
        OperatorEvent::PodDeleted => "Pod deleted"@,
        OperatorEvent::PodStopping => "Pod stopping"@,
        OperatorEvent::PodStopped => "Pod stopped"@,
        OperatorEvent::SpecDriftDetected => "Pod spec drift detected"@,
        OperatorEvent::CrashLoopDetected => "Pod crash loop detected"@,
        OperatorEvent::CrashLoopRecovered => "Pod crash loop recovered"@,
        OperatorEvent::UpgradeJobCreated => "Upgrade job created"@,
        OperatorEvent::UpgradeJobSucceeded => "Upgrade job succeeded"@,
        OperatorEvent::RestoreJobCreated => "Restore job created"@,
        OperatorEvent::RestoreJobSucceeded => "Restore job succeeded"@,
        OperatorEvent::Registered => "EBO registered"@,
        OperatorEvent::NotRegistered => "EBO not registered"@,
        OperatorEvent::LicensesActivated => "Licenses activated"@,
        OperatorEvent::LicensesReturned => "Licenses returned"@,
        OperatorEvent::LicensesSeatActivated => "Licenses seat activated"@,
        OperatorEvent::LicensesSeatReturned => "Licenses seat returned"@,
        OperatorEvent::LicensesNotActivated => "License error activating"@,
        OperatorEvent::LicensesNotReturned => "License error returning"@,
        OperatorEvent::LicensesSeatNotActivated => "License error seat activating"@,
        OperatorEvent::LicensesSeatNotReturned => "License error seat returning"@,
        OperatorEvent::HTTPChallengeCreated => "Http challenge created"@,
        OperatorEvent::DNSRecordCreated => "DNS record created"@,
        OperatorEvent::DNSRecordError => "DNS record error"@,
        OperatorEvent::OriginDNSRecordCreated => "Origin DNS record created"@,
        OperatorEvent::WAFHostnameExists => "WAF hostname exists"@,
        OperatorEvent::WAFHostnameCreated => "WAF hostnames created"@,
        OperatorEvent::SecurityConfigHostnameAdded => "WAF security config hostname added"@,
    }
}

/// The stable name of an event kind: its variant name.
pub open spec fn event_kind(e: OperatorEvent) -> Seq<char> {
    match e {
        OperatorEvent::EboCreated => "EboCreated"@,
        OperatorEvent::EboDeleting => "EboDeleting"@,
        OperatorEvent::BackupScheduleChange => "BackupScheduleChange"@,
        OperatorEvent::ImageUpgrade => "ImageUpgrade"@,
        OperatorEvent::BackupStarted => "BackupStarted"@,
        OperatorEvent::BackupOngoing => "BackupOngoing"@,
        OperatorEvent::BackupPerformed => "BackupPerformed"@,
        OperatorEvent::BackupSucceeded => "BackupSucceeded"@,
        OperatorEvent::BackupFailed => "BackupFailed"@,
        OperatorEvent::OutOfSpaceBackup => "OutOfSpaceBackup"@,
        OperatorEvent::UpgradeFailed => "UpgradeFailed"@,
        OperatorEvent::UpgradeDisabled => "UpgradeDisabled"@,
        OperatorEvent::VolumeResizeRequest => "VolumeResizeRequest"@,
        OperatorEvent::PasswordSecretCreated => "PasswordSecretCreated"@,
        OperatorEvent::TemporaryPasswordActive => "TemporaryPasswordActive"@,
        OperatorEvent::TemporaryPasswordExpired => "TemporaryPasswordExpired"@,
        OperatorEvent::TemporaryPasswordReset => "TemporaryPasswordReset"@,
        OperatorEvent::PasswordResetInitiated => "PasswordResetInitiated"@,
        OperatorEvent::PasswordResetJobCreated => "PasswordResetJobCreated"@,
        OperatorEvent::PasswordResetJobSucceeded => "PasswordResetJobSucceeded"@,
        OperatorEvent::RestoreInitiated => "RestoreInitiated"@,
        OperatorEvent::PodCreated => "PodCreated"@,
        OperatorEvent::PodReady => "PodReady"@,
        OperatorEvent::PodDeleted => "PodDeleted"@,
        OperatorEvent::PodStopping => "PodStopping"@,
        OperatorEvent::PodStopped => "PodStopped"@,
        OperatorEvent::SpecDriftDetected => "SpecDriftDetected"@,
        OperatorEvent::CrashLoopDetected => "CrashLoopDetected"@,
        OperatorEvent::CrashLoopRecovered => "CrashLoopRecovered"@,
        OperatorEvent::UpgradeJobCreated => "UpgradeJobCreated"@,
        OperatorEvent::UpgradeJobSucceeded => "UpgradeJobSucceeded"@,
        OperatorEvent::RestoreJobCreated => "RestoreJobCreated"@,
        OperatorEvent::RestoreJobSucceeded => "RestoreJobSucceeded"@,
        OperatorEvent::Registered => "Registered"@,
        OperatorEvent::NotRegistered => "NotRegistered"@,
        OperatorEvent::LicensesActivated => "LicensesActivated"@,
        OperatorEvent::LicensesReturned => "LicensesReturned"@,
        OperatorEvent::LicensesSeatActivated => "LicensesSeatActivated"@,
        OperatorEvent::LicensesSeatReturned => "LicensesSeatReturned"@,
        OperatorEvent::LicensesNotActivated => "LicensesNotActivated"@,
        OperatorEvent::LicensesNotReturned => "LicensesNotReturned"@,
        OperatorEvent::LicensesSeatNotActivated => "LicensesSeatNotActivated"@,
        OperatorEvent::LicensesSeatNotReturned => "LicensesSeatNotReturned"@,
        OperatorEvent::HTTPChallengeCreated => "HTTPChallengeCreated"@,
        OperatorEvent::DNSRecordCreated => "DNSRecordCreated"@,
        OperatorEvent::DNSRecordError => "DNSRecordError"@,
        OperatorEvent::OriginDNSRecordCreated => "OriginDNSRecordCreated"@,
        OperatorEvent::WAFHostnameExists => "WAFHostnameExists"@,
        OperatorEvent::WAFHostnameCreated => "WAFHostnameCreated"@,
        OperatorEvent::SecurityConfigHostnameAdded => "SecurityConfigHostnameAdded"@,
    }
}

/// The severity attached to an event kind.
pub open spec fn event_level(e: OperatorEvent) -> Level {
    match e {
        OperatorEvent::EboCreated => Level::Info,
        OperatorEvent::EboDeleting => Level::Info,
        OperatorEvent::BackupScheduleChange => Level::Info,
        OperatorEvent::ImageUpgrade => Level::Info,
        OperatorEvent::BackupStarted => Level::Info,
        OperatorEvent::BackupOngoing => Level::Info,
        OperatorEvent::BackupPerformed => Level::Info,
        OperatorEvent::BackupSucceeded => Level::Info,
        OperatorEvent::BackupFailed => Level::Error,
        OperatorEvent::OutOfSpaceBackup => Level::Error,
        OperatorEvent::UpgradeFailed => Level::Error,
        OperatorEvent::UpgradeDisabled => Level::Warning,
        OperatorEvent::VolumeResizeRequest => Level::Info,
        OperatorEvent::PasswordSecretCreated => Level::Info,
        OperatorEvent::TemporaryPasswordActive => Level::Info,
        OperatorEvent::TemporaryPasswordExpired => Level::Warning,
        OperatorEvent::TemporaryPasswordReset => Level::Info,
        OperatorEvent::PasswordResetInitiated => Level::Info,
        OperatorEvent::PasswordResetJobCreated => Level::Info,
        OperatorEvent::PasswordResetJobSucceeded => Level::Info,
        OperatorEvent::RestoreInitiated => Level::Info,
        OperatorEvent::PodCreated => Level::Info,
        OperatorEvent::PodReady => Level::Info,
        OperatorEvent::PodDeleted => Level::Info,
        OperatorEvent::PodStopping => Level::Info,
        OperatorEvent::PodStopped => Level::Info,
        OperatorEvent::SpecDriftDetected => Level::Warning,
        OperatorEvent::CrashLoopDetected => Level::Error,
        OperatorEvent::CrashLoopRecovered => Level::Info,
        OperatorEvent::UpgradeJobCreated => Level::Info,
        OperatorEvent::UpgradeJobSucceeded => Level::Info,
        OperatorEvent::RestoreJobCreated => Level::Info,
        OperatorEvent::RestoreJobSucceeded => Level::Info,
        OperatorEvent::Registered => Level::Info,
        OperatorEvent::NotRegistered => Level::Error,
        OperatorEvent::LicensesActivated => Level::Info,
        OperatorEvent::LicensesReturned => Level::Info,
        OperatorEvent::LicensesSeatActivated => Level::Info,
        OperatorEvent::LicensesSeatReturned => Level::Info,
        OperatorEvent::LicensesNotActivated => Level::Error,
        OperatorEvent::LicensesNotReturned => Level::Error,
        OperatorEvent::LicensesSeatNotActivated => Level::Error,
        OperatorEvent::LicensesSeatNotReturned => Level::Error,
        OperatorEvent::HTTPChallengeCreated => Level::Info,
        OperatorEvent::DNSRecordCreated => Level::Info,
        OperatorEvent::DNSRecordError => Level::Error,
        OperatorEvent::OriginDNSRecordCreated => Level::Info,
        OperatorEvent::WAFHostnameExists => Level::Info,
        OperatorEvent::WAFHostnameCreated => Level::Info,
        OperatorEvent::SecurityConfigHostnameAdded => Level::Info,
    }
}

/// Whether a Kubernetes event is emitted for an event kind.
pub open spec fn event_sent_to_k8s(e: OperatorEvent) -> bool {
    match e {
        OperatorEvent::EboCreated => true,
        OperatorEvent::EboDeleting => true,
        OperatorEvent::BackupScheduleChange => true,
        OperatorEvent::ImageUpgrade => true,
        OperatorEvent::BackupStarted => true,
        OperatorEvent::BackupOngoing => true,
        OperatorEvent::BackupPerformed => true,
        OperatorEvent::BackupSucceeded => true,
        OperatorEvent::BackupFailed => true,
        OperatorEvent::OutOfSpaceBackup => true,
        OperatorEvent::UpgradeFailed => true,
        OperatorEvent::UpgradeDisabled => true,
        OperatorEvent::VolumeResizeRequest => true,
        OperatorEvent::PasswordSecretCreated => true,
        OperatorEvent::TemporaryPasswordActive => true,
        OperatorEvent::TemporaryPasswordExpired => true,
        OperatorEvent::TemporaryPasswordReset => true,
        OperatorEvent::PasswordResetInitiated => true,
        OperatorEvent::PasswordResetJobCreated => true,
        OperatorEvent::PasswordResetJobSucceeded => true,
        OperatorEvent::RestoreInitiated => true,
        OperatorEvent::PodCreated => true,
        OperatorEvent::PodReady => true,
        OperatorEvent::PodDeleted => true,
        OperatorEvent::PodStopping => true,
        OperatorEvent::PodStopped => true,
        OperatorEvent::SpecDriftDetected => true,
        OperatorEvent::CrashLoopDetected => true,
        OperatorEvent::CrashLoopRecovered => true,
        OperatorEvent::UpgradeJobCreated => true,
        OperatorEvent::UpgradeJobSucceeded => true,
        OperatorEvent::RestoreJobCreated => true,
        OperatorEvent::RestoreJobSucceeded => true,
        OperatorEvent::Registered => true,
        OperatorEvent::NotRegistered => true,
        OperatorEvent::LicensesActivated => true,
        OperatorEvent::LicensesReturned => true,
        OperatorEvent::LicensesSeatActivated => true,
        OperatorEvent::LicensesSeatReturned => true,
        OperatorEvent::LicensesNotActivated => true,
        OperatorEvent::LicensesNotReturned => true,
        OperatorEvent::LicensesSeatNotActivated => true,
        OperatorEvent::LicensesSeatNotReturned => true,
        OperatorEvent::HTTPChallengeCreated => true,
        OperatorEvent::DNSRecordCreated => true,
        OperatorEvent::DNSRecordError => true,
        OperatorEvent::OriginDNSRecordCreated => true,
        OperatorEvent::WAFHostnameExists => true,
        OperatorEvent::WAFHostnameCreated => true,
        OperatorEvent::SecurityConfigHostnameAdded => true,
    }
}

impl OperatorEvent {
    /// Human-readable message text for this event kind.
    pub fn message(self) -> (r: &'static str)
        ensures
            r@ == event_message(self),
    {
        match self {
            OperatorEvent::EboCreated => "New EboServer",
            OperatorEvent::EboDeleting => "Start deleting EBO",
            OperatorEvent::BackupScheduleChange => "Backup schedule changed",
            OperatorEvent::ImageUpgrade => "Image/version changed",
            OperatorEvent::BackupStarted => "Backup started",
            OperatorEvent::BackupOngoing => "Backup ongoing",
            OperatorEvent::BackupPerformed => "Backup performed",
            OperatorEvent::BackupSucceeded => "Backup succeeded",
            OperatorEvent::BackupFailed => "Backup failed",
            OperatorEvent::OutOfSpaceBackup => "Out of space for backup",
            OperatorEvent::UpgradeFailed => "Upgrade failed",
            OperatorEvent::UpgradeDisabled => "Upgrading is disabled",
            OperatorEvent::VolumeResizeRequest => "Volume resize requested",
            OperatorEvent::PasswordSecretCreated => "Password secret created",
            OperatorEvent::TemporaryPasswordActive => "Temporary password active",
            OperatorEvent::TemporaryPasswordExpired => "Temporary password expired",
            OperatorEvent::TemporaryPasswordReset => "Temporary password reset",
            OperatorEvent::PasswordResetInitiated => "Password reset initiated",
            OperatorEvent::PasswordResetJobCreated => "Password reset job created",
            OperatorEvent::PasswordResetJobSucceeded => "Password reset job finished",
            OperatorEvent::RestoreInitiated => "Restore initiated",
            OperatorEvent::PodCreated => "Pod created",
            OperatorEvent::PodReady => "Pod running",
            OperatorEvent::PodDeleted => "Pod deleted",
            OperatorEvent::PodStopping => "Pod stopping",
            OperatorEvent::PodStopped => "Pod stopped",
            OperatorEvent::SpecDriftDetected => "Pod spec drift detected",
            OperatorEvent::CrashLoopDetected => "Pod crash loop detected",
            OperatorEvent::CrashLoopRecovered => "Pod crash loop recovered",
            OperatorEvent::UpgradeJobCreated => "Upgrade job created",
            OperatorEvent::UpgradeJobSucceeded => "Upgrade job succeeded",
            OperatorEvent::RestoreJobCreated => "Restore job created",
            OperatorEvent::RestoreJobSucceeded => "Restore job succeeded",
            OperatorEvent::Registered => "EBO registered",
            OperatorEvent::NotRegistered => "EBO not registered",
            OperatorEvent::LicensesActivated => "Licenses activated",
            OperatorEvent::LicensesReturned => "Licenses returned",
            OperatorEvent::LicensesSeatActivated => "Licenses seat activated",
            OperatorEvent::LicensesSeatReturned => "Licenses seat returned",
            OperatorEvent::LicensesNotActivated => "License error activating",
            OperatorEvent::LicensesNotReturned => "License error returning",
            OperatorEvent::LicensesSeatNotActivated => "License error seat activating",
            OperatorEvent::LicensesSeatNotReturned => "License error seat returning",
            OperatorEvent::HTTPChallengeCreated => "Http challenge created",
            OperatorEvent::DNSRecordCreated => "DNS record created",
            OperatorEvent::DNSRecordError => "DNS record error",
            OperatorEvent::OriginDNSRecordCreated => "Origin DNS record created",
            OperatorEvent::WAFHostnameExists => "WAF hostname exists",
            OperatorEvent::WAFHostnameCreated => "WAF hostnames created",
            OperatorEvent::SecurityConfigHostnameAdded => "WAF security config hostname added",
        }
    }

    /// Stable variant name, such as `EboCreated`.
    pub fn kind(self) -> (r: &'static str)
        ensures
            r@ == event_kind(self),
    {
        match self {
            OperatorEvent::EboCreated => "EboCreated",
            OperatorEvent::EboDeleting => "EboDeleting",
            OperatorEvent::BackupScheduleChange => "BackupScheduleChange",
            OperatorEvent::ImageUpgrade => "ImageUpgrade",
            OperatorEvent::BackupStarted => "BackupStarted",
            OperatorEvent::BackupOngoing => "BackupOngoing",
            OperatorEvent::BackupPerformed => "BackupPerformed",
            OperatorEvent::BackupSucceeded => "BackupSucceeded",
            OperatorEvent::BackupFailed => "BackupFailed",
            OperatorEvent::OutOfSpaceBackup => "OutOfSpaceBackup",
            OperatorEvent::UpgradeFailed => "UpgradeFailed",
            OperatorEvent::UpgradeDisabled => "UpgradeDisabled",
            OperatorEvent::VolumeResizeRequest => "VolumeResizeRequest",
            OperatorEvent::PasswordSecretCreated => "PasswordSecretCreated",
            OperatorEvent::TemporaryPasswordActive => "TemporaryPasswordActive",
            OperatorEvent::TemporaryPasswordExpired => "TemporaryPasswordExpired",
            OperatorEvent::TemporaryPasswordReset => "TemporaryPasswordReset",
            OperatorEvent::PasswordResetInitiated => "PasswordResetInitiated",
            OperatorEvent::PasswordResetJobCreated => "PasswordResetJobCreated",
            OperatorEvent::PasswordResetJobSucceeded => "PasswordResetJobSucceeded",
            OperatorEvent::RestoreInitiated => "RestoreInitiated",
            OperatorEvent::PodCreated => "PodCreated",
            OperatorEvent::PodReady => "PodReady",
            OperatorEvent::PodDeleted => "PodDeleted",
            OperatorEvent::PodStopping => "PodStopping",
            OperatorEvent::PodStopped => "PodStopped",
            OperatorEvent::SpecDriftDetected => "SpecDriftDetected",
            OperatorEvent::CrashLoopDetected => "CrashLoopDetected",
            OperatorEvent::CrashLoopRecovered => "CrashLoopRecovered",
            OperatorEvent::UpgradeJobCreated => "UpgradeJobCreated",
            OperatorEvent::UpgradeJobSucceeded => "UpgradeJobSucceeded",
            OperatorEvent::RestoreJobCreated => "RestoreJobCreated",
            OperatorEvent::RestoreJobSucceeded => "RestoreJobSucceeded",
            OperatorEvent::Registered => "Registered",
            OperatorEvent::NotRegistered => "NotRegistered",
            OperatorEvent::LicensesActivated => "LicensesActivated",
            OperatorEvent::LicensesReturned => "LicensesReturned",
            OperatorEvent::LicensesSeatActivated => "LicensesSeatActivated",
            OperatorEvent::LicensesSeatReturned => "LicensesSeatReturned",
            OperatorEvent::LicensesNotActivated => "LicensesNotActivated",
            OperatorEvent::LicensesNotReturned => "LicensesNotReturned",
            OperatorEvent::LicensesSeatNotActivated => "LicensesSeatNotActivated",
            OperatorEvent::LicensesSeatNotReturned => "LicensesSeatNotReturned",
            OperatorEvent::HTTPChallengeCreated => "HTTPChallengeCreated",
            OperatorEvent::DNSRecordCreated => "DNSRecordCreated",
            OperatorEvent::DNSRecordError => "DNSRecordError",
            OperatorEvent::OriginDNSRecordCreated => "OriginDNSRecordCreated",
            OperatorEvent::WAFHostnameExists => "WAFHostnameExists",
            OperatorEvent::WAFHostnameCreated => "WAFHostnameCreated",
            OperatorEvent::SecurityConfigHostnameAdded => "SecurityConfigHostnameAdded",
        }
    }

    /// Level attached to this event kind.
    pub fn level(self) -> (r: Level)
        ensures
            r == event_level(self),
    {
        match self {
            OperatorEvent::EboCreated => Level::Info,
            OperatorEvent::EboDeleting => Level::Info,
            OperatorEvent::BackupScheduleChange => Level::Info,
            OperatorEvent::ImageUpgrade => Level::Info,
            OperatorEvent::BackupStarted => Level::Info,
            OperatorEvent::BackupOngoing => Level::Info,
            OperatorEvent::BackupPerformed => Level::Info,
            OperatorEvent::BackupSucceeded => Level::Info,
            OperatorEvent::BackupFailed => Level::Error,
            OperatorEvent::OutOfSpaceBackup => Level::Error,
            OperatorEvent::UpgradeFailed => Level::Error,
            OperatorEvent::UpgradeDisabled => Level::Warning,
            OperatorEvent::VolumeResizeRequest => Level::Info,
            OperatorEvent::PasswordSecretCreated => Level::Info,
            OperatorEvent::TemporaryPasswordActive => Level::Info,
            OperatorEvent::TemporaryPasswordExpired => Level::Warning,
            OperatorEvent::TemporaryPasswordReset => Level::Info,
            OperatorEvent::PasswordResetInitiated => Level::Info,
            OperatorEvent::PasswordResetJobCreated => Level::Info,
            OperatorEvent::PasswordResetJobSucceeded => Level::Info,
            OperatorEvent::RestoreInitiated => Level::Info,
            OperatorEvent::PodCreated => Level::Info,
            OperatorEvent::PodReady => Level::Info,
            OperatorEvent::PodDeleted => Level::Info,
            OperatorEvent::PodStopping => Level::Info,
            OperatorEvent::PodStopped => Level::Info,
            OperatorEvent::SpecDriftDetected => Level::Warning,
            OperatorEvent::CrashLoopDetected => Level::Error,
            OperatorEvent::CrashLoopRecovered => Level::Info,
            OperatorEvent::UpgradeJobCreated => Level::Info,
            OperatorEvent::UpgradeJobSucceeded => Level::Info,
            OperatorEvent::RestoreJobCreated => Level::Info,
            OperatorEvent::RestoreJobSucceeded => Level::Info,
            OperatorEvent::Registered => Level::Info,
            OperatorEvent::NotRegistered => Level::Error,
            OperatorEvent::LicensesActivated => Level::Info,
            OperatorEvent::LicensesReturned => Level::Info,
            OperatorEvent::LicensesSeatActivated => Level::Info,
            OperatorEvent::LicensesSeatReturned => Level::Info,
            OperatorEvent::LicensesNotActivated => Level::Error,
            OperatorEvent::LicensesNotReturned => Level::Error,
            OperatorEvent::LicensesSeatNotActivated => Level::Error,
            OperatorEvent::LicensesSeatNotReturned => Level::Error,
            OperatorEvent::HTTPChallengeCreated => Level::Info,
            OperatorEvent::DNSRecordCreated => Level::Info,
            OperatorEvent::DNSRecordError => Level::Error,
            OperatorEvent::OriginDNSRecordCreated => Level::Info,
            OperatorEvent::WAFHostnameExists => Level::Info,
            OperatorEvent::WAFHostnameCreated => Level::Info,
            OperatorEvent::SecurityConfigHostnameAdded => Level::Info,
        }
    }

    /// Whether a Kubernetes event is emitted for this kind.
    pub fn send_to_k8s(self) -> (r: bool)
        ensures
            r == event_sent_to_k8s(self),
    {
        match self {
            OperatorEvent::EboCreated => true,
            OperatorEvent::EboDeleting => true,
            OperatorEvent::BackupScheduleChange => true,
            OperatorEvent::ImageUpgrade => true,
            OperatorEvent::BackupStarted => true,
            OperatorEvent::BackupOngoing => true,
            OperatorEvent::BackupPerformed => true,
            OperatorEvent::BackupSucceeded => true,
            OperatorEvent::BackupFailed => true,
            OperatorEvent::OutOfSpaceBackup => true,
            OperatorEvent::UpgradeFailed => true,
            OperatorEvent::UpgradeDisabled => true,
            OperatorEvent::VolumeResizeRequest => true,
            OperatorEvent::PasswordSecretCreated => true,
            OperatorEvent::TemporaryPasswordActive => true,
            OperatorEvent::TemporaryPasswordExpired => true,
            OperatorEvent::TemporaryPasswordReset => true,
            OperatorEvent::PasswordResetInitiated => true,
            OperatorEvent::PasswordResetJobCreated => true,
            OperatorEvent::PasswordResetJobSucceeded => true,
            OperatorEvent::RestoreInitiated => true,
            OperatorEvent::PodCreated => true,
            OperatorEvent::PodReady => true,
            OperatorEvent::PodDeleted => true,
            OperatorEvent::PodStopping => true,
            OperatorEvent::PodStopped => true,
            OperatorEvent::SpecDriftDetected => true,
            OperatorEvent::CrashLoopDetected => true,
            OperatorEvent::CrashLoopRecovered => true,
            OperatorEvent::UpgradeJobCreated => true,
            OperatorEvent::UpgradeJobSucceeded => true,
            OperatorEvent::RestoreJobCreated => true,
            OperatorEvent::RestoreJobSucceeded => true,
            OperatorEvent::Registered => true,
            OperatorEvent::NotRegistered => true,
            OperatorEvent::LicensesActivated => true,
            OperatorEvent::LicensesReturned => true,
            OperatorEvent::LicensesSeatActivated => true,
            OperatorEvent::LicensesSeatReturned => true,
            OperatorEvent::LicensesNotActivated => true,
            OperatorEvent::LicensesNotReturned => true,
            OperatorEvent::LicensesSeatNotActivated => true,
            OperatorEvent::LicensesSeatNotReturned => true,
            OperatorEvent::HTTPChallengeCreated => true,
            OperatorEvent::DNSRecordCreated => true,
            OperatorEvent::DNSRecordError => true,
            OperatorEvent::OriginDNSRecordCreated => true,
            OperatorEvent::WAFHostnameExists => true,
            OperatorEvent::WAFHostnameCreated => true,
            OperatorEvent::SecurityConfigHostnameAdded => true,
        }
    }

    /// The printed form of the event: its kind.
    pub fn to_string(self) -> (s: String)
        ensures
            s@ == event_kind(self),
    {
        String::from_str(self.kind())
    }
}

} // verus!
