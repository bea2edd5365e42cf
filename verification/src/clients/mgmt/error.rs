use vstd::prelude::*;

verus! {

/// Failures of the management client. Texts carry the underlying message.
#[derive(Debug, Clone, PartialEq, Eq)]
pub enum MGMTError {
    HttpError(String),
    ReqwestMiddleware(String),
    RegistrationFailed(String),
    ParseError(String),
    ServerNotFound,
    CheckAdminPasswordFailed(String),
    BackupFailed(String),
    BackupStatusError(String),
    BackupListError(String),
    LicenseRefreshFailed(String),
    MissingEnvVar(String),
    XmlParseError,
    ClientDisabled,
}

} // verus!
