use vstd::prelude::*;

verus! {

/// Failures of the Prometheus client. Texts carry the underlying message.
#[derive(Debug, Clone, PartialEq, Eq)]
pub enum PrometheusError {
    HttpError(String),
    ParseFloat(String),
    ReqwestMiddleware(String),
    ParseError(String),
    ServerNotFound,
    MissingEnvVar(String),
    PVCInfoError,
    ClientDisabled,
}

} // verus!
