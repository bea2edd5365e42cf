use vstd::prelude::*;

use crate::clients::mgmt::MGMTError;
use crate::clients::prometheus::PrometheusError;

verus! {

/// Failures of a reconcile round. Failures of the cluster API, of
/// serialization and of the finalizer carry their message.
#[derive(Debug, Clone, PartialEq, Eq)]
pub enum EboServerError {
    SerializationError(String),
    KubeError(String),
    FinalizerError(String),
    /// Error in user input or in the resource definition, typically a
    /// missing field.
    UserInputError(String),
    /// Error from the management API.
    MgmtApiError(MGMTError),
    /// Error from the Prometheus API.
    PrometheusApiError(PrometheusError),
    /// The server was not found.
    ServerNotFound,
}

/// The metric label of each kind of failure.
pub open spec fn metric_label_spec(e: EboServerError) -> Seq<char> {
    match e {
        EboServerError::SerializationError(_) => "serialization_error"@,
        EboServerError::KubeError(_) => "kube_error"@,
        EboServerError::FinalizerError(_) => "finalizer_error"@,
        EboServerError::UserInputError(_) => "user_input_error"@,
        EboServerError::MgmtApiError(_) => "mgmt_api_error"@,
        EboServerError::PrometheusApiError(_) => "prometheus_api_error"@,
        EboServerError::ServerNotFound => "server_not_found"@,
    }
}

impl EboServerError {
    /// The label under which the failure is counted.
    pub fn metric_label(&self) -> (s: String)
        ensures
            s@ == metric_label_spec(*self),
    {
        match self {
            EboServerError::SerializationError(_) => String::from_str("serialization_error"),
            EboServerError::KubeError(_) => String::from_str("kube_error"),
            EboServerError::FinalizerError(_) => String::from_str("finalizer_error"),
            EboServerError::UserInputError(_) => String::from_str("user_input_error"),
            EboServerError::MgmtApiError(_) => String::from_str("mgmt_api_error"),
            EboServerError::PrometheusApiError(_) => String::from_str("prometheus_api_error"),
            EboServerError::ServerNotFound => String::from_str("server_not_found"),
        }
    }
}

} // verus!
