//! Hand-written data structures for the health-check wire contract, and the
//! errors this mock deliberately raises.

use vstd::prelude::*;

verus! {

/// Serving status carried in a health-check response, as the wire contract
/// enumerates it. This mock only ever produces `Serving`: the other statuses
/// exist so that a response saying anything else is expressible, and provably
/// never returned.
#[derive(Clone, Copy, Debug, PartialEq, Eq, Structural)]
pub enum ServingStatus {
    Unknown,
    Serving,
    NotServing,
    ServiceUnknown,
}

/// Request message of both operations: the name of the service whose health
/// is asked about. This mock ignores it and answers for the process as a
/// whole.
#[derive(Debug)]
pub struct HealthCheckRequest {
    pub service: String,
}

/// Response message of both operations.
#[derive(Clone, Copy, Debug, PartialEq, Eq, Structural)]
pub struct HealthCheckResponse {
    pub status: ServingStatus,
}

/// The response every successful call carries: status `Serving`.
pub open spec fn spec_serving_response() -> HealthCheckResponse {
    (HealthCheckResponse { status: ServingStatus::Serving })
}

/// Builds the one response this mock ever returns on success.
pub fn serving_response() -> (r: HealthCheckResponse)
    ensures
        r == spec_serving_response(),
{
    HealthCheckResponse { status: ServingStatus::Serving }
}

/// The two operations of the health-check contract.
#[derive(Clone, Copy, Debug, PartialEq, Eq, Structural)]
pub enum Operation {
    Check,
    Watch,
}

/// Code of an RPC error, as the transport layer classifies errors.
#[derive(Clone, Copy, Debug, PartialEq, Eq, Structural)]
pub enum StatusCode {
    PermissionDenied,
    Internal,
}

/// An RPC error this mock raises on purpose.
///
/// `BoundaryRejected` is the interceptor-level rejection: it is surfaced as a
/// permission-denied error and the service method never runs. `MethodFailure`
/// is raised inside the body of the named operation, so the failure origin
/// stays distinguishable by its message.
#[derive(Clone, Copy, Debug, PartialEq, Eq, Structural)]
pub enum RpcError {
    BoundaryRejected,
    MethodFailure(Operation),
}

impl RpcError {
    /// The code the transport layer reports for this error.
    pub open spec fn spec_code(self) -> StatusCode {
        match self {
            RpcError::BoundaryRejected => StatusCode::PermissionDenied,
            RpcError::MethodFailure(_) => StatusCode::Internal,
        }
    }

    /// The message the caller sees for this error.
    pub open spec fn spec_message(self) -> Seq<char> {
        match self {
            RpcError::BoundaryRejected => "Super secure"@,
            RpcError::MethodFailure(Operation::Check) => "Failure within the Check method"@,
            RpcError::MethodFailure(Operation::Watch) => "Failure within the Watch method"@,
        }
    }

    /// Returns the error code of this error.
    pub fn code(&self) -> (c: StatusCode)
        ensures
            c == self.spec_code(),
    {
        match self {
            RpcError::BoundaryRejected => StatusCode::PermissionDenied,
            RpcError::MethodFailure(_) => StatusCode::Internal,
        }
    }

    /// Returns the descriptive message of this error.
    pub fn message(&self) -> (m: &str)
        ensures
            m@ == self.spec_message(),
    {
        match self {
            RpcError::BoundaryRejected => "Super secure",
            RpcError::MethodFailure(Operation::Check) => "Failure within the Check method",
            RpcError::MethodFailure(Operation::Watch) => "Failure within the Watch method",
        }
    }
}

} // verus!
