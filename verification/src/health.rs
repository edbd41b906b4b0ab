//! The mock health service: the two operations' decision logic, and the
//! model of one inbound call as the transport layer drives it — interceptor
//! first, then, only on approval, the method body.

use crate::failure_modes::FailureMode;
use crate::rpc::spec_serving_response;
use crate::rpc::serving_response;
use crate::rpc::HealthCheckRequest;
use crate::rpc::HealthCheckResponse;
use crate::rpc::Operation;
use crate::rpc::RpcError;
use crate::rpc::StatusCode;
use crate::watch::WatchSession;
use vstd::prelude::*;

verus! {

/// Mock health service that can be configured to fail inside its method
/// bodies. Holds one immutable flag, derived from the failure mode at
/// construction; any number of in-flight calls may read it concurrently.
#[derive(Debug)]
pub struct Health {
    should_fail: bool,
}

/// Outcome of one Check call that reached the method body, as a function of
/// the service's failure flag alone.
pub open spec fn spec_check_outcome(should_fail: bool) -> Result<HealthCheckResponse, RpcError> {
    if should_fail {
        Err(RpcError::MethodFailure(Operation::Check))
    } else {
        Ok(spec_serving_response())
    }
}

/// Outcome of one Watch call that reached the method body: an immediate
/// failure, or a fresh producer session.
pub open spec fn spec_watch_outcome(should_fail: bool) -> Result<WatchSession, RpcError> {
    if should_fail {
        Err(RpcError::MethodFailure(Operation::Watch))
    } else {
        Ok(WatchSession::spec_init())
    }
}

impl Health {
    /// The method-level failure flag, fixed at construction.
    pub closed spec fn spec_should_fail(self) -> bool {
        self.should_fail
    }

    /// Builds the service with its method-level failure flag.
    pub fn new(should_fail: bool) -> (h: Self)
        ensures
            h.spec_should_fail() == should_fail,
    {
        Health { should_fail }
    }

    /// Single-shot health check. Decides synchronously, before any other
    /// work: when configured to fail it raises the Check-naming internal
    /// error, otherwise it answers `Serving`. It never blocks.
    pub fn check(&self, _request: &HealthCheckRequest) -> (r: Result<
        HealthCheckResponse,
        RpcError,
    >)
        ensures
            r == spec_check_outcome(self.spec_should_fail()),
    {
        if self.should_fail {
            Err(RpcError::MethodFailure(Operation::Check))
        } else {
            Ok(serving_response())
        }
    }

    /// Streaming health watch. When configured to fail it fails immediately,
    /// with the Watch-naming internal error, before any producer exists;
    /// otherwise it establishes a fresh session, about to emit, for the
    /// caller's background task to drive.
    pub fn watch(&self, _request: &HealthCheckRequest) -> (r: Result<WatchSession, RpcError>)
        ensures
            r == spec_watch_outcome(self.spec_should_fail()),
    {
        if self.should_fail {
            Err(RpcError::MethodFailure(Operation::Watch))
        } else {
            Ok(WatchSession::init())
        }
    }
}

/// One Check call as the transport layer drives it: the interceptor induced
/// by `mode` runs first, and only an approved request reaches the method
/// body of a service built from `mode`'s flag.
pub open spec fn spec_check_call(mode: FailureMode) -> Result<HealthCheckResponse, RpcError> {
    match mode.spec_interceptor().spec_intercept() {
        Err(e) => Err(e),
        Ok(_) => spec_check_outcome(mode.spec_should_fail_in_method()),
    }
}

/// One Watch call as the transport layer drives it, like `spec_check_call`.
pub open spec fn spec_watch_call(mode: FailureMode) -> Result<WatchSession, RpcError> {
    match mode.spec_interceptor().spec_intercept() {
        Err(e) => Err(e),
        Ok(_) => spec_watch_outcome(mode.spec_should_fail_in_method()),
    }
}

/// Under the default mode — the one in force when no configuration is
/// supplied — nothing is injected: every Check serves, and every Watch
/// establishes a session that emits indefinitely.
pub proof fn lemma_default_mode_serves()
    ensures
        spec_check_call(FailureMode::NoFailure) == Ok::<HealthCheckResponse, RpcError>(
            spec_serving_response(),
        ),
        spec_watch_call(FailureMode::NoFailure) == Ok::<WatchSession, RpcError>(
            WatchSession::spec_init(),
        ),
{
}

/// Interceptor mode rejects every call — Check and Watch alike — at the
/// boundary, with the one permission-denied error. The method body never
/// runs: the outcome is never a method failure, and no Watch session — so
/// no background producer — ever comes into being.
pub proof fn lemma_interceptor_mode_rejects_at_boundary()
    ensures
        spec_check_call(FailureMode::Interceptor) == Err::<HealthCheckResponse, RpcError>(
            RpcError::BoundaryRejected,
        ),
        spec_watch_call(FailureMode::Interceptor) == Err::<WatchSession, RpcError>(
            RpcError::BoundaryRejected,
        ),
        RpcError::BoundaryRejected.spec_code() == StatusCode::PermissionDenied,
{
}

/// Method mode lets every call through the boundary, and both operations
/// then fail deliberately, each with the internal error naming itself — the
/// two messages are distinguishable. Watch fails before any session exists,
/// so no emission is ever observed in this mode.
pub proof fn lemma_method_mode_fails_in_both_methods()
    ensures
        spec_check_call(FailureMode::Method) == Err::<HealthCheckResponse, RpcError>(
            RpcError::MethodFailure(Operation::Check),
        ),
        spec_watch_call(FailureMode::Method) == Err::<WatchSession, RpcError>(
            RpcError::MethodFailure(Operation::Watch),
        ),
        RpcError::MethodFailure(Operation::Check).spec_message() != RpcError::MethodFailure(
            Operation::Watch,
        ).spec_message(),
{
    reveal_strlit("Failure within the Check method");
    reveal_strlit("Failure within the Watch method");
    assert("Failure within the Check method"@[19] == 'C');
    assert("Failure within the Watch method"@[19] == 'W');
}

/// Repeated Check calls under identical configuration always produce the
/// same outcome: the outcome is a function of the configuration alone, so
/// neither call order nor concurrency can change it.
pub proof fn lemma_check_idempotent(m1: FailureMode, m2: FailureMode)
    requires
        m1 == m2,
    ensures
        spec_check_call(m1) == spec_check_call(m2),
{
}

} // verus!
