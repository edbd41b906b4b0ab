use health_mock::failure_modes::FailureMode;
use health_mock::failure_modes::InterceptPolicy;
use health_mock::health::Health;
use health_mock::rpc::HealthCheckRequest;
use health_mock::rpc::HealthCheckResponse;
use health_mock::rpc::Operation;
use health_mock::rpc::RpcError;
use health_mock::rpc::ServingStatus;
use health_mock::watch::SessionPhase;
use health_mock::watch::WatchStep;
use health_mock::watch::WATCH_INTERVAL_MS;

fn request() -> HealthCheckRequest {
    HealthCheckRequest {
        service: String::new(),
    }
}

#[test]
fn parse_accepts_each_keyword_lowercase() {
    assert_eq!(
        FailureMode::from_str("interceptor").unwrap(),
        FailureMode::Interceptor
    );
    assert_eq!(FailureMode::from_str("method").unwrap(), FailureMode::Method);
    assert_eq!(FailureMode::from_str("none").unwrap(), FailureMode::NoFailure);
}

#[test]
fn parse_is_case_insensitive() {
    assert_eq!(
        FailureMode::from_str("INTERCEPTOR").unwrap(),
        FailureMode::Interceptor
    );
    assert_eq!(
        FailureMode::from_str("Interceptor").unwrap(),
        FailureMode::Interceptor
    );
    assert_eq!(FailureMode::from_str("MeThOd").unwrap(), FailureMode::Method);
    assert_eq!(FailureMode::from_str("NONE").unwrap(), FailureMode::NoFailure);
    assert_eq!(FailureMode::from_str("NoNe").unwrap(), FailureMode::NoFailure);
}

#[test]
fn parse_rejects_other_text_with_the_text() {
    let e = FailureMode::from_str("bogus").unwrap_err();
    assert_eq!(e.text(), "bogus");
    let e = FailureMode::from_str("nonee").unwrap_err();
    assert_eq!(e.text(), "nonee");
    let e = FailureMode::from_str(" none").unwrap_err();
    assert_eq!(e.text(), " none");
}

#[test]
fn parse_rejects_the_empty_string() {
    let e = FailureMode::from_str("").unwrap_err();
    assert_eq!(e.text(), "");
}

#[test]
fn parse_error_message_names_text_and_supported_values() {
    let e = FailureMode::from_str("sometimes").unwrap_err();
    assert_eq!(
        e.message(),
        "FAILURE_MODE of 'sometimes' not supported. Try 'INTERCEPTOR', 'METHOD', or 'NONE'"
    );
}

#[test]
fn default_mode_is_no_failure() {
    assert_eq!(FailureMode::default(), FailureMode::NoFailure);
}

#[test]
fn absent_configuration_resolves_to_the_default() {
    assert_eq!(
        FailureMode::from_config(None).unwrap(),
        FailureMode::NoFailure
    );
}

#[test]
fn present_configuration_is_parsed() {
    assert_eq!(
        FailureMode::from_config(Some("METHOD")).unwrap(),
        FailureMode::Method
    );
    let e = FailureMode::from_config(Some("")).unwrap_err();
    assert_eq!(e.text(), "");
}

#[test]
fn only_interceptor_mode_rejects_at_the_boundary() {
    assert_eq!(
        FailureMode::NoFailure.to_interceptor(),
        InterceptPolicy::ApproveAll
    );
    assert_eq!(
        FailureMode::Method.to_interceptor(),
        InterceptPolicy::ApproveAll
    );
    assert_eq!(
        FailureMode::Interceptor.to_interceptor(),
        InterceptPolicy::RejectAll
    );
}

#[test]
fn approve_all_approves_and_reject_all_rejects() {
    assert_eq!(InterceptPolicy::ApproveAll.intercept(), Ok(()));
    let e = InterceptPolicy::RejectAll.intercept().unwrap_err();
    assert_eq!(e, RpcError::BoundaryRejected);
    assert_eq!(e.message(), "Super secure");
}

#[test]
fn boundary_rejection_is_permission_denied() {
    let e = InterceptPolicy::RejectAll.intercept().unwrap_err();
    assert!(matches!(
        e.code(),
        health_mock::rpc::StatusCode::PermissionDenied
    ));
}

#[test]
fn check_serves_when_not_failing() {
    let health = Health::new(false);
    let response = health.check(&request()).unwrap();
    assert_eq!(
        response,
        HealthCheckResponse {
            status: ServingStatus::Serving
        }
    );
}

#[test]
fn check_fails_with_its_own_message_when_failing() {
    let health = Health::new(true);
    let e = health.check(&request()).unwrap_err();
    assert_eq!(e, RpcError::MethodFailure(Operation::Check));
    assert_eq!(e.message(), "Failure within the Check method");
    assert!(matches!(e.code(), health_mock::rpc::StatusCode::Internal));
}

#[test]
fn watch_fails_with_its_own_message_when_failing() {
    let health = Health::new(true);
    let e = health.watch(&request()).unwrap_err();
    assert_eq!(e, RpcError::MethodFailure(Operation::Watch));
    assert_eq!(e.message(), "Failure within the Watch method");
}

#[test]
fn check_and_watch_failures_are_distinguishable() {
    let health = Health::new(true);
    let check_error = health.check(&request()).unwrap_err();
    let watch_error = health.watch(&request()).unwrap_err();
    assert_ne!(check_error.message(), watch_error.message());
}

#[test]
fn fresh_watch_session_emits_before_any_sleep() {
    let health = Health::new(false);
    let session = health.watch(&request()).unwrap();
    assert_eq!(session.phase(), SessionPhase::Emitting);
    assert_eq!(session.sent(), 0);
    assert_eq!(
        session.next_step(),
        WatchStep::Emit(HealthCheckResponse {
            status: ServingStatus::Serving
        })
    );
}

#[test]
fn watch_session_alternates_emissions_and_sleeps() {
    let health = Health::new(false);
    let mut session = health.watch(&request()).unwrap();
    for round in 0..5u64 {
        match session.next_step() {
            WatchStep::Emit(response) => {
                assert_eq!(response.status, ServingStatus::Serving);
            }
            other => panic!("round {round}: expected an emission, got {other:?}"),
        }
        session.on_send(true);
        assert_eq!(session.sent(), round + 1);
        assert_eq!(session.next_step(), WatchStep::Sleep(WATCH_INTERVAL_MS));
        session.on_slept();
    }
    assert_eq!(session.sent(), 5);
}

#[test]
fn watch_interval_is_one_second() {
    assert_eq!(WATCH_INTERVAL_MS, 1000);
}

#[test]
fn failed_emission_stops_the_session() {
    let health = Health::new(false);
    let mut session = health.watch(&request()).unwrap();
    session.on_send(true);
    session.on_slept();
    session.on_send(false);
    assert_eq!(session.phase(), SessionPhase::Stopped);
    assert_eq!(session.next_step(), WatchStep::Stop);
    assert_eq!(session.sent(), 1);
}

#[test]
fn repeated_checks_give_the_same_outcome() {
    let serving = Health::new(false);
    assert_eq!(serving.check(&request()), serving.check(&request()));
    let failing = Health::new(true);
    assert_eq!(failing.check(&request()), failing.check(&request()));
    assert_eq!(
        failing.check(&request()).unwrap_err(),
        RpcError::MethodFailure(Operation::Check)
    );
}
