use twingate_tray::error::TwingateError;
use twingate_tray::models::{InternetSecurity, Network, User};
use twingate_tray::network::{
    screen_listing,
    ready_after_check, ready_before_check, resources_json_body, FetchPhase, FetchStep,
    NetworkFetch, ReadyStep, ServiceState, BASE_DELAY_MS, MAX_DELAY_MS, MAX_RETRIES,
};

fn sample_network() -> Network {
    Network {
        admin_url: "https://admin.twingate.com".to_string(),
        full_tunnel_time_limit: 3600,
        internet_security: InternetSecurity { mode: 1, status: 2 },
        resources: vec![],
        user: User {
            avatar_url: "https://example.com/avatar.png".to_string(),
            email: "test@example.com".to_string(),
            first_name: "Test".to_string(),
            id: "user-123".to_string(),
            is_admin: false,
            last_name: "User".to_string(),
        },
    }
}

#[test]
fn test_service_state_from_status_output_not_running() {
    let test_cases = vec![
        "not-running",
        "offline",
        "stopped",
        "not running",
        "inactive",
        "dead",
        "Service is not-running",
        "Status: offline",
    ];

    for output in test_cases {
        let state = ServiceState::from_status_output(output);
        assert_eq!(state, ServiceState::NotRunning, "Failed for output: {}", output);
    }
}

#[test]
fn test_service_state_from_status_output_starting() {
    let test_cases = vec![
        "starting",
        "initializing",
        "booting",
        "loading",
        "launching",
        "Service is starting",
        "Status: initializing",
    ];

    for output in test_cases {
        let state = ServiceState::from_status_output(output);
        assert_eq!(state, ServiceState::Starting, "Failed for output: {}", output);
    }
}

#[test]
fn test_service_state_from_status_output_connecting() {
    let test_cases = vec![
        "connecting",
        "authenticating",
        "handshake",
        "establishing",
        "negotiating",
        "Service is connecting",
        "Status: authenticating",
    ];

    for output in test_cases {
        let state = ServiceState::from_status_output(output);
        assert_eq!(state, ServiceState::Connecting, "Failed for output: {}", output);
    }
}

#[test]
fn test_service_state_from_status_output_connected() {
    let test_cases = vec![
        "online",
        "connected",
        "ready",
        "active",
        "established",
        "Service is online",
        "Status: connected",
    ];

    for output in test_cases {
        let state = ServiceState::from_status_output(output);
        assert_eq!(state, ServiceState::Connected, "Failed for output: {}", output);
    }
}

#[test]
fn test_service_state_from_status_output_auth_required() {
    let test_cases = vec![
        "authentication is required",
        "auth required",
        "authentication required",
        "user authentication is required",
        "needs authentication",
        "not authenticated",
        "authentication needed",
        "please authenticate",
        "requires authentication",
        "auth expired",
        "Authentication is Required",
        "AUTH REQUIRED",
    ];

    for output in test_cases {
        let state = ServiceState::from_status_output(output);
        assert_eq!(state, ServiceState::AuthRequired, "Failed for output: {}", output);
    }
}

#[test]
fn test_service_state_from_status_output_auth_required_priority() {
    let test_cases = vec![
        "connected but authentication is required",
        "online, auth required",
        "ready - user authentication is required",
    ];

    for output in test_cases {
        let state = ServiceState::from_status_output(output);
        assert_eq!(state, ServiceState::AuthRequired, "Failed for output: {}", output);
    }
}

#[test]
fn test_service_state_from_status_output_unknown() {
    let test_cases = vec![
        "unknown status",
        "weird state",
        "unexpected output",
        "",
        "12345",
        "random text",
    ];

    for output in test_cases {
        let state = ServiceState::from_status_output(output);
        assert_eq!(state, ServiceState::Connecting, "Failed for output: {}", output);
    }
}

#[test]
fn test_service_state_from_status_output_case_insensitive() {
    let test_cases = vec![
        ("NOT-RUNNING", ServiceState::NotRunning),
        ("ONLINE", ServiceState::Connected),
        ("STARTING", ServiceState::Starting),
        ("CONNECTING", ServiceState::Connecting),
        ("Authentication Is Required", ServiceState::AuthRequired),
    ];

    for (output, expected) in test_cases {
        let state = ServiceState::from_status_output(output);
        assert_eq!(state, expected, "Failed for output: {}", output);
    }
}

#[test]
fn test_service_state_debug_format() {
    assert_eq!(format!("{:?}", ServiceState::NotRunning), "NotRunning");
    assert_eq!(format!("{:?}", ServiceState::Starting), "Starting");
    assert_eq!(format!("{:?}", ServiceState::Connecting), "Connecting");
    assert_eq!(format!("{:?}", ServiceState::Connected), "Connected");
    assert_eq!(format!("{:?}", ServiceState::AuthRequired), "AuthRequired");
}

#[test]
fn test_service_state_equality() {
    assert_eq!(ServiceState::NotRunning, ServiceState::NotRunning);
    assert_eq!(ServiceState::Connected, ServiceState::Connected);
    assert_ne!(ServiceState::NotRunning, ServiceState::Connected);
    assert_ne!(ServiceState::Starting, ServiceState::Connecting);
}

#[test]
fn test_service_state_clone() {
    let state = ServiceState::AuthRequired;
    let cloned = state.clone();
    assert_eq!(state, cloned);
}

#[test]
fn network_test_constants_values() {
    assert_eq!(MAX_RETRIES, 8);
    assert_eq!(BASE_DELAY_MS, 1000);
    assert_eq!(MAX_DELAY_MS, 10000);
}

#[test]
fn test_service_state_from_complex_output() {
    let complex_outputs = vec![
        ("Twingate is not-running. Run 'twingate start' to start.", ServiceState::NotRunning),
        ("Twingate is online. Resources: 5", ServiceState::Connected),
        ("Twingate is starting... Please wait.", ServiceState::Starting),
        ("Twingate is connecting to network...", ServiceState::Connecting),
        ("Twingate is ready but user authentication is required. Please run 'twingate auth'.", ServiceState::AuthRequired),
    ];

    for (output, expected) in complex_outputs {
        let state = ServiceState::from_status_output(output);
        assert_eq!(state, expected, "Failed for complex output: {}", output);
    }
}

#[test]
fn test_service_state_multiline_output() {
    let multiline_output = "Twingate Status:\nState: authentication is required\nResources: 0";
    let state = ServiceState::from_status_output(multiline_output);
    assert_eq!(state, ServiceState::AuthRequired);
}

#[test]
fn test_service_state_whitespace_handling() {
    let outputs_with_whitespace = vec![
        "  authentication is required  ",
        "\tconnected\t",
        "\nstarting\n",
        "   not-running   ",
    ];

    let expected = vec![
        ServiceState::AuthRequired,
        ServiceState::Connected,
        ServiceState::Starting,
        ServiceState::NotRunning,
    ];

    for (output, expected_state) in outputs_with_whitespace.iter().zip(expected.iter()) {
        let state = ServiceState::from_status_output(output);
        assert_eq!(&state, expected_state, "Failed for output with whitespace: '{}'", output);
    }
}

#[test]
fn classifier_lowercases_non_ascii_letters() {
    // Unicode white space is trimmed and letters are folded.
    assert_eq!(ServiceState::from_status_output("ÉTAT: OFFLINE"), ServiceState::NotRunning);
    assert_eq!(ServiceState::from_status_output("\u{3000}ONLINE\u{3000}"), ServiceState::Connected);
}

#[test]
fn classifier_auth_stem_with_expired() {
    assert_eq!(ServiceState::from_status_output("Token expired, re-auth now"), ServiceState::AuthRequired);
    assert_eq!(ServiceState::from_status_output("Token expired"), ServiceState::Connecting);
}

#[test]
fn listing_empty_is_connecting() {
    assert_eq!(resources_json_body("   \n"), Err(TwingateError::ServiceConnecting));
}

#[test]
fn listing_auth_message_requires_auth() {
    assert_eq!(
        resources_json_body("Authentication needed to list resources"),
        Err(TwingateError::AuthenticationRequired)
    );
    assert_eq!(resources_json_body("LOGIN REQUIRED"), Err(TwingateError::AuthenticationRequired));
}

#[test]
fn listing_transitional_word_is_connecting() {
    assert_eq!(resources_json_body("  Not Ready "), Err(TwingateError::ServiceConnecting));
    assert_eq!(resources_json_body("HANDSHAKING"), Err(TwingateError::ServiceConnecting));
}

#[test]
fn listing_other_text_without_auth_is_connecting() {
    assert_eq!(resources_json_body("please wait a moment"), Err(TwingateError::ServiceConnecting));
}

#[test]
fn listing_other_text_with_auth_stem_requires_auth() {
    assert_eq!(resources_json_body("oauth pending"), Err(TwingateError::AuthenticationRequired));
}

#[test]
fn listing_json_body_is_trimmed() {
    assert_eq!(resources_json_body("\n  {\"a\": 1}  \n"), Ok("{\"a\": 1}".to_string()));
    assert_eq!(resources_json_body("[]"), Ok("[]".to_string()));
}

fn run_with_status(max_retries: u32, status: ServiceState) -> (u32, Vec<u64>, FetchStep) {
    let mut fetch = NetworkFetch::new(max_retries);
    let mut checks = 0u32;
    let mut waits = Vec::new();
    let mut step = FetchStep::CheckStatus;
    loop {
        step = match step {
            FetchStep::CheckStatus => {
                checks += 1;
                fetch.on_status(Ok(status))
            }
            FetchStep::Wait(ms) => {
                waits.push(ms);
                fetch.on_wait_over()
            }
            FetchStep::FetchResources => panic!("no listing expected"),
            done @ FetchStep::Finished(_) => return (checks, waits, done),
        };
    }
}

#[test]
fn retry_exhaustion_with_three_retries() {
    let (checks, waits, done) = run_with_status(3, ServiceState::Starting);
    assert_eq!(checks, 4);
    assert_eq!(waits, vec![1000, 2000, 4000]);
    match done {
        FetchStep::Finished(Err(TwingateError::RetryLimitExceeded { attempts })) => assert_eq!(attempts, 4),
        other => panic!("unexpected {:?}", other),
    }
}

#[test]
fn retry_delays_are_capped() {
    let (checks, waits, _) = run_with_status(MAX_RETRIES, ServiceState::Connecting);
    assert_eq!(checks, 9);
    assert_eq!(waits, vec![1000, 2000, 4000, 8000, 10000, 10000, 10000, 10000]);
}

#[test]
fn not_running_short_circuits() {
    let mut fetch = NetworkFetch::new(3);
    match fetch.on_status(Ok(ServiceState::NotRunning)) {
        FetchStep::Finished(Ok(None)) => {}
        other => panic!("unexpected {:?}", other),
    }
    assert_eq!(fetch.retry_count, 0);
    assert_eq!(fetch.phase, FetchPhase::Done);
}

#[test]
fn auth_required_status_ends_fetch() {
    let mut fetch = NetworkFetch::new(3);
    match fetch.on_status(Ok(ServiceState::AuthRequired)) {
        FetchStep::Finished(Err(TwingateError::AuthenticationRequired)) => {}
        other => panic!("unexpected {:?}", other),
    }
}

#[test]
fn connected_then_snapshot() {
    let mut fetch = NetworkFetch::new(3);
    assert!(matches!(fetch.on_status(Ok(ServiceState::Connected)), FetchStep::FetchResources));
    match fetch.on_resources(Ok(Some(sample_network()))) {
        FetchStep::Finished(Ok(Some(n))) => assert_eq!(n.user.email, "test@example.com"),
        other => panic!("unexpected {:?}", other),
    }
}

#[test]
fn connected_but_listing_not_ready_retries() {
    let mut fetch = NetworkFetch::new(1);
    assert!(matches!(fetch.on_status(Ok(ServiceState::Connected)), FetchStep::FetchResources));
    assert!(matches!(fetch.on_resources(Err(TwingateError::ServiceConnecting)), FetchStep::Wait(1000)));
    assert!(matches!(fetch.on_wait_over(), FetchStep::CheckStatus));
    assert!(matches!(fetch.on_status(Ok(ServiceState::Connected)), FetchStep::FetchResources));
    match fetch.on_resources(Err(TwingateError::ServiceConnecting)) {
        FetchStep::Finished(Err(TwingateError::RetryLimitExceeded { attempts: 2 })) => {}
        other => panic!("unexpected {:?}", other),
    }
}

#[test]
fn connected_listing_error_is_returned() {
    let mut fetch = NetworkFetch::new(3);
    fetch.on_status(Ok(ServiceState::Connected));
    let err = TwingateError::CommandExecutionError { details: "no notifier".to_string() };
    match fetch.on_resources(Err(err.clone())) {
        FetchStep::Finished(Err(e)) => assert_eq!(e, err),
        other => panic!("unexpected {:?}", other),
    }
}

#[test]
fn status_failure_falls_back_to_listing() {
    let mut fetch = NetworkFetch::new(3);
    let status_err = TwingateError::CommandExecutionError { details: "no binary".to_string() };
    assert!(matches!(fetch.on_status(Err(status_err.clone())), FetchStep::FetchResources));
    match fetch.on_resources(Ok(None)) {
        FetchStep::Finished(Ok(None)) => {}
        other => panic!("unexpected {:?}", other),
    }

    let mut fetch = NetworkFetch::new(3);
    fetch.on_status(Err(status_err.clone()));
    match fetch.on_resources(Err(TwingateError::CommandExecutionError { details: "none".to_string() })) {
        FetchStep::Finished(Err(e)) => assert_eq!(e, status_err),
        other => panic!("unexpected {:?}", other),
    }
}

#[test]
fn ready_wait_steps() {
    assert!(matches!(ready_before_check(0, 120), ReadyStep::CheckStatus));
    assert!(matches!(ready_before_check(119_999, 120), ReadyStep::CheckStatus));
    match ready_before_check(120_000, 120) {
        ReadyStep::TimedOut(TwingateError::AuthenticationTimeout { seconds }) => assert_eq!(seconds, 120),
        other => panic!("unexpected {:?}", other),
    }
    assert!(matches!(ready_after_check(&Ok(ServiceState::Connected)), ReadyStep::Ready));
    assert!(matches!(ready_after_check(&Ok(ServiceState::Starting)), ReadyStep::Sleep(1000)));
    assert!(matches!(ready_after_check(&Err(TwingateError::InvalidUtf8)), ReadyStep::Sleep(1000)));
}

#[test]
fn unrecognized_text_reads_as_connecting() {
    assert_eq!(ServiceState::from_status_output("xyzzy"), ServiceState::Connecting);
    assert_eq!(ServiceState::from_status_output(""), ServiceState::Connecting);
}

#[test]
fn listing_parse_failures_are_retried() {
    let mut fetch = NetworkFetch::new(2);
    fetch.on_status(Ok(ServiceState::Connected));
    assert!(matches!(
        fetch.on_resources(Err(TwingateError::JsonError { details: "eof".to_string() })),
        FetchStep::Wait(1000)
    ));
    fetch.on_wait_over();
    fetch.on_status(Ok(ServiceState::Connected));
    assert!(matches!(fetch.on_resources(Err(TwingateError::InvalidUtf8)), FetchStep::Wait(2000)));
}

#[test]
fn state_of_lowered_text() {
    let t: Vec<char> = "ready, but auth expired".chars().collect();
    assert_eq!(ServiceState::from_lowered(&t), ServiceState::AuthRequired);
    let t: Vec<char> = "ONLINE".chars().collect();
    // Given text is taken as already lower case.
    assert_eq!(ServiceState::from_lowered(&t), ServiceState::Connecting);
}

#[test]
fn screening_given_lowered_text() {
    let t: Vec<char> = "{\"x\": 1}".chars().collect();
    assert_eq!(screen_listing(&t, &t), Ok("{\"x\": 1}".to_string()));
    let t: Vec<char> = "Please Authenticate".chars().collect();
    let low: Vec<char> = "please authenticate".chars().collect();
    assert_eq!(screen_listing(&t, &low), Err(TwingateError::AuthenticationRequired));
}
