use twingate_tray::models::{InternetSecurity, Network, User};
use twingate_tray::state::{stale_at, AppState, ServiceStatus};

fn create_test_network() -> Network {
    Network {
        admin_url: "https://admin.twingate.com".to_string(),
        full_tunnel_time_limit: 3600,
        internet_security: InternetSecurity { mode: 1, status: 2 },
        resources: vec![],
        user: User {
            avatar_url: "https://example.com/avatar.png".to_string(),
            email: "test@example.com".to_string(),
            first_name: "Test".to_string(),
            id: "user-123".to_string(),
            is_admin: false,
            last_name: "User".to_string(),
        },
    }
}

#[test]
fn test_service_status_default() {
    let status = ServiceStatus::default();
    assert_eq!(status, ServiceStatus::NotRunning);
}

#[test]
fn test_service_status_equality() {
    assert_eq!(ServiceStatus::NotRunning, ServiceStatus::NotRunning);
    assert_eq!(ServiceStatus::Connected, ServiceStatus::Connected);
    assert_eq!(
        ServiceStatus::Authenticating("url".to_string()),
        ServiceStatus::Authenticating("url".to_string())
    );

    assert_ne!(ServiceStatus::NotRunning, ServiceStatus::Connected);
    assert_ne!(
        ServiceStatus::Authenticating("url1".to_string()),
        ServiceStatus::Authenticating("url2".to_string())
    );
}

#[test]
fn test_app_state_new() {
    let state = AppState::new();
    assert!(state.network().is_none());
    assert_eq!(state.service_status(), &ServiceStatus::NotRunning);
    assert!(state.auth_url().is_none());
    assert!(state.last_update().is_none());
    assert!(!state.is_refreshing());
}

#[test]
fn test_app_state_default() {
    let state = AppState::default();
    assert!(state.network().is_none());
    assert_eq!(state.service_status(), &ServiceStatus::NotRunning);
    assert!(state.auth_url().is_none());
}

#[test]
fn test_update_network_with_data() {
    let mut state = AppState::new();
    let network = create_test_network();

    state.update_network(Some(network.clone()));

    assert!(state.network().is_some());
    assert_eq!(state.network().unwrap().user.email, "test@example.com");
    assert_eq!(state.service_status(), &ServiceStatus::Connected);
    assert!(state.last_update().is_some());
    assert!(!state.is_refreshing());
}

#[test]
fn test_update_network_with_none() {
    let mut state = AppState::new();

    state.update_network(None);

    assert!(state.network().is_none());
    assert_eq!(state.service_status(), &ServiceStatus::NotRunning);
    assert!(state.last_update().is_some());
    assert!(!state.is_refreshing());
}

#[test]
fn test_set_authenticating() {
    let mut state = AppState::new();
    let auth_url = "https://auth.example.com".to_string();

    state.set_authenticating(auth_url.clone());

    assert!(state.network().is_none());
    assert_eq!(state.service_status(), &ServiceStatus::Authenticating(auth_url.clone()));
    assert_eq!(state.auth_url(), Some(auth_url.as_str()));
    assert!(state.last_update().is_some());
    assert!(!state.is_refreshing());
}

#[test]
fn test_auth_url_when_not_authenticating() {
    let mut state = AppState::new();
    let network = create_test_network();

    state.update_network(Some(network));

    assert_eq!(state.service_status(), &ServiceStatus::Connected);
    assert!(state.auth_url().is_none());
}

#[test]
fn test_is_stale_with_no_update() {
    let state = AppState::new();
    let threshold_ms = 30_000;

    assert!(state.is_stale(threshold_ms));
}

#[test]
fn test_is_stale_with_recent_update() {
    let mut state = AppState::new();
    state.update_network(None);

    let threshold_ms = 30_000;
    assert!(!state.is_stale(threshold_ms));
}

#[test]
fn test_should_refresh_when_not_refreshing_and_stale() {
    let state = AppState::new();
    let threshold_ms = 30_000;

    assert!(state.should_refresh(threshold_ms));
}

#[test]
fn test_should_refresh_when_refreshing() {
    let mut state = AppState::new();
    state.begin_refresh();
    let threshold_ms = 30_000;

    assert!(!state.should_refresh(threshold_ms));
}

#[test]
fn test_should_refresh_when_not_stale() {
    let mut state = AppState::new();
    state.update_network(None);
    let threshold_ms = 30_000;

    assert!(!state.should_refresh(threshold_ms));
}

#[test]
fn test_state_transitions() {
    let mut state = AppState::new();

    assert_eq!(state.service_status(), &ServiceStatus::NotRunning);

    state.set_authenticating("https://auth.example.com".to_string());
    assert!(matches!(state.service_status(), ServiceStatus::Authenticating(_)));
    assert!(state.network().is_none());

    let network = create_test_network();
    state.update_network(Some(network));
    assert_eq!(state.service_status(), &ServiceStatus::Connected);
    assert!(state.network().is_some());

    state.update_network(None);
    assert_eq!(state.service_status(), &ServiceStatus::NotRunning);
    assert!(state.network().is_none());
}

#[test]
fn test_debug_format() {
    let state = AppState::new();
    let debug_str = format!("{:?}", state);
    assert!(debug_str.contains("AppState"));
    assert!(debug_str.contains("NotRunning"));
}

#[test]
fn test_service_status_debug_format() {
    let status = ServiceStatus::NotRunning;
    assert_eq!(format!("{:?}", status), "NotRunning");

    let status = ServiceStatus::Connected;
    assert_eq!(format!("{:?}", status), "Connected");

    let status = ServiceStatus::Authenticating("test".to_string());
    assert_eq!(format!("{:?}", status), "Authenticating(\"test\")");
}

#[test]
fn test_service_status_clone() {
    let status = ServiceStatus::Authenticating("test".to_string());
    let cloned = status.clone();
    assert_eq!(status, cloned);
}

#[test]
fn authenticating_drops_cached_snapshot() {
    let mut state = AppState::new();
    state.update_network(Some(create_test_network()));
    assert!(state.network().is_some());
    state.set_authenticating("https://auth.example.com/device".to_string());
    assert!(state.network().is_none());
    assert_eq!(state.auth_url(), Some("https://auth.example.com/device"));
}

#[test]
fn staleness_at_given_times() {
    assert!(stale_at(None, 0, 30_000));
    assert!(!stale_at(Some(1_000), 31_000, 30_000));
    assert!(stale_at(Some(1_000), 31_001, 30_000));
    // A clock that went backwards does not make the data stale.
    assert!(!stale_at(Some(50_000), 10_000, 30_000));
}

#[test]
fn should_refresh_at_given_times() {
    let mut state = AppState::new();
    assert!(state.should_refresh_at(0, 30_000));
    state.update_network(None);
    let t = state.last_update().unwrap();
    assert!(!state.should_refresh_at(t + 30_000, 30_000));
    assert!(state.should_refresh_at(t + 30_001, 30_000));
    state.begin_refresh();
    assert!(!state.should_refresh_at(t + 30_001, 30_000));
}
