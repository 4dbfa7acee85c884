use db_health::config::Config;
use db_health::config::StartupError;
use db_health::config::database_url_key;
use db_health::health::HealthResponse;
use db_health::health::health_response;
use db_health::server::Phase;
use db_health::server::StartupEvent;
use db_health::server::bind_address;
use db_health::server::handle_request;
use db_health::server::health_route;
use db_health::server::is_serving;
use db_health::server::on_event;

#[test]
fn healthy_database_gives_200_and_exact_body() {
    let r = health_response(true);
    assert_eq!(r.status, 200);
    assert_eq!(r.body, "Database connection is healthy!");
}

#[test]
fn unreachable_database_gives_500_and_exact_body() {
    let r = health_response(false);
    assert_eq!(r.status, 500);
    assert_eq!(r.body, "Database connection failed");
}

#[test]
fn failure_body_leaks_no_connection_string() {
    let r = health_response(false);
    assert!(!r.body.contains("postgres://"));
    assert!(!r.body.contains("DATABASE_URL"));
    assert!(!r.body.contains("panicked"));
}

#[test]
fn repeated_checks_are_identical() {
    let first = health_response(true);
    let second = health_response(true);
    assert_eq!(first, second);
    let first_failed = health_response(false);
    let second_failed = health_response(false);
    assert_eq!(first_failed, second_failed);
}

#[test]
fn many_checks_against_healthy_database_all_answer_200() {
    let mut responses: Vec<HealthResponse> = Vec::new();
    for _ in 0..16 {
        responses.push(health_response(true));
    }
    assert_eq!(responses.len(), 16);
    for r in &responses {
        assert_eq!(r.status, 200);
        assert_eq!(r.body, "Database connection is healthy!");
    }
}

#[test]
fn config_present_is_taken_as_is() {
    let r = Config::from_env_value(Some(String::from("postgres://user@host/db")));
    let c = r.expect("a present value must be accepted");
    assert_eq!(c.database_url, "postgres://user@host/db");
}

#[test]
fn config_absent_is_the_missing_url_error() {
    let r = Config::from_env_value(None);
    assert_eq!(r.unwrap_err(), StartupError::MissingDatabaseUrl);
}

#[test]
fn startup_error_messages() {
    assert_eq!(StartupError::MissingDatabaseUrl.message(), "DATABASE_URL must be set in .env");
    assert_eq!(StartupError::InvalidDatabaseUrl.message(), "Failed to create database pool");
    assert_eq!(StartupError::BindFailed.message(), "Failed to bind the listening address");
}

#[test]
fn successful_startup_reaches_serving() {
    let mut phase = Phase::AwaitingConfig;
    phase = on_event(phase, &StartupEvent::EnvRead(Some(String::from("postgres://h/db"))));
    assert_eq!(phase, Phase::AwaitingPool);
    phase = on_event(phase, &StartupEvent::PoolBuilt(true));
    assert_eq!(phase, Phase::AwaitingBind);
    phase = on_event(phase, &StartupEvent::BindCompleted(true));
    assert_eq!(phase, Phase::Serving);
    assert!(is_serving(&phase));
}

#[test]
fn missing_env_fails_before_any_bind() {
    let mut phase = Phase::AwaitingConfig;
    phase = on_event(phase, &StartupEvent::EnvRead(None));
    assert_eq!(phase, Phase::Failed(StartupError::MissingDatabaseUrl));
    // Later outcomes change nothing: the failure is final.
    phase = on_event(phase, &StartupEvent::PoolBuilt(true));
    phase = on_event(phase, &StartupEvent::BindCompleted(true));
    assert_eq!(phase, Phase::Failed(StartupError::MissingDatabaseUrl));
    assert_eq!(handle_request(&phase, true), None);
}

#[test]
fn malformed_url_fails_startup() {
    let mut phase = Phase::AwaitingConfig;
    phase = on_event(phase, &StartupEvent::EnvRead(Some(String::from("not a url"))));
    phase = on_event(phase, &StartupEvent::PoolBuilt(false));
    assert_eq!(phase, Phase::Failed(StartupError::InvalidDatabaseUrl));
    assert_eq!(handle_request(&phase, true), None);
}

#[test]
fn occupied_address_fails_startup_and_serves_nothing() {
    let mut phase = Phase::AwaitingConfig;
    phase = on_event(phase, &StartupEvent::EnvRead(Some(String::from("postgres://h/db"))));
    phase = on_event(phase, &StartupEvent::PoolBuilt(true));
    phase = on_event(phase, &StartupEvent::BindCompleted(false));
    assert_eq!(phase, Phase::Failed(StartupError::BindFailed));
    // The failure is final and no request is ever answered.
    phase = on_event(phase, &StartupEvent::BindCompleted(true));
    assert_eq!(phase, Phase::Failed(StartupError::BindFailed));
    assert_eq!(handle_request(&phase, true), None);
    assert_eq!(handle_request(&phase, false), None);
}

#[test]
fn serving_server_answers_by_database_outcome() {
    let phase = Phase::Serving;
    let ok = handle_request(&phase, true).expect("a serving server answers");
    assert_eq!(ok.status, 200);
    assert_eq!(ok.body, "Database connection is healthy!");
    let bad = handle_request(&phase, false).expect("a serving server answers");
    assert_eq!(bad.status, 500);
    assert_eq!(bad.body, "Database connection failed");
}

#[test]
fn startup_phases_never_answer_requests() {
    assert_eq!(handle_request(&Phase::AwaitingConfig, true), None);
    assert_eq!(handle_request(&Phase::AwaitingPool, true), None);
    assert_eq!(handle_request(&Phase::AwaitingBind, true), None);
}

#[test]
fn fixed_external_interface() {
    assert_eq!(database_url_key(), "DATABASE_URL");
    assert_eq!(bind_address(), "0.0.0.0:8080");
    assert_eq!(health_route(), "/health");
}
