use clutch_hub_api::auth::AuthUser;
use clutch_hub_api::configuration::{environment_name, AppConfig};
use clutch_hub_api::graphql::{Mutation, MutationError, Query, RideRequest, TokenResponse};
use serde_json::Value;

fn json(text: &str) -> Value {
    serde_json::from_str(text).unwrap()
}

fn placeholder() -> RideRequest {
    RideRequest { pickup_location: "0".to_string(), dropoff_location: "0".to_string() }
}

#[test]
fn queries_answer_with_the_placeholder() {
    let user = AuthUser { public_key: "pk".to_string() };
    assert_eq!(Query.ride_request(), Some(placeholder()));
    assert_eq!(Query.user_ride_requests(Some(&user)), Some(placeholder()));
}

#[test]
fn mutation_builds_its_answers() {
    assert_eq!(
        Mutation.create_ride_request("here".to_string(), "there".to_string()),
        RideRequest { pickup_location: "here".to_string(), dropoff_location: "there".to_string() }
    );
    assert_eq!(
        Mutation.generate_token("tok".to_string(), 99),
        TokenResponse { token: "tok".to_string(), expires_at: 99 }
    );
}

#[test]
fn mutation_errors_have_their_messages() {
    assert_eq!(
        MutationError::AuthError("no token".to_string()).message(),
        "Authentication failed: no token"
    );
    assert_eq!(
        MutationError::InternalError("boom".to_string()).message(),
        "Internal server error: boom"
    );
    assert_eq!(
        MutationError::InvalidRequest("fare".to_string()).message(),
        "Invalid request: fare"
    );
}

#[test]
fn ride_request_is_read_from_a_result() {
    assert_eq!(
        RideRequest::from_value(&json(
            r#"{"pickup_location":"a","dropoff_location":"b","fare":3}"#
        )),
        Some(RideRequest { pickup_location: "a".to_string(), dropoff_location: "b".to_string() })
    );
    assert_eq!(RideRequest::from_value(&json(r#"{"pickup_location":"a"}"#)), None);
    assert_eq!(RideRequest::from_value(&json(r#"{"dropoff_location":"b"}"#)), None);
    assert_eq!(
        RideRequest::from_value(&json(r#"{"pickup_location":1,"dropoff_location":"b"}"#)),
        None
    );
    assert_eq!(
        RideRequest::from_value(&json(r#"{"pickup_location":"a","dropoff_location":null}"#)),
        None
    );
    assert_eq!(RideRequest::from_value(&json(r#""a""#)), None);
}

#[test]
fn environment_prefers_the_flag() {
    assert_eq!(environment_name(Some("prod".to_string()), Some("dev".to_string())), "prod");
    assert_eq!(environment_name(None, Some("dev".to_string())), "dev");
    assert_eq!(environment_name(Some("prod".to_string()), None), "prod");
    assert_eq!(environment_name(None, None), "default");
}

#[test]
fn settings_file_is_named_after_the_environment() {
    assert_eq!(AppConfig::config_file("default"), "config/default.toml");
    assert_eq!(AppConfig::config_file(""), "config/.toml");
}
