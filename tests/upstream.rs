use relay_upstream::ids::Uuid;
use relay_upstream::rate_limits::{parse_rate_limits, DataCategory, QuotaScope, RateLimitScope, Scoping};
use relay_upstream::retry::RetryBackoff;
use relay_upstream::upstream::{
    handle_response, join_header_values, ApiErrorResponse, AuthState, Config, Credentials, Method,
    RegisterRequest, RelayMode, SendQuery, SendRequest, UpstreamRateLimits, UpstreamRelay, UpstreamRequestError,
};

fn config(credentials: bool) -> Config {
    Config {
        relay_mode: RelayMode::Managed,
        credentials: if credentials {
            Some(Credentials {
                id: Uuid { value: 0x67e5504410b1426f9247bb680e5fe0c8u128 },
                public_key: "key".to_string(),
            })
        } else {
            None
        },
        upstream_url: "https://sentry.example.com".to_string(),
        upstream_host: "sentry.example.com".to_string(),
        http_host_header: None,
        http_max_retry_interval_ms: 8000,
        max_api_payload_size: 1024,
    }
}

fn scoping() -> Scoping {
    Scoping { organization_id: 1, project_id: 2, key_id: 3 }
}

#[test]
fn backoff_doubles_up_to_the_cap_and_resets() {
    let mut b = RetryBackoff::new(1000, 8000);
    let seq: Vec<u64> = (0..6).map(|_| b.next_backoff()).collect();
    assert_eq!(seq, vec![1000, 2000, 4000, 8000, 8000, 8000]);
    b.reset();
    assert_eq!(b.next_backoff(), 1000);
}

#[test]
fn backoff_initial_above_cap_is_capped() {
    let mut b = RetryBackoff::new(5000, 3000);
    assert_eq!(b.next_backoff(), 3000);
    assert_eq!(b.next_backoff(), 3000);
}

#[test]
fn scoped_header_gives_one_limit() {
    let limits = UpstreamRateLimits::new()
        .rate_limits("60:transaction:key:reason".to_string())
        .scope(&scoping());
    assert_eq!(limits.len(), 1);
    let l = limits.get(0);
    assert_eq!(l.categories, vec![DataCategory::Transaction]);
    assert_eq!(l.scope, RateLimitScope::Key(3));
    assert_eq!(l.retry_after, 60);
    assert_eq!(l.reason_code, Some("reason".to_string()));
}

#[test]
fn retry_after_fallback() {
    let limits = UpstreamRateLimits::new().retry_after(Some("10")).scope(&scoping());
    assert_eq!(limits.len(), 1);
    let l = limits.get(0);
    assert!(l.categories.is_empty());
    assert_eq!(l.scope, RateLimitScope::Key(3));
    assert_eq!(l.retry_after, 10);
    assert_eq!(l.reason_code, None);
}

#[test]
fn no_limits_without_headers() {
    let limits = UpstreamRateLimits::new().retry_after(Some("soon")).scope(&scoping());
    assert!(!limits.is_limited());
}

#[test]
fn lenient_header_parsing() {
    let limits = parse_rate_limits(
        &scoping(),
        "garbage, 42::organization, 7:error;;session:project:r1:extra,:x",
    );
    assert_eq!(limits.len(), 2);
    assert_eq!(limits.get(0).retry_after, 42);
    assert!(limits.get(0).categories.is_empty());
    assert_eq!(limits.get(0).scope, RateLimitScope::Organization(1));
    assert_eq!(limits.get(0).reason_code, None);
    assert_eq!(limits.get(1).categories, vec![DataCategory::Error, DataCategory::Session]);
    assert_eq!(limits.get(1).scope, RateLimitScope::Project(2));
    assert_eq!(limits.get(1).reason_code, Some("r1".to_string()));
    assert!(!parse_rate_limits(&scoping(), "").is_limited());
}

#[test]
fn names_are_case_sensitive() {
    assert_eq!(DataCategory::from_name("transaction"), DataCategory::Transaction);
    assert_eq!(DataCategory::from_name("Transaction"), DataCategory::Unknown);
    assert_eq!(QuotaScope::from_name("key"), QuotaScope::Key);
    assert_eq!(QuotaScope::from_name("KEY"), QuotaScope::Unknown);
    let limits = parse_rate_limits(&scoping(), "5:default:whatever");
    assert_eq!(limits.get(0).scope, RateLimitScope::Key(3));
}

#[test]
fn responses_are_classified() {
    assert!(handle_response(204, None, &vec![], None).is_ok());
    let r = handle_response(
        429,
        Some("10"),
        &vec!["60:error:key".to_string(), "30:session:project".to_string()],
        None,
    );
    match r {
        Err(UpstreamRequestError::RateLimited(limits)) => {
            let scoped = limits.scope(&scoping());
            assert_eq!(scoped.len(), 2);
            assert_eq!(scoped.get(1).scope, RateLimitScope::Project(2));
        }
        other => panic!("unexpected {:?}", other),
    }
    match handle_response(500, None, &vec![], None) {
        Err(UpstreamRequestError::ResponseError(500, body)) => {
            assert_eq!(body, ApiErrorResponse::empty())
        }
        other => panic!("unexpected {:?}", other),
    }
    let detail = ApiErrorResponse { detail: Some("bad".to_string()), causes: vec![] };
    match handle_response(403, None, &vec![], Some(detail.clone())) {
        Err(UpstreamRequestError::ResponseError(403, body)) => assert_eq!(body, detail),
        other => panic!("unexpected {:?}", other),
    }
}

#[test]
fn header_values_are_joined() {
    assert_eq!(join_header_values(&vec![]), "");
    assert_eq!(join_header_values(&vec!["a".to_string(), "b".to_string()]), "a, b");
}

#[test]
fn queries_need_registration() {
    let relay = UpstreamRelay::new(config(true));
    assert!(!relay.is_authenticated());
    let query = RegisterRequest { relay_id: Uuid { value: 1 }, public_key: "k".to_string() };
    assert_eq!(relay.handle_send_query(&SendQuery(query)).unwrap_err(), UpstreamRequestError::NotAuthenticated);
}

#[test]
fn handshake_client_error_is_final() {
    let mut relay = UpstreamRelay::new(config(true));
    assert!(relay.started());
    let request = relay.begin_authentication().unwrap();
    assert_eq!(relay.auth_state(), AuthState::RegisterRequestChallenge);
    let template = relay.send_query(&request).unwrap();
    assert_eq!(template.method, Method::Post);
    assert_eq!(template.url, "https://sentry.example.com/api/0/relays/register/challenge/");
    let err = UpstreamRequestError::ResponseError(403, ApiErrorResponse::empty());
    assert_eq!(relay.authentication_failed(&err), None);
    assert_eq!(relay.auth_state(), AuthState::Error);
}

#[test]
fn handshake_server_error_retries_with_backoff() {
    let mut relay = UpstreamRelay::new(config(true));
    relay.begin_authentication().unwrap();
    let err = UpstreamRequestError::ResponseError(502, ApiErrorResponse::empty());
    assert_eq!(relay.authentication_failed(&err), Some(1000));
    assert_eq!(relay.authentication_failed(&err), Some(2000));
    let limited = UpstreamRequestError::RateLimited(UpstreamRateLimits::new());
    assert_eq!(relay.authentication_failed(&limited), Some(4000));
    assert_eq!(relay.auth_state(), AuthState::Error);
}

#[test]
fn handshake_success_registers() {
    let mut relay = UpstreamRelay::new(config(true));
    relay.begin_authentication().unwrap();
    let response = relay.challenge_received(Uuid { value: 7 }, "token".to_string());
    assert_eq!(relay.auth_state(), AuthState::RegisterChallengeResponse);
    let template = relay.send_query(&response).unwrap();
    assert_eq!(template.url, "https://sentry.example.com/api/0/relays/register/response/");
    relay.registration_completed();
    assert!(relay.is_authenticated());
    let template = relay.handle_send_query(&SendQuery(response)).unwrap();
    assert_eq!(template.host, "sentry.example.com");
    assert_eq!(template.relay_id, Some("67e55044-10b1-426f-9247-bb680e5fe0c8".to_string()));
}

#[test]
fn no_credentials_is_a_no_op() {
    let mut relay = UpstreamRelay::new(config(false));
    assert!(relay.begin_authentication().is_none());
    assert_eq!(relay.auth_state(), AuthState::Unknown);
    let query = RegisterRequest { relay_id: Uuid { value: 1 }, public_key: "k".to_string() };
    assert_eq!(relay.send_query(&query).unwrap_err(), UpstreamRequestError::NoCredentials);
    let template = relay.send_request(Method::Get, "/api/0/x/");
    assert_eq!(template.relay_id, None);
}

#[test]
fn host_header_override() {
    let mut c = config(true);
    c.http_host_header = Some("proxy.local".to_string());
    let relay = UpstreamRelay::new(c);
    assert_eq!(relay.send_request(Method::Get, "/p").host, "proxy.local");
}

#[test]
fn raw_requests_need_no_registration() {
    let relay = UpstreamRelay::new(config(true));
    assert!(!relay.handle_is_authenticated(relay_upstream::upstream::IsAuthenticated));
    let msg = SendRequest::post("/api/0/relays/projectconfigs/".to_string());
    assert_eq!(msg.method, Method::Post);
    let template = relay.handle_send_request(&msg);
    assert_eq!(template.url, "https://sentry.example.com/api/0/relays/projectconfigs/");
    assert_eq!(template.method, Method::Post);
    assert_eq!(template.relay_id, Some("67e55044-10b1-426f-9247-bb680e5fe0c8".to_string()));
}
