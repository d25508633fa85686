use base64::Engine;
use nadeo_api::dispatch::{classify_response, MetaData, NadeoClient};
use nadeo_api::error::Error;
use nadeo_api::factory::session_from_exchange;
use nadeo_api::request::{Method, NadeoRequest};
use nadeo_api::session::{AuthType, CredentialSession, RefreshOutcome, SessionCredentials};

fn tok(json: &str) -> String {
    let seg = base64::engine::general_purpose::URL_SAFE_NO_PAD.encode(json.as_bytes());
    format!("sec.{}.sig", seg)
}

fn pair_session(service: AuthType, audience: &str, expiry: i64) -> CredentialSession {
    let access = tok(&format!("{{\"exp\":{},\"aud\":\"{}\"}}", expiry, audience));
    let refresh = tok(&format!("{{\"exp\":{},\"aud\":\"{}\"}}", expiry + 100000, audience));
    session_from_exchange(service, &access, &refresh, 60).unwrap()
}

fn client_with_normal() -> NadeoClient {
    NadeoClient {
        normal_auth: Some(pair_session(AuthType::NadeoServices, "NadeoServices", 10000)),
        live_auth: None,
        o_auth: None,
        meta_data: MetaData { user_agent: "Example app / example@example.com".to_string() },
    }
}

#[test]
fn missing_audience_fails_fast() {
    let client = client_with_normal();
    let r = client.session_for(AuthType::OAuth);
    match r {
        Err(Error::MissingCredentials { auth_type }) => assert_eq!(auth_type, AuthType::OAuth),
        _ => panic!("an unconfigured audience is a configuration error"),
    }
    // No refresh call is even planned: the failure precedes any network
    // step.
    assert!(matches!(
        client.refresh_call_for(AuthType::NadeoLiveServices, 0),
        Err(Error::MissingCredentials { auth_type: AuthType::NadeoLiveServices })
    ));
}

#[test]
fn stamp_sets_authorization_and_user_agent() {
    let client = client_with_normal();
    let mut request = NadeoRequest::new(
        Method::Get,
        "https://prod.trackmania.core.nadeo.online/accounts/clubTags/".to_string(),
        AuthType::NadeoServices,
    );
    client.stamp(&mut request).unwrap();
    let encoded = client.normal_auth.as_ref().unwrap().encode_access_token();
    assert_eq!(request.headers.len(), 2);
    assert_eq!(
        request.headers[0],
        ("Authorization".to_string(), format!("nadeo_v1 t={}", encoded))
    );
    assert_eq!(
        request.headers[1],
        (
            "User-Agent".to_string(),
            "Example app / example@example.com".to_string()
        )
    );
}

#[test]
fn stamp_replaces_an_existing_authorization() {
    let client = client_with_normal();
    let mut request = NadeoRequest::new(
        Method::Get,
        "https://example.invalid/".to_string(),
        AuthType::NadeoServices,
    );
    request.insert_header("Authorization", "stale".to_string());
    request.insert_header("Accept", "application/json".to_string());
    client.stamp(&mut request).unwrap();
    let encoded = client.normal_auth.as_ref().unwrap().encode_access_token();
    assert_eq!(request.headers.len(), 3);
    assert_eq!(
        request.headers[0],
        ("Authorization".to_string(), format!("nadeo_v1 t={}", encoded))
    );
    assert_eq!(
        request.headers[1],
        ("Accept".to_string(), "application/json".to_string())
    );
    assert_eq!(request.headers[2].0, "User-Agent");
}

#[test]
fn stamp_without_session_leaves_request_untouched() {
    let client = client_with_normal();
    let mut request =
        NadeoRequest::new(Method::Get, "https://example.invalid/".to_string(), AuthType::OAuth);
    let r = client.stamp(&mut request);
    assert!(matches!(r, Err(Error::MissingCredentials { auth_type: AuthType::OAuth })));
    assert!(request.headers.is_empty());
}

#[test]
fn oauth_requests_use_bearer_scheme() {
    let client = NadeoClient {
        normal_auth: None,
        live_auth: None,
        o_auth: Some(CredentialSession::from_oauth(
            "id".to_string(),
            "secret".to_string(),
            "tkn".to_string(),
            0,
            3600,
            60,
        )),
        meta_data: MetaData { user_agent: "agent".to_string() },
    };
    let mut request =
        NadeoRequest::new(Method::Get, "https://example.invalid/".to_string(), AuthType::OAuth);
    client.stamp(&mut request).unwrap();
    assert_eq!(
        request.headers[0],
        ("Authorization".to_string(), "Bearer tkn".to_string())
    );
}

#[test]
fn classify_passes_success_statuses_through() {
    assert_eq!(classify_response(200, "ok".to_string()).unwrap(), "ok");
    assert_eq!(classify_response(204, String::new()).unwrap(), "");
    assert_eq!(classify_response(299, "edge".to_string()).unwrap(), "edge");
}

#[test]
fn classify_turns_other_statuses_into_typed_errors() {
    match classify_response(404, "not here".to_string()) {
        Err(Error::HttpStatus { status, body }) => {
            assert_eq!(status, 404);
            assert_eq!(body, "not here");
        }
        _ => panic!("a 404 is a typed status error"),
    }
    assert!(matches!(
        classify_response(300, String::new()),
        Err(Error::HttpStatus { status: 300, .. })
    ));
    assert!(matches!(
        classify_response(199, String::new()),
        Err(Error::HttpStatus { status: 199, .. })
    ));
}

#[test]
fn failing_refresh_on_one_audience_leaves_the_other_dispatchable() {
    let mut client = NadeoClient {
        normal_auth: Some(pair_session(AuthType::NadeoServices, "NadeoServices", 100)),
        live_auth: Some(pair_session(AuthType::NadeoLiveServices, "NadeoLiveServices", 10000)),
        o_auth: None,
        meta_data: MetaData { user_agent: "agent".to_string() },
    };

    // Audience A is due; its refresh call fails at the transport.
    let now = 90;
    assert!(client.refresh_call_for(AuthType::NadeoServices, now).unwrap().is_some());
    let mut normal = client.normal_auth.take().unwrap();
    let r = normal.apply_refresh(RefreshOutcome::Failed {
        error: Error::TransportError { message: "timeout".to_string() },
    });
    assert!(matches!(r, Err(Error::RefreshFailed { .. })));
    client = client.with_session(AuthType::NadeoServices, Some(normal));

    // Audience B is untouched: not due, resolvable, stampable.
    assert!(client.refresh_call_for(AuthType::NadeoLiveServices, now).unwrap().is_none());
    let mut request = NadeoRequest::new(
        Method::Get,
        "https://example.invalid/".to_string(),
        AuthType::NadeoLiveServices,
    );
    client.stamp(&mut request).unwrap();
    assert_eq!(request.headers.len(), 2);
    // And audience A still holds its prior pair.
    match &client.normal_auth.as_ref().unwrap().credentials {
        SessionCredentials::TokenPair { access, .. } => assert_eq!(access.payload.expiry, 100),
        _ => panic!("still a pair session"),
    }
}

#[test]
fn method_shorthands_prime_the_builder() {
    let client = client_with_normal();
    let req = client
        .get("https://example.invalid/", AuthType::NadeoServices)
        .build()
        .unwrap();
    assert_eq!(req.method, Method::Get);
    assert_eq!(req.url, "https://example.invalid/");
    assert_eq!(req.auth_type, AuthType::NadeoServices);
    let req = client
        .post("https://example.invalid/x", AuthType::NadeoServices)
        .body("{}")
        .build()
        .unwrap();
    assert_eq!(req.method, Method::Post);
    assert_eq!(req.body.as_deref(), Some("{}"));
}
