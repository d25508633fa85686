use base64::Engine;
use nadeo_api::error::Error;
use nadeo_api::factory::{
    assemble_client, encode_auth, nadeo_auth_url, oauth_bearer_from_response,
    oauth_exchange_request, server_auth_url, server_exchange_request, session_from_exchange,
    ticket_from_response, ticket_request, tokens_from_response, ubi_exchange_request,
    ubisoft_auth_url, NadeoClientBuilder, NadeoClientBuilderError, PairFlow,
};
use nadeo_api::NadeoClient;
use nadeo_api::session::{AuthType, SessionCredentials};

fn tok(json: &str) -> String {
    let seg = base64::engine::general_purpose::URL_SAFE_NO_PAD.encode(json.as_bytes());
    format!("sec.{}.sig", seg)
}

#[test]
fn encode_auth_is_standard_base64() {
    assert_eq!(encode_auth("user", "pass"), "dXNlcjpwYXNz");
    assert_eq!(encode_auth("", ""), "Og==");
}

#[test]
fn ticket_request_carries_basic_credentials() {
    let r = ticket_request("user@example.com", "pw", "agent");
    assert_eq!(r.url, ubisoft_auth_url());
    assert!(r.body.is_none());
    assert!(r.form.is_empty());
    assert_eq!(r.headers.len(), 4);
    assert_eq!(
        r.headers[0],
        ("Content-Type".to_string(), "application/json".to_string())
    );
    assert_eq!(
        r.headers[1],
        (
            "Ubi-AppId".to_string(),
            "86263886-327a-4328-ac69-527f0d20a237".to_string()
        )
    );
    assert_eq!(r.headers[2], ("User-Agent".to_string(), "agent".to_string()));
    assert_eq!(
        r.headers[3],
        (
            "Authorization".to_string(),
            format!("Basic {}", encode_auth("user@example.com", "pw"))
        )
    );
}

#[test]
fn ubi_exchange_names_the_audience() {
    let r = ubi_exchange_request(AuthType::NadeoLiveServices, "TICKET", "agent");
    assert_eq!(r.url, nadeo_auth_url());
    assert_eq!(r.body.as_deref(), Some("{\"audience\":\"NadeoLiveServices\"}"));
    assert_eq!(
        r.headers[1],
        ("Authorization".to_string(), "ubi_v1 t=TICKET".to_string())
    );
}

#[test]
fn server_exchange_uses_basic_auth() {
    let r = server_exchange_request(AuthType::NadeoServices, "srv", "pw", "agent");
    assert_eq!(r.url, server_auth_url());
    assert_eq!(r.body.as_deref(), Some("{\"audience\":\"NadeoServices\"}"));
    assert_eq!(
        r.headers[1],
        (
            "Authorization".to_string(),
            format!("Basic {}", encode_auth("srv", "pw"))
        )
    );
}

#[test]
fn oauth_exchange_sends_client_credentials_form() {
    let r = oauth_exchange_request("my-id", "my-secret");
    assert!(r.body.is_none());
    assert!(r.headers.is_empty());
    assert_eq!(r.form.len(), 3);
    assert_eq!(
        r.form[0],
        ("grant_type".to_string(), "client_credentials".to_string())
    );
    assert_eq!(r.form[1], ("client_id".to_string(), "my-id".to_string()));
    assert_eq!(r.form[2], ("client_secret".to_string(), "my-secret".to_string()));
}

#[test]
fn ticket_is_read_from_a_passing_response() {
    assert_eq!(
        ticket_from_response(200, "{\"ticket\":\"abc123\"}").unwrap(),
        "abc123"
    );
}

#[test]
fn rejecting_status_is_a_credentials_rejection() {
    assert!(matches!(
        ticket_from_response(401, "{}"),
        Err(Error::CredentialsRejected { status: 401 })
    ));
    assert!(matches!(
        tokens_from_response(403, "{}"),
        Err(Error::CredentialsRejected { status: 403 })
    ));
    assert!(matches!(
        oauth_bearer_from_response(500, ""),
        Err(Error::CredentialsRejected { status: 500 })
    ));
}

#[test]
fn malformed_exchange_bodies_are_invalid_payloads() {
    assert!(matches!(
        ticket_from_response(200, "no json"),
        Err(Error::InvalidPayload)
    ));
    assert!(matches!(
        tokens_from_response(200, "{\"accessToken\":\"a.b.c\"}"),
        Err(Error::InvalidPayload)
    ));
    assert!(matches!(
        oauth_bearer_from_response(200, "{\"token_type\":\"Bearer\"}"),
        Err(Error::InvalidPayload)
    ));
}

#[test]
fn tokens_are_read_from_a_passing_response() {
    let (a, r) = tokens_from_response(
        200,
        "{\"accessToken\":\"x.y.z\",\"refreshToken\":\"u.v.w\"}",
    )
    .unwrap();
    assert_eq!(a, "x.y.z");
    assert_eq!(r, "u.v.w");
}

#[test]
fn oauth_bearer_is_read_from_a_passing_response() {
    assert_eq!(
        oauth_bearer_from_response(200, "{\"access_token\":\"tkn\"}").unwrap(),
        "tkn"
    );
}

#[test]
fn session_needs_both_tokens_to_decode() {
    let good = tok("{\"exp\":100,\"aud\":\"NadeoServices\"}");
    let r = session_from_exchange(AuthType::NadeoServices, &good, "broken", 60);
    assert!(matches!(r, Err(Error::MalformedToken)));
    let r = session_from_exchange(AuthType::NadeoServices, "a.!!!.c", &good, 60);
    assert!(matches!(r, Err(Error::InvalidEncoding)));
    let s = session_from_exchange(AuthType::NadeoServices, &good, &good, 60).unwrap();
    match &s.credentials {
        SessionCredentials::TokenPair { access, .. } => assert_eq!(access.payload.expiry, 100),
        _ => panic!("a pair session"),
    }
}

#[test]
fn builder_requires_some_flow_and_an_agent() {
    let b = NadeoClient::builder();
    assert!(matches!(
        b.validate(),
        Err(NadeoClientBuilderError::MissingCredentials)
    ));
    let b = NadeoClient::builder().with_oauth("id", "secret");
    assert!(matches!(
        b.validate(),
        Err(NadeoClientBuilderError::MissingUserAgent)
    ));
    let b = b.user_agent("agent");
    assert!(b.validate().is_ok());
}

#[test]
fn builder_prefers_the_ticket_flow() {
    let b = NadeoClient::builder()
        .with_normal_auth("mail", "pw1")
        .with_server_auth("srv", "pw2");
    match b.pair_flow() {
        Some(PairFlow::Ticket { email, password }) => {
            assert_eq!(email, "mail");
            assert_eq!(password, "pw1");
        }
        _ => panic!("the ticket flow is preferred"),
    }
    let b = NadeoClient::builder().with_server_auth("srv", "pw2");
    match b.pair_flow() {
        Some(PairFlow::Server { username, password }) => {
            assert_eq!(username, "srv");
            assert_eq!(password, "pw2");
        }
        _ => panic!("the server flow stands in"),
    }
    assert!(NadeoClientBuilder::default().pair_flow().is_none());
}

#[test]
fn assembly_is_all_or_nothing() {
    let good = tok("{\"exp\":100,\"aud\":\"NadeoServices\"}");
    let normal = session_from_exchange(AuthType::NadeoServices, &good, &good, 60).unwrap();
    let r = assemble_client(
        "agent".to_string(),
        Some(Ok(normal)),
        Some(Err(Error::CredentialsRejected { status: 401 })),
        None,
    );
    assert!(matches!(r, Err(Error::CredentialsRejected { status: 401 })));

    let normal = session_from_exchange(AuthType::NadeoServices, &good, &good, 60).unwrap();
    let c = assemble_client("agent".to_string(), Some(Ok(normal)), None, None).unwrap();
    assert!(c.normal_auth.is_some());
    assert!(c.live_auth.is_none());
    assert!(c.o_auth.is_none());
    assert_eq!(c.meta_data.user_agent, "agent");
}
