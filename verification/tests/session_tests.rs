use base64::Engine;
use nadeo_api::error::Error;
use nadeo_api::factory::session_from_exchange;
use nadeo_api::session::{
    oauth_url, refresh_url, AuthType, CredentialSession, RefreshCall, RefreshOutcome,
    SessionCredentials, DEFAULT_OAUTH_VALIDITY, EXPIRATION_TIME_BUFFER,
};

fn tok(json: &str) -> String {
    let seg = base64::engine::general_purpose::URL_SAFE_NO_PAD.encode(json.as_bytes());
    format!("sec.{}.sig", seg)
}

fn pair_session(expiry: i64, buffer: i64) -> CredentialSession {
    let access = tok(&format!("{{\"exp\":{},\"aud\":\"NadeoServices\"}}", expiry));
    let refresh = tok(&format!(
        "{{\"exp\":{},\"aud\":\"NadeoServices\",\"refresh_aud\":\"r\"}}",
        expiry + 100000
    ));
    session_from_exchange(AuthType::NadeoServices, &access, &refresh, buffer).unwrap()
}

#[test]
fn expires_in_and_needs_refresh() {
    let s = pair_session(1000, EXPIRATION_TIME_BUFFER);
    assert_eq!(s.expires_in(400), 600);
    assert!(!s.needs_refresh(400));
    assert_eq!(s.expires_in(970), 30);
    assert!(s.needs_refresh(970));
    // Exactly at the buffer: not yet due.
    assert_eq!(s.expires_in(940), 60);
    assert!(!s.needs_refresh(940));
}

#[test]
fn no_call_planned_below_buffer() {
    // expires_in == 600 with buffer 60: zero network calls.
    let s = pair_session(1000, 60);
    assert!(s.refresh_call(400).is_none());
}

#[test]
fn one_call_planned_when_due() {
    // expires_in == 30 with buffer 60: exactly one call, fully described.
    let s = pair_session(1000, 60);
    let call = s.refresh_call(970).expect("a refresh call is due");
    match call {
        RefreshCall::PairRefresh { url, auth_header, body } => {
            assert_eq!(url, refresh_url());
            let refresh_encoded = match &s.credentials {
                SessionCredentials::TokenPair { refresh, .. } => refresh.encode(),
                _ => unreachable!(),
            };
            assert_eq!(auth_header, format!("nadeo_v1 t={}", refresh_encoded));
            assert_eq!(body, "{\"audience\":\"NadeoServices\"}");
        }
        _ => panic!("a pair session refreshes through the refresh endpoint"),
    }
}

#[test]
fn serialized_callers_refresh_once() {
    // Both callers arrive with the session due; serialized behind the
    // lock, only the first performs the network call.
    let mut s = pair_session(1000, 60);
    let now = 980;
    let mut calls = 0;

    // Caller 1: checks under the lock, sees a due token, refreshes.
    if s.refresh_call(now).is_some() {
        calls += 1;
        let outcome = RefreshOutcome::PairTokens {
            access_token: tok("{\"exp\":5000,\"aud\":\"NadeoServices\"}"),
            refresh_token: tok("{\"exp\":9000,\"aud\":\"NadeoServices\"}"),
        };
        s.apply_refresh(outcome).unwrap();
    }
    // Caller 2: checks under the lock, sees the refreshed token, skips.
    if s.refresh_call(now).is_some() {
        calls += 1;
    }

    assert_eq!(calls, 1);
    assert_eq!(s.expires_in(now), 5000 - now);
}

#[test]
fn successful_refresh_replaces_both_tokens() {
    let mut s = pair_session(1000, 60);
    let outcome = RefreshOutcome::PairTokens {
        access_token: tok("{\"exp\":5000,\"aud\":\"NadeoServices\"}"),
        refresh_token: tok("{\"exp\":9000,\"aud\":\"NadeoServices\"}"),
    };
    s.apply_refresh(outcome).unwrap();
    match &s.credentials {
        SessionCredentials::TokenPair { access, refresh } => {
            assert_eq!(access.payload.expiry, 5000);
            assert_eq!(refresh.payload.expiry, 9000);
        }
        _ => panic!("still a pair session"),
    }
    assert_eq!(s.service, AuthType::NadeoServices);
    assert_eq!(s.buffer, 60);
}

#[test]
fn failed_refresh_leaves_session_untouched() {
    let mut s = pair_session(1000, 60);
    let r = s.apply_refresh(RefreshOutcome::Failed {
        error: Error::TransportError { message: "connection reset".to_string() },
    });
    match r {
        Err(Error::RefreshFailed { source }) => {
            assert!(matches!(*source, Error::TransportError { .. }));
        }
        _ => panic!("a failed outcome surfaces as a refresh failure"),
    }
    assert_eq!(s.expires_in(400), 600);
}

#[test]
fn undecodable_refresh_response_leaves_session_untouched() {
    let mut s = pair_session(1000, 60);
    let r = s.apply_refresh(RefreshOutcome::PairTokens {
        access_token: "not a token".to_string(),
        refresh_token: tok("{\"exp\":9000,\"aud\":\"NadeoServices\"}"),
    });
    match r {
        Err(Error::RefreshFailed { source }) => {
            assert!(matches!(*source, Error::MalformedToken));
        }
        _ => panic!("an undecodable token aborts the refresh"),
    }
    assert_eq!(s.expires_in(400), 600);
}

#[test]
fn oauth_session_records_validity_from_mint_time() {
    let s = CredentialSession::from_oauth(
        "id".to_string(),
        "secret".to_string(),
        "bearer-token".to_string(),
        1000,
        DEFAULT_OAUTH_VALIDITY,
        EXPIRATION_TIME_BUFFER,
    );
    assert_eq!(s.service, AuthType::OAuth);
    assert_eq!(s.expires_in(1000), 3600);
    assert_eq!(s.encode_access_token(), "bearer-token");
    assert_eq!(s.auth_header(), "Bearer bearer-token");
}

#[test]
fn oauth_refresh_repeats_the_exchange() {
    let s = CredentialSession::from_oauth(
        "id".to_string(),
        "secret".to_string(),
        "bearer-token".to_string(),
        1000,
        3600,
        60,
    );
    // Due at now == 4600 - 30.
    let call = s.refresh_call(4570).expect("due for refresh");
    match call {
        RefreshCall::OAuthExchange { url, form } => {
            assert_eq!(url, oauth_url());
            assert_eq!(form.len(), 3);
            assert_eq!(form[0], ("grant_type".to_string(), "client_credentials".to_string()));
            assert_eq!(form[1], ("client_id".to_string(), "id".to_string()));
            assert_eq!(form[2], ("client_secret".to_string(), "secret".to_string()));
        }
        _ => panic!("an OAuth session refreshes by re-exchange"),
    }
}

#[test]
fn oauth_refresh_applies_new_bearer() {
    let mut s = CredentialSession::from_oauth(
        "id".to_string(),
        "secret".to_string(),
        "old-bearer".to_string(),
        1000,
        3600,
        60,
    );
    s.apply_refresh(RefreshOutcome::OAuthBearer {
        bearer: "new-bearer".to_string(),
        minted_at: 5000,
    })
    .unwrap();
    assert_eq!(s.encode_access_token(), "new-bearer");
    assert_eq!(s.expires_in(5000), 3600);
}

#[test]
fn pair_auth_header_uses_ticket_scheme() {
    let s = pair_session(1000, 60);
    let encoded = s.encode_access_token();
    assert_eq!(s.auth_header(), format!("nadeo_v1 t={}", encoded));
    assert!(encoded.starts_with("sec."));
    assert!(encoded.ends_with(".sig"));
}
