//! Credential sessions: one audience bound to one live token pair, or to
//! one OAuth bearer with a locally recorded validity window.  A session
//! decides when it is due for refresh, describes the one network call a
//! due refresh performs, and applies the outcome atomically.  The caller
//! serializes these steps behind a per-session lock; the laws at the end
//! of this module state what that discipline guarantees.

use crate::b64::b64url_decode_of;
use crate::error::Error;
use crate::request::{headers_view, spec_set_header, NadeoRequest};
use crate::token::{
    has_split3, is_split3, lemma_split3_unique, payload_parses, spec_expires_in,
    AccessToken, Payload, PayloadCreationError, RefreshToken, split3,
};
use vstd::prelude::*;
use vstd::string::*;

verus! {

/// The default safety buffer: a token within this many seconds of expiry
/// is treated as due for refresh.
pub const EXPIRATION_TIME_BUFFER: i64 = 60;

/// The default validity window recorded for a freshly minted OAuth
/// bearer, whose response does not echo an expiry of its own.
pub const DEFAULT_OAUTH_VALIDITY: i64 = 3600;

/// The refresh endpoint of the token service.
pub open spec fn spec_refresh_url() -> Seq<char> {
    "https://prod.trackmania.core.nadeo.online/v2/authentication/token/refresh"@
}

/// The refresh endpoint of the token service.
pub fn refresh_url() -> (r: &'static str)
    ensures
        r@ == spec_refresh_url(),
{
    "https://prod.trackmania.core.nadeo.online/v2/authentication/token/refresh"
}

/// The OAuth client-credentials token endpoint.
pub open spec fn spec_oauth_url() -> Seq<char> {
    "https://api.trackmania.com/api/access_token"@
}

/// The OAuth client-credentials token endpoint.
pub fn oauth_url() -> (r: &'static str)
    ensures
        r@ == spec_oauth_url(),
{
    "https://api.trackmania.com/api/access_token"
}

/// Defines authentication credentials used for the Nadeo API: the
/// audience a request is scoped to.
#[derive(Debug, Clone, Copy, PartialEq, Eq, Structural)]
pub enum AuthType {
    NadeoServices,
    NadeoLiveServices,
    OAuth,
}

impl AuthType {
    /// The audience identifier as it appears in exchange and refresh
    /// request bodies.
    pub open spec fn spec_audience(self) -> Seq<char> {
        match self {
            AuthType::NadeoServices => "NadeoServices"@,
            AuthType::NadeoLiveServices => "NadeoLiveServices"@,
            AuthType::OAuth => "OAuth"@,
        }
    }

    /// The audience identifier as it appears in exchange and refresh
    /// request bodies.
    pub fn audience(&self) -> (r: &'static str)
        ensures
            r@ == self.spec_audience(),
    {
        match self {
            AuthType::NadeoServices => "NadeoServices",
            AuthType::NadeoLiveServices => "NadeoLiveServices",
            AuthType::OAuth => "OAuth",
        }
    }
}

/// The `Authorization` value `nadeo_v1 t=<tok>`.
pub open spec fn spec_nadeo_auth_header(tok: Seq<char>) -> Seq<char> {
    "nadeo_v1 t="@ + tok
}

/// The one-field JSON body `{"audience":"<aud>"}` of exchange and refresh
/// requests.  The audience is one of the fixed identifiers above, so no
/// JSON escaping can arise.
pub open spec fn spec_audience_body(aud: Seq<char>) -> Seq<char> {
    "{\"audience\":\""@ + aud + "\"}"@
}

/// The client-credentials form of an OAuth exchange.
pub open spec fn spec_client_credentials_form(
    form: Seq<(String, String)>,
    identifier: Seq<char>,
    secret: Seq<char>,
) -> bool {
    &&& form.len() == 3
    &&& form[0].0@ == "grant_type"@
    &&& form[0].1@ == "client_credentials"@
    &&& form[1].0@ == "client_id"@
    &&& form[1].1@ == identifier
    &&& form[2].0@ == "client_secret"@
    &&& form[2].1@ == secret
}

/// What a session holds: a live access/refresh pair, or an OAuth bearer
/// plus what is needed to mint a new one.
#[derive(Debug)]
pub enum SessionCredentials {
    TokenPair { access: AccessToken, refresh: RefreshToken },
    OAuth { bearer: String, expiry: i64, identifier: String, secret: String, validity: i64 },
}

/// One audience's credentials, with its safety buffer.
#[derive(Debug)]
pub struct CredentialSession {
    /// The audience this session serves.
    pub service: AuthType,
    /// The live credentials.
    pub credentials: SessionCredentials,
    /// The safety buffer in seconds: the token is due for refresh once
    /// its remaining validity drops below this.
    pub buffer: i64,
}

/// Whether a token wire string decodes: it splits in three and its
/// payload segment parses.
pub open spec fn token_wire_ok(s: Seq<char>) -> bool {
    &&& has_split3(s)
    &&& forall|a: Seq<char>, b: Seq<char>, c: Seq<char>|
        is_split3(s, a, b, c) ==> payload_parses(b)
}

/// The taxonomy class of a failing token decode: the three-segment shape,
/// then the Base64URL step, then the JSON claims.
pub open spec fn spec_token_error(s: Seq<char>) -> Error {
    if !has_split3(s) {
        Error::MalformedToken
    } else if exists|a: Seq<char>, b: Seq<char>, c: Seq<char>|
        is_split3(s, a, b, c) && b64url_decode_of(b) is None {
        Error::InvalidEncoding
    } else {
        Error::InvalidPayload
    }
}

/// Decodes an access token, classifying any failure by the crate's error
/// taxonomy.
pub fn decode_access_checked(value: &str) -> (r: Result<AccessToken, Error>)
    ensures
        match r {
            Result::Ok(t) => token_wire_ok(value@) && is_split3(
                value@,
                t.secret@,
                t.payload.seg@,
                t.signature@,
            ) && t.wf(),
            Result::Err(e) => !token_wire_ok(value@) && e == spec_token_error(value@),
        },
{
    let (sec, pay, sig) = match split3(value) {
        Option::None => {
            return Result::Err(Error::MalformedToken);
        },
        Option::Some(p) => p,
    };
    match Payload::from_str(pay.as_str()) {
        Result::Err(PayloadCreationError::InvalidBase64) => {
            proof {
                assert(is_split3(value@, sec@, pay@, sig@) && b64url_decode_of(pay@) is None);
                assert(!payload_parses(pay@));
            }
            Result::Err(Error::InvalidEncoding)
        },
        Result::Err(PayloadCreationError::InvalidJson) => {
            proof {
                assert(!payload_parses(pay@));
                assert forall|a: Seq<char>, b: Seq<char>, c: Seq<char>|
                    is_split3(value@, a, b, c) implies !(b64url_decode_of(b) is None) by {
                    lemma_split3_unique(value@, a, b, c, sec@, pay@, sig@);
                }
            }
            Result::Err(Error::InvalidPayload)
        },
        Result::Ok(payload) => {
            proof {
                assert forall|a: Seq<char>, b: Seq<char>, c: Seq<char>|
                    is_split3(value@, a, b, c) implies payload_parses(b) by {
                    lemma_split3_unique(value@, a, b, c, sec@, pay@, sig@);
                }
            }
            Result::Ok(AccessToken { secret: sec, payload, signature: sig })
        },
    }
}

/// Decodes a refresh token, classifying any failure by the crate's error
/// taxonomy.
pub fn decode_refresh_checked(value: &str) -> (r: Result<RefreshToken, Error>)
    ensures
        match r {
            Result::Ok(t) => token_wire_ok(value@) && is_split3(
                value@,
                t.secret@,
                t.payload.seg@,
                t.signature@,
            ) && t.wf(),
            Result::Err(e) => !token_wire_ok(value@) && e == spec_token_error(value@),
        },
{
    let (sec, pay, sig) = match split3(value) {
        Option::None => {
            return Result::Err(Error::MalformedToken);
        },
        Option::Some(p) => p,
    };
    match Payload::from_str(pay.as_str()) {
        Result::Err(PayloadCreationError::InvalidBase64) => {
            proof {
                assert(is_split3(value@, sec@, pay@, sig@) && b64url_decode_of(pay@) is None);
                assert(!payload_parses(pay@));
            }
            Result::Err(Error::InvalidEncoding)
        },
        Result::Err(PayloadCreationError::InvalidJson) => {
            proof {
                assert(!payload_parses(pay@));
                assert forall|a: Seq<char>, b: Seq<char>, c: Seq<char>|
                    is_split3(value@, a, b, c) implies !(b64url_decode_of(b) is None) by {
                    lemma_split3_unique(value@, a, b, c, sec@, pay@, sig@);
                }
            }
            Result::Err(Error::InvalidPayload)
        },
        Result::Ok(payload) => {
            proof {
                assert forall|a: Seq<char>, b: Seq<char>, c: Seq<char>|
                    is_split3(value@, a, b, c) implies payload_parses(b) by {
                    lemma_split3_unique(value@, a, b, c, sec@, pay@, sig@);
                }
            }
            Result::Ok(RefreshToken { secret: sec, payload, signature: sig })
        },
    }
}

/// The one network call a due refresh performs, as plain values for the
/// transport to carry.
#[derive(Debug)]
pub enum RefreshCall {
    /// POST to the refresh endpoint, authenticated by the encoded refresh
    /// token, naming this session's audience.
    PairRefresh { url: String, auth_header: String, body: String },
    /// OAuth has no refresh grant here: the full client-credentials
    /// exchange is repeated.
    OAuthExchange { url: String, form: Vec<(String, String)> },
}

/// What came back from the refresh network call, as plain values.
#[derive(Debug)]
pub enum RefreshOutcome {
    /// The two token strings of a successful pair refresh response.
    PairTokens { access_token: String, refresh_token: String },
    /// The bearer of a successful client-credentials exchange, and the
    /// time it was minted: its validity window starts there.
    OAuthBearer { bearer: String, minted_at: i64 },
    /// The call failed: transport error, cancellation, or a rejecting
    /// status.
    Failed { error: Error },
}

impl CredentialSession {
    /// The session's shape is coherent: the buffer is a duration, pair
    /// tokens are well-formed, and the credential kind matches the
    /// audience.
    pub open spec fn wf(self) -> bool {
        &&& self.buffer >= 0
        &&& match self.credentials {
            SessionCredentials::TokenPair { access, refresh } => access.wf() && refresh.wf()
                && self.service != AuthType::OAuth,
            SessionCredentials::OAuth { .. } => self.service == AuthType::OAuth,
        }
    }

    /// The absolute expiry the session currently holds.
    pub open spec fn spec_expiry(self) -> int {
        match self.credentials {
            SessionCredentials::TokenPair { access, .. } => access.payload.expiry as int,
            SessionCredentials::OAuth { expiry, .. } => expiry as int,
        }
    }

    /// Seconds of validity left at `now`.
    pub open spec fn spec_expires_in(self, now: int) -> int {
        spec_expires_in(self.spec_expiry(), now)
    }

    /// Due for refresh: validity left is within the safety buffer.
    pub open spec fn spec_needs_refresh(self, now: int) -> bool {
        self.spec_expires_in(now) < self.buffer
    }

    /// The raw bearer string to attach to outgoing requests.
    pub open spec fn spec_access_credential(self) -> Seq<char> {
        match self.credentials {
            SessionCredentials::TokenPair { access, .. } => access.spec_encode(),
            SessionCredentials::OAuth { bearer, .. } => bearer@,
        }
    }

    /// The `Authorization` value for outgoing requests: the ticket-ladder
    /// scheme for pair sessions, the bearer scheme for OAuth.
    pub open spec fn spec_auth_header(self) -> Seq<char> {
        match self.credentials {
            SessionCredentials::TokenPair { access, .. } => spec_nadeo_auth_header(
                access.spec_encode(),
            ),
            SessionCredentials::OAuth { bearer, .. } => "Bearer "@ + bearer@,
        }
    }

    /// A session over a freshly decoded access/refresh pair.
    pub fn from_token_pair(
        service: AuthType,
        access: AccessToken,
        refresh: RefreshToken,
        buffer: i64,
    ) -> (r: CredentialSession)
        requires
            access.wf(),
            refresh.wf(),
            buffer >= 0,
            service != AuthType::OAuth,
        ensures
            r.wf(),
            r.service == service,
            r.buffer == buffer,
            r.credentials == (SessionCredentials::TokenPair { access, refresh }),
    {
        CredentialSession {
            service,
            credentials: SessionCredentials::TokenPair { access, refresh },
            buffer,
        }
    }

    /// A session over a freshly minted OAuth bearer: the service answers
    /// no expiry of its own, so the validity window is recorded from the
    /// mint time.
    pub fn from_oauth(
        identifier: String,
        secret: String,
        bearer: String,
        minted_at: i64,
        validity: i64,
        buffer: i64,
    ) -> (r: CredentialSession)
        requires
            buffer >= 0,
            validity >= 0,
            minted_at + validity <= i64::MAX,
        ensures
            r.wf(),
            r.service == AuthType::OAuth,
            r.buffer == buffer,
            r.credentials == (SessionCredentials::OAuth {
                bearer,
                expiry: (minted_at + validity) as i64,
                identifier,
                secret,
                validity,
            }),
    {
        let expiry = minted_at + validity;
        CredentialSession {
            service: AuthType::OAuth,
            credentials: SessionCredentials::OAuth { bearer, expiry, identifier, secret, validity },
            buffer,
        }
    }

    /// Seconds of validity left at `now`; negative once the token has
    /// lapsed.  Pure: no clock is read and nothing is mutated.
    pub fn expires_in(&self, now: i64) -> (r: i64)
        requires
            i64::MIN <= self.spec_expiry() - now <= i64::MAX,
        ensures
            r == self.spec_expires_in(now as int),
    {
        match &self.credentials {
            SessionCredentials::TokenPair { access, .. } => access.expires_in(now),
            SessionCredentials::OAuth { expiry, .. } => *expiry - now,
        }
    }

    /// Whether the session is due for refresh at `now`.
    pub fn needs_refresh(&self, now: i64) -> (r: bool)
        requires
            i64::MIN <= self.spec_expiry() - now <= i64::MAX,
        ensures
            r == self.spec_needs_refresh(now as int),
    {
        self.expires_in(now) < self.buffer
    }

    /// The call a refresh would make, in full.
    pub open spec fn spec_refresh_call_ok(self, call: RefreshCall) -> bool {
        match (call, self.credentials) {
            (
                RefreshCall::PairRefresh { url, auth_header, body },
                SessionCredentials::TokenPair { access, refresh },
            ) => {
                &&& url@ == spec_refresh_url()
                &&& auth_header@ == spec_nadeo_auth_header(refresh.spec_encode())
                &&& body@ == spec_audience_body(self.service.spec_audience())
            },
            (
                RefreshCall::OAuthExchange { url, form },
                SessionCredentials::OAuth { identifier, secret, .. },
            ) => {
                &&& url@ == spec_oauth_url()
                &&& spec_client_credentials_form(form@, identifier@, secret@)
            },
            _ => false,
        }
    }

    /// Describes the refresh network call, exactly where one is due: a
    /// session at or above its buffer plans no call at all.
    pub fn refresh_call(&self, now: i64) -> (r: Option<RefreshCall>)
        requires
            i64::MIN <= self.spec_expiry() - now <= i64::MAX,
        ensures
            (r is Some) == self.spec_needs_refresh(now as int),
            match r {
                Option::Some(call) => self.spec_refresh_call_ok(call),
                Option::None => true,
            },
    {
        if !self.needs_refresh(now) {
            return Option::None;
        }
        match &self.credentials {
            SessionCredentials::TokenPair { refresh, .. } => {
                let encoded = refresh.encode();
                let auth_header = String::from_str("nadeo_v1 t=").concat(encoded.as_str());
                let body = String::from_str("{\"audience\":\"").concat(
                    self.service.audience(),
                ).concat("\"}");
                Option::Some(
                    RefreshCall::PairRefresh {
                        url: String::from_str(refresh_url()),
                        auth_header,
                        body,
                    },
                )
            },
            SessionCredentials::OAuth { identifier, secret, .. } => {
                let mut form: Vec<(String, String)> = Vec::new();
                form.push(
                    (String::from_str("grant_type"), String::from_str("client_credentials")),
                );
                form.push((String::from_str("client_id"), identifier.clone()));
                form.push((String::from_str("client_secret"), secret.clone()));
                Option::Some(
                    RefreshCall::OAuthExchange { url: String::from_str(oauth_url()), form },
                )
            },
        }
    }

    /// Applies the outcome of the one refresh call.  A success replaces
    /// the stored credentials atomically; any failure leaves the session
    /// exactly as it was and surfaces the error, wrapped as a refresh
    /// failure.
    pub fn apply_refresh(&mut self, outcome: RefreshOutcome) -> (r: Result<(), Error>)
        requires
            match outcome {
                RefreshOutcome::PairTokens { .. } => old(self).credentials matches
                    SessionCredentials::TokenPair { .. },
                RefreshOutcome::OAuthBearer { minted_at, .. } => old(self).credentials matches
                    SessionCredentials::OAuth { validity, .. } && i64::MIN <= minted_at + validity
                    <= i64::MAX,
                RefreshOutcome::Failed { .. } => true,
            },
        ensures
            old(self).wf() ==> final(self).wf(),
            match outcome {
                RefreshOutcome::Failed { error } => {
                    &&& *final(self) == *old(self)
                    &&& match r {
                        Result::Err(Error::RefreshFailed { source }) => *source == error,
                        _ => false,
                    }
                },
                RefreshOutcome::PairTokens { access_token, refresh_token } => {
                    if token_wire_ok(access_token@) && token_wire_ok(refresh_token@) {
                        &&& r matches Result::Ok(_)
                        &&& final(self).service == old(self).service
                        &&& final(self).buffer == old(self).buffer
                        &&& match final(self).credentials {
                            SessionCredentials::TokenPair { access, refresh } => {
                                &&& is_split3(
                                    access_token@,
                                    access.secret@,
                                    access.payload.seg@,
                                    access.signature@,
                                )
                                &&& access.wf()
                                &&& is_split3(
                                    refresh_token@,
                                    refresh.secret@,
                                    refresh.payload.seg@,
                                    refresh.signature@,
                                )
                                &&& refresh.wf()
                            },
                            _ => false,
                        }
                    } else {
                        &&& *final(self) == *old(self)
                        &&& match r {
                            Result::Err(Error::RefreshFailed { source }) => *source == (
                            if !token_wire_ok(access_token@) {
                                spec_token_error(access_token@)
                            } else {
                                spec_token_error(refresh_token@)
                            }),
                            _ => false,
                        }
                    }
                },
                RefreshOutcome::OAuthBearer { bearer, minted_at } => {
                    &&& r matches Result::Ok(_)
                    &&& final(self).service == old(self).service
                    &&& final(self).buffer == old(self).buffer
                    &&& match (old(self).credentials, final(self).credentials) {
                        (
                            SessionCredentials::OAuth {
                                identifier: id0,
                                secret: s0,
                                validity: v0,
                                ..
                            },
                            SessionCredentials::OAuth {
                                bearer: b1,
                                expiry: e1,
                                identifier: id1,
                                secret: s1,
                                validity: v1,
                            },
                        ) => {
                            &&& b1@ == bearer@
                            &&& e1 as int == minted_at + v0
                            &&& id1@ == id0@
                            &&& s1@ == s0@
                            &&& v1 == v0
                        },
                        _ => false,
                    }
                },
            },
    {
        match outcome {
            RefreshOutcome::Failed { error } => Result::Err(
                Error::RefreshFailed { source: Box::new(error) },
            ),
            RefreshOutcome::PairTokens { access_token, refresh_token } => {
                let access = match decode_access_checked(access_token.as_str()) {
                    Result::Err(e) => {
                        return Result::Err(Error::RefreshFailed { source: Box::new(e) });
                    },
                    Result::Ok(t) => t,
                };
                let refresh = match decode_refresh_checked(refresh_token.as_str()) {
                    Result::Err(e) => {
                        return Result::Err(Error::RefreshFailed { source: Box::new(e) });
                    },
                    Result::Ok(t) => t,
                };
                self.credentials = SessionCredentials::TokenPair { access, refresh };
                Result::Ok(())
            },
            RefreshOutcome::OAuthBearer { bearer, minted_at } => {
                match &self.credentials {
                    SessionCredentials::OAuth { identifier, secret, validity, .. } => {
                        let v = *validity;
                        let id = identifier.clone();
                        let sec = secret.clone();
                        self.credentials = SessionCredentials::OAuth {
                            bearer,
                            expiry: minted_at + v,
                            identifier: id,
                            secret: sec,
                            validity: v,
                        };
                        Result::Ok(())
                    },
                    // Ruled out: an OAuth outcome is only handed to an
                    // OAuth session.
                    SessionCredentials::TokenPair { .. } => vstd::pervasive::unreached(),
                }
            },
        }
    }

    /// The raw bearer string to attach to outgoing requests.
    pub fn encode_access_token(&self) -> (r: String)
        ensures
            r@ == self.spec_access_credential(),
    {
        match &self.credentials {
            SessionCredentials::TokenPair { access, .. } => access.encode(),
            SessionCredentials::OAuth { bearer, .. } => bearer.clone(),
        }
    }

    /// Stamps a request with this session's `Authorization` value and
    /// the caller's identification header, replacing stale ones.
    pub fn stamp(&self, request: &mut NadeoRequest, user_agent: &str)
        ensures
            headers_view(final(request).headers@) == spec_set_header(
                spec_set_header(
                    headers_view(old(request).headers@),
                    "Authorization"@,
                    self.spec_auth_header(),
                ),
                "User-Agent"@,
                user_agent@,
            ),
            final(request).method == old(request).method,
            final(request).url == old(request).url,
            final(request).body == old(request).body,
            final(request).auth_type == old(request).auth_type,
    {
        let auth = self.auth_header();
        request.insert_header("Authorization", auth);
        request.insert_header("User-Agent", String::from_str(user_agent));
    }

    /// The `Authorization` value for outgoing requests.
    pub fn auth_header(&self) -> (r: String)
        ensures
            r@ == self.spec_auth_header(),
    {
        match &self.credentials {
            SessionCredentials::TokenPair { access, .. } => {
                let encoded = access.encode();
                String::from_str("nadeo_v1 t=").concat(encoded.as_str())
            },
            SessionCredentials::OAuth { bearer, .. } => {
                String::from_str("Bearer ").concat(bearer.as_str())
            },
        }
    }
}

/// One serialized caller of the refresh discipline: having taken the
/// session's lock it re-checks expiry; only a still-due session performs
/// the one network call, whose successful outcome is `refreshed`.
/// Returns the session the caller leaves behind and how many network
/// calls it made.
pub open spec fn spec_refresh_round(
    s: CredentialSession,
    now: int,
    refreshed: CredentialSession,
) -> (CredentialSession, nat) {
    if s.spec_needs_refresh(now) {
        (refreshed, 1nat)
    } else {
        (s, 0nat)
    }
}

/// `n` serialized callers at one instant, each as `spec_refresh_round`:
/// the session they leave behind and the total count of network calls.
pub open spec fn spec_refresh_rounds(
    s: CredentialSession,
    now: int,
    refreshed: CredentialSession,
    n: nat,
) -> (CredentialSession, nat)
    decreases n,
{
    if n == 0 {
        (s, 0nat)
    } else {
        let (s1, c1) = spec_refresh_round(s, now, refreshed);
        let (s2, c2) = spec_refresh_rounds(s1, now, refreshed, (n - 1) as nat);
        (s2, (c1 + c2) as nat)
    }
}

/// At-most-one refresh: under any number of callers serialized behind the
/// session's lock at one instant, where the session is due and one
/// successful refresh leaves it no longer due, exactly one network call
/// is made, and every caller thereafter observes the refreshed session.
pub proof fn lemma_at_most_one_refresh(
    s: CredentialSession,
    now: int,
    refreshed: CredentialSession,
    n: nat,
)
    requires
        s.spec_needs_refresh(now),
        !refreshed.spec_needs_refresh(now),
        n >= 1,
    ensures
        spec_refresh_rounds(s, now, refreshed, n).1 == 1,
        spec_refresh_rounds(s, now, refreshed, n).0 == refreshed,
{
    lemma_no_refresh_when_fresh(refreshed, now, refreshed, (n - 1) as nat);
}

/// No-op below the buffer: a session whose validity still clears its
/// buffer performs zero network calls and is left unchanged, under any
/// number of serialized callers.
pub proof fn lemma_no_refresh_when_fresh(
    s: CredentialSession,
    now: int,
    refreshed: CredentialSession,
    n: nat,
)
    requires
        !s.spec_needs_refresh(now),
    ensures
        spec_refresh_rounds(s, now, refreshed, n).1 == 0,
        spec_refresh_rounds(s, now, refreshed, n).0 == s,
    decreases n,
{
    if n == 0 {
    } else {
        lemma_no_refresh_when_fresh(s, now, refreshed, (n - 1) as nat);
    }
}

} // verus!
