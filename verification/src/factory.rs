//! The session factory: the three credential flows that mint sessions.
//! Everything here either builds an exchange request as plain values or
//! turns an exchange answer into a session; the network call between the
//! two is the caller's.  Construction is all-or-nothing: one failing flow
//! fails the whole client.

use crate::b64::{b64_std_encode, b64_std_encode_of};
use crate::dispatch::{MetaData, NadeoClient};
use crate::error::Error;
use crate::json::{json_str_field, json_str_of};
use crate::request::headers_view;
use crate::session::{
    decode_access_checked, decode_refresh_checked, oauth_url, spec_audience_body,
    spec_client_credentials_form, spec_oauth_url, spec_token_error, token_wire_ok, AuthType,
    CredentialSession, SessionCredentials,
};
use crate::token::is_split3;
use vstd::prelude::*;
use vstd::string::*;

verus! {

/// The identity provider's session endpoint, where a ticket is minted.
pub open spec fn spec_ubisoft_auth_url() -> Seq<char> {
    "https://public-ubiservices.ubi.com/v3/profiles/sessions"@
}

/// The identity provider's session endpoint, where a ticket is minted.
pub fn ubisoft_auth_url() -> (r: &'static str)
    ensures
        r@ == spec_ubisoft_auth_url(),
{
    "https://public-ubiservices.ubi.com/v3/profiles/sessions"
}

/// The ticket-to-token exchange endpoint.
pub open spec fn spec_nadeo_auth_url() -> Seq<char> {
    "https://prod.trackmania.core.nadeo.online/v2/authentication/token/ubiservices"@
}

/// The ticket-to-token exchange endpoint.
pub fn nadeo_auth_url() -> (r: &'static str)
    ensures
        r@ == spec_nadeo_auth_url(),
{
    "https://prod.trackmania.core.nadeo.online/v2/authentication/token/ubiservices"
}

/// The server-account exchange endpoint.
pub open spec fn spec_server_auth_url() -> Seq<char> {
    "https://prod.trackmania.core.nadeo.online/v2/authentication/token/basic"@
}

/// The server-account exchange endpoint.
pub fn server_auth_url() -> (r: &'static str)
    ensures
        r@ == spec_server_auth_url(),
{
    "https://prod.trackmania.core.nadeo.online/v2/authentication/token/basic"
}

/// The application identifier the identity provider expects.
pub open spec fn spec_ubisoft_app_id() -> Seq<char> {
    "86263886-327a-4328-ac69-527f0d20a237"@
}

/// The application identifier the identity provider expects.
pub fn ubisoft_app_id() -> (r: &'static str)
    ensures
        r@ == spec_ubisoft_app_id(),
{
    "86263886-327a-4328-ac69-527f0d20a237"
}

/// The Basic credential of `username:password`, Base64-encoded.
pub open spec fn spec_encode_auth(username: Seq<char>, password: Seq<char>) -> Seq<char> {
    b64_std_encode_of(username + ":"@ + password)
}

/// Encodes a Basic-auth credential pair.
pub fn encode_auth(username: &str, password: &str) -> (r: String)
    requires
        username@.len() + password@.len() + 1 <= 0x1000_0000,
    ensures
        r@ == spec_encode_auth(username@, password@),
{
    proof {
        reveal_strlit(":");
    }
    let joined = String::from_str(username).concat(":").concat(password);
    b64_std_encode(joined.as_str())
}

/// A credential-exchange call, described as plain values.  Always a POST:
/// either a JSON body or a URL-encoded form, under the given headers.
#[derive(Debug)]
pub struct ExchangeRequest {
    pub url: String,
    pub headers: Vec<(String, String)>,
    pub body: Option<String>,
    pub form: Vec<(String, String)>,
}

/// The ticket request of the normal flow: Basic authentication of the
/// account against the identity provider.
pub fn ticket_request(email: &str, password: &str, user_agent: &str) -> (r: ExchangeRequest)
    requires
        email@.len() + password@.len() + 1 <= 0x1000_0000,
    ensures
        r.url@ == spec_ubisoft_auth_url(),
        r.body is None,
        r.form@.len() == 0,
        headers_view(r.headers@) == (seq![
            ("Content-Type"@, "application/json"@),
            ("Ubi-AppId"@, spec_ubisoft_app_id()),
            ("User-Agent"@, user_agent@),
            ("Authorization"@, "Basic "@ + spec_encode_auth(email@, password@)),
        ]),
{
    let mut headers: Vec<(String, String)> = Vec::new();
    headers.push((String::from_str("Content-Type"), String::from_str("application/json")));
    headers.push((String::from_str("Ubi-AppId"), String::from_str(ubisoft_app_id())));
    headers.push((String::from_str("User-Agent"), String::from_str(user_agent)));
    let basic = String::from_str("Basic ").concat(encode_auth(email, password).as_str());
    headers.push((String::from_str("Authorization"), basic));
    proof {
        assert(headers_view(headers@) =~= seq![
            ("Content-Type"@, "application/json"@),
            ("Ubi-AppId"@, spec_ubisoft_app_id()),
            ("User-Agent"@, user_agent@),
            ("Authorization"@, "Basic "@ + spec_encode_auth(email@, password@)),
        ]);
    }
    ExchangeRequest {
        url: String::from_str(ubisoft_auth_url()),
        headers,
        body: Option::None,
        form: Vec::new(),
    }
}

/// The ticket-to-token exchange of the normal flow, one audience at a
/// time: the two audiences' exchanges share only the ticket and may run
/// concurrently.
pub fn ubi_exchange_request(service: AuthType, ticket: &str, user_agent: &str) -> (r:
    ExchangeRequest)
    ensures
        r.url@ == spec_nadeo_auth_url(),
        r.form@.len() == 0,
        r.body matches Option::Some(b) && b@ == spec_audience_body(service.spec_audience()),
        headers_view(r.headers@) == (seq![
            ("Content-Type"@, "application/json"@),
            ("Authorization"@, "ubi_v1 t="@ + ticket@),
            ("User-Agent"@, user_agent@),
        ]),
{
    let mut headers: Vec<(String, String)> = Vec::new();
    headers.push((String::from_str("Content-Type"), String::from_str("application/json")));
    headers.push(
        (String::from_str("Authorization"), String::from_str("ubi_v1 t=").concat(ticket)),
    );
    headers.push((String::from_str("User-Agent"), String::from_str(user_agent)));
    let body = String::from_str("{\"audience\":\"").concat(service.audience()).concat("\"}");
    proof {
        assert(headers_view(headers@) =~= seq![
            ("Content-Type"@, "application/json"@),
            ("Authorization"@, "ubi_v1 t="@ + ticket@),
            ("User-Agent"@, user_agent@),
        ]);
    }
    ExchangeRequest {
        url: String::from_str(nadeo_auth_url()),
        headers,
        body: Option::Some(body),
        form: Vec::new(),
    }
}

/// The server-account exchange: the same token-pair exchange as the
/// ticket ladder, authenticated directly with Basic credentials.
pub fn server_exchange_request(
    service: AuthType,
    username: &str,
    password: &str,
    user_agent: &str,
) -> (r: ExchangeRequest)
    requires
        username@.len() + password@.len() + 1 <= 0x1000_0000,
    ensures
        r.url@ == spec_server_auth_url(),
        r.form@.len() == 0,
        r.body matches Option::Some(b) && b@ == spec_audience_body(service.spec_audience()),
        headers_view(r.headers@) == (seq![
            ("Content-Type"@, "application/json"@),
            ("Authorization"@, "Basic "@ + spec_encode_auth(username@, password@)),
            ("User-Agent"@, user_agent@),
        ]),
{
    let mut headers: Vec<(String, String)> = Vec::new();
    headers.push((String::from_str("Content-Type"), String::from_str("application/json")));
    let basic = String::from_str("Basic ").concat(encode_auth(username, password).as_str());
    headers.push((String::from_str("Authorization"), basic));
    headers.push((String::from_str("User-Agent"), String::from_str(user_agent)));
    let body = String::from_str("{\"audience\":\"").concat(service.audience()).concat("\"}");
    proof {
        assert(headers_view(headers@) =~= seq![
            ("Content-Type"@, "application/json"@),
            ("Authorization"@, "Basic "@ + spec_encode_auth(username@, password@)),
            ("User-Agent"@, user_agent@),
        ]);
    }
    ExchangeRequest {
        url: String::from_str(server_auth_url()),
        headers,
        body: Option::Some(body),
        form: Vec::new(),
    }
}

/// The OAuth client-credentials exchange.
pub fn oauth_exchange_request(identifier: &str, secret: &str) -> (r: ExchangeRequest)
    ensures
        r.url@ == spec_oauth_url(),
        r.body is None,
        r.headers@.len() == 0,
        spec_client_credentials_form(r.form@, identifier@, secret@),
{
    let mut form: Vec<(String, String)> = Vec::new();
    form.push((String::from_str("grant_type"), String::from_str("client_credentials")));
    form.push((String::from_str("client_id"), String::from_str(identifier)));
    form.push((String::from_str("client_secret"), String::from_str(secret)));
    ExchangeRequest {
        url: String::from_str(oauth_url()),
        headers: Vec::new(),
        body: Option::None,
        form,
    }
}

/// Reads the opaque ticket out of a ticket response: a rejecting status
/// is a credentials rejection; a passing status whose body lacks the
/// ticket field is a malformed payload.
pub fn ticket_from_response(status: u16, body: &str) -> (r: Result<String, Error>)
    ensures
        match r {
            Result::Ok(t) => 200 <= status < 300 && json_str_of(body.spec_bytes(), "ticket"@)
                == Option::Some(t@),
            Result::Err(Error::CredentialsRejected { status: s }) => s == status && !(200
                <= status < 300),
            Result::Err(Error::InvalidPayload) => 200 <= status < 300 && json_str_of(
                body.spec_bytes(),
                "ticket"@,
            ) is None,
            Result::Err(_) => false,
        },
{
    if !(200 <= status && status < 300) {
        return Result::Err(Error::CredentialsRejected { status });
    }
    let bytes = body.as_bytes_vec();
    match json_str_field(&bytes, "ticket") {
        Option::Some(t) => Result::Ok(t),
        Option::None => Result::Err(Error::InvalidPayload),
    }
}

/// Reads the two token strings out of an exchange or refresh response.
pub fn tokens_from_response(status: u16, body: &str) -> (r: Result<(String, String), Error>)
    ensures
        match r {
            Result::Ok(t) => 200 <= status < 300 && json_str_of(
                body.spec_bytes(),
                "accessToken"@,
            ) == Option::Some(t.0@) && json_str_of(body.spec_bytes(), "refreshToken"@)
                == Option::Some(t.1@),
            Result::Err(Error::CredentialsRejected { status: s }) => s == status && !(200
                <= status < 300),
            Result::Err(Error::InvalidPayload) => 200 <= status < 300 && (json_str_of(
                body.spec_bytes(),
                "accessToken"@,
            ) is None || json_str_of(body.spec_bytes(), "refreshToken"@) is None),
            Result::Err(_) => false,
        },
{
    if !(200 <= status && status < 300) {
        return Result::Err(Error::CredentialsRejected { status });
    }
    let bytes = body.as_bytes_vec();
    let access = match json_str_field(&bytes, "accessToken") {
        Option::Some(t) => t,
        Option::None => {
            return Result::Err(Error::InvalidPayload);
        },
    };
    let refresh = match json_str_field(&bytes, "refreshToken") {
        Option::Some(t) => t,
        Option::None => {
            return Result::Err(Error::InvalidPayload);
        },
    };
    Result::Ok((access, refresh))
}

/// Reads the bearer out of an OAuth exchange response.
pub fn oauth_bearer_from_response(status: u16, body: &str) -> (r: Result<String, Error>)
    ensures
        match r {
            Result::Ok(t) => 200 <= status < 300 && json_str_of(
                body.spec_bytes(),
                "access_token"@,
            ) == Option::Some(t@),
            Result::Err(Error::CredentialsRejected { status: s }) => s == status && !(200
                <= status < 300),
            Result::Err(Error::InvalidPayload) => 200 <= status < 300 && json_str_of(
                body.spec_bytes(),
                "access_token"@,
            ) is None,
            Result::Err(_) => false,
        },
{
    if !(200 <= status && status < 300) {
        return Result::Err(Error::CredentialsRejected { status });
    }
    let bytes = body.as_bytes_vec();
    match json_str_field(&bytes, "access_token") {
        Option::Some(t) => Result::Ok(t),
        Option::None => Result::Err(Error::InvalidPayload),
    }
}

/// Builds one audience's session out of the two token strings of its
/// exchange: both decode, or the session is not built at all.
pub fn session_from_exchange(
    service: AuthType,
    access_str: &str,
    refresh_str: &str,
    buffer: i64,
) -> (r: Result<CredentialSession, Error>)
    requires
        buffer >= 0,
        service != AuthType::OAuth,
    ensures
        match r {
            Result::Ok(s) => {
                &&& token_wire_ok(access_str@)
                &&& token_wire_ok(refresh_str@)
                &&& s.wf()
                &&& s.service == service
                &&& s.buffer == buffer
                &&& match s.credentials {
                    SessionCredentials::TokenPair { access, refresh } => {
                        &&& is_split3(
                            access_str@,
                            access.secret@,
                            access.payload.seg@,
                            access.signature@,
                        )
                        &&& is_split3(
                            refresh_str@,
                            refresh.secret@,
                            refresh.payload.seg@,
                            refresh.signature@,
                        )
                    },
                    _ => false,
                }
            },
            Result::Err(e) => {
                &&& !token_wire_ok(access_str@) || !token_wire_ok(refresh_str@)
                &&& e == (if !token_wire_ok(access_str@) {
                    spec_token_error(access_str@)
                } else {
                    spec_token_error(refresh_str@)
                })
            },
        },
{
    let access = match decode_access_checked(access_str) {
        Result::Err(e) => {
            return Result::Err(e);
        },
        Result::Ok(t) => t,
    };
    let refresh = match decode_refresh_checked(refresh_str) {
        Result::Err(e) => {
            return Result::Err(e);
        },
        Result::Ok(t) => t,
    };
    Result::Ok(CredentialSession::from_token_pair(service, access, refresh, buffer))
}

/// Errors of building a client from the builder's credentials.
#[derive(Debug, Clone, Copy, PartialEq, Eq, Structural)]
pub enum NadeoClientBuilderError {
    /// No credential flow was configured; at least one is required.
    MissingCredentials,
    /// No identification string was configured; one is required on every
    /// outgoing call.
    MissingUserAgent,
}

/// Errors of a credential pair missing one half.
#[derive(Debug, Clone, Copy, PartialEq, Eq, Structural)]
pub enum ClientCreationError {
    /// No email was provided.
    MissingEMail,
    /// No password was provided.
    MissingPassword,
}

/// Collects the credential flows a client will be built from.
#[derive(Debug)]
pub struct NadeoClientBuilder {
    /// Account email and password of the ticket-ladder flow.
    pub normal_auth: Option<(String, String)>,
    /// Server-account username and password.
    pub server_auth: Option<(String, String)>,
    /// OAuth client identifier and secret.
    pub o_auth: Option<(String, String)>,
    /// The identification string attached to every outgoing call.
    pub user_agent: Option<String>,
}

impl Default for NadeoClientBuilder {
    /// The empty builder: no flow configured yet.
    fn default() -> (r: NadeoClientBuilder)
        ensures
            r.normal_auth is None,
            r.server_auth is None,
            r.o_auth is None,
            r.user_agent is None,
    {
        NadeoClientBuilder {
            normal_auth: Option::None,
            server_auth: Option::None,
            o_auth: Option::None,
            user_agent: Option::None,
        }
    }
}

/// The pair-token flow the configured credentials call for.
#[derive(Debug)]
pub enum PairFlow {
    /// The ticket ladder: mint a ticket from email and password, then
    /// exchange it per audience.
    Ticket { email: String, password: String },
    /// Direct Basic-auth exchange with a server account.
    Server { username: String, password: String },
}

impl NadeoClientBuilder {
    /// Configures the ticket-ladder flow with an account's email and
    /// password.
    pub fn with_normal_auth(self, email: &str, password: &str) -> (r: NadeoClientBuilder)
        ensures
            r.normal_auth matches Option::Some(p) && p.0@ == email@ && p.1@ == password@,
            r.server_auth == self.server_auth,
            r.o_auth == self.o_auth,
            r.user_agent == self.user_agent,
    {
        NadeoClientBuilder {
            normal_auth: Option::Some((String::from_str(email), String::from_str(password))),
            ..self
        }
    }

    /// Configures the server-account flow; the ticket-ladder flow is
    /// preferred where both are configured.
    pub fn with_server_auth(self, username: &str, password: &str) -> (r: NadeoClientBuilder)
        ensures
            r.server_auth matches Option::Some(p) && p.0@ == username@ && p.1@ == password@,
            r.normal_auth == self.normal_auth,
            r.o_auth == self.o_auth,
            r.user_agent == self.user_agent,
    {
        NadeoClientBuilder {
            server_auth: Option::Some((String::from_str(username), String::from_str(password))),
            ..self
        }
    }

    /// Configures the OAuth client-credentials flow.
    pub fn with_oauth(self, identifier: &str, secret: &str) -> (r: NadeoClientBuilder)
        ensures
            r.o_auth matches Option::Some(p) && p.0@ == identifier@ && p.1@ == secret@,
            r.normal_auth == self.normal_auth,
            r.server_auth == self.server_auth,
            r.user_agent == self.user_agent,
    {
        NadeoClientBuilder {
            o_auth: Option::Some((String::from_str(identifier), String::from_str(secret))),
            ..self
        }
    }

    /// Sets the identification string sent along with every request.
    pub fn user_agent(self, user_agent: &str) -> (r: NadeoClientBuilder)
        ensures
            r.user_agent matches Option::Some(u) && u@ == user_agent@,
            r.normal_auth == self.normal_auth,
            r.server_auth == self.server_auth,
            r.o_auth == self.o_auth,
    {
        NadeoClientBuilder { user_agent: Option::Some(String::from_str(user_agent)), ..self }
    }

    /// Checks that a client can be built: some credential flow, and an
    /// identification string.
    pub fn validate(&self) -> (r: Result<(), NadeoClientBuilderError>)
        ensures
            match r {
                Result::Ok(_) => (self.normal_auth is Some || self.server_auth is Some
                    || self.o_auth is Some) && self.user_agent is Some,
                Result::Err(NadeoClientBuilderError::MissingCredentials) => self.normal_auth
                    is None && self.server_auth is None && self.o_auth is None,
                Result::Err(NadeoClientBuilderError::MissingUserAgent) => (self.normal_auth
                    is Some || self.server_auth is Some || self.o_auth is Some)
                    && self.user_agent is None,
            },
    {
        if self.normal_auth.is_none() && self.server_auth.is_none() && self.o_auth.is_none() {
            return Result::Err(NadeoClientBuilderError::MissingCredentials);
        }
        if self.user_agent.is_none() {
            return Result::Err(NadeoClientBuilderError::MissingUserAgent);
        }
        Result::Ok(())
    }

    /// Which pair-token flow construction runs: the ticket ladder where
    /// account credentials are configured, else the server account, else
    /// none.
    pub fn pair_flow(&self) -> (r: Option<PairFlow>)
        ensures
            match r {
                Option::Some(PairFlow::Ticket { email, password }) => self.normal_auth matches
                    Option::Some(p) && email@ == p.0@ && password@ == p.1@,
                Option::Some(PairFlow::Server { username, password }) => self.normal_auth
                    is None && (self.server_auth matches Option::Some(p) && username@ == p.0@
                    && password@ == p.1@),
                Option::None => self.normal_auth is None && self.server_auth is None,
            },
    {
        match &self.normal_auth {
            Option::Some(p) => Option::Some(
                PairFlow::Ticket { email: p.0.clone(), password: p.1.clone() },
            ),
            Option::None => match &self.server_auth {
                Option::Some(p) => Option::Some(
                    PairFlow::Server { username: p.0.clone(), password: p.1.clone() },
                ),
                Option::None => Option::None,
            },
        }
    }
}

impl NadeoClient {
    /// An empty builder to configure a client with.
    pub fn builder() -> (r: NadeoClientBuilder)
        ensures
            r.normal_auth is None,
            r.server_auth is None,
            r.o_auth is None,
            r.user_agent is None,
    {
        NadeoClientBuilder::default()
    }
}

/// Assembles the client out of each flow's outcome, all or nothing: any
/// failed flow fails the whole construction with that flow's error, in
/// audience order, and no half-initialized client exists.
pub fn assemble_client(
    user_agent: String,
    normal: Option<Result<CredentialSession, Error>>,
    live: Option<Result<CredentialSession, Error>>,
    oauth: Option<Result<CredentialSession, Error>>,
) -> (r: Result<NadeoClient, Error>)
    requires
        match normal {
            Option::Some(Result::Ok(s)) => s.wf() && s.service == AuthType::NadeoServices,
            _ => true,
        },
        match live {
            Option::Some(Result::Ok(s)) => s.wf() && s.service == AuthType::NadeoLiveServices,
            _ => true,
        },
        match oauth {
            Option::Some(Result::Ok(s)) => s.wf() && s.service == AuthType::OAuth,
            _ => true,
        },
    ensures
        match r {
            Result::Ok(c) => {
                &&& c.wf()
                &&& c.meta_data.user_agent == user_agent
                &&& match normal {
                    Option::Some(Result::Ok(s)) => c.normal_auth == Option::Some(s),
                    Option::Some(Result::Err(_)) => false,
                    Option::None => c.normal_auth is None,
                }
                &&& match live {
                    Option::Some(Result::Ok(s)) => c.live_auth == Option::Some(s),
                    Option::Some(Result::Err(_)) => false,
                    Option::None => c.live_auth is None,
                }
                &&& match oauth {
                    Option::Some(Result::Ok(s)) => c.o_auth == Option::Some(s),
                    Option::Some(Result::Err(_)) => false,
                    Option::None => c.o_auth is None,
                }
            },
            Result::Err(e) => match (normal, live, oauth) {
                (Option::Some(Result::Err(e0)), _, _) => e == e0,
                (_, Option::Some(Result::Err(e1)), _) => e == e1,
                (_, _, Option::Some(Result::Err(e2))) => e == e2,
                _ => false,
            },
        },
{
    let normal_auth = match normal {
        Option::Some(Result::Ok(s)) => Option::Some(s),
        Option::Some(Result::Err(e)) => {
            return Result::Err(e);
        },
        Option::None => Option::None,
    };
    let live_auth = match live {
        Option::Some(Result::Ok(s)) => Option::Some(s),
        Option::Some(Result::Err(e)) => {
            return Result::Err(e);
        },
        Option::None => Option::None,
    };
    let o_auth = match oauth {
        Option::Some(Result::Ok(s)) => Option::Some(s),
        Option::Some(Result::Err(e)) => {
            return Result::Err(e);
        },
        Option::None => Option::None,
    };
    Result::Ok(NadeoClient { normal_auth, live_auth, o_auth, meta_data: MetaData { user_agent } })
}

} // verus!
