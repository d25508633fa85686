//! The request dispatcher: routes an outgoing request to the session
//! serving its audience, plans the pre-request refresh, stamps the
//! authorization headers, and classifies the transport's answer.  The
//! transport itself is the caller's collaborator; it is handed plain
//! values and its answer comes back as plain values.

use crate::error::Error;
use crate::request::{headers_view, spec_set_header, Method, NadeoRequest, NadeoRequestBuilder};
use crate::session::{AuthType, CredentialSession, RefreshCall};
use vstd::prelude::*;
use vstd::string::*;

verus! {

/// Metadata attached to every outgoing call: the caller-supplied
/// identification string, required at construction time.
#[derive(Debug)]
pub struct MetaData {
    pub user_agent: String,
}

/// The client: at most one session per audience, and the metadata every
/// request carries.  A missing session fails dispatch for its audience
/// fast, without any network call.
#[derive(Debug)]
pub struct NadeoClient {
    pub normal_auth: Option<CredentialSession>,
    pub live_auth: Option<CredentialSession>,
    pub o_auth: Option<CredentialSession>,
    pub meta_data: MetaData,
}

impl NadeoClient {
    /// Each configured session is coherent and serves its own slot's
    /// audience.
    pub open spec fn wf(self) -> bool {
        &&& match self.normal_auth {
            Option::Some(s) => s.wf() && s.service == AuthType::NadeoServices,
            Option::None => true,
        }
        &&& match self.live_auth {
            Option::Some(s) => s.wf() && s.service == AuthType::NadeoLiveServices,
            Option::None => true,
        }
        &&& match self.o_auth {
            Option::Some(s) => s.wf() && s.service == AuthType::OAuth,
            Option::None => true,
        }
    }

    /// The lookup table from audience to session.
    pub open spec fn spec_session_for(self, auth_type: AuthType) -> Option<CredentialSession> {
        match auth_type {
            AuthType::NadeoServices => self.normal_auth,
            AuthType::NadeoLiveServices => self.live_auth,
            AuthType::OAuth => self.o_auth,
        }
    }

    /// The client with one audience's slot replaced, all else unchanged.
    pub open spec fn spec_with_session(
        self,
        auth_type: AuthType,
        s: Option<CredentialSession>,
    ) -> NadeoClient {
        match auth_type {
            AuthType::NadeoServices => NadeoClient { normal_auth: s, ..self },
            AuthType::NadeoLiveServices => NadeoClient { live_auth: s, ..self },
            AuthType::OAuth => NadeoClient { o_auth: s, ..self },
        }
    }

    /// Resolves the session serving an audience; a missing one is a
    /// configuration error, failed fast with no network call.
    pub fn session_for(&self, auth_type: AuthType) -> (r: Result<&CredentialSession, Error>)
        ensures
            match r {
                Result::Ok(s) => self.spec_session_for(auth_type) == Option::Some(*s),
                Result::Err(e) => self.spec_session_for(auth_type) is None && e == (
                Error::MissingCredentials { auth_type }),
            },
    {
        let slot = match auth_type {
            AuthType::NadeoServices => &self.normal_auth,
            AuthType::NadeoLiveServices => &self.live_auth,
            AuthType::OAuth => &self.o_auth,
        };
        match slot {
            Option::Some(s) => Result::Ok(s),
            Option::None => Result::Err(Error::MissingCredentials { auth_type }),
        }
    }

    /// Replaces one audience's slot, leaving every other audience's
    /// session untouched.
    pub fn with_session(self, auth_type: AuthType, s: Option<CredentialSession>) -> (r:
        NadeoClient)
        ensures
            r == self.spec_with_session(auth_type, s),
    {
        match auth_type {
            AuthType::NadeoServices => NadeoClient { normal_auth: s, ..self },
            AuthType::NadeoLiveServices => NadeoClient { live_auth: s, ..self },
            AuthType::OAuth => NadeoClient { o_auth: s, ..self },
        }
    }

    /// Plans the pre-request refresh for an audience: the session's one
    /// network call where it is due, no call where it is not, and the
    /// configuration error where no session serves the audience.
    pub fn refresh_call_for(&self, auth_type: AuthType, now: i64) -> (r: Result<
        Option<RefreshCall>,
        Error,
    >)
        requires
            match self.spec_session_for(auth_type) {
                Option::Some(s) => i64::MIN <= s.spec_expiry() - now <= i64::MAX,
                Option::None => true,
            },
        ensures
            match r {
                Result::Ok(c) => {
                    &&& self.spec_session_for(auth_type) matches Option::Some(s)
                    &&& (c is Some) == s.spec_needs_refresh(now as int)
                    &&& match c {
                        Option::Some(call) => s.spec_refresh_call_ok(call),
                        Option::None => true,
                    }
                },
                Result::Err(e) => self.spec_session_for(auth_type) is None && e == (
                Error::MissingCredentials { auth_type }),
            },
    {
        match self.session_for(auth_type) {
            Result::Err(e) => Result::Err(e),
            Result::Ok(session) => Result::Ok(session.refresh_call(now)),
        }
    }

    /// Stamps a request for dispatch: the `Authorization` value of the
    /// session serving its audience, in that audience's scheme, and the
    /// caller's identification header.  A request whose audience has no
    /// session is left untouched and refused.
    pub fn stamp(&self, request: &mut NadeoRequest) -> (r: Result<(), Error>)
        ensures
            match r {
                Result::Ok(_) => {
                    &&& self.spec_session_for(old(request).auth_type) matches Option::Some(s)
                    &&& headers_view(final(request).headers@) == spec_set_header(
                        spec_set_header(
                            headers_view(old(request).headers@),
                            "Authorization"@,
                            s.spec_auth_header(),
                        ),
                        "User-Agent"@,
                        self.meta_data.user_agent@,
                    )
                    &&& final(request).method == old(request).method
                    &&& final(request).url == old(request).url
                    &&& final(request).body == old(request).body
                    &&& final(request).auth_type == old(request).auth_type
                },
                Result::Err(e) => {
                    &&& self.spec_session_for(old(request).auth_type) is None
                    &&& e == (Error::MissingCredentials { auth_type: old(request).auth_type })
                    &&& *final(request) == *old(request)
                },
            },
    {
        let session = match self.session_for(request.auth_type) {
            Result::Err(e) => {
                return Result::Err(e);
            },
            Result::Ok(s) => s,
        };
        session.stamp(request, self.meta_data.user_agent.as_str());
        Result::Ok(())
    }

    /// Starts a request builder with method, URL and audience set.
    pub fn request(&self, method: Method, url: &str, auth_type: AuthType) -> (r:
        NadeoRequestBuilder)
        ensures
            r.method == Option::Some(method),
            r.url matches Option::Some(u) && u@ == url@,
            r.auth_type == Option::Some(auth_type),
            r.headers@.len() == 0,
            r.body is None,
    {
        NadeoRequest::builder().method(method).url(url).auth_type(auth_type)
    }

    /// Shorthand for a GET request builder.
    pub fn get(&self, url: &str, auth_type: AuthType) -> (r: NadeoRequestBuilder)
        ensures
            r.method == Option::Some(Method::Get),
            r.url matches Option::Some(u) && u@ == url@,
            r.auth_type == Option::Some(auth_type),
            r.headers@.len() == 0,
            r.body is None,
    {
        self.request(Method::Get, url, auth_type)
    }

    /// Shorthand for a POST request builder.
    pub fn post(&self, url: &str, auth_type: AuthType) -> (r: NadeoRequestBuilder)
        ensures
            r.method == Option::Some(Method::Post),
            r.url matches Option::Some(u) && u@ == url@,
            r.auth_type == Option::Some(auth_type),
            r.headers@.len() == 0,
            r.body is None,
    {
        self.request(Method::Post, url, auth_type)
    }

    /// Shorthand for a PUT request builder.
    pub fn put(&self, url: &str, auth_type: AuthType) -> (r: NadeoRequestBuilder)
        ensures
            r.method == Option::Some(Method::Put),
            r.url matches Option::Some(u) && u@ == url@,
            r.auth_type == Option::Some(auth_type),
            r.headers@.len() == 0,
            r.body is None,
    {
        self.request(Method::Put, url, auth_type)
    }

    /// Shorthand for a PATCH request builder.
    pub fn patch(&self, url: &str, auth_type: AuthType) -> (r: NadeoRequestBuilder)
        ensures
            r.method == Option::Some(Method::Patch),
            r.url matches Option::Some(u) && u@ == url@,
            r.auth_type == Option::Some(auth_type),
            r.headers@.len() == 0,
            r.body is None,
    {
        self.request(Method::Patch, url, auth_type)
    }

    /// Shorthand for a DELETE request builder.
    pub fn delete(&self, url: &str, auth_type: AuthType) -> (r: NadeoRequestBuilder)
        ensures
            r.method == Option::Some(Method::Delete),
            r.url matches Option::Some(u) && u@ == url@,
            r.auth_type == Option::Some(auth_type),
            r.headers@.len() == 0,
            r.body is None,
    {
        self.request(Method::Delete, url, auth_type)
    }

    /// Shorthand for a HEAD request builder.
    pub fn head(&self, url: &str, auth_type: AuthType) -> (r: NadeoRequestBuilder)
        ensures
            r.method == Option::Some(Method::Head),
            r.url matches Option::Some(u) && u@ == url@,
            r.auth_type == Option::Some(auth_type),
            r.headers@.len() == 0,
            r.body is None,
    {
        self.request(Method::Head, url, auth_type)
    }
}

/// Translates the transport's answer to a dispatched request: a status in
/// 200..=299 passes the body through unchanged; any other status becomes
/// the typed error carrying status and body.  Nothing is retried.
pub fn classify_response(status: u16, body: String) -> (r: Result<String, Error>)
    ensures
        200 <= status < 300 ==> (r matches Result::Ok(b) && b@ == body@),
        !(200 <= status < 300) ==> (r matches Result::Err(e) && e matches Error::HttpStatus {
            status: s,
            body: b,
        } && s == status && b@ == body@),
{
    if 200 <= status && status < 300 {
        Result::Ok(body)
    } else {
        Result::Err(Error::HttpStatus { status, body })
    }
}

/// Audience isolation: replacing one audience's session — as any refresh
/// outcome does, failed or successful — neither changes nor blocks the
/// session any other audience resolves to.
pub proof fn lemma_audience_isolation(
    c: NadeoClient,
    a: AuthType,
    b: AuthType,
    s: Option<CredentialSession>,
)
    requires
        a != b,
    ensures
        c.spec_with_session(a, s).spec_session_for(b) == c.spec_session_for(b),
        c.spec_with_session(a, s).meta_data == c.meta_data,
{
}

} // verus!
