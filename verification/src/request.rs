//! The dispatchable request: plain values only, so that a request can be
//! inspected, stamped and reasoned about before the transport carries it.

use crate::session::AuthType;
use vstd::prelude::*;
use vstd::string::*;

verus! {

/// The HTTP methods the client issues.
#[derive(Debug, Clone, Copy, PartialEq, Eq, Structural)]
pub enum Method {
    Get,
    Post,
    Put,
    Patch,
    Delete,
    Head,
}

impl Method {
    /// The method name on the wire.
    pub open spec fn spec_name(self) -> Seq<char> {
        match self {
            Method::Get => "GET"@,
            Method::Post => "POST"@,
            Method::Put => "PUT"@,
            Method::Patch => "PATCH"@,
            Method::Delete => "DELETE"@,
            Method::Head => "HEAD"@,
        }
    }

    /// The method name on the wire.
    pub fn name(&self) -> (r: &'static str)
        ensures
            r@ == self.spec_name(),
    {
        match self {
            Method::Get => "GET",
            Method::Post => "POST",
            Method::Put => "PUT",
            Method::Patch => "PATCH",
            Method::Delete => "DELETE",
            Method::Head => "HEAD",
        }
    }
}

/// The name/value pairs of a header list, by their character contents.
pub open spec fn headers_view(h: Seq<(String, String)>) -> Seq<(Seq<char>, Seq<char>)> {
    Seq::new(h.len(), |i: int| (h[i].0@, h[i].1@))
}

/// Setting a header: the first entry of that name is replaced, or the
/// pair is appended where the name is absent.
pub open spec fn spec_set_header(
    h: Seq<(Seq<char>, Seq<char>)>,
    name: Seq<char>,
    value: Seq<char>,
) -> Seq<(Seq<char>, Seq<char>)>
    decreases h.len(),
{
    if h.len() == 0 {
        seq![(name, value)]
    } else if h[0].0 == name {
        seq![(name, value)] + h.drop_first()
    } else {
        seq![h[0]] + spec_set_header(h.drop_first(), name, value)
    }
}

/// The value a header list gives a name: its first entry of that name.
pub open spec fn spec_header_value(
    h: Seq<(Seq<char>, Seq<char>)>,
    name: Seq<char>,
) -> Option<Seq<char>>
    decreases h.len(),
{
    if h.len() == 0 {
        Option::None
    } else if h[0].0 == name {
        Option::Some(h[0].1)
    } else {
        spec_header_value(h.drop_first(), name)
    }
}

/// Where the first `i` entries miss `name` and entry `i` carries it,
/// setting the header replaces exactly entry `i`.
proof fn lemma_set_header_found(
    h: Seq<(Seq<char>, Seq<char>)>,
    name: Seq<char>,
    value: Seq<char>,
    i: int,
)
    requires
        0 <= i < h.len(),
        h[i].0 == name,
        forall|k: int| 0 <= k < i ==> h[k].0 != name,
    ensures
        spec_set_header(h, name, value) =~= h.take(i) + seq![(name, value)] + h.skip(i + 1),
    decreases i,
{
    if i == 0 {
        assert(h.drop_first() =~= h.skip(1));
    } else {
        lemma_set_header_found(h.drop_first(), name, value, i - 1);
        assert(h.drop_first().take(i - 1) =~= h.take(i).drop_first());
        assert(h.drop_first().skip(i) =~= h.skip(i + 1));
    }
}

/// Where no entry carries `name`, setting the header appends the pair.
proof fn lemma_set_header_missing(h: Seq<(Seq<char>, Seq<char>)>, name: Seq<char>, value: Seq<char>)
    requires
        forall|k: int| 0 <= k < h.len() ==> h[k].0 != name,
    ensures
        spec_set_header(h, name, value) =~= h + seq![(name, value)],
    decreases h.len(),
{
    if h.len() > 0 {
        lemma_set_header_missing(h.drop_first(), name, value);
    }
}

/// A request awaiting dispatch, tagged with the audience whose session
/// must authorize it.
#[derive(Debug)]
pub struct NadeoRequest {
    pub method: Method,
    pub url: String,
    pub headers: Vec<(String, String)>,
    pub body: Option<String>,
    pub auth_type: AuthType,
}

impl NadeoRequest {
    /// A bare request: no headers, no body.
    pub fn new(method: Method, url: String, auth_type: AuthType) -> (r: NadeoRequest)
        ensures
            r.method == method,
            r.url@ == url@,
            r.headers@.len() == 0,
            r.body is None,
            r.auth_type == auth_type,
    {
        NadeoRequest { method, url, headers: Vec::new(), body: Option::None, auth_type }
    }

    /// Sets one header: replaces its first entry of that name, or
    /// appends the pair where the name is absent.
    pub fn insert_header(&mut self, name: &str, value: String)
        ensures
            headers_view(final(self).headers@) == spec_set_header(
                headers_view(old(self).headers@),
                name@,
                value@,
            ),
            final(self).method == old(self).method,
            final(self).url == old(self).url,
            final(self).body == old(self).body,
            final(self).auth_type == old(self).auth_type,
    {
        let ghost old_view = headers_view(self.headers@);
        let name_s = String::from_str(name);
        let n = self.headers.len();
        let mut i: usize = 0;
        while i < n
            invariant
                n == self.headers@.len(),
                i <= n,
                name_s@ == name@,
                old_view == headers_view(old(self).headers@),
                forall|k: int| 0 <= k < i ==> headers_view(self.headers@)[k].0 != name@,
                *self == *old(self),
            decreases n - i,
        {
            let hit = self.headers[i].0 == name_s;
            if hit {
                proof {
                    assert(old_view[i as int].0 == name@);
                }
                self.headers[i] = (name_s.clone(), value);
                proof {
                    lemma_set_header_found(old_view, name@, value@, i as int);
                    assert(headers_view(self.headers@) =~= old_view.take(i as int) + seq![
                        (name@, value@),
                    ] + old_view.skip(i as int + 1));
                }
                return ;
            }
            i += 1;
        }
        self.headers.push((name_s, value));
        proof {
            lemma_set_header_missing(old_view, name@, value@);
            assert(headers_view(self.headers@) =~= old_view + seq![(name@, value@)]);
        }
    }

    /// The value the request's headers give a name, where one is set.
    pub open spec fn spec_header(self, name: Seq<char>) -> Option<Seq<char>> {
        spec_header_value(headers_view(self.headers@), name)
    }

    /// An empty builder to assemble a request stepwise.
    pub fn builder() -> (r: NadeoRequestBuilder)
        ensures
            r.method is None,
            r.url is None,
            r.auth_type is None,
            r.headers@.len() == 0,
            r.body is None,
    {
        NadeoRequestBuilder {
            method: Option::None,
            url: Option::None,
            auth_type: Option::None,
            headers: Vec::new(),
            body: Option::None,
        }
    }
}

/// Error when the request is invalid: a required part is missing.
#[derive(Debug, Clone, Copy, PartialEq, Eq, Structural)]
pub enum NadeoRequestBuilderError {
    MissingUrl,
    MissingHttpMethod,
    MissingAuthType,
}

/// Assembles the parts of a [`NadeoRequest`]; `build` checks that the
/// required ones are present.
#[derive(Debug)]
pub struct NadeoRequestBuilder {
    pub method: Option<Method>,
    pub url: Option<String>,
    pub auth_type: Option<AuthType>,
    pub headers: Vec<(String, String)>,
    pub body: Option<String>,
}

impl NadeoRequestBuilder {
    /// Sets the HTTP method.
    pub fn method(self, method: Method) -> (r: NadeoRequestBuilder)
        ensures
            r.method == Option::Some(method),
            r.url == self.url,
            r.auth_type == self.auth_type,
            r.headers == self.headers,
            r.body == self.body,
    {
        NadeoRequestBuilder { method: Option::Some(method), ..self }
    }

    /// Sets the URL.
    pub fn url(self, url: &str) -> (r: NadeoRequestBuilder)
        ensures
            r.url matches Option::Some(u) && u@ == url@,
            r.method == self.method,
            r.auth_type == self.auth_type,
            r.headers == self.headers,
            r.body == self.body,
    {
        NadeoRequestBuilder { url: Option::Some(String::from_str(url)), ..self }
    }

    /// Sets the audience the request is scoped to.
    pub fn auth_type(self, auth_type: AuthType) -> (r: NadeoRequestBuilder)
        ensures
            r.auth_type == Option::Some(auth_type),
            r.method == self.method,
            r.url == self.url,
            r.headers == self.headers,
            r.body == self.body,
    {
        NadeoRequestBuilder { auth_type: Option::Some(auth_type), ..self }
    }

    /// Adds one header to those already set.
    pub fn header(self, name: &str, value: &str) -> (r: NadeoRequestBuilder)
        ensures
            headers_view(r.headers@) == headers_view(self.headers@).push((name@, value@)),
            r.method == self.method,
            r.url == self.url,
            r.auth_type == self.auth_type,
            r.body == self.body,
    {
        let mut headers = self.headers;
        headers.push((String::from_str(name), String::from_str(value)));
        proof {
            assert(headers_view(headers@) =~= headers_view(self.headers@).push((name@, value@)));
        }
        NadeoRequestBuilder { headers, ..self }
    }

    /// Sets the request body.
    pub fn body(self, body: &str) -> (r: NadeoRequestBuilder)
        ensures
            r.body matches Option::Some(b) && b@ == body@,
            r.method == self.method,
            r.url == self.url,
            r.auth_type == self.auth_type,
            r.headers == self.headers,
    {
        NadeoRequestBuilder { body: Option::Some(String::from_str(body)), ..self }
    }

    /// Builds the request, if and only if URL, method and audience are
    /// all present; the error names the first missing part.
    pub fn build(self) -> (r: Result<NadeoRequest, NadeoRequestBuilderError>)
        ensures
            match r {
                Result::Ok(req) => {
                    &&& self.url matches Option::Some(u) && req.url == u
                    &&& self.method matches Option::Some(m) && req.method == m
                    &&& self.auth_type matches Option::Some(a) && req.auth_type == a
                    &&& req.headers == self.headers
                    &&& req.body == self.body
                },
                Result::Err(NadeoRequestBuilderError::MissingUrl) => self.url is None,
                Result::Err(NadeoRequestBuilderError::MissingHttpMethod) => self.url is Some
                    && self.method is None,
                Result::Err(NadeoRequestBuilderError::MissingAuthType) => self.url is Some
                    && self.method is Some && self.auth_type is None,
            },
    {
        let url = match self.url {
            Option::Some(u) => u,
            Option::None => {
                return Result::Err(NadeoRequestBuilderError::MissingUrl);
            },
        };
        let method = match self.method {
            Option::Some(m) => m,
            Option::None => {
                return Result::Err(NadeoRequestBuilderError::MissingHttpMethod);
            },
        };
        let auth_type = match self.auth_type {
            Option::Some(a) => a,
            Option::None => {
                return Result::Err(NadeoRequestBuilderError::MissingAuthType);
            },
        };
        Result::Ok(
            NadeoRequest { method, url, headers: self.headers, body: self.body, auth_type },
        )
    }
}

} // verus!
