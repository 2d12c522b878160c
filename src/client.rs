use vstd::prelude::*;
use vstd::string::*;
use crate::errors::Errors;

verus! {

/// One HTTP header: a name and its value.
#[derive(Debug)]
pub struct Header {
    pub name: String,
    pub value: String,
}

impl View for Header {
    type V = (Seq<char>, Seq<char>);

    open spec fn view(&self) -> (Seq<char>, Seq<char>) {
        (self.name@, self.value@)
    }
}

/// The abstract value of a header list.
pub open spec fn headers_view(hs: Seq<Header>) -> Seq<(Seq<char>, Seq<char>)> {
    hs.map_values(|h: Header| h@)
}

/// The headers other than those named `name`, in their order.
pub open spec fn without_header(hs: Seq<(Seq<char>, Seq<char>)>, name: Seq<char>) -> Seq<
    (Seq<char>, Seq<char>),
>
    decreases hs.len(),
{
    if hs.len() == 0 {
        hs
    } else if hs.last().0 == name {
        without_header(hs.drop_last(), name)
    } else {
        without_header(hs.drop_last(), name).push(hs.last())
    }
}

/// The headers with `name` set to `value`: earlier values of `name` are dropped.
pub open spec fn with_header(hs: Seq<(Seq<char>, Seq<char>)>, name: Seq<char>, value: Seq<char>) -> Seq<
    (Seq<char>, Seq<char>),
> {
    without_header(hs, name).push((name, value))
}

/// The value that a header list carries for `name`: the last one given.
pub open spec fn header_value(hs: Seq<(Seq<char>, Seq<char>)>, name: Seq<char>) -> Option<Seq<char>>
    decreases hs.len(),
{
    if hs.len() == 0 {
        None
    } else if hs.last().0 == name {
        Some(hs.last().1)
    } else {
        header_value(hs.drop_last(), name)
    }
}

/// Sets the header `name` to `value`, replacing any value it had.
pub fn set_header(headers: &mut Vec<Header>, name: &str, value: &str)
    ensures
        headers_view(final(headers)@) == with_header(headers_view(old(headers)@), name@, value@),
{
    let key = String::from_str(name);
    let mut kept: Vec<Header> = Vec::new();
    let mut i: usize = 0;
    proof {
        assert(headers_view(headers@.take(0)) =~= Seq::<(Seq<char>, Seq<char>)>::empty());
        assert(headers_view(kept@) =~= Seq::<(Seq<char>, Seq<char>)>::empty());
    }
    while i < headers.len()
        invariant
            i <= headers@.len(),
            key@ == name@,
            headers_view(kept@) == without_header(headers_view(headers@.take(i as int)), name@),
        decreases headers.len() - i,
    {
        let ghost prefix = headers_view(headers@.take(i as int));
        let ghost next = headers_view(headers@.take(i + 1));
        proof {
            assert(next.drop_last() =~= prefix);
            assert(next.last() == headers@[i as int]@);
        }
        if headers[i].name != key {
            let entry = Header { name: headers[i].name.clone(), value: headers[i].value.clone() };
            let ghost before = kept@;
            kept.push(entry);
            proof {
                assert(headers_view(kept@) =~= headers_view(before).push(headers@[i as int]@));
            }
        }
        i += 1;
    }
    proof {
        assert(headers@.take(headers@.len() as int) =~= headers@);
    }
    let ghost before = kept@;
    kept.push(Header { name: key, value: String::from_str(value) });
    proof {
        assert(headers_view(kept@) =~= headers_view(before).push((name@, value@)));
    }
    *headers = kept;
}

/// Setting a header leaves the value of every other header as it was.
pub proof fn lemma_set_header_keeps_others(
    hs: Seq<(Seq<char>, Seq<char>)>,
    name: Seq<char>,
    value: Seq<char>,
    other: Seq<char>,
)
    requires
        other != name,
    ensures
        header_value(with_header(hs, name, value), other) == header_value(hs, other),
{
    lemma_without_header_keeps_others(hs, name, other);
    let w = with_header(hs, name, value);
    assert(w.drop_last() =~= without_header(hs, name));
}

/// Dropping the header `name` leaves the value of every other header as it was.
pub proof fn lemma_without_header_keeps_others(
    hs: Seq<(Seq<char>, Seq<char>)>,
    name: Seq<char>,
    other: Seq<char>,
)
    requires
        other != name,
    ensures
        header_value(without_header(hs, name), other) == header_value(hs, other),
    decreases hs.len(),
{
    if hs.len() > 0 {
        lemma_without_header_keeps_others(hs.drop_last(), name, other);
        if hs.last().0 != name {
            let w = without_header(hs, name);
            assert(w.drop_last() =~= without_header(hs.drop_last(), name));
        }
    }
}

/// After a header is set, the list carries exactly the value just given for it.
pub proof fn lemma_set_header_reads_back(
    hs: Seq<(Seq<char>, Seq<char>)>,
    name: Seq<char>,
    value: Seq<char>,
)
    ensures
        header_value(with_header(hs, name, value), name) == Some(value),
{
}

/// The request methods the client issues.
#[derive(Clone, Copy, PartialEq, Eq, Debug, Structural)]
pub enum HttpMethod {
    Get,
    Post,
    Put,
    Patch,
    Delete,
}

/// The JSON body of a login call.
#[derive(Debug)]
pub struct LoginBody {
    pub username: String,
    pub password: String,
    pub remember_me: bool,
}

/// A login call to send: `POST <url>` with `body` as JSON.
#[derive(Debug)]
pub struct LoginRequest {
    pub url: String,
    pub body: LoginBody,
}

/// A call to send once the session is authenticated.
#[derive(Debug)]
pub struct OutboundRequest {
    pub method: HttpMethod,
    pub url: String,
    pub headers: Vec<Header>,
    pub body: Option<String>,
}

/// A call that waits for its login to complete.
#[derive(Debug)]
pub struct PendingRequest {
    pub method: HttpMethod,
    pub path: String,
    pub body: Option<String>,
}

/// The name of the header that carries the session token.
pub open spec fn token_header() -> Seq<char> {
    "X-CSRF-Token"@
}

/// The headers of a fresh session: JSON content by default.
pub open spec fn default_headers() -> Seq<(Seq<char>, Seq<char>)> {
    seq![("Content-Type"@, "application/json"@)]
}

/// The path of the login endpoint.
pub open spec fn login_path() -> Seq<char> {
    "/api/auth/login"@
}

/// The path of the client-listing endpoint.
pub open spec fn list_clients_path() -> Seq<char> {
    "/proxy/network/api/s/default/stat/sta"@
}

/// A session client bound to one controller and one set of credentials.
///
/// Every call is preceded by a fresh login: `request` hands back the login call
/// to send, and `authenticate` takes the token that the login answered with, stores
/// it among the session headers, and hands back the call itself. The session
/// headers change in `authenticate` alone; the credentials never change.
///
/// The transport that sends these calls accepts otherwise-invalid TLS
/// certificates and keeps cookies: an explicit relaxation for a self-hosted
/// controller with a self-signed certificate.
#[derive(Debug)]
pub struct UnifiApiClient {
    base_url: String,
    username: String,
    password: String,
    headers: Vec<Header>,
    pending: Option<PendingRequest>,
}

impl UnifiApiClient {
    pub closed spec fn spec_base_url(&self) -> Seq<char> {
        self.base_url@
    }

    pub closed spec fn spec_username(&self) -> Seq<char> {
        self.username@
    }

    pub closed spec fn spec_password(&self) -> Seq<char> {
        self.password@
    }

    pub closed spec fn spec_headers(&self) -> Seq<(Seq<char>, Seq<char>)> {
        headers_view(self.headers@)
    }

    pub closed spec fn spec_pending(&self) -> Option<PendingRequest> {
        self.pending
    }

    /// The same controller and credentials.
    pub open spec fn same_credentials(&self, other: &UnifiApiClient) -> bool {
        &&& self.spec_base_url() == other.spec_base_url()
        &&& self.spec_username() == other.spec_username()
        &&& self.spec_password() == other.spec_password()
    }

    /// `r` is the login call for these credentials.
    pub open spec fn is_login_request(&self, r: LoginRequest) -> bool {
        &&& r.url@ == self.spec_base_url() + login_path()
        &&& r.body.username@ == self.spec_username()
        &&& r.body.password@ == self.spec_password()
        &&& !r.body.remember_me
    }

    pub fn new(base_url: String, username: String, password: String) -> (r: UnifiApiClient)
        ensures
            r.spec_base_url() == base_url@,
            r.spec_username() == username@,
            r.spec_password() == password@,
            r.spec_headers() == default_headers(),
            r.spec_pending() is None,
    {
        let mut headers: Vec<Header> = Vec::new();
        headers.push(
            Header {
                name: String::from_str("Content-Type"),
                value: String::from_str("application/json"),
            },
        );
        proof {
            assert(headers_view(headers@) =~= default_headers());
        }
        UnifiApiClient { base_url, username, password, headers, pending: None }
    }

    pub fn get_base_url(&self) -> (r: &String)
        ensures
            r@ == self.spec_base_url(),
    {
        &self.base_url
    }

    pub fn get_username(&self) -> (r: &String)
        ensures
            r@ == self.spec_username(),
    {
        &self.username
    }

    pub fn get_headers(&self) -> (r: &Vec<Header>)
        ensures
            headers_view(r@) == self.spec_headers(),
    {
        &self.headers
    }

    /// The login call: the credentials as JSON, without "remember me".
    pub fn login_request(&self) -> (r: LoginRequest)
        ensures
            self.is_login_request(r),
    {
        let url = self.base_url.clone().concat("/api/auth/login");
        LoginRequest {
            url,
            body: LoginBody {
                username: self.username.clone(),
                password: self.password.clone(),
                remember_me: false,
            },
        }
    }

    /// Starts a call of `method` on `path`: the call waits, and the login that
    /// must come first is handed back to be sent.
    pub fn request(&mut self, method: HttpMethod, path: &str, body: Option<String>) -> (r:
        LoginRequest)
        ensures
            final(self).same_credentials(old(self)),
            final(self).spec_headers() == old(self).spec_headers(),
            final(self).spec_pending() matches Some(p) && p.method == method && p.path@ == path@
                && p.body == body,
            final(self).is_login_request(r),
    {
        self.pending = Some(PendingRequest { method, path: String::from_str(path), body });
        self.login_request()
    }

    /// Takes the outcome of the login: the token header it answered with, or `None`
    /// where it failed or carried none. With a token, the token is stored and the
    /// waiting call is handed back with the session headers; without one, or with
    /// no call waiting, the call fails with an internal error. No call waits afterwards.
    pub fn authenticate(&mut self, token: Option<String>) -> (r: Result<OutboundRequest, Errors>)
        ensures
            final(self).same_credentials(old(self)),
            final(self).spec_pending() is None,
            match (old(self).spec_pending(), token) {
                (Some(p), Some(t)) => {
                    &&& final(self).spec_headers() == with_header(
                        old(self).spec_headers(),
                        token_header(),
                        t@,
                    )
                    &&& r matches Ok(req) && req.method == p.method && req.url@
                        == old(self).spec_base_url() + p.path@ && req.body == p.body
                        && headers_view(req.headers@) == final(self).spec_headers()
                },
                _ => {
                    &&& final(self).spec_headers() == old(self).spec_headers()
                    &&& r matches Err(e) && e is InternalServerError
                },
            },
    {
        let pending = self.pending.take();
        match (pending, token) {
            (Some(p), Some(t)) => {
                set_header(&mut self.headers, "X-CSRF-Token", t.as_str());
                let url = self.base_url.clone().concat(p.path.as_str());
                let headers = self.clone_headers();
                Ok(OutboundRequest { method: p.method, url, headers, body: p.body })
            },
            _ => Err(Errors::InternalServerError),
        }
    }

    /// A copy of the session headers.
    fn clone_headers(&self) -> (r: Vec<Header>)
        ensures
            headers_view(r@) == self.spec_headers(),
    {
        let mut out: Vec<Header> = Vec::new();
        let mut i: usize = 0;
        while i < self.headers.len()
            invariant
                i <= self.headers@.len(),
                headers_view(out@) == headers_view(self.headers@.take(i as int)),
            decreases self.headers.len() - i,
        {
            let ghost before = out@;
            out.push(
                Header { name: self.headers[i].name.clone(), value: self.headers[i].value.clone() },
            );
            proof {
                assert(headers_view(out@) =~= headers_view(before).push(self.headers@[i as int]@));
                assert(headers_view(self.headers@.take(i + 1)) =~= headers_view(
                    self.headers@.take(i as int),
                ).push(self.headers@[i as int]@));
            }
            i += 1;
        }
        proof {
            assert(self.headers@.take(self.headers@.len() as int) =~= self.headers@);
        }
        out
    }

    /// Starts the listing of the clients connected to the controller.
    pub fn list_clients(&mut self) -> (r: LoginRequest)
        ensures
            final(self).same_credentials(old(self)),
            final(self).spec_headers() == old(self).spec_headers(),
            final(self).spec_pending() matches Some(p) && p.method == HttpMethod::Get && p.path@
                == list_clients_path() && p.body is None,
            final(self).is_login_request(r),
    {
        self.request(HttpMethod::Get, "/proxy/network/api/s/default/stat/sta", None)
    }
}

/// A login that answers with a token, after any call was started, attaches that
/// token to the call that goes out, and keeps every other session header.
pub proof fn lemma_token_on_outbound_request(
    headers: Seq<(Seq<char>, Seq<char>)>,
    token: Seq<char>,
    other: Seq<char>,
)
    requires
        other != token_header(),
    ensures
        header_value(with_header(headers, token_header(), token), token_header()) == Some(token),
        header_value(with_header(headers, token_header(), token), other) == header_value(
            headers,
            other,
        ),
{
    lemma_set_header_keeps_others(headers, token_header(), token, other);
}

} // verus!
