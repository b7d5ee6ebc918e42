//! The client: its credentials, and the exact request that each API call sends.
use vstd::prelude::*;

use crate::error::ClientError;
use crate::urls::{
    appended_len, check_header_value, fits_view, fits_with_pairs, fragment_at_end, header_text_valid,
    lemma_encode_utf8_concat, opt_view, pairs_view, parse_url, parse_url_with_pairs, url_parsed, with_pairs, ParsedUrl,
    UrlView,
};

verus! {

/// The API server that a new client talks to.
pub const API_HOST: &'static str = "https://api.soundcloud.com";

/// The HTTP method of a request.
#[derive(Debug, Clone, Copy, PartialEq, Eq, Structural)]
pub enum Method {
    Get,
    Post,
    Put,
    Delete,
}

/// One field of a multipart form.
#[derive(Debug)]
pub enum FormPart {
    /// A text field.
    Text { name: String, value: String },
    /// A file field, with an optional file name and MIME type.
    Bytes { name: String, data: Vec<u8>, file_name: Option<String>, mime: Option<String> },
}

/// The body of a request.
#[derive(Debug)]
pub enum Body {
    /// No body.
    Empty,
    /// A JSON value that the caller handed to the call, sent as it is.
    Json(serde_json::Value),
    /// `{"playlist": {"tracks": [...]}}` with these track URNs.
    PlaylistTracks(Vec<String>),
    /// A multipart form with these fields, in this order.
    Form(Vec<FormPart>),
}

/// A request ready to be sent: method, URL (with its query), the
/// `Authorization` header if any, whether it declares a JSON body, and the body.
#[derive(Debug)]
pub struct Request {
    pub method: Method,
    pub url: ParsedUrl,
    pub authorization: Option<String>,
    pub json_content: bool,
    pub body: Body,
}

/// The credentials of a client of the API.
#[derive(Debug, Clone)]
pub struct Client {
    pub(crate) host: String,
    pub(crate) client_id: String,
    pub(crate) auth_token: Option<String>,
}

/// The `Authorization` header that a token gives: `OAuth <token>`.
pub open spec fn auth_text(token: Option<Seq<char>>) -> Option<Seq<char>> {
    match token {
        Some(t) => Some("OAuth "@ + t),
        None => None,
    }
}

/// Whether the header that a token gives can be sent.
pub open spec fn auth_ok(token: Option<Seq<char>>) -> bool {
    match token {
        Some(t) => header_text_valid("OAuth "@ + t),
        None => true,
    }
}

/// The URL that appending `pairs` to `input` gives, or `None` where `input`
/// does not parse.
pub open spec fn url_with_pairs(input: Seq<char>, pairs: Seq<(Seq<char>, Seq<char>)>) -> Option<UrlView> {
    match url_parsed(input) {
        Some(u) => Some(with_pairs(u, pairs)),
        None => None,
    }
}

/// What planning a request gives. `url` is the URL the request goes to, or
/// `None` where its text does not parse (a URL parse error); `fits` is false
/// where a position in the URL would pass `u32::MAX` (the `Overflow` parse
/// error); `header_ok` is
/// false where the `Authorization` header cannot be sent (an invalid header
/// error). Otherwise the request has the given method, URL, header and JSON flag.
pub open spec fn planned(
    r: Result<Request, ClientError>,
    url: Option<UrlView>,
    fits: bool,
    header_ok: bool,
    authorization: Option<Seq<char>>,
    method: Method,
    json: bool,
) -> bool {
    match url {
        None => r matches Err(ClientError::UrlParseError(_)),
        Some(u) => if !fits {
            r matches Err(ClientError::UrlParseError(e)) && e == url::ParseError::Overflow
        } else if !header_ok {
            r matches Err(ClientError::HttpInvalidHeaderError(_))
        } else {
            r matches Ok(q) && q.method == method && q.url@ == u && opt_view(q.authorization)
                == authorization && q.json_content == json
        },
    }
}

/// The pairs that a GET request appends to its URL: the client id first,
/// then the parameters of the call.
pub open spec fn get_pairs(client_id: Seq<char>, params: Seq<(Seq<char>, Seq<char>)>) -> Seq<(Seq<char>, Seq<char>)> {
    seq![("client_id"@, client_id)] + params
}

/// The parameters of a call, empty where it has none.
pub open spec fn params_view(params: Option<Vec<(String, String)>>) -> Seq<(Seq<char>, Seq<char>)> {
    match params {
        Some(p) => pairs_view(p@),
        None => seq![],
    }
}

/// Whether appending `pairs` to `parsed` keeps the URL within what `url`
/// can index (`fits_view`).
pub fn url_fits(parsed: &ParsedUrl, pairs: &Vec<(String, String)>) -> (b: bool)
    requires
        fragment_at_end(parsed@),
    ensures
        b == fits_view(parsed@, pairs_view(pairs@)),
{
    let ser = parsed.serialization.as_str();
    let ser_bytes = ser.as_bytes().len();
    let ser_len = ser_bytes as u64;
    let base: u64 = match &parsed.fragment {
        Some(f) => {
            let ghost u = parsed@;
            proof {
                assert(u.4 == Some(f@));
                let bf = u.0.take(u.0.len() - f@.len() - 1);
                assert(u.0 == bf + seq!['#'] + f@);
                lemma_encode_utf8_concat(bf, seq!['#']);
                lemma_encode_utf8_concat(bf + seq!['#'], f@);
                assert(vstd::utf8::is_ascii_chars(seq!['#']));
                vstd::utf8::is_ascii_chars_encode_utf8(seq!['#']);
            }
            let fs = f.as_str();
            let f_bytes = fs.as_bytes().len();
            ser_len - f_bytes as u64 - 1
        },
        None => ser_len,
    };
    if parsed.fragment.is_none() {
        return parsed.query_text.is_some() || base <= 0xffff_ffff;
    }
    if base > 0xffff_ffff {
        return false;
    }
    let question: u64 = if parsed.query_text.is_none() {
        1
    } else {
        0
    };
    let appended = appended_len(&parsed.query_text, pairs);
    base + question + appended <= 0xffff_ffff
}

/// `a` followed by `b`.
pub fn concat_str(a: &str, b: &str) -> (s: String)
    ensures
        s@ == a@ + b@,
{
    let mut s = String::from_str(a);
    s.append(b);
    s
}

impl Client {
    /// The host the client talks to.
    pub closed spec fn host_view(&self) -> Seq<char> {
        self.host@
    }

    /// The client id sent with each query.
    pub closed spec fn client_id_view(&self) -> Seq<char> {
        self.client_id@
    }

    /// The OAuth token, once the client is authenticated.
    pub closed spec fn token_view(&self) -> Option<Seq<char>> {
        opt_view(self.auth_token)
    }

    /// A client for `API_HOST` with this client id and no token.
    pub fn new(client_id: &str) -> (c: Client)
        ensures
            c.host_view() == API_HOST@,
            c.client_id_view() == client_id@,
            c.token_view() is None,
    {
        Client { host: String::from_str(API_HOST), client_id: String::from_str(client_id), auth_token: None }
    }

    /// The client id.
    pub fn client_id(&self) -> (s: &str)
        ensures
            s@ == self.client_id_view(),
    {
        self.client_id.as_str()
    }

    /// The host the client talks to.
    pub(crate) fn host_str(&self) -> (s: &str)
        ensures
            s@ == self.host_view(),
    {
        self.host.as_str()
    }

    /// Sends `token` as an OAuth token from now on.
    pub fn authenticate_with_token(&mut self, token: String)
        ensures
            final(self).token_view() == Some(token@),
            final(self).host_view() == old(self).host_view(),
            final(self).client_id_view() == old(self).client_id_view(),
    {
        self.auth_token = Some(token);
    }

    /// The `Authorization` header of this client's requests, checked to be sendable.
    fn authorization(&self) -> (r: Result<Option<String>, ClientError>)
        ensures
            r is Ok <==> auth_ok(self.token_view()),
            r matches Ok(a) ==> opt_view(a) == auth_text(self.token_view()),
            r is Err ==> r matches Err(ClientError::HttpInvalidHeaderError(_)),
    {
        match &self.auth_token {
            None => Ok(None),
            Some(t) => {
                let s = concat_str("OAuth ", t.as_str());
                match check_header_value(s.as_str()) {
                    Ok(()) => Ok(Some(s)),
                    Err(e) => Err(ClientError::HttpInvalidHeaderError(e)),
                }
            },
        }
    }

    /// A request to `input` with `pairs` appended to its query.
    /// With `authenticated` false the request carries no `Authorization` header.
    pub(crate) fn plan_with_pairs(
        &self,
        method: Method,
        input: &str,
        pairs: &Vec<(String, String)>,
        json: bool,
        body: Body,
        authenticated: bool,
    ) -> (r: Result<Request, ClientError>)
        ensures
            planned(
                r,
                url_with_pairs(input@, pairs_view(pairs@)),
                fits_with_pairs(input@, pairs_view(pairs@)),
                !authenticated || auth_ok(self.token_view()),
                if authenticated { auth_text(self.token_view()) } else { None },
                method,
                json,
            ),
            r matches Ok(q) ==> q.body == body,
            r matches Ok(q) ==> q.url@.1 == url_parsed(input@).unwrap().1,
            r matches Ok(q) ==> q.url@.2 == url_parsed(input@).unwrap().2 + pairs_view(pairs@),
    {
        let parsed = match parse_url(input) {
            Ok(p) => p,
            Err(e) => return Err(ClientError::UrlParseError(e)),
        };
        if !url_fits(&parsed, pairs) {
            return Err(ClientError::UrlParseError(url::ParseError::Overflow));
        }
        let with_pairs = match parse_url_with_pairs(input, pairs) {
            Ok(p) => p,
            Err(e) => return Err(ClientError::UrlParseError(e)),
        };
        let authorization = if authenticated {
            self.authorization()?
        } else {
            None
        };
        Ok(Request { method, url: with_pairs, authorization, json_content: json, body })
    }

    /// A request to `input` as it parses, with nothing added to its query.
    pub(crate) fn plan(&self, method: Method, input: &str, json: bool, body: Body) -> (r: Result<Request, ClientError>)
        ensures
            planned(
                r,
                url_parsed(input@),
                true,
                auth_ok(self.token_view()),
                auth_text(self.token_view()),
                method,
                json,
            ),
            r matches Ok(q) ==> q.body == body,
    {
        let parsed = match parse_url(input) {
            Ok(p) => p,
            Err(e) => return Err(ClientError::UrlParseError(e)),
        };
        let authorization = self.authorization()?;
        Ok(Request { method, url: parsed, authorization, json_content: json, body })
    }

    /// What `get` gives for `path` and `params`.
    pub open spec fn get_outcome(
        &self,
        r: Result<Request, ClientError>,
        path: Seq<char>,
        params: Seq<(Seq<char>, Seq<char>)>,
    ) -> bool {
        let input = self.host_view() + path;
        let pairs = get_pairs(self.client_id_view(), params);
        &&& planned(
            r,
            url_with_pairs(input, pairs),
            fits_with_pairs(input, pairs),
            auth_ok(self.token_view()),
            auth_text(self.token_view()),
            Method::Get,
            false,
        )
        &&& r matches Ok(q) ==> q.body is Empty
        &&& r matches Ok(q) ==> q.url@.1 == url_parsed(input).unwrap().1
        &&& r matches Ok(q) ==> q.url@.2 == url_parsed(input).unwrap().2 + pairs
    }

    /// A GET request to `path` on the host, with the client id and then
    /// `params` appended to the query, and the token's header if authenticated.
    pub fn get(&self, path: &str, params: Option<Vec<(String, String)>>) -> (r: Result<Request, ClientError>)
        ensures
            self.get_outcome(r, path@, params_view(params)),
    {
        let input = concat_str(self.host.as_str(), path);
        let mut pairs: Vec<(String, String)> = Vec::new();
        pairs.push((String::from_str("client_id"), self.client_id.clone()));
        match params {
            Some(p) => {
                let mut p = p;
                pairs.append(&mut p);
            },
            None => {},
        }
        proof {
            assert(pairs_view(pairs@) =~= get_pairs(self.client_id_view(), params_view(params)));
        }
        self.plan_with_pairs(Method::Get, input.as_str(), &pairs, false, Body::Empty, true)
    }

    /// What `post`, `put` or `delete` give for `path`.
    pub open spec fn bare_outcome(&self, r: Result<Request, ClientError>, method: Method, path: Seq<char>) -> bool {
        &&& planned(
            r,
            url_parsed(self.host_view() + path),
            true,
            auth_ok(self.token_view()),
            auth_text(self.token_view()),
            method,
            false,
        )
        &&& r matches Ok(q) ==> q.body is Empty
    }

    /// A POST request to `path` on the host (no client id is added).
    pub fn post(&self, path: &str) -> (r: Result<Request, ClientError>)
        ensures
            self.bare_outcome(r, Method::Post, path@),
            r matches Ok(q) ==> q.method == Method::Post && q.body is Empty,
            self.token_view() matches Some(t) ==> (r matches Ok(q) ==> q.authorization matches Some(a) && a@
                == "OAuth "@ + t),
            self.token_view() is None ==> (r matches Ok(q) ==> q.authorization is None),
            url_parsed(self.host_view() + path@) is Some && (self.token_view() matches Some(t) ==> header_text_valid(
                "OAuth "@ + t,
            )) ==> r is Ok,
    {
        let input = concat_str(self.host.as_str(), path);
        let r = self.plan(Method::Post, input.as_str(), false, Body::Empty);
        proof {
            bare_request_carries_token(*self, r, Method::Post, path@);
        }
        r
    }

    /// A PUT request to `path` on the host (no client id is added).
    pub fn put(&self, path: &str) -> (r: Result<Request, ClientError>)
        ensures
            self.bare_outcome(r, Method::Put, path@),
            r matches Ok(q) ==> q.method == Method::Put && q.body is Empty,
            self.token_view() matches Some(t) ==> (r matches Ok(q) ==> q.authorization matches Some(a) && a@
                == "OAuth "@ + t),
            self.token_view() is None ==> (r matches Ok(q) ==> q.authorization is None),
            url_parsed(self.host_view() + path@) is Some && (self.token_view() matches Some(t) ==> header_text_valid(
                "OAuth "@ + t,
            )) ==> r is Ok,
    {
        let input = concat_str(self.host.as_str(), path);
        let r = self.plan(Method::Put, input.as_str(), false, Body::Empty);
        proof {
            bare_request_carries_token(*self, r, Method::Put, path@);
        }
        r
    }

    /// A DELETE request to `path` on the host (no client id is added).
    pub fn delete(&self, path: &str) -> (r: Result<Request, ClientError>)
        ensures
            self.bare_outcome(r, Method::Delete, path@),
            r matches Ok(q) ==> q.method == Method::Delete && q.body is Empty,
            self.token_view() matches Some(t) ==> (r matches Ok(q) ==> q.authorization matches Some(a) && a@
                == "OAuth "@ + t),
            self.token_view() is None ==> (r matches Ok(q) ==> q.authorization is None),
            url_parsed(self.host_view() + path@) is Some && (self.token_view() matches Some(t) ==> header_text_valid(
                "OAuth "@ + t,
            )) ==> r is Ok,
    {
        let input = concat_str(self.host.as_str(), path);
        let r = self.plan(Method::Delete, input.as_str(), false, Body::Empty);
        proof {
            bare_request_carries_token(*self, r, Method::Delete, path@);
        }
        r
    }
}

/// A POST, PUT or DELETE request carries the client's token, as
/// `OAuth <token>`, where the client has one, and no `Authorization` header
/// where it has none; it is made wherever the URL parses and the token can
/// be sent in a header.
pub proof fn bare_request_carries_token(c: Client, r: Result<Request, ClientError>, method: Method, path: Seq<char>)
    requires
        c.bare_outcome(r, method, path),
    ensures
        r matches Ok(q) ==> q.method == method && q.body is Empty,
        c.token_view() matches Some(t) ==> (r matches Ok(q) ==> q.authorization matches Some(a) && a@ == "OAuth "@
            + t),
        c.token_view() is None ==> (r matches Ok(q) ==> q.authorization is None),
        url_parsed(c.host_view() + path) is Some && (c.token_view() matches Some(t) ==> header_text_valid(
            "OAuth "@ + t,
        )) ==> r is Ok,
{
}

/// A GET request always carries the client id: the query of the request is
/// the query of the path, then `client_id=<id>`, then the parameters of the call.
pub proof fn get_adds_client_id(
    c: Client,
    r: Result<Request, ClientError>,
    path: Seq<char>,
    params: Seq<(Seq<char>, Seq<char>)>,
)
    requires
        c.get_outcome(r, path, params),
        r is Ok,
    ensures
        r->Ok_0.url@.2 == url_parsed(c.host_view() + path).unwrap().2 + seq![("client_id"@, c.client_id_view())]
            + params,
        r->Ok_0.url@.2.contains(("client_id"@, c.client_id_view())),
        forall|i: int| 0 <= i < params.len() ==> r->Ok_0.url@.2.contains(#[trigger] params[i]),
{
    let q = r->Ok_0.url@.2;
    let base = url_parsed(c.host_view() + path).unwrap().2;
    assert(get_pairs(c.client_id_view(), params) =~= seq![("client_id"@, c.client_id_view())] + params);
    assert(q[base.len() as int] == ("client_id"@, c.client_id_view()));
    assert forall|i: int| 0 <= i < params.len() implies q.contains(#[trigger] params[i]) by {
        assert(q[base.len() + 1 + i] == params[i]);
    }
}

} // verus!
