//! The API calls of the client, each as the request it sends, and the
//! decisions that the calls take on what the server answered.
use vstd::prelude::*;

use crate::client::{
    auth_ok, auth_text, concat_str, get_adds_client_id, planned, url_with_pairs, Body, Client, FormPart, Method,
    Request,
};
use crate::apis::{bare_fields, field_sent, parts_view, upload_form, upload_form_holds_set_fields, FormField};
use crate::error::ClientError;
use crate::models::{Playlist, Track};
use crate::text::{decimal, occurs_in, str_contains, u64_to_decimal};
use crate::tracklist::{
    all_have_urns, is_merge_of, kept_by, kept_urns, keep_urns, lemma_urns_of_named_tracks, merge_keeps_existing, merge_urns, merged_urns,
    owned_view, playlist_urns, strs_view, tracks_have_urns,
};
use crate::urls::{fits_with_pairs, opt_view, pairs_view, parse_url, url_parsed, with_pairs, ParsedUrl};

verus! {

/// The parameters that a `limit` gives: `limit=<n>`, or none.
pub open spec fn limit_params(limit: Option<u64>) -> Seq<(Seq<char>, Seq<char>)> {
    match limit {
        Some(l) => seq![("limit"@, decimal(l as nat))],
        None => seq![],
    }
}

/// The `limit=<n>` parameter where a limit is given, with `n` in decimal.
pub fn limit_param(limit: Option<u64>) -> (r: Option<Vec<(String, String)>>)
    ensures
        r is Some == limit is Some,
        r matches Some(p) ==> pairs_view(p@) == limit_params(limit),
{
    match limit {
        Some(l) => {
            let mut v: Vec<(String, String)> = Vec::new();
            v.push((String::from_str("limit"), u64_to_decimal(l)));
            proof {
                assert(pairs_view(v@) =~= limit_params(limit));
            }
            Some(v)
        },
        None => None,
    }
}

/// The one parameter `name=value`.
fn one_param(name: &str, value: &str) -> (r: Vec<(String, String)>)
    ensures
        pairs_view(r@) == seq![(name@, value@)],
{
    let mut v: Vec<(String, String)> = Vec::new();
    v.push((String::from_str(name), String::from_str(value)));
    proof {
        assert(pairs_view(v@) =~= seq![(name@, value@)]);
    }
    v
}

/// The parameters of a chart query: `kind` then `genre`, each where given.
pub open spec fn chart_params(kind: Option<Seq<char>>, genre: Option<Seq<char>>) -> Seq<(Seq<char>, Seq<char>)> {
    (match kind {
        Some(k) => seq![("kind"@, k)],
        None => seq![],
    }) + (match genre {
        Some(g) => seq![("genre"@, g)],
        None => seq![],
    })
}

/// A chart query names the kind where one is given and the genre where one
/// is given, each whatever the other is.
pub proof fn chart_params_name_each_filter(kind: Option<Seq<char>>, genre: Option<Seq<char>>)
    ensures
        kind matches Some(k) ==> chart_params(kind, genre).contains(("kind"@, k)),
        genre matches Some(g) ==> chart_params(kind, genre).contains(("genre"@, g)),
        kind is None ==> forall|i: int| 0 <= i < chart_params(kind, genre).len() ==> (#[trigger] chart_params(kind, genre)[i]).0 != "kind"@,
        genre is None ==> forall|i: int| 0 <= i < chart_params(kind, genre).len() ==> (#[trigger] chart_params(kind, genre)[i]).0 != "genre"@,
{
    let c = chart_params(kind, genre);
    if let Some(k) = kind {
        assert(c[0] == ("kind"@, k));
    }
    if let Some(g) = genre {
        assert(c[c.len() - 1] == ("genre"@, g));
    }
    assert("kind"@ != "genre"@) by {
        reveal_strlit("kind");
        reveal_strlit("genre");
        assert("kind"@[0] != "genre"@[0]);
    }
}

/// A limit query names the limit, in decimal, where one is given.
pub proof fn limit_params_name_limit(limit: Option<u64>)
    ensures
        limit matches Some(l) ==> limit_params(limit).contains(("limit"@, decimal(l as nat))),
        limit is None ==> limit_params(limit).len() == 0,
{
    if let Some(l) = limit {
        assert(limit_params(limit)[0] == ("limit"@, decimal(l as nat)));
    }
}

/// A successful GET request with a limit names the client id and the limit
/// in its query.
pub proof fn get_names_limit(c: Client, r: Result<Request, ClientError>, path: Seq<char>, limit: Option<u64>)
    requires
        c.get_outcome(r, path, limit_params(limit)),
    ensures
        r matches Ok(q) ==> q.url@.2.contains(("client_id"@, c.client_id_view())),
        r matches Ok(q) ==> (limit matches Some(l) ==> q.url@.2.contains(("limit"@, decimal(l as nat)))),
{
    if r is Ok {
        get_adds_client_id(c, r, path, limit_params(limit));
        limit_params_name_limit(limit);
        if let Some(l) = limit {
            assert(limit_params(limit)[0] == ("limit"@, decimal(l as nat)));
        }
    }
}

/// The view of an optional text.
pub open spec fn opt_str_view(s: Option<&str>) -> Option<Seq<char>> {
    match s {
        Some(x) => Some(x@),
        None => None,
    }
}

/// The kind of resource that a resolved path names.
#[derive(Debug, Clone, Copy, PartialEq, Eq, Structural)]
pub enum ResourceKind {
    Track,
    User,
    Playlist,
}

/// The kind that a path names: a track where it holds `/tracks/`, else a
/// user where it holds `/users/`, else a playlist where it holds `/playlists/`.
pub open spec fn kind_of_path(path: Seq<char>) -> Option<ResourceKind> {
    if occurs_in(path, "/tracks/"@) {
        Some(ResourceKind::Track)
    } else if occurs_in(path, "/users/"@) {
        Some(ResourceKind::User)
    } else if occurs_in(path, "/playlists/"@) {
        Some(ResourceKind::Playlist)
    } else {
        None
    }
}

/// The kind of resource at `path`, or the API error `unknown resource type: <path>`.
pub fn resource_kind(path: &str) -> (r: Result<ResourceKind, ClientError>)
    ensures
        r is Ok <==> kind_of_path(path@) is Some,
        r matches Ok(k) ==> kind_of_path(path@) == Some(k),
        r is Err ==> (r matches Err(ClientError::ApiError(m)) && m@ == "unknown resource type: "@ + path@),
{
    if str_contains(path, "/tracks/") {
        Ok(ResourceKind::Track)
    } else if str_contains(path, "/users/") {
        Ok(ResourceKind::User)
    } else if str_contains(path, "/playlists/") {
        Ok(ResourceKind::Playlist)
    } else {
        Err(ClientError::ApiError(concat_str("unknown resource type: ", path)))
    }
}

/// Whether a failed request means that the user is not followed: the
/// server answered 404 Not Found.
pub fn not_following(status: Option<u16>) -> (b: bool)
    ensures
        b == (status == Some(404u16)),
{
    match status {
        Some(s) => s == 404,
        None => false,
    }
}

/// The URL that a `Location` header names, or the API error
/// `expected location header` where the answer has none.
pub fn location_url(location: Option<&str>) -> (r: Result<ParsedUrl, ClientError>)
    ensures
        location is None ==> (r matches Err(ClientError::ApiError(m)) && m@ == "expected location header"@),
        location matches Some(l) ==> (r is Ok <==> url_parsed(l@) is Some),
        location matches Some(l) ==> (r matches Ok(u) ==> url_parsed(l@) == Some(u@)),
        location matches Some(l) ==> (r is Err ==> r matches Err(ClientError::UrlParseError(_))),
{
    match location {
        None => Err(ClientError::ApiError(String::from_str("expected location header"))),
        Some(l) => match parse_url(l) {
            Ok(u) => Ok(u),
            Err(e) => Err(ClientError::UrlParseError(e)),
        },
    }
}

/// Whether a query already names a client id.
pub open spec fn has_client_id(query: Seq<(Seq<char>, Seq<char>)>) -> bool {
    exists|i: int| 0 <= i < query.len() && #[trigger] query[i].0 == "client_id"@
}

/// Whether a decoded query names a client id.
pub fn query_has_client_id(query: &Vec<(String, String)>) -> (b: bool)
    ensures
        b == has_client_id(pairs_view(query@)),
        forall|i: int| 0 <= i < query@.len() && (#[trigger] query@[i]).0@ == "client_id"@ ==> b,
        b ==> exists|i: int| 0 <= i < query@.len() && (#[trigger] query@[i]).0@ == "client_id"@,
{
    let name = String::from_str("client_id");
    let mut i: usize = 0;
    while i < query.len()
        invariant
            i <= query@.len(),
            name@ == "client_id"@,
            forall|k: int| 0 <= k < i ==> pairs_view(query@)[k].0 != "client_id"@,
        decreases query@.len() - i,
    {
        if query[i].0 == name {
            proof {
                assert(pairs_view(query@)[i as int].0 == "client_id"@);
            }
            return true;
        }
        i = i + 1;
    }
    proof {
        assert forall|k: int| 0 <= k < query@.len() implies (#[trigger] query@[k]).0@ != "client_id"@ by {
            assert(pairs_view(query@)[k].0 == query@[k].0@);
        }
    }
    false
}


/// `a`, `b` and `c` one after the other.
fn concat3(a: &str, b: &str, c: &str) -> (s: String)
    ensures
        s@ == a@ + b@ + c@,
{
    let mut s = concat_str(a, b);
    s.append(c);
    s
}

/// The strings of a list of text slices.
fn to_strings(v: &[&str]) -> (r: Vec<String>)
    ensures
        owned_view(r@) == strs_view(v@),
{
    let mut out: Vec<String> = Vec::new();
    let mut i: usize = 0;
    while i < v.len()
        invariant
            i <= v@.len(),
            owned_view(out@) == strs_view(v@).take(i as int),
        decreases v@.len() - i,
    {
        let ghost before = owned_view(out@);
        let s = String::from_str(v[i]);
        out.push(s);
        proof {
            assert(owned_view(out@) =~= before.push(v@[i as int]@));
            assert(strs_view(v@).take(i + 1) =~= strs_view(v@).take(i as int).push(v@[i as int]@));
        }
        i = i + 1;
    }
    proof {
        assert(strs_view(v@).take(i as int) =~= strs_view(v@));
    }
    out
}

impl Client {
    /// What a request to `path` on the host with the client id appended gives.
    pub open spec fn id_outcome(
        &self,
        r: Result<Request, ClientError>,
        method: Method,
        path: Seq<char>,
        json: bool,
    ) -> bool {
        let input = self.host_view() + path;
        let pairs = seq![("client_id"@, self.client_id_view())];
        &&& planned(
            r,
            url_with_pairs(input, pairs),
            fits_with_pairs(input, pairs),
            auth_ok(self.token_view()),
            auth_text(self.token_view()),
            method,
            json,
        )
        &&& r matches Ok(q) ==> q.url@.1 == url_parsed(input).unwrap().1
        &&& r matches Ok(q) ==> q.url@.2 == url_parsed(input).unwrap().2 + pairs
    }

    /// A request to `path` on the host with the client id appended.
    pub(crate) fn with_client_id(&self, method: Method, path: &str, json: bool, body: Body) -> (r: Result<Request, ClientError>)
        ensures
            self.id_outcome(r, method, path@, json),
            r matches Ok(q) ==> q.body == body,
    {
        let input = concat_str(self.host_str(), path);
        let pairs = one_param("client_id", self.client_id());
        self.plan_with_pairs(method, input.as_str(), &pairs, json, body, true)
    }

    /// What a request for the page at `url` gives: `None` where the URL does
    /// not parse, the header cannot be sent, or the URL is too long to take
    /// the client id (`fits_with_pairs`); the client id is appended only where
    /// the query does not name one already.
    pub open spec fn page_outcome(&self, r: Option<Request>, url: Seq<char>) -> bool {
        let pairs = seq![("client_id"@, self.client_id_view())];
        match url_parsed(url) {
            None => r is None,
            Some(u) => if !auth_ok(self.token_view()) || (!has_client_id(u.2) && !fits_with_pairs(url, pairs)) {
                r is None
            } else {
                &&& r matches Some(q)
                &&& q.method == Method::Get
                &&& q.url@ == (if has_client_id(u.2) { u } else { with_pairs(u, pairs) })
                &&& q.url@.1 == u.1
                &&& q.url@.2 == (if has_client_id(u.2) { u.2 } else { u.2 + pairs })
                &&& opt_view(q.authorization) == auth_text(self.token_view())
                &&& !q.json_content
                &&& q.body is Empty
                &&& has_client_id(q.url@.2)
            },
        }
    }

    /// The request for one page of a listing at `url`: the link as it parses
    /// where any pair of its query is named `client_id`, else the link with
    /// the client id appended.
    pub fn get_page(&self, url: &str) -> (r: Option<Request>)
        ensures
            self.page_outcome(r, url@),
            forall|i: int|
                url_parsed(url@) is Some && 0 <= i < url_parsed(url@).unwrap().2.len() && (#[trigger] url_parsed(
                    url@,
                ).unwrap().2[i]).0 == "client_id"@ ==> (r matches Some(q) ==> q.url@ == url_parsed(url@).unwrap()),
            url_parsed(url@) is Some && (forall|i: int|
                0 <= i < url_parsed(url@).unwrap().2.len() ==> (#[trigger] url_parsed(url@).unwrap().2[i]).0
                    != "client_id"@) ==> (r matches Some(q) ==> q.url@.2 == url_parsed(url@).unwrap().2 + seq![
                ("client_id"@, self.client_id_view()),
            ]),
    {
        let r = self.page_request(url);
        proof {
            if r is Some {
                page_request_names_client_id_once(*self, r, url@);
            }
        }
        r
    }

    /// The request for one page of a listing at `url` (`page_outcome`).
    fn page_request(&self, url: &str) -> (r: Option<Request>)
        ensures
            self.page_outcome(r, url@),
    {
        let parsed = match parse_url(url) {
            Ok(p) => p,
            Err(_) => return None,
        };
        if query_has_client_id(&parsed.query) {
            match self.plan(Method::Get, url, false, Body::Empty) {
                Ok(q) => Some(q),
                Err(_) => None,
            }
        } else {
            let pairs = one_param("client_id", self.client_id());
            match self.plan_with_pairs(Method::Get, url, &pairs, false, Body::Empty, true) {
                Ok(q) => {
                    proof {
                        let view = pairs_view(q.url.query@);
                        assert(view[view.len() - 1].0 == "client_id"@);
                    }
                    Some(q)
                },
                Err(_) => None,
            }
        }
    }

    /// The request for the first page of the listing at `path` on the host.
    pub fn get_pages(&self, path: &str) -> (r: Option<Request>)
        ensures
            self.page_outcome(r, self.host_view() + path@),
    {
        let url = concat_str(self.host_str(), path);
        self.get_page(url.as_str())
    }

    /// The request for the page of a listing that a `next_href` link names.
    pub fn get_pages_url(&self, url: &str) -> (r: Option<Request>)
        ensures
            self.page_outcome(r, url@),
            forall|i: int|
                url_parsed(url@) is Some && 0 <= i < url_parsed(url@).unwrap().2.len() && (#[trigger] url_parsed(
                    url@,
                ).unwrap().2[i]).0 == "client_id"@ ==> (r matches Some(q) ==> q.url@ == url_parsed(url@).unwrap()),
            url_parsed(url@) is Some && (forall|i: int|
                0 <= i < url_parsed(url@).unwrap().2.len() ==> (#[trigger] url_parsed(url@).unwrap().2[i]).0
                    != "client_id"@) ==> (r matches Some(q) ==> q.url@.2 == url_parsed(url@).unwrap().2 + seq![
                ("client_id"@, self.client_id_view()),
            ]),
    {
        self.get_page(url)
    }

    /// The request for the first page of the listing at `path`, and the
    /// number of pages to read (all of them where no number is given).
    pub fn get_stream(&self, path: &str, num_pages: Option<u64>) -> (r: Option<(Request, u64)>)
        ensures
            self.page_outcome(
                match r {
                    Some(p) => Some(p.0),
                    None => None,
                },
                self.host_view() + path@,
            ),
            r matches Some(p) ==> p.1 == match num_pages {
                Some(n) => n,
                None => u64::MAX,
            },
    {
        match self.get_pages(path) {
            Some(q) => Some(
                (
                    q,
                    match num_pages {
                        Some(n) => n,
                        None => u64::MAX,
                    },
                ),
            ),
            None => None,
        }
    }

    /// What reading the body at `url` gives: a GET of `url` with the client id
    /// appended and no `Authorization` header.
    pub open spec fn read_outcome(&self, r: Result<Request, ClientError>, url: Seq<char>) -> bool {
        let pairs = seq![("client_id"@, self.client_id_view())];
        &&& planned(r, url_with_pairs(url, pairs), fits_with_pairs(url, pairs), true, None, Method::Get, false)
        &&& r matches Ok(q) ==> q.body is Empty
        &&& r matches Ok(q) ==> q.url@.1 == url_parsed(url).unwrap().1
        &&& r matches Ok(q) ==> q.url@.2 == url_parsed(url).unwrap().2 + pairs
    }

    /// The request that reads the body at `url`.
    fn read_url(&self, url: &str) -> (r: Result<Request, ClientError>)
        ensures
            self.read_outcome(r, url@),
    {
        let pairs = one_param("client_id", self.client_id());
        self.plan_with_pairs(Method::Get, url, &pairs, false, Body::Empty, false)
    }

    /// The request that streams a track, or `TrackNotStreamable` where the
    /// track is not streamable or has no stream URL.
    pub fn stream(&self, track: &Track) -> (r: Result<Request, ClientError>)
        ensures
            !track.streamable || track.stream_url is None ==> r matches Err(ClientError::TrackNotStreamable),
            track.streamable && track.stream_url is Some ==> self.read_outcome(r, track.stream_url.unwrap()@),
    {
        if !track.streamable {
            return Err(ClientError::TrackNotStreamable);
        }
        match &track.stream_url {
            Some(u) => self.read_url(u.as_str()),
            None => Err(ClientError::TrackNotStreamable),
        }
    }

    /// The request that downloads a track, or `TrackNotDownloadable` where
    /// the track is not downloadable or has no download URL.
    pub fn download(&self, track: &Track) -> (r: Result<Request, ClientError>)
        ensures
            !track.downloadable || track.download_url is None ==> r matches Err(
                ClientError::TrackNotDownloadable,
            ),
            track.downloadable && track.download_url is Some ==> self.read_outcome(
                r,
                track.download_url.unwrap()@,
            ),
    {
        if !track.downloadable {
            return Err(ClientError::TrackNotDownloadable);
        }
        match &track.download_url {
            Some(u) => self.read_url(u.as_str()),
            None => Err(ClientError::TrackNotDownloadable),
        }
    }

    /// The request that follows a redirect to `location`, once: a GET of the
    /// URL as it parses, with nothing added; `None` where it does not parse.
    pub fn redirect(&self, location: &str) -> (r: Option<Request>)
        ensures
            r is Some <==> url_parsed(location@) is Some,
            r matches Some(q) ==> q.method == Method::Get && Some(q.url@) == url_parsed(location@)
                && q.authorization is None && !q.json_content && q.body is Empty,
    {
        match parse_url(location) {
            Ok(p) => Some(Request { method: Method::Get, url: p, authorization: None, json_content: false, body: Body::Empty }),
            Err(_) => None,
        }
    }

    /// The request that resolves a SoundCloud URL.
    pub fn resolve(&self, url: &str) -> (r: Result<Request, ClientError>)
        ensures
            self.get_outcome(r, "/resolve"@, seq![("url"@, url@)]),
    {
        self.get("/resolve", Some(one_param("url", url)))
    }

    /// The request that resolves a SoundCloud URL to a typed resource; it is
    /// the request of `resolve`.
    pub fn resolve_typed(&self, url: &str) -> (r: Result<Request, ClientError>)
        ensures
            self.get_outcome(r, "/resolve"@, seq![("url"@, url@)]),
    {
        self.resolve(url)
    }

    /// Once `resolve_typed` is answered with a `Location`: the path that it
    /// names and the GET request for that path.
    pub fn resolve_typed_target(&self, location: Option<&str>) -> (r: Result<(String, Request), ClientError>)
        ensures
            location is None ==> (r matches Err(ClientError::ApiError(m)) && m@ == "expected location header"@),
            location matches Some(l) && url_parsed(l@) is None ==> r matches Err(ClientError::UrlParseError(_)),
            location is Some && url_parsed(location.unwrap()@) is Some ==> {
                let path = url_parsed(location.unwrap()@).unwrap().1;
                &&& self.get_outcome(
                    match r {
                        Ok(p) => Ok(p.1),
                        Err(e) => Err(e),
                    },
                    path,
                    seq![],
                )
                &&& r matches Ok(p) ==> p.0@ == path
            },
    {
        let target = location_url(location)?;
        let request = self.get(target.path.as_str(), None)?;
        Ok((target.path, request))
    }

    /// The request for the playlists of the authenticated user (up to 500).
    pub fn my_playlists(&self) -> (r: Result<Request, ClientError>)
        ensures
            self.get_outcome(r, "/me/playlists"@, seq![("limit"@, "500"@)]),
    {
        self.get("/me/playlists", Some(one_param("limit", "500")))
    }

    /// The request for the liked tracks of the authenticated user (up to 500).
    pub fn likes(&self) -> (r: Result<Request, ClientError>)
        ensures
            self.get_outcome(r, "/me/likes/tracks"@, seq![("limit"@, "500"@)]),
    {
        self.get("/me/likes/tracks", Some(one_param("limit", "500")))
    }

    /// The request that likes a track.
    pub fn like_track(&self, track_urn: &str) -> (r: Result<Request, ClientError>)
        ensures
            self.bare_outcome(r, Method::Post, "/likes/tracks/"@ + track_urn@),
    {
        self.post(concat_str("/likes/tracks/", track_urn).as_str())
    }

    /// The request that unlikes a track.
    pub fn unlike_track(&self, track_urn: &str) -> (r: Result<Request, ClientError>)
        ensures
            self.bare_outcome(r, Method::Delete, "/likes/tracks/"@ + track_urn@),
    {
        self.delete(concat_str("/likes/tracks/", track_urn).as_str())
    }

    /// The request that likes a playlist.
    pub fn like_playlist(&self, playlist_urn: &str) -> (r: Result<Request, ClientError>)
        ensures
            self.bare_outcome(r, Method::Post, "/likes/playlists/"@ + playlist_urn@),
    {
        self.post(concat_str("/likes/playlists/", playlist_urn).as_str())
    }

    /// The request that unlikes a playlist.
    pub fn unlike_playlist(&self, playlist_urn: &str) -> (r: Result<Request, ClientError>)
        ensures
            self.bare_outcome(r, Method::Delete, "/likes/playlists/"@ + playlist_urn@),
    {
        self.delete(concat_str("/likes/playlists/", playlist_urn).as_str())
    }

    /// The request that follows a user.
    pub fn follow_user(&self, user_urn: &str) -> (r: Result<Request, ClientError>)
        ensures
            self.bare_outcome(r, Method::Put, "/me/followings/"@ + user_urn@),
    {
        self.put(concat_str("/me/followings/", user_urn).as_str())
    }

    /// The request that unfollows a user.
    pub fn unfollow_user(&self, user_urn: &str) -> (r: Result<Request, ClientError>)
        ensures
            self.bare_outcome(r, Method::Delete, "/me/followings/"@ + user_urn@),
    {
        self.delete(concat_str("/me/followings/", user_urn).as_str())
    }

    /// The request that uploads a track with a title and audio only: the
    /// request that `upload_track(title, asset_data).send()` gives.
    pub fn upload_track_simple(&self, title: &str, asset_data: Vec<u8>) -> (r: Result<Request, ClientError>)
        ensures
            self.id_outcome(r, Method::Post, "/tracks"@, false),
            r matches Ok(q) ==> q.body matches Body::Form(f) && parts_view(f@) == upload_form(
                bare_fields(title@, asset_data@),
            ),
            r matches Ok(q) ==> q.body matches Body::Form(f) && forall|x: FormField|
                #[trigger] parts_view(f@).contains(x) == field_sent(bare_fields(title@, asset_data@), x),
    {
        let ghost fields = bare_fields(title@, asset_data@);
        let mut form: Vec<FormPart> = Vec::new();
        form.push(FormPart::Text { name: String::from_str("track[title]"), value: String::from_str(title) });
        form.push(
            FormPart::Bytes { name: String::from_str("track[asset_data]"), data: asset_data, file_name: None, mime: None },
        );
        proof {
            assert(parts_view(form@) =~= upload_form(fields));
            upload_form_holds_set_fields(fields);
        }
        self.with_client_id(Method::Post, "/tracks", false, Body::Form(form))
    }

    /// The request that updates a track's metadata with the JSON `body`.
    pub fn update_track(&self, track_urn: &str, body: serde_json::Value) -> (r: Result<Request, ClientError>)
        ensures
            self.id_outcome(r, Method::Put, "/tracks/"@ + track_urn@, true),
            r matches Ok(q) ==> q.body == Body::Json(body),
    {
        self.with_client_id(Method::Put, concat_str("/tracks/", track_urn).as_str(), true, Body::Json(body))
    }

    /// The request that deletes a track.
    pub fn delete_track(&self, track_urn: &str) -> (r: Result<Request, ClientError>)
        ensures
            self.id_outcome(r, Method::Delete, "/tracks/"@ + track_urn@, false),
            r matches Ok(q) ==> q.body is Empty,
    {
        self.with_client_id(Method::Delete, concat_str("/tracks/", track_urn).as_str(), false, Body::Empty)
    }

    /// The request for the recently played tracks of the authenticated user.
    pub fn recently_played(&self) -> (r: Result<Request, ClientError>)
        ensures
            self.get_outcome(r, "/me/recently-played/tracks"@, seq![]),
    {
        self.get("/me/recently-played/tracks", None)
    }

    /// The request for the feed of the authenticated user.
    pub fn feed(&self, limit: Option<u64>) -> (r: Result<Request, ClientError>)
        ensures
            self.get_outcome(r, "/me/feed"@, limit_params(limit)),
            r matches Ok(q) ==> q.url@.2.contains(("client_id"@, self.client_id_view())),
            r matches Ok(q) ==> (limit matches Some(l) ==> q.url@.2.contains(("limit"@, decimal(l as nat)))),
    {
        let r = self.get("/me/feed", limit_param(limit));
        proof {
            get_names_limit(*self, r, "/me/feed"@, limit);
        }
        r
    }

    /// The request that creates a playlist from the JSON `body`.
    pub fn create_playlist(&self, body: serde_json::Value) -> (r: Result<Request, ClientError>)
        ensures
            self.id_outcome(r, Method::Post, "/playlists"@, true),
            r matches Ok(q) ==> q.body == Body::Json(body),
    {
        self.with_client_id(Method::Post, "/playlists", true, Body::Json(body))
    }

    /// The request that updates a playlist with the JSON `body`.
    pub fn update_playlist(&self, playlist_urn: &str, body: serde_json::Value) -> (r: Result<Request, ClientError>)
        ensures
            self.id_outcome(r, Method::Put, "/playlists/"@ + playlist_urn@, true),
            r matches Ok(q) ==> q.body == Body::Json(body),
    {
        self.with_client_id(Method::Put, concat_str("/playlists/", playlist_urn).as_str(), true, Body::Json(body))
    }

    /// The request that deletes a playlist.
    pub fn delete_playlist(&self, playlist_urn: &str) -> (r: Result<Request, ClientError>)
        ensures
            self.id_outcome(r, Method::Delete, "/playlists/"@ + playlist_urn@, false),
            r matches Ok(q) ==> q.body is Empty,
    {
        self.with_client_id(Method::Delete, concat_str("/playlists/", playlist_urn).as_str(), false, Body::Empty)
    }

    /// The request for the stream URLs of a track.
    pub fn track_streams(&self, track_urn: &str) -> (r: Result<Request, ClientError>)
        ensures
            self.get_outcome(r, "/tracks/"@ + track_urn@ + "/streams"@, seq![]),
    {
        self.get(concat3("/tracks/", track_urn, "/streams").as_str(), None)
    }

    /// The request for the profile of the authenticated user.
    pub fn me(&self) -> (r: Result<Request, ClientError>)
        ensures
            self.get_outcome(r, "/me"@, seq![]),
    {
        self.get("/me", None)
    }

    /// The request for chart data, filtered by kind and genre where given.
    pub fn charts(&self, kind: Option<&str>, genre: Option<&str>) -> (r: Result<Request, ClientError>)
        ensures
            self.get_outcome(r, "/charts"@, chart_params(opt_str_view(kind), opt_str_view(genre))),
            r matches Ok(q) ==> q.url@.2.contains(("client_id"@, self.client_id_view())),
            r matches Ok(q) ==> (kind matches Some(k) ==> q.url@.2.contains(("kind"@, k@))),
            r matches Ok(q) ==> (genre matches Some(g) ==> q.url@.2.contains(("genre"@, g@))),
    {
        let mut params: Vec<(String, String)> = Vec::new();
        match kind {
            Some(k) => params.push((String::from_str("kind"), String::from_str(k))),
            None => {},
        }
        match genre {
            Some(g) => params.push((String::from_str("genre"), String::from_str(g))),
            None => {},
        }
        proof {
            assert(pairs_view(params@) =~= chart_params(opt_str_view(kind), opt_str_view(genre)));
        }
        let r = self.get("/charts", Some(params));
        proof {
            chart_params_name_each_filter(opt_str_view(kind), opt_str_view(genre));
            if r is Ok {
                get_adds_client_id(*self, r, "/charts"@, chart_params(opt_str_view(kind), opt_str_view(genre)));
                let c = chart_params(opt_str_view(kind), opt_str_view(genre));
                if let Some(k) = kind {
                    let i = choose|i: int| 0 <= i < c.len() && c[i] == ("kind"@, k@);
                    assert(r->Ok_0.url@.2.contains(c[i]));
                }
                if let Some(g) = genre {
                    let i = choose|i: int| 0 <= i < c.len() && c[i] == ("genre"@, g@);
                    assert(r->Ok_0.url@.2.contains(c[i]));
                }
            }
        }
        r
    }

    /// The request for trending tracks, of one genre where given.
    pub fn trending(&self, genre: Option<&str>) -> (r: Result<Request, ClientError>)
        ensures
            self.get_outcome(
                r,
                "/trending"@,
                match genre {
                    Some(g) => seq![("genre"@, g@)],
                    None => seq![],
                },
            ),
    {
        match genre {
            Some(g) => self.get("/trending", Some(one_param("genre", g))),
            None => self.get("/trending", None),
        }
    }

    /// The request for track recommendations for the authenticated user.
    pub fn recommendations(&self) -> (r: Result<Request, ClientError>)
        ensures
            self.get_outcome(r, "/me/recommendations"@, seq![]),
    {
        self.get("/me/recommendations", None)
    }

    /// The request for the insights of the authenticated user's tracks.
    pub fn track_insights(&self) -> (r: Result<Request, ClientError>)
        ensures
            self.get_outcome(r, "/me/insights/tracks"@, seq![]),
    {
        self.get("/me/insights/tracks", None)
    }

    /// The request for the insight of one track of the authenticated user.
    pub fn track_insight(&self, track_urn: &str) -> (r: Result<Request, ClientError>)
        ensures
            self.get_outcome(r, "/me/insights/tracks/"@ + track_urn@, seq![]),
    {
        self.get(concat_str("/me/insights/tracks/", track_urn).as_str(), None)
    }

    /// The request that asks whether the authenticated user follows a user;
    /// `not_following` reads a failed answer.
    pub fn follows_user(&self, user_urn: &str) -> (r: Result<Request, ClientError>)
        ensures
            self.get_outcome(r, "/me/followings/"@ + user_urn@, seq![]),
    {
        self.get(concat_str("/me/followings/", user_urn).as_str(), None)
    }

    /// The request for a playlist, which adding or removing tracks reads first.
    pub fn playlist_request(&self, playlist_urn: &str) -> (r: Result<Request, ClientError>)
        ensures
            self.get_outcome(r, "/playlists/"@ + playlist_urn@, seq![]),
    {
        self.get(concat_str("/playlists/", playlist_urn).as_str(), None)
    }

    /// The request that sets a playlist's tracks to the current ones followed
    /// by each of `track_urns` that is not among them yet. A current track
    /// without a URN cannot be named in the list, so a playlist holding one is
    /// refused rather than losing that track.
    pub fn add_tracks_to_playlist(
        &self,
        playlist_urn: &str,
        current: &Playlist,
        track_urns: &[&str],
    ) -> (r: Result<Request, ClientError>)
        ensures
            !all_have_urns(current.tracks) ==> (r matches Err(ClientError::ApiError(m)) && m@
                == "playlist holds a track without a URN"@),
            all_have_urns(current.tracks) ==> self.id_outcome(r, Method::Put, "/playlists/"@ + playlist_urn@, true),
            r matches Ok(q) ==> q.body matches Body::PlaylistTracks(t) && owned_view(t@) == merge_urns(
                playlist_urns(current.tracks),
                strs_view(track_urns@),
            ),
            r matches Ok(q) ==> q.body matches Body::PlaylistTracks(t) && is_merge_of(
                playlist_urns(current.tracks),
                strs_view(track_urns@),
                owned_view(t@),
            ),
            current.tracks is Some ==> (r matches Ok(q) ==> q.body matches Body::PlaylistTracks(t) && forall|i: int|
                0 <= i < current.tracks.unwrap()@.len() ==> #[trigger] owned_view(t@)[i]
                    == current.tracks.unwrap()@[i].urn.unwrap()@),
    {
        if !tracks_have_urns(&current.tracks) {
            return Err(ClientError::ApiError(String::from_str("playlist holds a track without a URN")));
        }
        proof {
            merge_keeps_existing(playlist_urns(current.tracks), strs_view(track_urns@));
            if let Some(c) = &current.tracks {
                lemma_urns_of_named_tracks(c@);
                let m = merge_urns(playlist_urns(current.tracks), strs_view(track_urns@));
                assert forall|i: int| 0 <= i < c@.len() implies #[trigger] m[i] == c@[i].urn.unwrap()@ by {
                    assert(m.take(c@.len() as int)[i] == m[i]);
                }
            }
        }
        let urns = merged_urns(&current.tracks, track_urns);
        self.with_client_id(
            Method::Put,
            concat_str("/playlists/", playlist_urn).as_str(),
            true,
            Body::PlaylistTracks(urns),
        )
    }

    /// The request that sets a playlist's tracks to the current ones without
    /// any of `track_urns`. A current track without a URN cannot be named in
    /// the list, so a playlist holding one is refused rather than losing it.
    pub fn remove_tracks_from_playlist(
        &self,
        playlist_urn: &str,
        current: &Playlist,
        track_urns: &[&str],
    ) -> (r: Result<Request, ClientError>)
        ensures
            !all_have_urns(current.tracks) ==> (r matches Err(ClientError::ApiError(m)) && m@
                == "playlist holds a track without a URN"@),
            all_have_urns(current.tracks) ==> self.id_outcome(r, Method::Put, "/playlists/"@ + playlist_urn@, true),
            r matches Ok(q) ==> q.body matches Body::PlaylistTracks(t) && owned_view(t@) == keep_urns(
                playlist_urns(current.tracks),
                strs_view(track_urns@),
            ),
            r matches Ok(q) ==> q.body matches Body::PlaylistTracks(t) && owned_view(t@) == playlist_urns(
                current.tracks,
            ).filter(kept_by(strs_view(track_urns@))),
    {
        if !tracks_have_urns(&current.tracks) {
            return Err(ClientError::ApiError(String::from_str("playlist holds a track without a URN")));
        }
        let urns = kept_urns(&current.tracks, track_urns);
        self.with_client_id(
            Method::Put,
            concat_str("/playlists/", playlist_urn).as_str(),
            true,
            Body::PlaylistTracks(urns),
        )
    }

    /// The request that sets a playlist's tracks to `track_urns`, in that order.
    pub fn reorder_playlist_tracks(&self, playlist_urn: &str, track_urns: &[&str]) -> (r: Result<Request, ClientError>)
        ensures
            self.id_outcome(r, Method::Put, "/playlists/"@ + playlist_urn@, true),
            r matches Ok(q) ==> q.body matches Body::PlaylistTracks(t) && owned_view(t@) == strs_view(track_urns@),
    {
        let urns = to_strings(track_urns);
        self.with_client_id(
            Method::Put,
            concat_str("/playlists/", playlist_urn).as_str(),
            true,
            Body::PlaylistTracks(urns),
        )
    }
}

/// A page request never names the client id twice: where the link already
/// names one, the request goes to the link as it parses; either way its
/// query names the client id.
pub proof fn page_request_names_client_id_once(c: Client, r: Option<Request>, url: Seq<char>)
    requires
        c.page_outcome(r, url),
        r is Some,
    ensures
        has_client_id(r->Some_0.url@.2),
        has_client_id(url_parsed(url).unwrap().2) ==> r->Some_0.url@ == url_parsed(url).unwrap(),
        exists|j: int| 0 <= j < r->Some_0.url@.2.len() && (#[trigger] r->Some_0.url@.2[j]).0 == "client_id"@,
        forall|i: int|
            0 <= i < url_parsed(url).unwrap().2.len() && (#[trigger] url_parsed(url).unwrap().2[i]).0 == "client_id"@
                ==> r->Some_0.url@ == url_parsed(url).unwrap(),
        (forall|i: int|
            0 <= i < url_parsed(url).unwrap().2.len() ==> (#[trigger] url_parsed(url).unwrap().2[i]).0
                != "client_id"@) ==> r->Some_0.url@.2 == url_parsed(url).unwrap().2 + seq![
            ("client_id"@, c.client_id_view()),
        ],
{
    let u = url_parsed(url).unwrap();
    let q = r->Some_0.url@.2;
    let j = choose|j: int| 0 <= j < q.len() && #[trigger] q[j].0 == "client_id"@;
    assert(q[j].0 == "client_id"@);
    if forall|i: int| 0 <= i < u.2.len() ==> (#[trigger] u.2[i]).0 != "client_id"@ {
        assert(!has_client_id(u.2));
    }
}

} // verus!
