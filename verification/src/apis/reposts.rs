use vstd::prelude::*;

use crate::client::{concat_str, Client, Method, Request};
use crate::endpoints::{get_names_limit, limit_param, limit_params};
use crate::text::decimal;
use crate::error::ClientError;

verus! {

/// The reposts of one user.
pub struct UserReposts<'a> {
    client: &'a Client,
    user_urn: String,
}

impl<'a> UserReposts<'a> {
    /// The client that sends the calls.
    pub closed spec fn client(&self) -> Client {
        *self.client
    }

    /// The URN of the user.
    pub closed spec fn user_urn_view(&self) -> Seq<char> {
        self.user_urn@
    }

    /// The reposts of the user with this URN.
    pub fn new(client: &'a Client, user_urn: &str) -> (r: Self)
        ensures
            r.client() == *client,
            r.user_urn_view() == user_urn@,
    {
        UserReposts { client, user_urn: String::from_str(user_urn) }
    }

    /// The request for the tracks the user reposted, at most `limit` where given.
    pub fn tracks(&self, limit: Option<u64>) -> (r: Result<Request, ClientError>)
        ensures
            self.client().get_outcome(r, "/users/"@ + self.user_urn_view() + "/reposts/tracks"@, limit_params(limit)),
            r matches Ok(q) ==> q.url@.2.contains(("client_id"@, self.client().client_id_view())),
            r matches Ok(q) ==> (limit matches Some(l) ==> q.url@.2.contains(("limit"@, decimal(l as nat)))),
    {
        let mut path = concat_str("/users/", self.user_urn.as_str());
        path.append("/reposts/tracks");
        let r = self.client.get(path.as_str(), limit_param(limit));
        proof {
            get_names_limit(*self.client, r, "/users/"@ + self.user_urn_view() + "/reposts/tracks"@, limit);
        }
        r
    }

    /// The request for the playlists the user reposted, at most `limit` where given.
    pub fn playlists(&self, limit: Option<u64>) -> (r: Result<Request, ClientError>)
        ensures
            self.client().get_outcome(
                r,
                "/users/"@ + self.user_urn_view() + "/reposts/playlists"@,
                limit_params(limit),
            ),
            r matches Ok(q) ==> q.url@.2.contains(("client_id"@, self.client().client_id_view())),
            r matches Ok(q) ==> (limit matches Some(l) ==> q.url@.2.contains(("limit"@, decimal(l as nat)))),
    {
        let mut path = concat_str("/users/", self.user_urn.as_str());
        path.append("/reposts/playlists");
        let r = self.client.get(path.as_str(), limit_param(limit));
        proof {
            get_names_limit(*self.client, r, "/users/"@ + self.user_urn_view() + "/reposts/playlists"@, limit);
        }
        r
    }
}

/// The reposts of the authenticated user.
pub struct MyReposts<'a> {
    client: &'a Client,
}

impl<'a> MyReposts<'a> {
    /// The client that sends the calls.
    pub closed spec fn client(&self) -> Client {
        *self.client
    }

    /// The reposts of the user that `client` is authenticated as.
    pub fn new(client: &'a Client) -> (r: Self)
        ensures
            r.client() == *client,
    {
        MyReposts { client }
    }

    /// The request for the tracks the user reposted, at most `limit` where given.
    pub fn tracks(&self, limit: Option<u64>) -> (r: Result<Request, ClientError>)
        ensures
            self.client().get_outcome(r, "/me/reposts/tracks"@, limit_params(limit)),
            r matches Ok(q) ==> q.url@.2.contains(("client_id"@, self.client().client_id_view())),
            r matches Ok(q) ==> (limit matches Some(l) ==> q.url@.2.contains(("limit"@, decimal(l as nat)))),
    {
        let r = self.client.get("/me/reposts/tracks", limit_param(limit));
        proof {
            get_names_limit(*self.client, r, "/me/reposts/tracks"@, limit);
        }
        r
    }

    /// The request for the playlists the user reposted, at most `limit` where given.
    pub fn playlists(&self, limit: Option<u64>) -> (r: Result<Request, ClientError>)
        ensures
            self.client().get_outcome(r, "/me/reposts/playlists"@, limit_params(limit)),
            r matches Ok(q) ==> q.url@.2.contains(("client_id"@, self.client().client_id_view())),
            r matches Ok(q) ==> (limit matches Some(l) ==> q.url@.2.contains(("limit"@, decimal(l as nat)))),
    {
        let r = self.client.get("/me/reposts/playlists", limit_param(limit));
        proof {
            get_names_limit(*self.client, r, "/me/reposts/playlists"@, limit);
        }
        r
    }

    /// The request that reposts a track.
    pub fn repost_track(&self, track_urn: &str) -> (r: Result<Request, ClientError>)
        ensures
            self.client().bare_outcome(r, Method::Post, "/reposts/tracks/"@ + track_urn@),
    {
        self.client.post(concat_str("/reposts/tracks/", track_urn).as_str())
    }

    /// The request that removes the repost of a track.
    pub fn remove_repost_track(&self, track_urn: &str) -> (r: Result<Request, ClientError>)
        ensures
            self.client().bare_outcome(r, Method::Delete, "/reposts/tracks/"@ + track_urn@),
    {
        self.client.delete(concat_str("/reposts/tracks/", track_urn).as_str())
    }

    /// The request that reposts a playlist.
    pub fn repost_playlist(&self, playlist_urn: &str) -> (r: Result<Request, ClientError>)
        ensures
            self.client().bare_outcome(r, Method::Post, "/reposts/playlists/"@ + playlist_urn@),
    {
        self.client.post(concat_str("/reposts/playlists/", playlist_urn).as_str())
    }

    /// The request that removes the repost of a playlist.
    pub fn remove_repost_playlist(&self, playlist_urn: &str) -> (r: Result<Request, ClientError>)
        ensures
            self.client().bare_outcome(r, Method::Delete, "/reposts/playlists/"@ + playlist_urn@),
    {
        self.client.delete(concat_str("/reposts/playlists/", playlist_urn).as_str())
    }
}

impl Client {
    /// The reposts of the authenticated user.
    pub fn my_reposts(&self) -> (r: MyReposts<'_>)
        ensures
            r.client() == *self,
    {
        MyReposts::new(self)
    }

    /// The reposts of the user with this URN.
    pub fn user_reposts(&self, user_urn: &str) -> (r: UserReposts<'_>)
        ensures
            r.client() == *self,
            r.user_urn_view() == user_urn@,
    {
        UserReposts::new(self, user_urn)
    }
}

} // verus!
