use vstd::prelude::*;

use super::{Track, User};

verus! {

/// A playlist (a set) of tracks.
#[derive(Debug, Clone)]
pub struct Playlist {
    pub id: u64,
    pub urn: Option<String>,
    pub title: Option<String>,
    pub uri: Option<String>,
    pub permalink_url: Option<String>,
    pub user: Option<User>,
    pub track_count: Option<u64>,
    pub tracks: Option<Vec<Track>>,
}

} // verus!
