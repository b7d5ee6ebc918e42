use vstd::prelude::*;

use super::{App, User};
use vstd::std_specs::cmp::PartialEqSpec;

verus! {

/// A track.
#[derive(Debug, Clone)]
pub struct Track {
    pub id: u64,
    pub urn: Option<String>,
    pub created_at: String,
    pub user: User,
    pub title: String,
    pub permalink_url: String,
    pub uri: String,
    pub sharing: String,
    pub purchase_url: Option<String>,
    pub artwork_url: Option<String>,
    pub description: Option<String>,
    pub duration: u64,
    pub genre: Option<String>,
    pub tags: Option<String>,
    pub label_name: Option<String>,
    pub release: Option<String>,
    pub release_day: Option<u64>,
    pub release_month: Option<u64>,
    pub release_year: Option<u64>,
    pub streamable: bool,
    pub downloadable: bool,
    pub purchase_title: Option<String>,
    pub license: String,
    pub waveform_url: String,
    pub download_url: Option<String>,
    pub stream_url: Option<String>,
    pub bpm: Option<u64>,
    pub commentable: bool,
    pub isrc: Option<String>,
    pub key_signature: Option<String>,
    pub comment_count: Option<u64>,
    pub download_count: Option<u64>,
    pub playback_count: Option<u64>,
    pub favoritings_count: Option<u64>,
    pub created_with: Option<App>,
    pub asset_data: Option<Vec<u8>>,
    pub artwork_data: Option<Vec<u8>>,
    pub user_favorite: Option<bool>,
    pub reveal_stats: Option<bool>,
    pub reveal_comments: Option<bool>,
    pub access: Option<String>,
}

/// Two tracks are the same track when their ids are equal; no other field counts.
impl PartialEq for Track {
    fn eq(&self, other: &Track) -> (r: bool) {
        other.id == self.id
    }
}

impl vstd::std_specs::cmp::PartialEqSpecImpl for Track {
    open spec fn obeys_eq_spec() -> bool {
        true
    }

    open spec fn eq_spec(&self, other: &Track) -> bool {
        self.id == other.id
    }
}

/// Track equality is an equivalence: reflexive, symmetric and transitive,
/// because it compares the ids alone.
pub proof fn track_eq_is_equivalence(a: Track, b: Track, c: Track)
    ensures
        a.eq_spec(&a),
        a.eq_spec(&b) == b.eq_spec(&a),
        a.eq_spec(&b) && b.eq_spec(&c) ==> a.eq_spec(&c),
        a.eq_spec(&b) <==> a.id == b.id,
{
}

} // verus!
