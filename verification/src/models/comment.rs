use vstd::prelude::*;

use super::User;

verus! {

/// A comment on a track.
#[derive(Debug, Clone)]
pub struct Comment {
    pub id: usize,
    pub urn: Option<String>,
    pub uri: String,
    pub created_at: String,
    pub body: String,
    pub timestamp: Option<usize>,
    pub user_id: usize,
    pub user: User,
    pub track_id: usize,
}

} // verus!
