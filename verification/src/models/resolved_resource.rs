use vstd::prelude::*;

use super::{Playlist, Track, User};

verus! {

/// The resource that a SoundCloud URL resolves to.
#[derive(Debug, Clone)]
pub enum ResolvedResource {
    Track(Box<Track>),
    User(Box<User>),
    Playlist(Box<Playlist>),
}

} // verus!
