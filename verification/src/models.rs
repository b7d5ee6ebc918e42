//! The resources that the API returns.
mod app;
mod comment;
mod insight;
mod playlist;
mod resolved_resource;
mod streams;
mod track;
mod user;

pub use app::App;
pub use comment::Comment;
pub use insight::TrackInsight;
pub use playlist::Playlist;
pub use resolved_resource::ResolvedResource;
pub use streams::TrackStreams;
pub use track::{track_eq_is_equivalence, Track};
pub use user::User;
