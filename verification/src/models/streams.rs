use vstd::prelude::*;

verus! {

/// The stream URLs of a track.
#[derive(Debug, Clone)]
pub struct TrackStreams {
    pub hls_aac_160_url: Option<String>,
    pub hls_aac_96_url: Option<String>,
    pub preview_mp3_128_url: Option<String>,
    pub http_mp3_128_url: Option<String>,
    pub hls_mp3_128_url: Option<String>,
    pub hls_opus_64_url: Option<String>,
}

} // verus!
