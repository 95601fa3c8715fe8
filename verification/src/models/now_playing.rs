//! What the server's users are listening to.

use vstd::prelude::*;

verus! {

/// One song that one player is playing.
#[derive(Clone, Debug)]
pub struct NowPlayingEntry {
    pub id: String,
    pub title: String,
    pub artist: String,
    pub album: String,
    pub album_id: String,
    pub cover_art: String,
    pub duration: u64,
    pub play_count: u64,
    pub created: String,
    pub starred: Option<String>,
    pub year: Option<u64>,
    pub genre: Option<String>,
    pub size: u64,
    pub content_type: String,
    pub suffix: String,
    pub path: String,
    pub played: String,
    pub username: String,
    pub minutes_ago: u64,
    pub player_name: String,
}

/// The `nowPlaying` object of a `getNowPlaying` reply.
#[derive(Clone, Debug)]
pub struct InnerNowPlayingResponse {
    pub entry: Vec<NowPlayingEntry>,
}

/// The body of a `getNowPlaying` reply.
#[derive(Clone, Debug)]
pub struct NowPlayingResponse {
    pub now_playing: InnerNowPlayingResponse,
}

} // verus!
