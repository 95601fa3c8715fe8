//! The records that a Subsonic server sends back, as plain values.

pub mod album;
pub mod artist;
pub mod auth;
pub mod now_playing;
pub mod song;

pub use album::{AlbumID3, AlbumListResponse, AlbumResponse, DiscTitle, Genre, InnerAlbumListResponse};
pub use artist::ArtistID3;
pub use auth::NavidromeLoginResponse;
pub use now_playing::{InnerNowPlayingResponse, NowPlayingEntry, NowPlayingResponse};
pub use song::SongEntry;

use vstd::prelude::*;

verus! {

/// The envelope around every Subsonic reply: `{"subsonic-response": ...}`.
#[derive(Clone, Debug)]
pub struct SubsonicResponse<T> {
    pub inner_subsonic_response: InnerSubsonicResponse<T>,
}

/// The common header of a Subsonic reply, with the endpoint's own body
/// flattened beside it.
#[derive(Clone, Debug)]
pub struct InnerSubsonicResponse<T> {
    pub status: SubsonicResponseStatus,
    pub version: String,
    pub _type: String,
    pub server_version: String,
    pub open_subsonic: bool,
    pub body: T,
}

/// Whether the server handled the request (`"ok"`) or not (`"failed"`).
#[derive(Clone, Copy, Debug, PartialEq, Eq, Structural)]
pub enum SubsonicResponseStatus {
    OK,
    FAILED,
}

/// A record label; genres use the same shape.
#[derive(Clone, Debug)]
pub struct RecordLabel {
    pub name: String,
}

/// A genre entry of an album: a name, as a record label has.
pub type ItemGenre = RecordLabel;

/// A possibly partial calendar date.
#[derive(Clone, Debug)]
pub struct ItemDate {
    pub year: Option<u64>,
    pub month: Option<u64>,
    pub day: Option<u64>,
}

} // verus!
