//! Albums, as `getAlbum` and `getAlbumList` return them.

use vstd::prelude::*;

use super::{ArtistID3, ItemDate, ItemGenre, RecordLabel, SongEntry};

verus! {

/// A genre name.
pub type Genre = String;

/// An album with its metadata and, from `getAlbum`, its songs.
#[derive(Clone, Debug)]
pub struct AlbumID3 {
    pub id: String,
    pub name: String,
    pub version: Option<String>,
    pub artist: Option<String>,
    pub artist_id: Option<String>,
    pub cover_art: Option<String>,
    pub song_count: u64,
    pub duration: u64,
    pub play_count: Option<u64>,
    pub created: String,
    pub starred: Option<String>,
    pub year: Option<u64>,
    pub genre: Option<Genre>,
    pub played: String,
    pub user_rating: Option<u8>,
    pub record_labels: Option<Vec<RecordLabel>>,
    pub music_brainz_id: String,
    pub genres: Vec<ItemGenre>,
    pub artists: Vec<ArtistID3>,
    pub display_artist: String,
    pub release_types: Option<Vec<String>>,
    pub moods: Vec<String>,
    pub sort_name: String,
    pub original_release_date: Option<ItemDate>,
    pub release_date: Option<ItemDate>,
    pub is_compilation: Option<bool>,
    pub explicit_status: String,
    pub disc_titles: Option<Vec<DiscTitle>>,
    pub song: Option<Vec<SongEntry>>,
}

/// The title of one disc of an album.
#[derive(Clone, Debug)]
pub struct DiscTitle {
    pub disc: u64,
    pub title: String,
    pub cover_art: String,
}

/// The `albumList` object of a `getAlbumList` reply.
#[derive(Clone, Debug)]
pub struct InnerAlbumListResponse {
    pub album: Vec<AlbumID3>,
}

/// The body of a `getAlbumList` reply.
#[derive(Clone, Debug)]
pub struct AlbumListResponse {
    pub album_list: InnerAlbumListResponse,
}

/// The body of a `getAlbum` reply.
#[derive(Clone, Debug)]
pub struct AlbumResponse {
    pub album: AlbumID3,
}

} // verus!
