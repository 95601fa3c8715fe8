//! Artists, as albums list them.

use vstd::prelude::*;

verus! {

/// An artist credited on an album.
#[derive(Clone, Debug)]
pub struct ArtistID3 {
    pub id: String,
    pub name: String,
    pub cover_art: Option<String>,
    pub artist_image_url: Option<String>,
    pub album_count: Option<u64>,
    pub starred: Option<String>,
    pub music_brainz_id: Option<String>,
    pub sort_name: Option<String>,
    pub roles: Option<Vec<String>>,
}

} // verus!
