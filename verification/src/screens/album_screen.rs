//! The screen of one album.

use vstd::prelude::*;
use vstd::string::*;

use crate::app_state::AppState;
use crate::browsing::{album_info_url, album_info_url_spec, try_album_info_url};
use crate::models::{AlbumID3, AlbumResponse, SongEntry, SubsonicResponse};
use crate::subsonic::opt_text;

verus! {

/// One album: which one, and the album once the server has sent it.
pub struct AlbumScreen {
    pub album_id: String,
    pub album: Option<AlbumID3>,
}

/// What the album screen shows of a loaded album: its name, its artist
/// (empty where unknown) and the titles of its songs (none where the server
/// listed no songs).
pub struct AlbumView {
    pub name: String,
    pub artist: String,
    pub songs: Vec<String>,
}

/// The artist line of an album.
pub open spec fn artist_line(album: AlbumID3) -> Seq<char> {
    match album.artist {
        Some(a) => a@,
        None => Seq::empty(),
    }
}

/// The song titles of an album.
pub open spec fn song_titles(album: AlbumID3) -> Seq<Seq<char>> {
    match album.song {
        Some(songs) => songs@.map_values(|s: SongEntry| s.title@),
        None => Seq::empty(),
    }
}

/// `shown` is what the album screen shows of `album`: nothing before it is
/// loaded, then its name, artist line and song titles.
pub open spec fn shows_album(shown: Option<AlbumView>, album: Option<AlbumID3>) -> bool {
    match album {
        None => shown is None,
        Some(a) => shown matches Some(v) && {
            &&& v.name@ == a.name@
            &&& v.artist@ == artist_line(a)
            &&& v.songs@.map_values(|t: String| t@) == song_titles(a)
        },
    }
}

/// The song titles shown for an album are the titles of its songs, one per
/// song, in order; an album without a song list shows none.
pub proof fn lemma_song_titles(album: AlbumID3)
    ensures
        album.song matches Some(songs) ==> song_titles(album).len() == songs.len() && forall|k: int|
            0 <= k < songs.len() ==> #[trigger] song_titles(album)[k] == songs@[k].title@,
        album.song is None ==> song_titles(album).len() == 0,
        artist_line(album) == (if album.artist is Some { album.artist->0@ } else { Seq::<char>::empty() }),
{
}

/// The titles of `songs`, in order.
fn titles_of(songs: &Vec<SongEntry>) -> (titles: Vec<String>)
    ensures
        titles@.map_values(|t: String| t@) == songs@.map_values(|s: SongEntry| s.title@),
        titles.len() == songs.len(),
        forall|k: int| 0 <= k < songs.len() ==> #[trigger] titles@[k]@ == songs@[k].title@,
{
    let mut titles: Vec<String> = Vec::new();
    let mut i: usize = 0;
    while i < songs.len()
        invariant
            i <= songs.len(),
            titles.len() == i,
            forall|k: int| 0 <= k < i ==> #[trigger] titles@[k]@ == songs@[k].title@,
        decreases songs.len() - i,
    {
        titles.push(songs[i].title.clone());
        i = i + 1;
    }
    assert(titles@.map_values(|t: String| t@) =~= songs@.map_values(|s: SongEntry| s.title@));
    titles
}

impl AlbumScreen {
    /// The screen of the album `album_id`, before the server has sent it.
    pub fn new(album_id: String) -> (screen: AlbumScreen)
        ensures
            screen.album_id@ == album_id@,
            screen.album is None,
    {
        AlbumScreen { album_id, album: None }
    }

    /// The request that the screen makes when it opens: the `getAlbum`
    /// request for its album, with the server and credentials in use, for a
    /// server address that parses as a URL.
    pub fn album_request(&self, state: &AppState) -> (url: String)
        requires
            state.credentials is Some,
            album_info_url_spec(state@.base_url, state@.credentials->0, self.album_id@) is Some,
        ensures
            Some(url@) == album_info_url_spec(
                state@.base_url,
                state@.credentials->0,
                self.album_id@,
            ),
    {
        match &state.credentials {
            Some(c) => album_info_url(state.base_url.as_str(), c, self.album_id.as_str()),
            None => String::new(),
        }
    }

    /// The request that the screen makes when it opens, or `None` where the
    /// server address in use is no valid URL.
    pub fn try_album_request(&self, state: &AppState) -> (url: Option<String>)
        requires
            state.credentials is Some,
        ensures
            opt_text(url) == album_info_url_spec(
                state@.base_url,
                state@.credentials->0,
                self.album_id@,
            ),
    {
        match &state.credentials {
            Some(c) => match try_album_info_url(state.base_url.as_str(), c, self.album_id.as_str()) {
                Some(_) => Some(self.album_request(state)),
                None => None,
            },
            None => None,
        }
    }

    /// Takes the album from the server's `getAlbum` reply.
    pub fn on_album_loaded(&mut self, response: SubsonicResponse<AlbumResponse>)
        ensures
            final(self).album == Some(response.inner_subsonic_response.body.album),
            final(self).album_id == old(self).album_id,
    {
        self.album = Some(response.inner_subsonic_response.body.album);
    }

    /// What the screen shows: nothing before the album is loaded, then its
    /// name, artist and song titles.
    pub fn view(&self) -> (shown: Option<AlbumView>)
        ensures
            shows_album(shown, self.album),
            self.album is None ==> shown is None,
            self.album matches Some(a) ==> shown matches Some(v) && v.name@ == a.name@
                && v.artist@ == (if a.artist is Some { a.artist->0@ } else { Seq::<char>::empty() }),
            self.album matches Some(a) ==> shown matches Some(v) && (a.song matches Some(songs)
                ==> v.songs.len() == songs.len() && forall|k: int|
                0 <= k < songs.len() ==> #[trigger] v.songs@[k]@ == songs@[k].title@),
            self.album matches Some(a) ==> shown matches Some(v) && (a.song is None ==> v.songs.len()
                == 0),
    {
        match &self.album {
            None => None,
            Some(album) => {
                let artist = match &album.artist {
                    Some(a) => a.clone(),
                    None => String::new(),
                };
                let songs = match &album.song {
                    Some(songs) => titles_of(songs),
                    None => Vec::new(),
                };
                proof {
                    if album.song is None {
                        assert(songs@.map_values(|t: String| t@) =~= Seq::<Seq<char>>::empty());
                    }
                }
                Some(AlbumView { name: album.name.clone(), artist, songs })
            },
        }
    }
}

} // verus!
