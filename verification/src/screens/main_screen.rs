//! The main screen: the list of albums, or one album.

use vstd::prelude::*;
use vstd::string::*;

use crate::app_state::AppState;
use crate::lists::{album_list_url, album_list_url_spec, try_album_list_url};
use crate::models::{AlbumID3, AlbumListResponse, SubsonicResponse};
use crate::screens::album_screen::{shows_album, AlbumScreen, AlbumView};
use crate::subsonic::opt_text;

verus! {

/// What the main screen shows.
pub enum MainRoute {
    /// The list of albums.
    AlbumList,
    /// One album.
    Album(AlbumScreen),
}

/// The main screen: the albums once the server has sent them, and what is
/// shown.
pub struct MainScreen {
    pub albums: Option<Vec<AlbumID3>>,
    pub route: MainRoute,
}

/// The id and name of each album, in order.
pub open spec fn album_entries_spec(albums: Seq<AlbumID3>) -> Seq<(Seq<char>, Seq<char>)> {
    albums.map_values(|a: AlbumID3| (a.id@, a.name@))
}

/// What the main screen shows: the album list (nothing before the albums
/// are loaded, then the id and name of each album), or one album screen.
pub enum MainView {
    AlbumList(Option<Vec<(String, String)>>),
    Album(Option<AlbumView>),
}

/// `entries` is what the album list shows of `albums`.
pub open spec fn shows_entries(
    entries: Option<Vec<(String, String)>>,
    albums: Option<Vec<AlbumID3>>,
) -> bool {
    match albums {
        None => entries is None,
        Some(a) => entries matches Some(e) && e@.map_values(|p: (String, String)| (p.0@, p.1@))
            == album_entries_spec(a@),
    }
}

/// Each entry of the album list is the id and the name of the album at the
/// same position, and there is one entry per album.
pub proof fn lemma_album_entries(albums: Seq<AlbumID3>)
    ensures
        album_entries_spec(albums).len() == albums.len(),
        forall|k: int|
            0 <= k < albums.len() ==> #[trigger] album_entries_spec(albums)[k] == (
                albums[k].id@,
                albums[k].name@,
            ),
{
}

/// The list type that the main screen asks for.
pub open spec fn main_list_type() -> Seq<char> {
    "recent"@
}

impl MainScreen {
    /// The main screen before the server has sent the albums: it shows the
    /// (empty) album list.
    pub fn new() -> (screen: MainScreen)
        ensures
            screen.albums is None,
            screen.route is AlbumList,
    {
        MainScreen { albums: None, route: MainRoute::AlbumList }
    }

    /// The album list that the main screen asks the server for.
    pub fn list_type() -> (t: String)
        ensures
            t@ == main_list_type(),
            t@ == "recent"@,
    {
        String::from_str("recent")
    }

    /// The request that the main screen makes when it opens: the `recent`
    /// album list, with the server and credentials in use, for a server
    /// address that parses as a URL.
    pub fn album_list_request(state: &AppState) -> (url: String)
        requires
            state.credentials is Some,
            album_list_url_spec(state@.base_url, state@.credentials->0, main_list_type()) is Some,
        ensures
            Some(url@) == album_list_url_spec(
                state@.base_url,
                state@.credentials->0,
                main_list_type(),
            ),
    {
        let list_type = Self::list_type();
        match &state.credentials {
            Some(c) => album_list_url(state.base_url.as_str(), c, list_type.as_str()),
            None => String::new(),
        }
    }

    /// The request that the main screen makes when it opens, or `None` where
    /// the server address in use is no valid URL.
    pub fn try_album_list_request(state: &AppState) -> (url: Option<String>)
        requires
            state.credentials is Some,
        ensures
            opt_text(url) == album_list_url_spec(
                state@.base_url,
                state@.credentials->0,
                main_list_type(),
            ),
    {
        let list_type = Self::list_type();
        match &state.credentials {
            Some(c) => match try_album_list_url(state.base_url.as_str(), c, list_type.as_str()) {
                Some(_) => Some(Self::album_list_request(state)),
                None => None,
            },
            None => None,
        }
    }

    /// What the screen shows: the album list while the route is the list,
    /// else the album screen of the route.
    pub fn view(&self) -> (shown: MainView)
        ensures
            match self.route {
                MainRoute::AlbumList => shown matches MainView::AlbumList(e) && shows_entries(
                    e,
                    self.albums,
                ),
                MainRoute::Album(s) => shown matches MainView::Album(v) && shows_album(v, s.album),
            },
    {
        match &self.route {
            MainRoute::AlbumList => MainView::AlbumList(self.album_entries()),
            MainRoute::Album(s) => MainView::Album(s.view()),
        }
    }

    /// Takes the albums from the server's `getAlbumList` reply; what is shown
    /// stays as it is.
    pub fn on_albums_loaded(&mut self, response: SubsonicResponse<AlbumListResponse>)
        ensures
            final(self).albums == Some(response.inner_subsonic_response.body.album_list.album),
            final(self).route == old(self).route,
    {
        self.albums = Some(response.inner_subsonic_response.body.album_list.album);
    }

    /// A click on the album `album_id`: the screen shows that album, which
    /// is still to be fetched; the album list is kept.
    pub fn on_album_click(&mut self, album_id: String)
        ensures
            final(self).route matches MainRoute::Album(s) && s.album_id@ == album_id@ && s.album is None,
            final(self).albums == old(self).albums,
    {
        self.route = MainRoute::Album(AlbumScreen::new(album_id));
    }

    /// What the album list shows: nothing before the albums are loaded, then
    /// the id and name of each album, in order.
    pub fn album_entries(&self) -> (entries: Option<Vec<(String, String)>>)
        ensures
            shows_entries(entries, self.albums),
            self.albums is None ==> entries is None,
            self.albums matches Some(albums) ==> entries matches Some(e) && e.len() == albums.len()
                && forall|k: int|
                0 <= k < e.len() ==> #[trigger] e@[k].0@ == albums@[k].id@ && e@[k].1@
                    == albums@[k].name@,
    {
        match &self.albums {
            None => None,
            Some(albums) => {
                let mut entries: Vec<(String, String)> = Vec::new();
                let mut i: usize = 0;
                while i < albums.len()
                    invariant
                        i <= albums.len(),
                        entries.len() == i,
                        forall|k: int|
                            0 <= k < i ==> #[trigger] entries@[k].0@ == albums@[k].id@
                                && entries@[k].1@ == albums@[k].name@,
                    decreases albums.len() - i,
                {
                    entries.push((albums[i].id.clone(), albums[i].name.clone()));
                    i = i + 1;
                }
                assert(entries@.map_values(|p: (String, String)| (p.0@, p.1@))
                    =~= album_entries_spec(albums@));
                Some(entries)
            },
        }
    }
}

} // verus!
