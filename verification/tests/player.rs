use nia::app_state::{
    initial_screen, keyring_user, player_event, AppState, MpvEvent, NavTarget, PlayerEvent,
    END_FILE_REASON_STOP,
};
use nia::auth::{credentials_from_login, NavidromeCredentials};
use nia::models::{
    AlbumID3, AlbumListResponse, AlbumResponse, InnerAlbumListResponse, InnerSubsonicResponse,
    NavidromeLoginResponse, SongEntry, SubsonicResponse, SubsonicResponseStatus,
};
use nia::screens::{AlbumScreen, LoginScreen, MainRoute, MainScreen, MainView};

fn creds(server: &str) -> NavidromeCredentials {
    NavidromeCredentials {
        server: server.to_string(),
        username: "alice".to_string(),
        token: "tok".to_string(),
        salt: "salt".to_string(),
    }
}

fn song(title: &str) -> SongEntry {
    SongEntry {
        id: format!("id-{title}"),
        parent: None,
        album: None,
        title: title.to_string(),
        is_dir: false,
        is_video: None,
        cover_art: String::new(),
        created: String::new(),
        duration: 1,
        artist_id: String::new(),
        artist: String::new(),
        year: 2020,
        genre: None,
        bit_rate: 320,
        bit_depth: 16,
        sampling_rate: 44100,
        channel_count: 2,
        track: Some(1),
        size: 10,
        disc_number: None,
        suffix: "mp3".to_string(),
        content_type: "audio/mpeg".to_string(),
        path: String::new(),
    }
}

fn album(id: &str, name: &str, artist: Option<&str>, songs: Option<Vec<SongEntry>>) -> AlbumID3 {
    AlbumID3 {
        id: id.to_string(),
        name: name.to_string(),
        version: None,
        artist: artist.map(|a| a.to_string()),
        artist_id: None,
        cover_art: None,
        song_count: 0,
        duration: 0,
        play_count: None,
        created: String::new(),
        starred: None,
        year: None,
        genre: None,
        played: String::new(),
        user_rating: None,
        record_labels: None,
        music_brainz_id: String::new(),
        genres: vec![],
        artists: vec![],
        display_artist: String::new(),
        release_types: None,
        moods: vec![],
        sort_name: String::new(),
        original_release_date: None,
        release_date: None,
        is_compilation: None,
        explicit_status: String::new(),
        disc_titles: None,
        song: songs,
    }
}

fn envelope<T>(body: T) -> SubsonicResponse<T> {
    SubsonicResponse {
        inner_subsonic_response: InnerSubsonicResponse {
            status: SubsonicResponseStatus::OK,
            version: "1.16.1".to_string(),
            _type: "navidrome".to_string(),
            server_version: "0.55".to_string(),
            open_subsonic: true,
            body,
        },
    }
}

#[test]
fn start_without_credentials_shows_login() {
    let state = AppState::from_loaded(None);
    assert_eq!(state.base_url, "");
    assert!(state.credentials.is_none());
    assert_eq!(initial_screen(&state), NavTarget::Login);
}

#[test]
fn start_with_credentials_shows_main_on_their_server() {
    let state = AppState::from_loaded(Some(creds("http://h")));
    assert_eq!(state.base_url, "http://h");
    assert_eq!(state.credentials.as_ref().unwrap().token, "tok");
    assert_eq!(initial_screen(&state), NavTarget::Main);
}

#[test]
fn login_form_starts_empty() {
    let f = LoginScreen::new();
    assert_eq!(f.server_input.placeholder, "Server");
    assert_eq!(f.username_input.placeholder, "Username");
    assert_eq!(f.password_input.placeholder, "Password");
    assert!(f.server_input.content.is_empty());
    assert!(!f.server_input.masked && !f.username_input.masked && f.password_input.masked);
}

#[test]
fn submit_sets_server_and_returns_the_form() {
    let mut f = LoginScreen::new();
    f.server_input.content = "http://h".to_string();
    f.username_input.content = "alice".to_string();
    f.password_input.content = "pw".to_string();
    let mut state = AppState::from_loaded(None);
    let req = f.on_submit_click(&mut state);
    assert_eq!(state.base_url, "http://h");
    assert!(state.credentials.is_none());
    assert_eq!((req.server.as_str(), req.username.as_str(), req.password.as_str()), ("http://h", "alice", "pw"));
}

#[test]
fn failed_login_changes_nothing_more() {
    let mut state = AppState::from_loaded(Some(creds("http://old")));
    assert_eq!(state.on_login_finished(None), None);
    assert_eq!(state.base_url, "http://old");
    assert_eq!(state.credentials.as_ref().unwrap().server, "http://old");
}

#[test]
fn successful_login_matches_restart_state() {
    let mut f = LoginScreen::new();
    f.server_input.content = "http://h".to_string();
    f.username_input.content = "alice".to_string();
    let mut state = AppState::from_loaded(None);
    let req = f.on_submit_click(&mut state);
    let reply = NavidromeLoginResponse {
        name: "Alice".into(),
        username: "alice".into(),
        is_admin: false,
        subsonic_salt: "salt".into(),
        subsonic_token: "tok".into(),
        token: "jwt".into(),
    };
    let c = credentials_from_login(req.server, req.username, reply);
    assert_eq!(state.on_login_finished(Some(c.clone())), Some(NavTarget::Main));
    let restarted = AppState::from_loaded(Some(c));
    assert_eq!(state.base_url, restarted.base_url);
    let (a, b) = (state.credentials.unwrap(), restarted.credentials.unwrap());
    assert_eq!((a.server, a.username, a.token, a.salt), (b.server, b.username, b.token, b.salt));
    assert_eq!(initial_screen(&AppState::from_loaded(Some(creds("http://h")))), NavTarget::Main);
}

#[test]
fn keyring_user_defaults_to_nia() {
    assert_eq!(keyring_user(Some("bob".to_string())), "bob");
    assert_eq!(keyring_user(None), "nia");
}

#[test]
fn player_events() {
    assert_eq!(player_event(MpvEvent::StartFile), Some(PlayerEvent::Play));
    assert_eq!(player_event(MpvEvent::EndFile(END_FILE_REASON_STOP)), Some(PlayerEvent::Pause));
    assert_eq!(player_event(MpvEvent::EndFile(0)), Some(PlayerEvent::Stopped(0)));
    assert_eq!(player_event(MpvEvent::EndFile(4)), Some(PlayerEvent::Stopped(4)));
    assert_eq!(player_event(MpvEvent::Other), None);
}

#[test]
fn main_screen_loads_and_lists_albums() {
    let mut m = MainScreen::new();
    assert!(m.album_entries().is_none());
    assert!(matches!(m.route, MainRoute::AlbumList));
    assert_eq!(MainScreen::list_type(), "recent");
    let list = AlbumListResponse {
        album_list: InnerAlbumListResponse {
            album: vec![album("a1", "First", None, None), album("a2", "Second", Some("B"), None)],
        },
    };
    m.on_albums_loaded(envelope(list));
    assert!(matches!(m.route, MainRoute::AlbumList));
    assert_eq!(
        m.album_entries().unwrap(),
        vec![("a1".to_string(), "First".to_string()), ("a2".to_string(), "Second".to_string())]
    );
}

#[test]
fn album_click_opens_album_and_keeps_list() {
    let mut m = MainScreen::new();
    m.on_albums_loaded(envelope(AlbumListResponse {
        album_list: InnerAlbumListResponse { album: vec![album("a1", "First", None, None)] },
    }));
    m.on_album_click("a1".to_string());
    match &m.route {
        MainRoute::Album(s) => {
            assert_eq!(s.album_id, "a1");
            assert!(s.album.is_none());
            assert!(s.view().is_none());
        }
        MainRoute::AlbumList => panic!("expected the album route"),
    }
    assert_eq!(m.album_entries().unwrap().len(), 1);
}

#[test]
fn album_screen_shows_name_artist_and_songs() {
    let mut s = AlbumScreen::new("a1".to_string());
    s.on_album_loaded(envelope(AlbumResponse {
        album: album("a1", "First", Some("Band"), Some(vec![song("one"), song("two")])),
    }));
    assert_eq!(s.album_id, "a1");
    let v = s.view().unwrap();
    assert_eq!(v.name, "First");
    assert_eq!(v.artist, "Band");
    assert_eq!(v.songs, vec!["one".to_string(), "two".to_string()]);
}

#[test]
fn album_screen_defaults_artist_and_songs() {
    let mut s = AlbumScreen::new("a2".to_string());
    s.on_album_loaded(envelope(AlbumResponse { album: album("a2", "Second", None, None) }));
    let v = s.view().unwrap();
    assert_eq!(v.artist, "");
    assert!(v.songs.is_empty());
}

const AUTH: &str = "u=alice&t=tok&s=salt&v=2026.4&c=nia&f=json";

#[test]
fn main_screen_requests_recent_albums_from_state() {
    let state = AppState::from_loaded(Some(creds("http://h:4533")));
    assert_eq!(
        MainScreen::album_list_request(&state),
        format!("http://h:4533/rest/getAlbumList?{AUTH}&type=recent")
    );
    assert_eq!(
        MainScreen::try_album_list_request(&state),
        Some(format!("http://h:4533/rest/getAlbumList?{AUTH}&type=recent"))
    );
    let mut bad = AppState::from_loaded(Some(creds("http://h")));
    bad.base_url = String::new();
    assert_eq!(MainScreen::try_album_list_request(&bad), None);
}

#[test]
fn album_screen_requests_its_album_from_state() {
    let state = AppState::from_loaded(Some(creds("http://h")));
    let s = AlbumScreen::new("al 9".to_string());
    assert_eq!(s.album_request(&state), format!("http://h/rest/getAlbum?{AUTH}&id=al+9"));
    assert_eq!(
        s.try_album_request(&state),
        Some(format!("http://h/rest/getAlbum?{AUTH}&id=al+9"))
    );
    let mut bad = AppState::from_loaded(Some(creds("http://h")));
    bad.base_url = "nope".to_string();
    assert_eq!(s.try_album_request(&bad), None);
}

#[test]
fn main_view_follows_the_route() {
    let mut m = MainScreen::new();
    assert!(matches!(m.view(), MainView::AlbumList(None)));
    m.on_albums_loaded(envelope(AlbumListResponse {
        album_list: InnerAlbumListResponse { album: vec![album("a1", "First", None, None)] },
    }));
    match m.view() {
        MainView::AlbumList(Some(e)) => assert_eq!(e, vec![("a1".to_string(), "First".to_string())]),
        _ => panic!("expected the album list"),
    }
    m.on_album_click("a1".to_string());
    assert!(matches!(m.view(), MainView::Album(None)));
    if let MainRoute::Album(s) = &mut m.route {
        s.on_album_loaded(envelope(AlbumResponse {
            album: album("a1", "First", Some("Band"), Some(vec![song("one")])),
        }));
    }
    match m.view() {
        MainView::Album(Some(v)) => {
            assert_eq!(v.name, "First");
            assert_eq!(v.artist, "Band");
            assert_eq!(v.songs, vec!["one".to_string()]);
        }
        _ => panic!("expected the album screen"),
    }
}
