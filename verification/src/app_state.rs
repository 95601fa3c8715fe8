//! The state of the `nia` player that every screen shares, and the
//! decisions made on it at start-up, after a login and on player events.

use vstd::prelude::*;
use vstd::string::*;

use crate::auth::{CredentialsView, NavidromeCredentials};

verus! {

/// What the screens share: the server in use and, once logged in, the
/// credentials for it.
pub struct AppState {
    pub base_url: String,
    pub credentials: Option<NavidromeCredentials>,
}

/// The shared state as values.
pub struct AppStateView {
    pub base_url: Seq<char>,
    pub credentials: Option<CredentialsView>,
}

/// Optional credentials as values.
pub open spec fn opt_credentials_view(c: Option<NavidromeCredentials>) -> Option<CredentialsView> {
    match c {
        Some(c) => Some(c@),
        None => None,
    }
}

impl View for AppState {
    type V = AppStateView;

    open spec fn view(&self) -> AppStateView {
        AppStateView { base_url: self.base_url@, credentials: opt_credentials_view(self.credentials) }
    }
}

/// The screens that the window can show.
#[derive(Clone, Copy, Debug, PartialEq, Eq, Structural)]
pub enum NavTarget {
    Login,
    Main,
}

/// The state at start-up from the credentials that were saved, if any could
/// be loaded: their server, or no server at all.
pub open spec fn from_loaded_spec(loaded: Option<CredentialsView>) -> AppStateView {
    match loaded {
        Some(c) => AppStateView { base_url: c.server, credentials: Some(c) },
        None => AppStateView { base_url: Seq::empty(), credentials: None },
    }
}

/// The screen that a state opens on: the main screen where credentials are
/// known, else the login screen.
pub open spec fn initial_screen_spec(state: AppStateView) -> NavTarget {
    if state.credentials is Some {
        NavTarget::Main
    } else {
        NavTarget::Login
    }
}

/// The state after a login attempt: a successful one keeps the credentials;
/// a failed one changes nothing.
pub open spec fn login_finished_spec(state: AppStateView, outcome: Option<CredentialsView>) -> AppStateView {
    match outcome {
        Some(c) => AppStateView { credentials: Some(c), ..state },
        None => state,
    }
}

/// Start-up restores exactly the credentials that were loaded, field for
/// field, with their server in use; without credentials no server is in use.
pub proof fn lemma_restore_keeps_credentials(loaded: Option<CredentialsView>)
    ensures
        from_loaded_spec(loaded).credentials == loaded,
        loaded matches Some(c) ==> from_loaded_spec(loaded).base_url == c.server,
        loaded is None ==> from_loaded_spec(loaded).base_url == Seq::<char>::empty(),
{
}

/// A successful login stores exactly the credentials it was given and keeps
/// the server in use; a failed one changes nothing.
pub proof fn lemma_login_stores_credentials(state: AppStateView, outcome: Option<CredentialsView>)
    ensures
        outcome is Some ==> login_finished_spec(state, outcome).credentials == outcome,
        login_finished_spec(state, outcome).base_url == state.base_url,
        outcome is None ==> login_finished_spec(state, outcome) == state,
{
}

impl AppState {
    /// The state at start-up, from the credentials that could be loaded.
    pub fn from_loaded(loaded: Option<NavidromeCredentials>) -> (state: AppState)
        ensures
            state@ == from_loaded_spec(opt_credentials_view(loaded)),
            state.credentials == loaded,
            loaded matches Some(c) ==> state.base_url@ == c.server@,
            loaded is None ==> state.base_url@ == Seq::<char>::empty(),
    {
        match loaded {
            Some(c) => AppState { base_url: c.server.clone(), credentials: Some(c) },
            None => AppState { base_url: String::new(), credentials: None },
        }
    }

    /// Records the outcome of a login attempt and says where to navigate:
    /// to the main screen after a success, nowhere after a failure.
    pub fn on_login_finished(&mut self, outcome: Option<NavidromeCredentials>) -> (nav: Option<NavTarget>)
        ensures
            final(self)@ == login_finished_spec(old(self)@, opt_credentials_view(outcome)),
            nav == (if outcome is Some { Some(NavTarget::Main) } else { None::<NavTarget> }),
            outcome is Some ==> final(self).credentials == outcome,
            outcome is None ==> final(self).credentials == old(self).credentials,
            final(self).base_url == old(self).base_url,
    {
        match outcome {
            Some(c) => {
                self.credentials = Some(c);
                Some(NavTarget::Main)
            },
            None => None,
        }
    }
}

/// The screen that the window opens on.
pub fn initial_screen(state: &AppState) -> (screen: NavTarget)
    ensures
        screen == initial_screen_spec(state@),
        (screen == NavTarget::Main) == (state.credentials is Some),
        (screen == NavTarget::Login) == (state.credentials is None),
{
    if state.credentials.is_some() {
        NavTarget::Main
    } else {
        NavTarget::Login
    }
}

/// The window opens on the main screen exactly where credentials could be
/// loaded at start-up.
pub proof fn lemma_start_screen(loaded: Option<CredentialsView>)
    ensures
        (initial_screen_spec(from_loaded_spec(loaded)) == NavTarget::Main) == (loaded is Some),
{
}

/// The key under which credentials are saved: the login name of the user
/// where it is known, else `nia`.
pub open spec fn keyring_user_spec(login_name: Option<Seq<char>>) -> Seq<char> {
    match login_name {
        Some(n) => n,
        None => "nia"@,
    }
}

/// The key under which credentials are saved is the user's login name
/// where it is known, and `nia` otherwise.
pub proof fn lemma_keyring_user(login_name: Option<Seq<char>>)
    ensures
        login_name matches Some(n) ==> keyring_user_spec(login_name) == n,
        login_name is None ==> keyring_user_spec(login_name) == "nia"@,
{
}

/// An mpv event is heard as this: a started file plays, a file stopped by
/// the user pauses, a file that ended for any other reason stops with that
/// reason, and other events are not heard at all.
pub proof fn lemma_player_event(event: MpvEvent)
    ensures
        event == MpvEvent::StartFile ==> player_event_spec(event) == Some(PlayerEvent::Play),
        event == MpvEvent::EndFile(END_FILE_REASON_STOP) ==> player_event_spec(event) == Some(
            PlayerEvent::Pause,
        ),
        event matches MpvEvent::EndFile(r) ==> (r != END_FILE_REASON_STOP ==> player_event_spec(
            event,
        ) == Some(PlayerEvent::Stopped(r))),
        event == MpvEvent::Other ==> player_event_spec(event) is None,
        player_event_spec(event) is None <==> event == MpvEvent::Other,
{
}

/// The key under which credentials are saved and loaded.
pub fn keyring_user(login_name: Option<String>) -> (user: String)
    ensures
        user@ == keyring_user_spec(crate::subsonic::opt_text(login_name)),
        login_name matches Some(n) ==> user@ == n@,
        login_name is None ==> user@ == "nia"@,
{
    match login_name {
        Some(n) => n,
        None => String::from_str("nia"),
    }
}

/// What the player reports to the interface.
#[derive(Clone, Copy, Debug, PartialEq, Eq, Structural)]
pub enum PlayerEvent {
    Play,
    Pause,
    Stopped(u32),
}

/// The events of the mpv player that the interface looks at; an end of file
/// carries mpv's reason code.
#[derive(Clone, Copy, Debug, PartialEq, Eq, Structural)]
pub enum MpvEvent {
    StartFile,
    EndFile(u32),
    Other,
}

/// mpv's reason code for a file that ended because playback was stopped
/// (`MPV_END_FILE_REASON_STOP`).
pub const END_FILE_REASON_STOP: u32 = 2;

/// What the interface hears of an mpv event: a stopped file pauses, any
/// other end of file stops with its reason, a started file plays, and other
/// events are not passed on.
pub open spec fn player_event_spec(event: MpvEvent) -> Option<PlayerEvent> {
    match event {
        MpvEvent::EndFile(r) => if r == END_FILE_REASON_STOP {
            Some(PlayerEvent::Pause)
        } else {
            Some(PlayerEvent::Stopped(r))
        },
        MpvEvent::StartFile => Some(PlayerEvent::Play),
        MpvEvent::Other => None,
    }
}

/// What the interface hears of an mpv event.
pub fn player_event(event: MpvEvent) -> (heard: Option<PlayerEvent>)
    ensures
        heard == player_event_spec(event),
        event == MpvEvent::StartFile ==> heard == Some(PlayerEvent::Play),
        event == MpvEvent::EndFile(END_FILE_REASON_STOP) ==> heard == Some(PlayerEvent::Pause),
        event matches MpvEvent::EndFile(r) ==> (r != END_FILE_REASON_STOP ==> heard == Some(
            PlayerEvent::Stopped(r),
        )),
        event == MpvEvent::Other ==> heard is None,
{
    match event {
        MpvEvent::EndFile(r) => if r == END_FILE_REASON_STOP {
            Some(PlayerEvent::Pause)
        } else {
            Some(PlayerEvent::Stopped(r))
        },
        MpvEvent::StartFile => Some(PlayerEvent::Play),
        MpvEvent::Other => None,
    }
}

} // verus!
