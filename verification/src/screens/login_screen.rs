//! The login screen: three text fields and a button.

use vstd::prelude::*;
use vstd::string::*;

use crate::app_state::{
    from_loaded_spec, initial_screen_spec, login_finished_spec, AppState, AppStateView, NavTarget,
};
use crate::auth::credentials_from_login_spec;
use crate::models::NavidromeLoginResponse;

verus! {

/// The text state of an input field: what was typed, the hint shown while
/// it is empty, and whether the typed text is hidden.
pub struct TextInput {
    pub content: String,
    pub placeholder: String,
    pub masked: bool,
}

/// The login form.
pub struct LoginScreen {
    pub server_input: TextInput,
    pub username_input: TextInput,
    pub password_input: TextInput,
}

/// What a click on the login button asks to log in with.
pub struct LoginRequest {
    pub server: String,
    pub username: String,
    pub password: String,
}

/// An empty field with a placeholder.
fn empty_input(placeholder: &str, masked: bool) -> (input: TextInput)
    ensures
        input.content@ == Seq::<char>::empty(),
        input.placeholder@ == placeholder@,
        input.masked == masked,
{
    TextInput { content: String::new(), placeholder: placeholder.to_owned(), masked }
}

/// The state after a click on the login button: the server that was typed
/// becomes the one in use.
pub open spec fn submit_spec(screen: LoginScreen, state: AppStateView) -> AppStateView {
    AppStateView { base_url: screen.server_input.content@, ..state }
}

impl LoginScreen {
    /// An empty form: fields for the server, the user name and the password,
    /// of which only the password is hidden.
    pub fn new() -> (screen: LoginScreen)
        ensures
            screen.server_input.content@ == Seq::<char>::empty(),
            screen.username_input.content@ == Seq::<char>::empty(),
            screen.password_input.content@ == Seq::<char>::empty(),
            screen.server_input.placeholder@ == "Server"@,
            screen.username_input.placeholder@ == "Username"@,
            screen.password_input.placeholder@ == "Password"@,
            !screen.server_input.masked,
            !screen.username_input.masked,
            screen.password_input.masked,
    {
        LoginScreen {
            server_input: empty_input("Server", false),
            username_input: empty_input("Username", false),
            password_input: empty_input("Password", true),
        }
    }

    /// A click on the login button: the typed server becomes the one in use,
    /// and the typed server, user name and password are what to log in with.
    pub fn on_submit_click(&self, state: &mut AppState) -> (request: LoginRequest)
        ensures
            final(state)@ == submit_spec(*self, old(state)@),
            final(state).base_url@ == self.server_input.content@,
            final(state).credentials == old(state).credentials,
            request.server@ == self.server_input.content@,
            request.username@ == self.username_input.content@,
            request.password@ == self.password_input.content@,
    {
        let server = self.server_input.content.clone();
        let username = self.username_input.content.clone();
        let password = self.password_input.content.clone();
        state.base_url = server.clone();
        LoginRequest { server, username, password }
    }
}

/// A successful login leaves the player in exactly the state that a later
/// start-up reaches from the credentials it saved: the server that was typed
/// is in use, the credentials are known, and the window shows the main
/// screen.
pub proof fn lemma_login_state_matches_restart(
    screen: LoginScreen,
    state: AppStateView,
    reply: NavidromeLoginResponse,
)
    ensures
        ({
            let creds = credentials_from_login_spec(
                screen.server_input.content@,
                screen.username_input.content@,
                reply,
            );
            let after = login_finished_spec(submit_spec(screen, state), Some(creds));
            &&& after == from_loaded_spec(Some(creds))
            &&& initial_screen_spec(after) == NavTarget::Main
        }),
{
}

/// A failed login changes only the server in use: the credentials stay as
/// they were.
pub proof fn lemma_failed_login_keeps_credentials(screen: LoginScreen, state: AppStateView)
    ensures
        login_finished_spec(submit_spec(screen, state), None).credentials == state.credentials,
        login_finished_spec(submit_spec(screen, state), None).base_url
            == screen.server_input.content@,
{
}

} // verus!
