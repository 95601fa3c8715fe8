//! Logging in to a Navidrome server and the credentials that result.

use vstd::prelude::*;
use vstd::string::*;

use crate::json::{json_plain, json_quote, json_string, lemma_plain_text_unescaped};
use crate::models::NavidromeLoginResponse;

verus! {

/// The Subsonic credentials of one account on one server. Requests
/// authenticate with the token and salt, never with the password.
#[derive(Clone, Debug)]
pub struct NavidromeCredentials {
    pub server: String,
    pub username: String,
    pub token: String,
    pub salt: String,
}

/// The credentials as text values.
pub struct CredentialsView {
    pub server: Seq<char>,
    pub username: Seq<char>,
    pub token: Seq<char>,
    pub salt: Seq<char>,
}

impl View for NavidromeCredentials {
    type V = CredentialsView;

    open spec fn view(&self) -> CredentialsView {
        CredentialsView {
            server: self.server@,
            username: self.username@,
            token: self.token@,
            salt: self.salt@,
        }
    }
}

/// The address of Navidrome's login endpoint on `server`.
pub open spec fn login_url_spec(server: Seq<char>) -> Seq<char> {
    server + "/auth/login"@
}

/// The JSON object that a login request sends: the user name, then the
/// password, each as a JSON string.
pub open spec fn login_body_spec(username: Seq<char>, password: Seq<char>) -> Seq<char> {
    "{\"username\":"@ + json_string(username) + ",\"password\":"@ + json_string(password) + "}"@
}

/// The credentials that a successful login yields: the server and user name
/// that were entered, and the token and salt that the server handed out.
pub open spec fn credentials_from_login_spec(
    server: Seq<char>,
    username: Seq<char>,
    data: NavidromeLoginResponse,
) -> CredentialsView {
    CredentialsView {
        server: server,
        username: username,
        token: data.subsonic_token@,
        salt: data.subsonic_salt@,
    }
}

/// The credentials kept after a login are the entered server and user name,
/// the Subsonic token of the reply as the token and the Subsonic salt of the
/// reply as the salt, whatever else the reply says.
pub proof fn lemma_login_keeps_reply_secrets(
    server: Seq<char>,
    username: Seq<char>,
    data: NavidromeLoginResponse,
)
    ensures
        credentials_from_login_spec(server, username, data).server == server,
        credentials_from_login_spec(server, username, data).username == username,
        credentials_from_login_spec(server, username, data).token == data.subsonic_token@,
        credentials_from_login_spec(server, username, data).salt == data.subsonic_salt@,
{
}

/// A login body written from a user name and password made of plain
/// characters carries both verbatim between quotes: user name first, then
/// password.
pub proof fn lemma_login_body_plain(username: Seq<char>, password: Seq<char>)
    requires
        forall|i: int| 0 <= i < username.len() ==> json_plain(#[trigger] username[i]),
        forall|i: int| 0 <= i < password.len() ==> json_plain(#[trigger] password[i]),
    ensures
        login_body_spec(username, password) == "{\"username\":"@ + seq!['"'] + username + seq!['"']
            + ",\"password\":"@ + seq!['"'] + password + seq!['"'] + "}"@,
{
    lemma_plain_text_unescaped(username);
    lemma_plain_text_unescaped(password);
    assert(login_body_spec(username, password) =~= "{\"username\":"@ + seq!['"'] + username
        + seq!['"'] + ",\"password\":"@ + seq!['"'] + password + seq!['"'] + "}"@);
}

/// The address that a login request is posted to.
pub fn login_url(server: &str) -> (url: String)
    ensures
        url@ == login_url_spec(server@),
        url@ == server@ + "/auth/login"@,
{
    let mut url = server.to_owned();
    url.append("/auth/login");
    url
}

/// The body of a login request, as `serde_json` writes the object
/// `{"username": username, "password": password}`.
pub fn login_body(username: &str, password: &str) -> (body: String)
    ensures
        body@ == login_body_spec(username@, password@),
        body@ == "{\"username\":"@ + json_string(username@) + ",\"password\":"@ + json_string(
            password@,
        ) + "}"@,
{
    let user_json = match json_quote(username) {
        Ok(q) => q,
        Err(_) => String::new(),
    };
    let password_json = match json_quote(password) {
        Ok(q) => q,
        Err(_) => String::new(),
    };
    let mut body = String::from_str("{\"username\":");
    body.append(user_json.as_str());
    body.append(",\"password\":");
    body.append(password_json.as_str());
    body.append("}");
    body
}

/// The credentials kept after a successful login.
pub fn credentials_from_login(
    server: String,
    username: String,
    data: NavidromeLoginResponse,
) -> (credentials: NavidromeCredentials)
    ensures
        credentials@ == credentials_from_login_spec(server@, username@, data),
        credentials.server@ == server@,
        credentials.username@ == username@,
        credentials.token@ == data.subsonic_token@,
        credentials.salt@ == data.subsonic_salt@,
{
    NavidromeCredentials {
        server,
        username,
        token: data.subsonic_token,
        salt: data.subsonic_salt,
    }
}

} // verus!
