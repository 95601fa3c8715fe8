//! The address that a player streams a song from.

use vstd::prelude::*;
use vstd::string::*;

use crate::auth::{CredentialsView, NavidromeCredentials};
use crate::browsing::album_info_url_spec;
use crate::lists::{album_list_url_spec, now_playing_url_spec};
use crate::subsonic::{
    auth_params, auth_query, opt_text, pairs_view, parse_with_params, request_url_spec, rest_url,
    rest_url_spec, url_with_params,
};

verus! {

/// The URL of the `stream` request for the song `song_id`.
pub open spec fn stream_url_spec(
    server: Seq<char>,
    credentials: CredentialsView,
    song_id: Seq<char>,
) -> Option<Seq<char>> {
    request_url_spec(server, "stream"@, credentials, seq![("id"@, song_id)])
}

/// The parameters of a `stream` request.
fn stream_params(credentials: &NavidromeCredentials, song_id: &str) -> (params: Vec<
    (String, String),
>)
    ensures
        pairs_view(params@) == crate::subsonic::auth_query(credentials@) + seq![("id"@, song_id@)],
{
    let mut params = auth_params(credentials);
    let ghost auth = params@;
    params.push((String::from_str("id"), song_id.to_owned()));
    assert(pairs_view(params@) =~= pairs_view(auth) + seq![("id"@, song_id@)]);
    params
}

/// The URL that streams the song `song_id`, for a server address that
/// parses as a URL.
pub fn get_stream_url(server: String, credentials: NavidromeCredentials, song_id: String) -> (url:
    String)
    requires
        stream_url_spec(server@, credentials@, song_id@) is Some,
    ensures
        Some(url@) == stream_url_spec(server@, credentials@, song_id@),
{
    let base = rest_url(server.as_str(), "stream");
    let params = stream_params(&credentials, song_id.as_str());
    match parse_with_params(base.as_str(), &params) {
        Some(url) => url,
        None => String::new(),
    }
}

/// The URL that streams the song `song_id`, or `None` where the server
/// address is no valid URL.
pub fn try_get_stream_url(server: String, credentials: NavidromeCredentials, song_id: String) -> (url:
    Option<String>)
    ensures
        opt_text(url) == stream_url_spec(server@, credentials@, song_id@),
{
    let base = rest_url(server.as_str(), "stream");
    let params = stream_params(&credentials, song_id.as_str());
    match parse_with_params(base.as_str(), &params) {
        Some(_) => Some(get_stream_url(server, credentials, song_id)),
        None => None,
    }
}

/// Every request of the library authenticates the same way: its address is
/// its method under `/rest/` on the server, and its query starts with the
/// authentication parameters of the credentials, followed by the method's
/// own parameters.
pub proof fn lemma_requests_authenticate(
    server: Seq<char>,
    credentials: CredentialsView,
    id: Seq<char>,
    list_type: Seq<char>,
)
    ensures
        album_info_url_spec(server, credentials, id) == url_with_params(
            rest_url_spec(server, "getAlbum"@),
            auth_query(credentials) + seq![("id"@, id)],
        ),
        stream_url_spec(server, credentials, id) == url_with_params(
            rest_url_spec(server, "stream"@),
            auth_query(credentials) + seq![("id"@, id)],
        ),
        album_list_url_spec(server, credentials, list_type) == url_with_params(
            rest_url_spec(server, "getAlbumList"@),
            auth_query(credentials) + seq![("type"@, list_type)],
        ),
        now_playing_url_spec(server, credentials) == url_with_params(
            rest_url_spec(server, "getNowPlaying"@),
            auth_query(credentials),
        ),
{
    assert(auth_query(credentials) + Seq::empty() =~= auth_query(credentials));
}

} // verus!
