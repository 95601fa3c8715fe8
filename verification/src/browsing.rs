//! Browsing the library: one album with its songs.

use vstd::prelude::*;
use vstd::string::*;

use crate::auth::{CredentialsView, NavidromeCredentials};
use crate::subsonic::{opt_text, pairs_view, request_url, request_url_spec};

verus! {

/// The URL of the `getAlbum` request for the album `id`.
pub open spec fn album_info_url_spec(
    server: Seq<char>,
    credentials: CredentialsView,
    id: Seq<char>,
) -> Option<Seq<char>> {
    request_url_spec(server, "getAlbum"@, credentials, seq![("id"@, id)])
}

/// The pairs that follow the authentication parameters in a `getAlbum`
/// request.
fn album_info_extra(id: &str) -> (extra: Vec<(String, String)>)
    ensures
        pairs_view(extra@) == seq![("id"@, id@)],
{
    let mut extra: Vec<(String, String)> = Vec::new();
    extra.push((String::from_str("id"), id.to_owned()));
    assert(pairs_view(extra@) =~= seq![("id"@, id@)]);
    extra
}

/// The URL that fetches the album `id` with its songs, for a server address
/// that parses as a URL.
pub fn album_info_url(server: &str, credentials: &NavidromeCredentials, id: &str) -> (url: String)
    requires
        album_info_url_spec(server@, credentials@, id@) is Some,
    ensures
        Some(url@) == album_info_url_spec(server@, credentials@, id@),
{
    match request_url(server, "getAlbum", credentials, album_info_extra(id)) {
        Some(url) => url,
        None => String::new(),
    }
}

/// The URL that fetches the album `id` with its songs, or `None` where the
/// server address is no valid URL.
pub fn try_album_info_url(server: &str, credentials: &NavidromeCredentials, id: &str) -> (url:
    Option<String>)
    ensures
        opt_text(url) == album_info_url_spec(server@, credentials@, id@),
{
    match request_url(server, "getAlbum", credentials, album_info_extra(id)) {
        Some(_) => Some(album_info_url(server, credentials, id)),
        None => None,
    }
}

} // verus!
