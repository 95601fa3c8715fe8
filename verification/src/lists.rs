//! Lists: albums by a list type, and what is playing now.

use vstd::prelude::*;
use vstd::string::*;

use crate::auth::{CredentialsView, NavidromeCredentials};
use crate::subsonic::{opt_text, pairs_view, request_url, request_url_spec};

verus! {

/// The URL of the `getAlbumList` request for the list `list_type`.
pub open spec fn album_list_url_spec(
    server: Seq<char>,
    credentials: CredentialsView,
    list_type: Seq<char>,
) -> Option<Seq<char>> {
    request_url_spec(server, "getAlbumList"@, credentials, seq![("type"@, list_type)])
}

/// The URL of the `getNowPlaying` request.
pub open spec fn now_playing_url_spec(server: Seq<char>, credentials: CredentialsView) -> Option<
    Seq<char>,
> {
    request_url_spec(server, "getNowPlaying"@, credentials, Seq::empty())
}

/// The pairs that follow the authentication parameters in a
/// `getAlbumList` request.
fn album_list_extra(list_type: &str) -> (extra: Vec<(String, String)>)
    ensures
        pairs_view(extra@) == seq![("type"@, list_type@)],
{
    let mut extra: Vec<(String, String)> = Vec::new();
    extra.push((String::from_str("type"), list_type.to_owned()));
    assert(pairs_view(extra@) =~= seq![("type"@, list_type@)]);
    extra
}

/// The pairs that follow the authentication parameters in a
/// `getNowPlaying` request: none.
fn now_playing_extra() -> (extra: Vec<(String, String)>)
    ensures
        pairs_view(extra@) == Seq::<(Seq<char>, Seq<char>)>::empty(),
{
    let extra: Vec<(String, String)> = Vec::new();
    assert(pairs_view(extra@) =~= Seq::<(Seq<char>, Seq<char>)>::empty());
    extra
}

/// The URL that fetches the album list of type `list_type` (such as
/// `recent`), for a server address that parses as a URL.
pub fn album_list_url(server: &str, credentials: &NavidromeCredentials, list_type: &str) -> (url:
    String)
    requires
        album_list_url_spec(server@, credentials@, list_type@) is Some,
    ensures
        Some(url@) == album_list_url_spec(server@, credentials@, list_type@),
{
    match request_url(server, "getAlbumList", credentials, album_list_extra(list_type)) {
        Some(url) => url,
        None => String::new(),
    }
}

/// The URL that fetches the album list of type `list_type`, or `None`
/// where the server address is no valid URL.
pub fn try_album_list_url(server: &str, credentials: &NavidromeCredentials, list_type: &str) -> (url:
    Option<String>)
    ensures
        opt_text(url) == album_list_url_spec(server@, credentials@, list_type@),
{
    match request_url(server, "getAlbumList", credentials, album_list_extra(list_type)) {
        Some(_) => Some(album_list_url(server, credentials, list_type)),
        None => None,
    }
}

/// The URL that asks what the server's users are playing now, for a server
/// address that parses as a URL.
pub fn now_playing_url(server: &str, credentials: &NavidromeCredentials) -> (url: String)
    requires
        now_playing_url_spec(server@, credentials@) is Some,
    ensures
        Some(url@) == now_playing_url_spec(server@, credentials@),
{
    match request_url(server, "getNowPlaying", credentials, now_playing_extra()) {
        Some(url) => url,
        None => String::new(),
    }
}

/// The URL that asks what the server's users are playing now, or `None`
/// where the server address is no valid URL.
pub fn try_now_playing_url(server: &str, credentials: &NavidromeCredentials) -> (url: Option<
    String,
>)
    ensures
        opt_text(url) == now_playing_url_spec(server@, credentials@),
{
    match request_url(server, "getNowPlaying", credentials, now_playing_extra()) {
        Some(_) => Some(now_playing_url(server, credentials)),
        None => None,
    }
}

} // verus!
