//! Subsonic request addresses: an endpoint under `/rest/` with the
//! authentication parameters and the endpoint's own parameters in the query.

use vstd::prelude::*;
use vstd::string::*;

use crate::auth::{CredentialsView, NavidromeCredentials};

verus! {

/// Query parameters as text pairs.
pub open spec fn pairs_view(params: Seq<(String, String)>) -> Seq<(Seq<char>, Seq<char>)> {
    params.map_values(|p: (String, String)| (p.0@, p.1@))
}

/// An optional text value as text.
pub open spec fn opt_text(s: Option<String>) -> Option<Seq<char>> {
    match s {
        Some(t) => Some(t@),
        None => None,
    }
}

/// What `reqwest::Url::parse_with_params(base, params)` gives, serialised:
/// `None` where `base` is no valid absolute URL, else the URL with the pairs
/// form-urlencoded and appended to its query, in order.
pub uninterp spec fn url_with_params(
    base: Seq<char>,
    params: Seq<(Seq<char>, Seq<char>)>,
) -> Option<Seq<char>>;

/// Calls `reqwest::Url::parse_with_params` (that is `url::Url`'s) and
/// serialises the URL with `String::from`. The contract says only that the
/// result is the one `url_with_params` names for these arguments; it states
/// neither URL parsing nor form-urlencoding.
#[verifier::external_body]
pub(crate) fn parse_with_params(base: &str, params: &Vec<(String, String)>) -> (url: Option<String>)
    ensures
        opt_text(url) == url_with_params(base@, pairs_view(params@)),
{
    reqwest::Url::parse_with_params(base, params.iter()).ok().map(String::from)
}

/// The version of the Subsonic API that requests declare.
pub open spec fn api_version() -> Seq<char> {
    "2026.4"@
}

/// The client name that requests declare.
pub open spec fn client_name() -> Seq<char> {
    "nia"@
}

/// The response format that requests ask for.
pub open spec fn response_format() -> Seq<char> {
    "json"@
}

/// The parameters that authenticate every Subsonic request, in this order:
/// user (`u`), token (`t`), salt (`s`), API version (`v`), client (`c`) and
/// format (`f`).
pub open spec fn auth_query(c: CredentialsView) -> Seq<(Seq<char>, Seq<char>)> {
    seq![
        ("u"@, c.username),
        ("t"@, c.token),
        ("s"@, c.salt),
        ("v"@, api_version()),
        ("c"@, client_name()),
        ("f"@, response_format()),
    ]
}

/// The address of the Subsonic method `method` on `server`.
pub open spec fn rest_url_spec(server: Seq<char>, method: Seq<char>) -> Seq<char> {
    server + "/rest/"@ + method
}

/// The URL of a Subsonic request for `method` with the authentication
/// parameters followed by `extra`.
pub open spec fn request_url_spec(
    server: Seq<char>,
    method: Seq<char>,
    credentials: CredentialsView,
    extra: Seq<(Seq<char>, Seq<char>)>,
) -> Option<Seq<char>> {
    url_with_params(rest_url_spec(server, method), auth_query(credentials) + extra)
}

/// Every request authenticates with six parameters, in this order: the
/// user name as `u`, the token as `t`, the salt as `s`, API version
/// `2026.4` as `v`, client `nia` as `c` and format `json` as `f`. The
/// password is never among them.
pub proof fn lemma_auth_query(c: CredentialsView)
    ensures
        auth_query(c).len() == 6,
        auth_query(c)[0] == ("u"@, c.username),
        auth_query(c)[1] == ("t"@, c.token),
        auth_query(c)[2] == ("s"@, c.salt),
        auth_query(c)[3] == ("v"@, "2026.4"@),
        auth_query(c)[4] == ("c"@, "nia"@),
        auth_query(c)[5] == ("f"@, "json"@),
        rest_url_spec(c.server, "ping"@) == c.server + "/rest/"@ + "ping"@,
{
}

/// The address of the Subsonic method `method` on `server`.
pub fn rest_url(server: &str, method: &str) -> (url: String)
    ensures
        url@ == rest_url_spec(server@, method@),
        url@ == server@ + "/rest/"@ + method@,
{
    let mut url = server.to_owned();
    url.append("/rest/");
    url.append(method);
    url
}

/// The authentication parameters of a request made with `credentials`.
pub fn auth_params(credentials: &NavidromeCredentials) -> (params: Vec<(String, String)>)
    ensures
        pairs_view(params@) == auth_query(credentials@),
        params.len() == 6,
        params@[0].0@ == "u"@ && params@[0].1@ == credentials.username@,
        params@[1].0@ == "t"@ && params@[1].1@ == credentials.token@,
        params@[2].0@ == "s"@ && params@[2].1@ == credentials.salt@,
        params@[3].0@ == "v"@ && params@[3].1@ == "2026.4"@,
        params@[4].0@ == "c"@ && params@[4].1@ == "nia"@,
        params@[5].0@ == "f"@ && params@[5].1@ == "json"@,
{
    let mut params: Vec<(String, String)> = Vec::new();
    params.push((String::from_str("u"), credentials.username.clone()));
    params.push((String::from_str("t"), credentials.token.clone()));
    params.push((String::from_str("s"), credentials.salt.clone()));
    params.push((String::from_str("v"), String::from_str("2026.4")));
    params.push((String::from_str("c"), String::from_str("nia")));
    params.push((String::from_str("f"), String::from_str("json")));
    assert(pairs_view(params@) =~= auth_query(credentials@));
    params
}

/// The URL of a request for `method` that carries the authentication
/// parameters and then the pairs of `extra`; `None` exactly where the
/// address does not parse as a URL.
pub fn request_url(
    server: &str,
    method: &str,
    credentials: &NavidromeCredentials,
    extra: Vec<(String, String)>,
) -> (url: Option<String>)
    ensures
        opt_text(url) == request_url_spec(server@, method@, credentials@, pairs_view(extra@)),
{
    let base = rest_url(server, method);
    let mut params = auth_params(credentials);
    let ghost auth = params@;
    let ghost old_extra = extra@;
    let mut extra = extra;
    params.append(&mut extra);
    assert(pairs_view(params@) =~= pairs_view(auth) + pairs_view(old_extra));
    parse_with_params(base.as_str(), &params)
}

} // verus!
