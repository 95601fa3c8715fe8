//! The reply of Navidrome's own login endpoint.

use vstd::prelude::*;

verus! {

/// What `POST /auth/login` answers: the account and the Subsonic token and
/// salt that later requests authenticate with.
#[derive(Clone, Debug)]
pub struct NavidromeLoginResponse {
    pub name: String,
    pub username: String,
    pub is_admin: bool,
    pub subsonic_salt: String,
    pub subsonic_token: String,
    pub token: String,
}

} // verus!
