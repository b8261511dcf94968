//! The typed client state and the request lines of the three read
//! endpoints: each endpoint address is built exactly, with its query
//! string, and every request carries a bearer-authorization header.
use crate::error::ApiError;
use crate::parse::json_of;
use crate::query::{
    beatmapsets_query, beatmapsets_query_spec, scores_query, scores_query_spec,
};
use crate::text::{spec_dec, u64_to_string};
use crate::token::{extract_access_token, spec_token_from};
use vstd::prelude::*;

verus! {

/// The base address of the read endpoints.
pub open spec fn spec_api_base() -> Seq<char> {
    "https://osu.ppy.sh/api/v2/"@
}

/// The address of the token endpoint.
pub open spec fn spec_token_url() -> Seq<char> {
    "https://osu.ppy.sh/oauth/token"@
}

/// The base address of the read endpoints.
pub fn api_base() -> (r: &'static str)
    ensures
        r@ == spec_api_base(),
{
    "https://osu.ppy.sh/api/v2/"
}

/// The address the token request is posted to.
pub fn token_url() -> (r: &'static str)
    ensures
        r@ == spec_token_url(),
{
    "https://osu.ppy.sh/oauth/token"
}

/// A session: the bearer token and the user the client was opened for.
#[derive(Debug, Clone, PartialEq)]
pub struct AccessToken {
    pub access_token: String,
    pub user_id: String,
}

pub struct AccessTokenV {
    pub access_token: Seq<char>,
    pub user_id: Seq<char>,
}

impl View for AccessToken {
    type V = AccessTokenV;

    open spec fn view(&self) -> AccessTokenV {
        AccessTokenV { access_token: self.access_token@, user_id: self.user_id@ }
    }
}

impl AccessToken {
    /// Opens a session from an already-acquired token.
    pub fn new(access_token: String, user_id: String) -> (r: AccessToken)
        ensures
            r@.access_token == access_token@,
            r@.user_id == user_id@,
    {
        AccessToken { access_token, user_id }
    }

    /// Opens a session from a raw token-endpoint response body: extracts
    /// the access token, failing with `Auth` exactly when the body is not
    /// an object with a string `access_token` member.
    pub fn from_token_response(body: &str, user_id: &str) -> (r: Result<AccessToken, ApiError>)
        ensures
            match json_of(body@) {
                Some(v) => match spec_token_from(v) {
                    Some(t) => r matches Ok(a) && a@.access_token == t && a@.user_id == user_id@,
                    None => r matches Err(e) && e == ApiError::Auth,
                },
                None => r matches Err(e) && e == ApiError::Auth,
            },
    {
        let token = extract_access_token(body)?;
        Ok(AccessToken { access_token: token, user_id: user_id.to_owned() })
    }

    /// The value of the authorization header every request carries.
    pub fn auth_header(&self) -> (r: String)
        ensures
            r@ == "Bearer "@ + self@.access_token,
    {
        let mut r: String = "Bearer ".to_owned();
        r.append(self.access_token.as_str());
        r
    }

    /// The address of the profile endpoint for this session's user.
    pub fn user_endpoint(&self) -> (r: String)
        ensures
            r@ == spec_api_base() + "users/"@ + self@.user_id,
    {
        let mut r: String = api_base().to_owned();
        r.append("users/");
        r.append(self.user_id.as_str());
        r
    }
}

/// The address of a user's beatmapsets endpoint for a category, with the
/// optional `limit` and `offset` query parameters.
pub fn beatmapsets_endpoint(
    user_id: u64,
    category: &str,
    limit: Option<u64>,
    offset: Option<u64>,
) -> (r: String)
    ensures
        r@ == spec_api_base() + "users/"@ + spec_dec(user_id as nat) + "/beatmapsets/"@
            + category@ + beatmapsets_query_spec(limit, offset),
{
    let mut r: String = api_base().to_owned();
    r.append("users/");
    r.append(u64_to_string(user_id).as_str());
    r.append("/beatmapsets/");
    r.append(category);
    r.append(beatmapsets_query(limit, offset).as_str());
    r
}

/// The address of a user's scores endpoint for a category, with the
/// optional `limit`, `offset` and `include_fails` parameters and the
/// always-present `mode`.
pub fn scores_endpoint(
    user_id: u64,
    category: &str,
    mode: &str,
    limit: Option<u64>,
    offset: Option<u64>,
    include_fails: Option<bool>,
) -> (r: String)
    ensures
        r@ == spec_api_base() + "users/"@ + spec_dec(user_id as nat) + "/scores/"@ + category@
            + scores_query_spec(limit, offset, include_fails, mode@),
{
    let mut r: String = api_base().to_owned();
    r.append("users/");
    r.append(u64_to_string(user_id).as_str());
    r.append("/scores/");
    r.append(category);
    r.append(scores_query(limit, offset, include_fails, mode).as_str());
    r
}

} // verus!
