//! OAuth client-credentials token acquisition: the form the token request
//! carries, and the extraction of the access token from the response body.
use crate::error::ApiError;
use crate::json::{spec_obj_get, JsonValue};
use crate::parse::{json_of, parse_json};
use vstd::prelude::*;

verus! {

/// The access token of a token response: the string value of its
/// `access_token` member, if the response is an object and that member is
/// a string.
pub open spec fn spec_token_from(v: JsonValue) -> Option<Seq<char>> {
    match v {
        JsonValue::Obj(fields) => match spec_obj_get(fields@, "access_token"@) {
            Some(JsonValue::Str(s)) => Some(s@),
            _ => None,
        },
        _ => None,
    }
}

/// Extracts the access token from a parsed token response. Returns exactly
/// the string held by the `access_token` member; fails with `Auth` when
/// the member is absent or not a string.
pub fn token_from_json(v: &JsonValue) -> (r: Result<String, ApiError>)
    ensures
        match spec_token_from(*v) {
            Some(t) => r matches Ok(s) && s@ == t,
            None => r matches Err(e) && e == ApiError::Auth,
        },
{
    match v {
        JsonValue::Obj(fields) => match crate::json::obj_get(fields, "access_token") {
            Some(JsonValue::Str(s)) => Ok(s.clone()),
            _ => Err(ApiError::Auth),
        },
        _ => Err(ApiError::Auth),
    }
}

/// Extracts the access token from a raw token response body: parses the
/// body as JSON, then reads its `access_token` member. Fails with `Auth`
/// on anything other than an object with a string `access_token`.
pub fn extract_access_token(body: &str) -> (r: Result<String, ApiError>)
    ensures
        match json_of(body@) {
            Some(v) => match spec_token_from(v) {
                Some(t) => r matches Ok(s) && s@ == t,
                None => r matches Err(e) && e == ApiError::Auth,
            },
            None => r matches Err(e) && e == ApiError::Auth,
        },
{
    match parse_json(body) {
        Some(v) => token_from_json(&v),
        None => Err(ApiError::Auth),
    }
}

/// The form fields of the client-credentials token request, in the order
/// they are sent: client identifier, client secret, fixed grant type and
/// scope.
pub fn token_request_form(client_id: &str, client_secret: &str) -> (r: Vec<(String, String)>)
    ensures
        r@.len() == 4,
        r@[0].0@ == "client_id"@ && r@[0].1@ == client_id@,
        r@[1].0@ == "client_secret"@ && r@[1].1@ == client_secret@,
        r@[2].0@ == "grant_type"@ && r@[2].1@ == "client_credentials"@,
        r@[3].0@ == "scope"@ && r@[3].1@ == "public"@,
{
    let mut form: Vec<(String, String)> = Vec::new();
    form.push(("client_id".to_owned(), client_id.to_owned()));
    form.push(("client_secret".to_owned(), client_secret.to_owned()));
    form.push(("grant_type".to_owned(), "client_credentials".to_owned()));
    form.push(("scope".to_owned(), "public".to_owned()));
    form
}

} // verus!
