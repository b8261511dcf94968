use osu_stats::client::AccessToken;
use osu_stats::error::ApiError;
use osu_stats::token::{extract_access_token, token_request_form};

#[test]
fn token_extracted_from_valid_response() {
    let r = extract_access_token("{\"access_token\":\"abc123\"}");
    assert_eq!(r, Ok(String::from("abc123")));
}

#[test]
fn token_extracted_ignores_other_members() {
    let r = extract_access_token(
        "{\"token_type\":\"Bearer\",\"expires_in\":86400,\"access_token\":\"xyz\"}",
    );
    assert_eq!(r, Ok(String::from("xyz")));
}

#[test]
fn token_missing_member_fails_auth() {
    let r = extract_access_token("{\"token_type\":\"Bearer\"}");
    assert_eq!(r, Err(ApiError::Auth));
}

#[test]
fn token_non_string_member_fails_auth() {
    let r = extract_access_token("{\"access_token\":42}");
    assert_eq!(r, Err(ApiError::Auth));
}

#[test]
fn token_invalid_json_fails_auth() {
    let r = extract_access_token("not json at all");
    assert_eq!(r, Err(ApiError::Auth));
}

#[test]
fn token_non_object_fails_auth() {
    let r = extract_access_token("[\"access_token\"]");
    assert_eq!(r, Err(ApiError::Auth));
}

#[test]
fn session_from_token_response() {
    let a = AccessToken::from_token_response("{\"access_token\":\"abc123\"}", "Priax").unwrap();
    assert_eq!(a.access_token, "abc123");
    assert_eq!(a.user_id, "Priax");
    assert_eq!(a.auth_header(), "Bearer abc123");
}

#[test]
fn token_request_form_fields() {
    let form = token_request_form("32002", "SECRET-REDACTED");
    assert_eq!(form.len(), 4);
    assert_eq!(form[0], (String::from("client_id"), String::from("32002")));
    assert_eq!(
        form[1],
        (String::from("client_secret"), String::from("SECRET-REDACTED"))
    );
    assert_eq!(
        form[2],
        (String::from("grant_type"), String::from("client_credentials"))
    );
    assert_eq!(form[3], (String::from("scope"), String::from("public")));
}

#[test]
fn error_descriptions_name_each_stage() {
    assert_eq!(ApiError::Config.describe(), "missing client secret");
    assert_eq!(ApiError::Auth.describe(), "token request failed");
    assert_eq!(ApiError::Network.describe(), "network failure");
    assert_eq!(
        ApiError::Schema.describe(),
        "response did not match the expected shape"
    );
}
