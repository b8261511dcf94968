use osu_stats::client::{beatmapsets_endpoint, scores_endpoint, AccessToken};
use osu_stats::query::{beatmapsets_query, scores_query};
use osu_stats::text::{bool_to_str, u64_to_string};

#[test]
fn decimal_rendering_exact() {
    assert_eq!(u64_to_string(0), "0");
    assert_eq!(u64_to_string(7), "7");
    assert_eq!(u64_to_string(10), "10");
    assert_eq!(u64_to_string(27370985), "27370985");
    assert_eq!(u64_to_string(u64::MAX), "18446744073709551615");
    assert_eq!(bool_to_str(true), "true");
    assert_eq!(bool_to_str(false), "false");
}

#[test]
fn beatmapsets_query_both_absent() {
    assert_eq!(beatmapsets_query(None, None), "");
}

#[test]
fn beatmapsets_query_limit_only() {
    assert_eq!(beatmapsets_query(Some(5), None), "?limit=5");
}

#[test]
fn beatmapsets_query_offset_only_starts_with_question_mark() {
    // Regression target: an absent limit with a present offset must not
    // produce a query string that begins with '&'.
    assert_eq!(beatmapsets_query(None, Some(1)), "?offset=1");
}

#[test]
fn beatmapsets_query_both_present() {
    assert_eq!(beatmapsets_query(Some(5), Some(1)), "?limit=5&offset=1");
}

#[test]
fn scores_query_mode_only() {
    assert_eq!(scores_query(None, None, None, "osu"), "?mode=osu");
}

#[test]
fn scores_query_offset_without_limit() {
    assert_eq!(scores_query(None, Some(3), None, "mania"), "?offset=3&mode=mania");
}

#[test]
fn scores_query_include_fails_only() {
    assert_eq!(
        scores_query(None, None, Some(true), "osu"),
        "?include_fails=true&mode=osu"
    );
}

#[test]
fn scores_query_all_present() {
    assert_eq!(
        scores_query(Some(5), Some(1), Some(false), "osu"),
        "?limit=5&offset=1&include_fails=false&mode=osu"
    );
}

#[test]
fn scores_query_scenario_limit_and_fails() {
    // limit=5, offset absent, include_fails=false, mode=osu.
    assert_eq!(
        scores_query(Some(5), None, Some(false), "osu"),
        "?limit=5&include_fails=false&mode=osu"
    );
}

#[test]
fn endpoint_addresses() {
    let session = AccessToken::new(String::from("tok"), String::from("Priax"));
    assert_eq!(session.user_endpoint(), "https://osu.ppy.sh/api/v2/users/Priax");
    assert_eq!(session.auth_header(), "Bearer tok");
    assert_eq!(
        beatmapsets_endpoint(27370985, "most_played", Some(5), Some(1)),
        "https://osu.ppy.sh/api/v2/users/27370985/beatmapsets/most_played?limit=5&offset=1"
    );
    assert_eq!(
        scores_endpoint(27370985, "best", "osu", Some(5), None, Some(false)),
        "https://osu.ppy.sh/api/v2/users/27370985/scores/best?limit=5&include_fails=false&mode=osu"
    );
}
