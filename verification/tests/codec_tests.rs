use osu_stats::codec::{
    decode_beatmapset, decode_beatmapsets_body, decode_score, decode_scores_body,
    decode_user, decode_user_body, encode_beatmapset, encode_score, encode_user,
};
use osu_stats::display::format_user;
use osu_stats::error::ApiError;

const PROFILE_BODY: &str = r#"{"username":"Priax","id":27370985,"country_code":"FR","statistics":{"level":{"current":5,"progress":10},"global_rank":1000,"country_rank":50,"pp":1234.5,"hit_accuracy":98.76}}"#;

const BEATMAPSETS_BODY: &str = r#"[{"beatmap_id":129891,"count":334,"beatmap":{"beatmapset_id":39804,"difficulty_rating":6.73,"id":129891,"mode":"osu","status":"ranked","total_length":258,"user_id":504,"version":"FOUR DIMENSIONS"},"beatmapset":{"artist":"xi","artist_unicode":"xi","creator":"ztrot","favourite_count":2,"hype":null,"id":39804,"nsfw":false,"offset":0,"play_count":60466,"preview_url":"//b.ppy.sh/preview/39804.mp3","source":"BMS","spotlight":false,"status":"ranked","title":"FREEDOM DiVE","title_unicode":"FREEDOM DiVE","track_id":131,"user_id":504,"video":false}}]"#;

const SCORES_BODY: &str = r#"[{"accuracy":0.9915,"best_id":4000000000,"created_at":"2024-01-01T00:00:00+00:00","id":4000000001,"max_combo":2384,"mode":"osu","mode_int":0,"mods":["HD","HR"],"passed":true,"perfect":true,"pp":727.27,"rank":"SH","replay":true,"score":132408001,"statistics":{"count_100":14,"count_300":1961,"count_50":0,"count_geki":null,"count_katu":null,"count_miss":0},"type":"score_best_osu","user_id":27370985,"current_user_attributes":{"pin":null},"beatmap":{"beatmapset_id":39804,"difficulty_rating":6.73,"id":129891,"mode":"osu","status":"ranked","total_length":258,"user_id":504,"version":"FOUR DIMENSIONS","accuracy":9,"ar":10,"bpm":222.22,"convert":false,"count_circles":1646,"count_sliders":335,"count_spinners":2,"cs":4,"deleted_at":null,"drain":8,"hit_length":226,"is_scoreable":true,"last_updated":"2014-05-18T17:22:13Z","mode_int":0,"passcount":122583,"playcount":2330633,"ranked":1,"url":"https://osu.ppy.sh/beatmaps/129891","checksum":"da8aae79c8f3306b5d65ec951874a7fb"},"beatmapset":{"artist":"xi","artist_unicode":"xi","covers":{"cover":"https://assets.ppy.sh/39804/cover.jpg","cover@2x":"https://assets.ppy.sh/39804/cover@2x.jpg","card":"https://assets.ppy.sh/39804/card.jpg","card@2x":"https://assets.ppy.sh/39804/card@2x.jpg","list":"https://assets.ppy.sh/39804/list.jpg","list@2x":"https://assets.ppy.sh/39804/list@2x.jpg","slimcover":"https://assets.ppy.sh/39804/slimcover.jpg","slimcover@2x":"https://assets.ppy.sh/39804/slimcover@2x.jpg"},"creator":"ztrot","favourite_count":2,"hype":null,"id":39804,"nsfw":false,"offset":0,"play_count":60466,"preview_url":"//b.ppy.sh/preview/39804.mp3","source":"BMS","spotlight":false,"status":"ranked","title":"FREEDOM DiVE","title_unicode":"FREEDOM DiVE","track_id":null,"user_id":504,"video":false},"user":{"avatar_url":"https://a.ppy.sh/27370985","country_code":"FR","default_group":"default","id":27370985,"is_active":true,"is_bot":false,"is_deleted":false,"is_online":false,"is_supporter":false,"last_visit":"2024-06-01T10:00:00+00:00","pm_friends_only":false,"profile_colour":null,"username":"Priax"},"weight":{"percentage":100.0,"pp":727.27}}]"#;

#[test]
fn profile_decodes_from_sample() {
    let u = decode_user_body(PROFILE_BODY).unwrap();
    assert_eq!(u.username, "Priax");
    assert_eq!(u.id, 27370985);
    assert_eq!(u.country_code, "FR");
    assert_eq!(u.statistics.level.current, 5);
    assert_eq!(u.statistics.level.progress, 10);
    assert_eq!(u.statistics.global_rank, 1000);
    assert_eq!(u.statistics.country_rank, 50);
    assert_eq!(u.statistics.pp, "1234.5");
    assert_eq!(u.statistics.hit_accuracy, "98.76");
}

#[test]
fn profile_display_scenario() {
    let u = decode_user_body(PROFILE_BODY).unwrap();
    let shown = format_user(&u);
    assert!(shown.contains("Username: Priax"));
    assert!(shown.contains("PP: 1234.5"));
    assert_eq!(
        shown,
        "Username: Priax\nID: 27370985\nCountry Code: FR\nStatistics:\n    Level: 5 (Progress: 10%), Global Rank: 1000, Country Rank: 50, PP: 1234.5, Hit Accuracy: 98.76%"
    );
}

#[test]
fn profile_round_trip_preserves_fields() {
    let u = decode_user_body(PROFILE_BODY).unwrap();
    let again = decode_user(&encode_user(&u)).unwrap();
    assert_eq!(again, u);
}

#[test]
fn profile_fields_read_in_any_member_order() {
    let reordered = r#"{"statistics":{"hit_accuracy":98.76,"pp":1234.5,"country_rank":50,"global_rank":1000,"level":{"progress":10,"current":5}},"country_code":"FR","id":27370985,"username":"Priax"}"#;
    let a = decode_user_body(PROFILE_BODY).unwrap();
    let b = decode_user_body(reordered).unwrap();
    assert_eq!(a, b);
}

#[test]
fn profile_missing_member_fails_schema() {
    let body = r#"{"username":"Priax","country_code":"FR","statistics":{"level":{"current":5,"progress":10},"global_rank":1000,"country_rank":50,"pp":1234.5,"hit_accuracy":98.76}}"#;
    assert_eq!(decode_user_body(body), Err(ApiError::Schema));
}

#[test]
fn profile_invalid_json_fails_schema() {
    assert_eq!(decode_user_body("{\"username\":"), Err(ApiError::Schema));
}

#[test]
fn beatmapsets_decode_from_sample() {
    let sets = decode_beatmapsets_body(BEATMAPSETS_BODY).unwrap();
    assert_eq!(sets.len(), 1);
    let s = &sets[0];
    assert_eq!(s.beatmap_id, 129891);
    assert_eq!(s.count, 334);
    assert_eq!(s.beatmap.difficulty_rating, "6.73");
    assert_eq!(s.beatmap.version, "FOUR DIMENSIONS");
    assert_eq!(s.beatmapset.title, "FREEDOM DiVE");
    assert_eq!(s.beatmapset.favourite_count, Some(2));
    assert_eq!(s.beatmapset.hype, None);
    assert_eq!(s.beatmapset.track_id, Some(131));
    assert_eq!(s.beatmapset.nsfw, false);
}

#[test]
fn beatmapset_round_trip_preserves_fields() {
    let sets = decode_beatmapsets_body(BEATMAPSETS_BODY).unwrap();
    let again = decode_beatmapset(&encode_beatmapset(&sets[0])).unwrap();
    assert_eq!(again, sets[0]);
}

#[test]
fn beatmapsets_non_array_fails_schema() {
    assert_eq!(decode_beatmapsets_body("{}"), Err(ApiError::Schema));
}

#[test]
fn scores_decode_from_sample() {
    let scores = decode_scores_body(SCORES_BODY).unwrap();
    assert_eq!(scores.len(), 1);
    let s = &scores[0];
    assert_eq!(s.accuracy, Some(String::from("0.9915")));
    assert_eq!(s.best_id, Some(4000000000));
    assert_eq!(s.max_combo, 2384);
    assert_eq!(s.mode, "osu");
    assert_eq!(s.mods, vec![String::from("HD"), String::from("HR")]);
    assert_eq!(s.pp, Some(String::from("727.27")));
    assert_eq!(s.rank, "SH");
    assert_eq!(s.score, 132408001);
    assert_eq!(s.statistics.count_300, 1961);
    assert_eq!(s.statistics.count_geki, None);
    assert_eq!(s.score_type, "score_best_osu");
    assert_eq!(s.current_user_attributes.pin, None);
    assert_eq!(s.beatmap.accuracy, "9");
    assert_eq!(s.beatmap.bpm, "222.22");
    assert_eq!(s.beatmap.checksum, "da8aae79c8f3306b5d65ec951874a7fb");
    assert_eq!(s.beatmapset.covers.cover2x, "https://assets.ppy.sh/39804/cover@2x.jpg");
    assert_eq!(s.user.username, "Priax");
    assert_eq!(s.user.profile_colour, None);
    let w = s.weight.as_ref().unwrap();
    assert_eq!(w.percentage, "100.0");
    assert_eq!(w.pp, "727.27");
}

#[test]
fn score_round_trip_preserves_fields() {
    let scores = decode_scores_body(SCORES_BODY).unwrap();
    let again = decode_score(&encode_score(&scores[0])).unwrap();
    assert_eq!(again, scores[0]);
}

#[test]
fn score_missing_judgement_count_fails_schema() {
    // count_miss removed from statistics: a mandatory member.
    let body = SCORES_BODY.replace(",\"count_miss\":0", "");
    assert_eq!(decode_scores_body(&body), Err(ApiError::Schema));
}

#[test]
fn score_u32_overflow_fails_schema() {
    let body = SCORES_BODY.replace("\"max_combo\":2384", "\"max_combo\":4294967296");
    assert_eq!(decode_scores_body(&body), Err(ApiError::Schema));
}
