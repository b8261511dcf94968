//! The JSON codec of the record types: for each record an exact relation
//! between a record and its JSON object, a spec-level decoder over member
//! lookup, a verified decoder and encoder, and a round-trip law stating
//! that decoding an encoded record yields the record back.
use crate::error::ApiError;
use crate::json::{
    get_bool, get_numtext, get_opt_numtext, get_opt_str, get_opt_u32, get_opt_u64, get_str,
    get_strs, get_u32, get_u64, obj_get, sget_bool, sget_numtext, sget_opt_numtext, sget_opt_str,
    sget_opt_u32, sget_opt_u64, sget_str, sget_strs, sget_u32, sget_u64, spec_obj_get,
    spec_str_items, JsonValue,
};
use crate::models::{Beatmap, BeatmapInfo, BeatmapInfoV, BeatmapSetInfo, BeatmapSetInfoV, BeatmapV, Beatmapset, BeatmapsetData, BeatmapsetDataV, BeatmapsetV, Covers, CoversV, CurrentUserAttributes, CurrentUserAttributesV, Level, LevelV, Score, ScoreV, Statistics, StatisticsV, Stats, StatsV, User, UserInfo, UserInfoV, UserV, Weight, WeightV};
use crate::parse::{json_of, parse_json};
use vstd::prelude::*;

verus! {

broadcast use vstd::std_specs::control_flow::group_control_flow_axioms;

/// `v` is the string `t`.
pub open spec fn is_str(v: JsonValue, t: Seq<char>) -> bool {
    v matches JsonValue::Str(s) && s@ == t
}

/// `v` is a non-integral number with decimal text `t`.
pub open spec fn is_num(v: JsonValue, t: Seq<char>) -> bool {
    v matches JsonValue::Num(s) && s@ == t
}

/// `v` renders an optional integer: null for absent.
pub open spec fn is_opt_uint(v: JsonValue, o: Option<u64>) -> bool {
    match o {
        Some(u) => v == JsonValue::UInt(u),
        None => v == JsonValue::Null,
    }
}

/// `v` renders an optional 32-bit integer: null for absent.
pub open spec fn is_opt_uint32(v: JsonValue, o: Option<u32>) -> bool {
    match o {
        Some(u) => v == JsonValue::UInt(u as u64),
        None => v == JsonValue::Null,
    }
}

/// `v` renders an optional string: null for absent.
pub open spec fn is_opt_str(v: JsonValue, o: Option<Seq<char>>) -> bool {
    match o {
        Some(t) => is_str(v, t),
        None => v == JsonValue::Null,
    }
}

/// `v` renders an optional number: null for absent.
pub open spec fn is_opt_num(v: JsonValue, o: Option<Seq<char>>) -> bool {
    match o {
        Some(t) => is_num(v, t),
        None => v == JsonValue::Null,
    }
}

/// `v` is an array holding exactly the strings `ts`, in order.
pub open spec fn is_strs(v: JsonValue, ts: Seq<Seq<char>>) -> bool {
    v matches JsonValue::Arr(items) && spec_str_items(items@) == Some(ts)
}

proof fn lemma_str_items_push(items: Seq<JsonValue>, s: String)
    ensures
        spec_str_items(items.push(JsonValue::Str(s))) == (match spec_str_items(items) {
            Some(ts) => Some(ts.push(s@)),
            None => None::<Seq<Seq<char>>>,
        }),
    decreases items.len(),
{
    let pushed = items.push(JsonValue::Str(s));
    if items.len() == 0 {
        assert(pushed.drop_first() =~= Seq::<JsonValue>::empty());
        match spec_str_items(items) {
            Some(ts) => {
                assert(ts =~= Seq::<Seq<char>>::empty());
                assert(seq![s@] + Seq::<Seq<char>>::empty() =~= ts.push(s@));
            },
            None => {},
        }
    } else {
        assert(pushed.drop_first() =~= items.drop_first().push(JsonValue::Str(s)));
        lemma_str_items_push(items.drop_first(), s);
        match items[0] {
            JsonValue::Str(h) => {
                match spec_str_items(items.drop_first()) {
                    Some(rest) => {
                        assert(seq![h@] + rest.push(s@) =~= (seq![h@] + rest).push(s@));
                    },
                    None => {},
                }
            },
            _ => {},
        }
    }
}

/// Encodes a vector of strings as a JSON array of strings.
fn encode_strs(xs: &Vec<String>) -> (v: JsonValue)
    ensures
        is_strs(v, xs.deep_view()),
{
    let mut items: Vec<JsonValue> = Vec::new();
    let mut i: usize = 0;
    proof {
        assert(spec_str_items(items@) == Some(Seq::<Seq<char>>::empty()));
        assert(xs.deep_view().take(0) =~= Seq::<Seq<char>>::empty());
    }
    while i < xs.len()
        invariant
            i <= xs.len(),
            spec_str_items(items@) == Some(xs.deep_view().take(i as int)),
        decreases xs.len() - i,
    {
        let ghost prev = items@;
        items.push(JsonValue::Str(xs[i].clone()));
        proof {
            lemma_str_items_push(prev, xs@[i as int]);
            assert(xs.deep_view().take(i as int).push(xs@[i as int]@) =~= xs.deep_view().take(
                i + 1,
            ));
        }
        i = i + 1;
    }
    proof {
        assert(xs.deep_view().take(xs.len() as int) =~= xs.deep_view());
    }
    JsonValue::Arr(items)
}

/// The JSON object that renders a `Level`: its members in canonical
/// order, each holding the corresponding field.
pub open spec fn encodes_level(v: JsonValue, x: LevelV) -> bool {
    match v {
        JsonValue::Obj(fields) => {
            let s = fields@;
            s.len() == 2 && s[0].0@ == "current"@ && s[0].1 == JsonValue::UInt(x.current) && s[1].0@ == "progress"@ && s[1].1 == JsonValue::UInt(x.progress)
        },
        _ => false,
    }
}

/// The `Level` held by a member, if it decodes.
pub open spec fn sget_level(s: Seq<(String, JsonValue)>, key: Seq<char>) -> Option<LevelV> {
    match spec_obj_get(s, key) {
        Some(w) => spec_decode_level(w),
        None => None,
    }
}

/// What a JSON value decodes to as a `Level`, if anything: every
/// mandatory member present with the right shape, optional members
/// absent, null or well-shaped.
pub open spec fn spec_decode_level(v: JsonValue) -> Option<LevelV> {
    match v {
        JsonValue::Obj(fields) => {
            let s = fields@;
            if sget_u64(s, "current"@) is Some && sget_u64(s, "progress"@) is Some {
                Some(LevelV {
                    current: sget_u64(s, "current"@)->0,
                    progress: sget_u64(s, "progress"@)->0,
                })
            } else {
                None
            }
        },
        _ => None,
    }
}

/// Decodes a `Level` from a JSON value; fails with `Schema` exactly
/// when the value does not decode.
pub fn decode_level(v: &JsonValue) -> (r: Result<Level, ApiError>)
    ensures
        match spec_decode_level(*v) {
            Some(x) => r matches Ok(d) && d@ == x,
            None => r matches Err(e) && e == ApiError::Schema,
        },
{
    match v {
        JsonValue::Obj(fields) => {
            let current = get_u64(fields, "current")?;
            let progress = get_u64(fields, "progress")?;
            Ok(Level {
                current: current,
                progress: progress,
            })
        },
        _ => Err(ApiError::Schema),
    }
}

/// Encodes a `Level` as its canonical JSON object.
pub fn encode_level(x: &Level) -> (v: JsonValue)
    ensures
        encodes_level(v, x@),
{
    let mut fields: Vec<(String, JsonValue)> = Vec::new();
    fields.push(("current".to_owned(), JsonValue::UInt(x.current)));
    fields.push(("progress".to_owned(), JsonValue::UInt(x.progress)));
    JsonValue::Obj(fields)
}

/// Round trip: a JSON object that renders a `Level` decodes back to
/// exactly that record.
pub proof fn lemma_level_roundtrip(v: JsonValue, x: LevelV)
    requires
        encodes_level(v, x),
    ensures
        spec_decode_level(v) == Some(x),
{
    reveal_with_fuel(spec_obj_get, 4);
    reveal_strlit("current");
    reveal_strlit("progress");
    let s = v->Obj_0@;
    assert(("current"@).len() == 7);
    assert(("progress"@).len() == 8);
    assert(spec_obj_get(s, "current"@) == Some(s[0].1));
    assert(spec_obj_get(s, "progress"@) == Some(s[1].1));
    assert(spec_decode_level(v) == Some(x));
}

/// The JSON object that renders a `Statistics`: its members in canonical
/// order, each holding the corresponding field.
pub open spec fn encodes_statistics(v: JsonValue, x: StatisticsV) -> bool {
    match v {
        JsonValue::Obj(fields) => {
            let s = fields@;
            s.len() == 5 && s[0].0@ == "level"@ && encodes_level(s[0].1, x.level) && s[1].0@ == "global_rank"@ && s[1].1 == JsonValue::UInt(x.global_rank) && s[2].0@ == "country_rank"@ && s[2].1 == JsonValue::UInt(x.country_rank) && s[3].0@ == "pp"@ && is_num(s[3].1, x.pp) && s[4].0@ == "hit_accuracy"@ && is_num(s[4].1, x.hit_accuracy)
        },
        _ => false,
    }
}

/// The `Statistics` held by a member, if it decodes.
pub open spec fn sget_statistics(s: Seq<(String, JsonValue)>, key: Seq<char>) -> Option<StatisticsV> {
    match spec_obj_get(s, key) {
        Some(w) => spec_decode_statistics(w),
        None => None,
    }
}

/// What a JSON value decodes to as a `Statistics`, if anything: every
/// mandatory member present with the right shape, optional members
/// absent, null or well-shaped.
pub open spec fn spec_decode_statistics(v: JsonValue) -> Option<StatisticsV> {
    match v {
        JsonValue::Obj(fields) => {
            let s = fields@;
            if sget_level(s, "level"@) is Some && sget_u64(s, "global_rank"@) is Some && sget_u64(s, "country_rank"@) is Some && sget_numtext(s, "pp"@) is Some && sget_numtext(s, "hit_accuracy"@) is Some {
                Some(StatisticsV {
                    level: sget_level(s, "level"@)->0,
                    global_rank: sget_u64(s, "global_rank"@)->0,
                    country_rank: sget_u64(s, "country_rank"@)->0,
                    pp: sget_numtext(s, "pp"@)->0,
                    hit_accuracy: sget_numtext(s, "hit_accuracy"@)->0,
                })
            } else {
                None
            }
        },
        _ => None,
    }
}

/// Decodes a `Statistics` from a JSON value; fails with `Schema` exactly
/// when the value does not decode.
pub fn decode_statistics(v: &JsonValue) -> (r: Result<Statistics, ApiError>)
    ensures
        match spec_decode_statistics(*v) {
            Some(x) => r matches Ok(d) && d@ == x,
            None => r matches Err(e) && e == ApiError::Schema,
        },
{
    match v {
        JsonValue::Obj(fields) => {
            let level = match obj_get(fields, "level") {
                Some(w) => decode_level(w)?,
                None => {
                    return Err(ApiError::Schema);
                },
            };
            let global_rank = get_u64(fields, "global_rank")?;
            let country_rank = get_u64(fields, "country_rank")?;
            let pp = get_numtext(fields, "pp")?;
            let hit_accuracy = get_numtext(fields, "hit_accuracy")?;
            Ok(Statistics {
                level: level,
                global_rank: global_rank,
                country_rank: country_rank,
                pp: pp,
                hit_accuracy: hit_accuracy,
            })
        },
        _ => Err(ApiError::Schema),
    }
}

/// Encodes a `Statistics` as its canonical JSON object.
pub fn encode_statistics(x: &Statistics) -> (v: JsonValue)
    ensures
        encodes_statistics(v, x@),
{
    let mut fields: Vec<(String, JsonValue)> = Vec::new();
    fields.push(("level".to_owned(), encode_level(&x.level)));
    fields.push(("global_rank".to_owned(), JsonValue::UInt(x.global_rank)));
    fields.push(("country_rank".to_owned(), JsonValue::UInt(x.country_rank)));
    fields.push(("pp".to_owned(), JsonValue::Num(x.pp.clone())));
    fields.push(("hit_accuracy".to_owned(), JsonValue::Num(x.hit_accuracy.clone())));
    JsonValue::Obj(fields)
}

/// Round trip: a JSON object that renders a `Statistics` decodes back to
/// exactly that record.
pub proof fn lemma_statistics_roundtrip(v: JsonValue, x: StatisticsV)
    requires
        encodes_statistics(v, x),
    ensures
        spec_decode_statistics(v) == Some(x),
{
    reveal_with_fuel(spec_obj_get, 7);
    reveal_strlit("country_rank");
    reveal_strlit("global_rank");
    reveal_strlit("hit_accuracy");
    reveal_strlit("level");
    reveal_strlit("pp");
    let s = v->Obj_0@;
    assert(("country_rank"@).len() == 12);
    assert(("global_rank"@).len() == 11);
    assert(("hit_accuracy"@).len() == 12);
    assert(("level"@).len() == 5);
    assert(("pp"@).len() == 2);
    assert(("country_rank"@)[0] != ("hit_accuracy"@)[0]);
    assert(spec_obj_get(s, "level"@) == Some(s[0].1));
    assert(spec_obj_get(s, "global_rank"@) == Some(s[1].1));
    assert(spec_obj_get(s, "country_rank"@) == Some(s[2].1));
    assert(spec_obj_get(s, "pp"@) == Some(s[3].1));
    assert(spec_obj_get(s, "hit_accuracy"@) == Some(s[4].1));
    lemma_level_roundtrip(s[0].1, x.level);
    assert(spec_decode_statistics(v) == Some(x));
}

/// The JSON object that renders a `User`: its members in canonical
/// order, each holding the corresponding field.
pub open spec fn encodes_user(v: JsonValue, x: UserV) -> bool {
    match v {
        JsonValue::Obj(fields) => {
            let s = fields@;
            s.len() == 4 && s[0].0@ == "username"@ && is_str(s[0].1, x.username) && s[1].0@ == "id"@ && s[1].1 == JsonValue::UInt(x.id) && s[2].0@ == "country_code"@ && is_str(s[2].1, x.country_code) && s[3].0@ == "statistics"@ && encodes_statistics(s[3].1, x.statistics)
        },
        _ => false,
    }
}

/// The `User` held by a member, if it decodes.
pub open spec fn sget_user(s: Seq<(String, JsonValue)>, key: Seq<char>) -> Option<UserV> {
    match spec_obj_get(s, key) {
        Some(w) => spec_decode_user(w),
        None => None,
    }
}

/// What a JSON value decodes to as a `User`, if anything: every
/// mandatory member present with the right shape, optional members
/// absent, null or well-shaped.
pub open spec fn spec_decode_user(v: JsonValue) -> Option<UserV> {
    match v {
        JsonValue::Obj(fields) => {
            let s = fields@;
            if sget_str(s, "username"@) is Some && sget_u64(s, "id"@) is Some && sget_str(s, "country_code"@) is Some && sget_statistics(s, "statistics"@) is Some {
                Some(UserV {
                    username: sget_str(s, "username"@)->0,
                    id: sget_u64(s, "id"@)->0,
                    country_code: sget_str(s, "country_code"@)->0,
                    statistics: sget_statistics(s, "statistics"@)->0,
                })
            } else {
                None
            }
        },
        _ => None,
    }
}

/// Decodes a `User` from a JSON value; fails with `Schema` exactly
/// when the value does not decode.
pub fn decode_user(v: &JsonValue) -> (r: Result<User, ApiError>)
    ensures
        match spec_decode_user(*v) {
            Some(x) => r matches Ok(d) && d@ == x,
            None => r matches Err(e) && e == ApiError::Schema,
        },
{
    match v {
        JsonValue::Obj(fields) => {
            let username = get_str(fields, "username")?;
            let id = get_u64(fields, "id")?;
            let country_code = get_str(fields, "country_code")?;
            let statistics = match obj_get(fields, "statistics") {
                Some(w) => decode_statistics(w)?,
                None => {
                    return Err(ApiError::Schema);
                },
            };
            Ok(User {
                username: username,
                id: id,
                country_code: country_code,
                statistics: statistics,
            })
        },
        _ => Err(ApiError::Schema),
    }
}

/// Encodes a `User` as its canonical JSON object.
pub fn encode_user(x: &User) -> (v: JsonValue)
    ensures
        encodes_user(v, x@),
{
    let mut fields: Vec<(String, JsonValue)> = Vec::new();
    fields.push(("username".to_owned(), JsonValue::Str(x.username.clone())));
    fields.push(("id".to_owned(), JsonValue::UInt(x.id)));
    fields.push(("country_code".to_owned(), JsonValue::Str(x.country_code.clone())));
    fields.push(("statistics".to_owned(), encode_statistics(&x.statistics)));
    JsonValue::Obj(fields)
}

/// Round trip: a JSON object that renders a `User` decodes back to
/// exactly that record.
pub proof fn lemma_user_roundtrip(v: JsonValue, x: UserV)
    requires
        encodes_user(v, x),
    ensures
        spec_decode_user(v) == Some(x),
{
    reveal_with_fuel(spec_obj_get, 6);
    reveal_strlit("country_code");
    reveal_strlit("id");
    reveal_strlit("statistics");
    reveal_strlit("username");
    let s = v->Obj_0@;
    assert(("country_code"@).len() == 12);
    assert(("id"@).len() == 2);
    assert(("statistics"@).len() == 10);
    assert(("username"@).len() == 8);
    assert(spec_obj_get(s, "username"@) == Some(s[0].1));
    assert(spec_obj_get(s, "id"@) == Some(s[1].1));
    assert(spec_obj_get(s, "country_code"@) == Some(s[2].1));
    assert(spec_obj_get(s, "statistics"@) == Some(s[3].1));
    lemma_statistics_roundtrip(s[3].1, x.statistics);
    assert(spec_decode_user(v) == Some(x));
}

/// The JSON object that renders a `Beatmap`: its members in canonical
/// order, each holding the corresponding field.
pub open spec fn encodes_beatmap(v: JsonValue, x: BeatmapV) -> bool {
    match v {
        JsonValue::Obj(fields) => {
            let s = fields@;
            s.len() == 8 && s[0].0@ == "beatmapset_id"@ && s[0].1 == JsonValue::UInt(x.beatmapset_id) && s[1].0@ == "difficulty_rating"@ && is_num(s[1].1, x.difficulty_rating) && s[2].0@ == "id"@ && s[2].1 == JsonValue::UInt(x.id) && s[3].0@ == "mode"@ && is_str(s[3].1, x.mode) && s[4].0@ == "status"@ && is_str(s[4].1, x.status) && s[5].0@ == "total_length"@ && s[5].1 == JsonValue::UInt(x.total_length) && s[6].0@ == "user_id"@ && s[6].1 == JsonValue::UInt(x.user_id) && s[7].0@ == "version"@ && is_str(s[7].1, x.version)
        },
        _ => false,
    }
}

/// The `Beatmap` held by a member, if it decodes.
pub open spec fn sget_beatmap(s: Seq<(String, JsonValue)>, key: Seq<char>) -> Option<BeatmapV> {
    match spec_obj_get(s, key) {
        Some(w) => spec_decode_beatmap(w),
        None => None,
    }
}

/// What a JSON value decodes to as a `Beatmap`, if anything: every
/// mandatory member present with the right shape, optional members
/// absent, null or well-shaped.
pub open spec fn spec_decode_beatmap(v: JsonValue) -> Option<BeatmapV> {
    match v {
        JsonValue::Obj(fields) => {
            let s = fields@;
            if sget_u64(s, "beatmapset_id"@) is Some && sget_numtext(s, "difficulty_rating"@) is Some && sget_u64(s, "id"@) is Some && sget_str(s, "mode"@) is Some && sget_str(s, "status"@) is Some && sget_u64(s, "total_length"@) is Some && sget_u64(s, "user_id"@) is Some && sget_str(s, "version"@) is Some {
                Some(BeatmapV {
                    beatmapset_id: sget_u64(s, "beatmapset_id"@)->0,
                    difficulty_rating: sget_numtext(s, "difficulty_rating"@)->0,
                    id: sget_u64(s, "id"@)->0,
                    mode: sget_str(s, "mode"@)->0,
                    status: sget_str(s, "status"@)->0,
                    total_length: sget_u64(s, "total_length"@)->0,
                    user_id: sget_u64(s, "user_id"@)->0,
                    version: sget_str(s, "version"@)->0,
                })
            } else {
                None
            }
        },
        _ => None,
    }
}

/// Decodes a `Beatmap` from a JSON value; fails with `Schema` exactly
/// when the value does not decode.
pub fn decode_beatmap(v: &JsonValue) -> (r: Result<Beatmap, ApiError>)
    ensures
        match spec_decode_beatmap(*v) {
            Some(x) => r matches Ok(d) && d@ == x,
            None => r matches Err(e) && e == ApiError::Schema,
        },
{
    match v {
        JsonValue::Obj(fields) => {
            let beatmapset_id = get_u64(fields, "beatmapset_id")?;
            let difficulty_rating = get_numtext(fields, "difficulty_rating")?;
            let id = get_u64(fields, "id")?;
            let mode = get_str(fields, "mode")?;
            let status = get_str(fields, "status")?;
            let total_length = get_u64(fields, "total_length")?;
            let user_id = get_u64(fields, "user_id")?;
            let version = get_str(fields, "version")?;
            Ok(Beatmap {
                beatmapset_id: beatmapset_id,
                difficulty_rating: difficulty_rating,
                id: id,
                mode: mode,
                status: status,
                total_length: total_length,
                user_id: user_id,
                version: version,
            })
        },
        _ => Err(ApiError::Schema),
    }
}

/// Encodes a `Beatmap` as its canonical JSON object.
pub fn encode_beatmap(x: &Beatmap) -> (v: JsonValue)
    ensures
        encodes_beatmap(v, x@),
{
    let mut fields: Vec<(String, JsonValue)> = Vec::new();
    fields.push(("beatmapset_id".to_owned(), JsonValue::UInt(x.beatmapset_id)));
    fields.push(("difficulty_rating".to_owned(), JsonValue::Num(x.difficulty_rating.clone())));
    fields.push(("id".to_owned(), JsonValue::UInt(x.id)));
    fields.push(("mode".to_owned(), JsonValue::Str(x.mode.clone())));
    fields.push(("status".to_owned(), JsonValue::Str(x.status.clone())));
    fields.push(("total_length".to_owned(), JsonValue::UInt(x.total_length)));
    fields.push(("user_id".to_owned(), JsonValue::UInt(x.user_id)));
    fields.push(("version".to_owned(), JsonValue::Str(x.version.clone())));
    JsonValue::Obj(fields)
}

/// Round trip: a JSON object that renders a `Beatmap` decodes back to
/// exactly that record.
pub proof fn lemma_beatmap_roundtrip(v: JsonValue, x: BeatmapV)
    requires
        encodes_beatmap(v, x),
    ensures
        spec_decode_beatmap(v) == Some(x),
{
    reveal_with_fuel(spec_obj_get, 10);
    reveal_strlit("beatmapset_id");
    reveal_strlit("difficulty_rating");
    reveal_strlit("id");
    reveal_strlit("mode");
    reveal_strlit("status");
    reveal_strlit("total_length");
    reveal_strlit("user_id");
    reveal_strlit("version");
    let s = v->Obj_0@;
    assert(("beatmapset_id"@).len() == 13);
    assert(("difficulty_rating"@).len() == 17);
    assert(("id"@).len() == 2);
    assert(("mode"@).len() == 4);
    assert(("status"@).len() == 6);
    assert(("total_length"@).len() == 12);
    assert(("user_id"@).len() == 7);
    assert(("version"@).len() == 7);
    assert(("user_id"@)[0] != ("version"@)[0]);
    assert(spec_obj_get(s, "beatmapset_id"@) == Some(s[0].1));
    assert(spec_obj_get(s, "difficulty_rating"@) == Some(s[1].1));
    assert(spec_obj_get(s, "id"@) == Some(s[2].1));
    assert(spec_obj_get(s, "mode"@) == Some(s[3].1));
    assert(spec_obj_get(s, "status"@) == Some(s[4].1));
    assert(spec_obj_get(s, "total_length"@) == Some(s[5].1));
    assert(spec_obj_get(s, "user_id"@) == Some(s[6].1));
    assert(spec_obj_get(s, "version"@) == Some(s[7].1));
    assert(spec_decode_beatmap(v) == Some(x));
}

/// The JSON object that renders a `BeatmapsetData`: its members in canonical
/// order, each holding the corresponding field.
pub open spec fn encodes_beatmapset_data(v: JsonValue, x: BeatmapsetDataV) -> bool {
    match v {
        JsonValue::Obj(fields) => {
            let s = fields@;
            s.len() == 18 && s[0].0@ == "artist"@ && is_str(s[0].1, x.artist) && s[1].0@ == "artist_unicode"@ && is_str(s[1].1, x.artist_unicode) && s[2].0@ == "creator"@ && is_str(s[2].1, x.creator) && s[3].0@ == "favourite_count"@ && is_opt_uint(s[3].1, x.favourite_count) && s[4].0@ == "hype"@ && is_opt_str(s[4].1, x.hype) && s[5].0@ == "id"@ && s[5].1 == JsonValue::UInt(x.id) && s[6].0@ == "nsfw"@ && s[6].1 == JsonValue::Bool(x.nsfw) && s[7].0@ == "offset"@ && s[7].1 == JsonValue::UInt(x.offset) && s[8].0@ == "play_count"@ && s[8].1 == JsonValue::UInt(x.play_count) && s[9].0@ == "preview_url"@ && is_str(s[9].1, x.preview_url) && s[10].0@ == "source"@ && is_str(s[10].1, x.source) && s[11].0@ == "spotlight"@ && s[11].1 == JsonValue::Bool(x.spotlight) && s[12].0@ == "status"@ && is_str(s[12].1, x.status) && s[13].0@ == "title"@ && is_str(s[13].1, x.title) && s[14].0@ == "title_unicode"@ && is_str(s[14].1, x.title_unicode) && s[15].0@ == "track_id"@ && is_opt_uint(s[15].1, x.track_id) && s[16].0@ == "user_id"@ && s[16].1 == JsonValue::UInt(x.user_id) && s[17].0@ == "video"@ && s[17].1 == JsonValue::Bool(x.video)
        },
        _ => false,
    }
}

/// The `BeatmapsetData` held by a member, if it decodes.
pub open spec fn sget_beatmapset_data(s: Seq<(String, JsonValue)>, key: Seq<char>) -> Option<BeatmapsetDataV> {
    match spec_obj_get(s, key) {
        Some(w) => spec_decode_beatmapset_data(w),
        None => None,
    }
}

/// What a JSON value decodes to as a `BeatmapsetData`, if anything: every
/// mandatory member present with the right shape, optional members
/// absent, null or well-shaped.
pub open spec fn spec_decode_beatmapset_data(v: JsonValue) -> Option<BeatmapsetDataV> {
    match v {
        JsonValue::Obj(fields) => {
            let s = fields@;
            if sget_str(s, "artist"@) is Some && sget_str(s, "artist_unicode"@) is Some && sget_str(s, "creator"@) is Some && sget_opt_u64(s, "favourite_count"@) is Some && sget_opt_str(s, "hype"@) is Some && sget_u64(s, "id"@) is Some && sget_bool(s, "nsfw"@) is Some && sget_u64(s, "offset"@) is Some && sget_u64(s, "play_count"@) is Some && sget_str(s, "preview_url"@) is Some && sget_str(s, "source"@) is Some && sget_bool(s, "spotlight"@) is Some && sget_str(s, "status"@) is Some && sget_str(s, "title"@) is Some && sget_str(s, "title_unicode"@) is Some && sget_opt_u64(s, "track_id"@) is Some && sget_u64(s, "user_id"@) is Some && sget_bool(s, "video"@) is Some {
                Some(BeatmapsetDataV {
                    artist: sget_str(s, "artist"@)->0,
                    artist_unicode: sget_str(s, "artist_unicode"@)->0,
                    creator: sget_str(s, "creator"@)->0,
                    favourite_count: sget_opt_u64(s, "favourite_count"@)->0,
                    hype: sget_opt_str(s, "hype"@)->0,
                    id: sget_u64(s, "id"@)->0,
                    nsfw: sget_bool(s, "nsfw"@)->0,
                    offset: sget_u64(s, "offset"@)->0,
                    play_count: sget_u64(s, "play_count"@)->0,
                    preview_url: sget_str(s, "preview_url"@)->0,
                    source: sget_str(s, "source"@)->0,
                    spotlight: sget_bool(s, "spotlight"@)->0,
                    status: sget_str(s, "status"@)->0,
                    title: sget_str(s, "title"@)->0,
                    title_unicode: sget_str(s, "title_unicode"@)->0,
                    track_id: sget_opt_u64(s, "track_id"@)->0,
                    user_id: sget_u64(s, "user_id"@)->0,
                    video: sget_bool(s, "video"@)->0,
                })
            } else {
                None
            }
        },
        _ => None,
    }
}

/// Decodes a `BeatmapsetData` from a JSON value; fails with `Schema` exactly
/// when the value does not decode.
pub fn decode_beatmapset_data(v: &JsonValue) -> (r: Result<BeatmapsetData, ApiError>)
    ensures
        match spec_decode_beatmapset_data(*v) {
            Some(x) => r matches Ok(d) && d@ == x,
            None => r matches Err(e) && e == ApiError::Schema,
        },
{
    match v {
        JsonValue::Obj(fields) => {
            let artist = get_str(fields, "artist")?;
            let artist_unicode = get_str(fields, "artist_unicode")?;
            let creator = get_str(fields, "creator")?;
            let favourite_count = get_opt_u64(fields, "favourite_count")?;
            let hype = get_opt_str(fields, "hype")?;
            let id = get_u64(fields, "id")?;
            let nsfw = get_bool(fields, "nsfw")?;
            let offset = get_u64(fields, "offset")?;
            let play_count = get_u64(fields, "play_count")?;
            let preview_url = get_str(fields, "preview_url")?;
            let source = get_str(fields, "source")?;
            let spotlight = get_bool(fields, "spotlight")?;
            let status = get_str(fields, "status")?;
            let title = get_str(fields, "title")?;
            let title_unicode = get_str(fields, "title_unicode")?;
            let track_id = get_opt_u64(fields, "track_id")?;
            let user_id = get_u64(fields, "user_id")?;
            let video = get_bool(fields, "video")?;
            Ok(BeatmapsetData {
                artist: artist,
                artist_unicode: artist_unicode,
                creator: creator,
                favourite_count: favourite_count,
                hype: hype,
                id: id,
                nsfw: nsfw,
                offset: offset,
                play_count: play_count,
                preview_url: preview_url,
                source: source,
                spotlight: spotlight,
                status: status,
                title: title,
                title_unicode: title_unicode,
                track_id: track_id,
                user_id: user_id,
                video: video,
            })
        },
        _ => Err(ApiError::Schema),
    }
}

/// Encodes a `BeatmapsetData` as its canonical JSON object.
pub fn encode_beatmapset_data(x: &BeatmapsetData) -> (v: JsonValue)
    ensures
        encodes_beatmapset_data(v, x@),
{
    let mut fields: Vec<(String, JsonValue)> = Vec::new();
    fields.push(("artist".to_owned(), JsonValue::Str(x.artist.clone())));
    fields.push(("artist_unicode".to_owned(), JsonValue::Str(x.artist_unicode.clone())));
    fields.push(("creator".to_owned(), JsonValue::Str(x.creator.clone())));
    let favourite_count_v = match x.favourite_count {
        Some(u) => JsonValue::UInt(u),
        None => JsonValue::Null,
    };
    fields.push(("favourite_count".to_owned(), favourite_count_v));
    let hype_v = match &x.hype {
        Some(s) => JsonValue::Str(s.clone()),
        None => JsonValue::Null,
    };
    fields.push(("hype".to_owned(), hype_v));
    fields.push(("id".to_owned(), JsonValue::UInt(x.id)));
    fields.push(("nsfw".to_owned(), JsonValue::Bool(x.nsfw)));
    fields.push(("offset".to_owned(), JsonValue::UInt(x.offset)));
    fields.push(("play_count".to_owned(), JsonValue::UInt(x.play_count)));
    fields.push(("preview_url".to_owned(), JsonValue::Str(x.preview_url.clone())));
    fields.push(("source".to_owned(), JsonValue::Str(x.source.clone())));
    fields.push(("spotlight".to_owned(), JsonValue::Bool(x.spotlight)));
    fields.push(("status".to_owned(), JsonValue::Str(x.status.clone())));
    fields.push(("title".to_owned(), JsonValue::Str(x.title.clone())));
    fields.push(("title_unicode".to_owned(), JsonValue::Str(x.title_unicode.clone())));
    let track_id_v = match x.track_id {
        Some(u) => JsonValue::UInt(u),
        None => JsonValue::Null,
    };
    fields.push(("track_id".to_owned(), track_id_v));
    fields.push(("user_id".to_owned(), JsonValue::UInt(x.user_id)));
    fields.push(("video".to_owned(), JsonValue::Bool(x.video)));
    JsonValue::Obj(fields)
}

/// Round trip: a JSON object that renders a `BeatmapsetData` decodes back to
/// exactly that record.
#[verifier::rlimit(100)]
pub proof fn lemma_beatmapset_data_roundtrip(v: JsonValue, x: BeatmapsetDataV)
    requires
        encodes_beatmapset_data(v, x),
    ensures
        spec_decode_beatmapset_data(v) == Some(x),
{
    reveal_with_fuel(spec_obj_get, 20);
    reveal_strlit("artist");
    reveal_strlit("artist_unicode");
    reveal_strlit("creator");
    reveal_strlit("favourite_count");
    reveal_strlit("hype");
    reveal_strlit("id");
    reveal_strlit("nsfw");
    reveal_strlit("offset");
    reveal_strlit("play_count");
    reveal_strlit("preview_url");
    reveal_strlit("source");
    reveal_strlit("spotlight");
    reveal_strlit("status");
    reveal_strlit("title");
    reveal_strlit("title_unicode");
    reveal_strlit("track_id");
    reveal_strlit("user_id");
    reveal_strlit("video");
    let s = v->Obj_0@;
    assert(("artist"@).len() == 6);
    assert(("artist_unicode"@).len() == 14);
    assert(("creator"@).len() == 7);
    assert(("favourite_count"@).len() == 15);
    assert(("hype"@).len() == 4);
    assert(("id"@).len() == 2);
    assert(("nsfw"@).len() == 4);
    assert(("offset"@).len() == 6);
    assert(("play_count"@).len() == 10);
    assert(("preview_url"@).len() == 11);
    assert(("source"@).len() == 6);
    assert(("spotlight"@).len() == 9);
    assert(("status"@).len() == 6);
    assert(("title"@).len() == 5);
    assert(("title_unicode"@).len() == 13);
    assert(("track_id"@).len() == 8);
    assert(("user_id"@).len() == 7);
    assert(("video"@).len() == 5);
    assert(("hype"@)[0] != ("nsfw"@)[0]);
    assert(("artist"@)[0] != ("offset"@)[0]);
    assert(("artist"@)[0] != ("source"@)[0]);
    assert(("offset"@)[0] != ("source"@)[0]);
    assert(("artist"@)[0] != ("status"@)[0]);
    assert(("offset"@)[0] != ("status"@)[0]);
    assert(("source"@)[1] != ("status"@)[1]);
    assert(("creator"@)[0] != ("user_id"@)[0]);
    assert(("title"@)[0] != ("video"@)[0]);
    assert(spec_obj_get(s, "artist"@) == Some(s[0].1));
    assert(spec_obj_get(s, "artist_unicode"@) == Some(s[1].1));
    assert(spec_obj_get(s, "creator"@) == Some(s[2].1));
    assert(spec_obj_get(s, "favourite_count"@) == Some(s[3].1));
    assert(spec_obj_get(s, "hype"@) == Some(s[4].1));
    assert(spec_obj_get(s, "id"@) == Some(s[5].1));
    assert(spec_obj_get(s, "nsfw"@) == Some(s[6].1));
    assert(spec_obj_get(s, "offset"@) == Some(s[7].1));
    assert(spec_obj_get(s, "play_count"@) == Some(s[8].1));
    assert(spec_obj_get(s, "preview_url"@) == Some(s[9].1));
    assert(spec_obj_get(s, "source"@) == Some(s[10].1));
    assert(spec_obj_get(s, "spotlight"@) == Some(s[11].1));
    assert(spec_obj_get(s, "status"@) == Some(s[12].1));
    assert(spec_obj_get(s, "title"@) == Some(s[13].1));
    assert(spec_obj_get(s, "title_unicode"@) == Some(s[14].1));
    assert(spec_obj_get(s, "track_id"@) == Some(s[15].1));
    assert(spec_obj_get(s, "user_id"@) == Some(s[16].1));
    assert(spec_obj_get(s, "video"@) == Some(s[17].1));
    assert(spec_decode_beatmapset_data(v) == Some(x));
}

/// The JSON object that renders a `Beatmapset`: its members in canonical
/// order, each holding the corresponding field.
pub open spec fn encodes_beatmapset(v: JsonValue, x: BeatmapsetV) -> bool {
    match v {
        JsonValue::Obj(fields) => {
            let s = fields@;
            s.len() == 4 && s[0].0@ == "beatmap_id"@ && s[0].1 == JsonValue::UInt(x.beatmap_id) && s[1].0@ == "count"@ && s[1].1 == JsonValue::UInt(x.count) && s[2].0@ == "beatmap"@ && encodes_beatmap(s[2].1, x.beatmap) && s[3].0@ == "beatmapset"@ && encodes_beatmapset_data(s[3].1, x.beatmapset)
        },
        _ => false,
    }
}

/// The `Beatmapset` held by a member, if it decodes.
pub open spec fn sget_beatmapset(s: Seq<(String, JsonValue)>, key: Seq<char>) -> Option<BeatmapsetV> {
    match spec_obj_get(s, key) {
        Some(w) => spec_decode_beatmapset(w),
        None => None,
    }
}

/// What a JSON value decodes to as a `Beatmapset`, if anything: every
/// mandatory member present with the right shape, optional members
/// absent, null or well-shaped.
pub open spec fn spec_decode_beatmapset(v: JsonValue) -> Option<BeatmapsetV> {
    match v {
        JsonValue::Obj(fields) => {
            let s = fields@;
            if sget_u64(s, "beatmap_id"@) is Some && sget_u64(s, "count"@) is Some && sget_beatmap(s, "beatmap"@) is Some && sget_beatmapset_data(s, "beatmapset"@) is Some {
                Some(BeatmapsetV {
                    beatmap_id: sget_u64(s, "beatmap_id"@)->0,
                    count: sget_u64(s, "count"@)->0,
                    beatmap: sget_beatmap(s, "beatmap"@)->0,
                    beatmapset: sget_beatmapset_data(s, "beatmapset"@)->0,
                })
            } else {
                None
            }
        },
        _ => None,
    }
}

/// Decodes a `Beatmapset` from a JSON value; fails with `Schema` exactly
/// when the value does not decode.
pub fn decode_beatmapset(v: &JsonValue) -> (r: Result<Beatmapset, ApiError>)
    ensures
        match spec_decode_beatmapset(*v) {
            Some(x) => r matches Ok(d) && d@ == x,
            None => r matches Err(e) && e == ApiError::Schema,
        },
{
    match v {
        JsonValue::Obj(fields) => {
            let beatmap_id = get_u64(fields, "beatmap_id")?;
            let count = get_u64(fields, "count")?;
            let beatmap = match obj_get(fields, "beatmap") {
                Some(w) => decode_beatmap(w)?,
                None => {
                    return Err(ApiError::Schema);
                },
            };
            let beatmapset = match obj_get(fields, "beatmapset") {
                Some(w) => decode_beatmapset_data(w)?,
                None => {
                    return Err(ApiError::Schema);
                },
            };
            Ok(Beatmapset {
                beatmap_id: beatmap_id,
                count: count,
                beatmap: beatmap,
                beatmapset: beatmapset,
            })
        },
        _ => Err(ApiError::Schema),
    }
}

/// Encodes a `Beatmapset` as its canonical JSON object.
pub fn encode_beatmapset(x: &Beatmapset) -> (v: JsonValue)
    ensures
        encodes_beatmapset(v, x@),
{
    let mut fields: Vec<(String, JsonValue)> = Vec::new();
    fields.push(("beatmap_id".to_owned(), JsonValue::UInt(x.beatmap_id)));
    fields.push(("count".to_owned(), JsonValue::UInt(x.count)));
    fields.push(("beatmap".to_owned(), encode_beatmap(&x.beatmap)));
    fields.push(("beatmapset".to_owned(), encode_beatmapset_data(&x.beatmapset)));
    JsonValue::Obj(fields)
}

/// Round trip: a JSON object that renders a `Beatmapset` decodes back to
/// exactly that record.
pub proof fn lemma_beatmapset_roundtrip(v: JsonValue, x: BeatmapsetV)
    requires
        encodes_beatmapset(v, x),
    ensures
        spec_decode_beatmapset(v) == Some(x),
{
    reveal_with_fuel(spec_obj_get, 6);
    reveal_strlit("beatmap");
    reveal_strlit("beatmap_id");
    reveal_strlit("beatmapset");
    reveal_strlit("count");
    let s = v->Obj_0@;
    assert(("beatmap"@).len() == 7);
    assert(("beatmap_id"@).len() == 10);
    assert(("beatmapset"@).len() == 10);
    assert(("count"@).len() == 5);
    assert(("beatmap_id"@)[7] != ("beatmapset"@)[7]);
    assert(spec_obj_get(s, "beatmap_id"@) == Some(s[0].1));
    assert(spec_obj_get(s, "count"@) == Some(s[1].1));
    assert(spec_obj_get(s, "beatmap"@) == Some(s[2].1));
    assert(spec_obj_get(s, "beatmapset"@) == Some(s[3].1));
    lemma_beatmap_roundtrip(s[2].1, x.beatmap);
    lemma_beatmapset_data_roundtrip(s[3].1, x.beatmapset);
    assert(spec_decode_beatmapset(v) == Some(x));
}

/// The JSON object that renders a `Stats`: its members in canonical
/// order, each holding the corresponding field.
pub open spec fn encodes_stats(v: JsonValue, x: StatsV) -> bool {
    match v {
        JsonValue::Obj(fields) => {
            let s = fields@;
            s.len() == 6 && s[0].0@ == "count_100"@ && s[0].1 == JsonValue::UInt(x.count_100 as u64) && s[1].0@ == "count_300"@ && s[1].1 == JsonValue::UInt(x.count_300 as u64) && s[2].0@ == "count_50"@ && s[2].1 == JsonValue::UInt(x.count_50 as u64) && s[3].0@ == "count_geki"@ && is_opt_uint32(s[3].1, x.count_geki) && s[4].0@ == "count_katu"@ && is_opt_uint32(s[4].1, x.count_katu) && s[5].0@ == "count_miss"@ && s[5].1 == JsonValue::UInt(x.count_miss as u64)
        },
        _ => false,
    }
}

/// The `Stats` held by a member, if it decodes.
pub open spec fn sget_stats(s: Seq<(String, JsonValue)>, key: Seq<char>) -> Option<StatsV> {
    match spec_obj_get(s, key) {
        Some(w) => spec_decode_stats(w),
        None => None,
    }
}

/// What a JSON value decodes to as a `Stats`, if anything: every
/// mandatory member present with the right shape, optional members
/// absent, null or well-shaped.
pub open spec fn spec_decode_stats(v: JsonValue) -> Option<StatsV> {
    match v {
        JsonValue::Obj(fields) => {
            let s = fields@;
            if sget_u32(s, "count_100"@) is Some && sget_u32(s, "count_300"@) is Some && sget_u32(s, "count_50"@) is Some && sget_opt_u32(s, "count_geki"@) is Some && sget_opt_u32(s, "count_katu"@) is Some && sget_u32(s, "count_miss"@) is Some {
                Some(StatsV {
                    count_100: sget_u32(s, "count_100"@)->0,
                    count_300: sget_u32(s, "count_300"@)->0,
                    count_50: sget_u32(s, "count_50"@)->0,
                    count_geki: sget_opt_u32(s, "count_geki"@)->0,
                    count_katu: sget_opt_u32(s, "count_katu"@)->0,
                    count_miss: sget_u32(s, "count_miss"@)->0,
                })
            } else {
                None
            }
        },
        _ => None,
    }
}

/// Decodes a `Stats` from a JSON value; fails with `Schema` exactly
/// when the value does not decode.
pub fn decode_stats(v: &JsonValue) -> (r: Result<Stats, ApiError>)
    ensures
        match spec_decode_stats(*v) {
            Some(x) => r matches Ok(d) && d@ == x,
            None => r matches Err(e) && e == ApiError::Schema,
        },
{
    match v {
        JsonValue::Obj(fields) => {
            let count_100 = get_u32(fields, "count_100")?;
            let count_300 = get_u32(fields, "count_300")?;
            let count_50 = get_u32(fields, "count_50")?;
            let count_geki = get_opt_u32(fields, "count_geki")?;
            let count_katu = get_opt_u32(fields, "count_katu")?;
            let count_miss = get_u32(fields, "count_miss")?;
            Ok(Stats {
                count_100: count_100,
                count_300: count_300,
                count_50: count_50,
                count_geki: count_geki,
                count_katu: count_katu,
                count_miss: count_miss,
            })
        },
        _ => Err(ApiError::Schema),
    }
}

/// Encodes a `Stats` as its canonical JSON object.
pub fn encode_stats(x: &Stats) -> (v: JsonValue)
    ensures
        encodes_stats(v, x@),
{
    let mut fields: Vec<(String, JsonValue)> = Vec::new();
    fields.push(("count_100".to_owned(), JsonValue::UInt(x.count_100 as u64)));
    fields.push(("count_300".to_owned(), JsonValue::UInt(x.count_300 as u64)));
    fields.push(("count_50".to_owned(), JsonValue::UInt(x.count_50 as u64)));
    let count_geki_v = match x.count_geki {
        Some(u) => JsonValue::UInt(u as u64),
        None => JsonValue::Null,
    };
    fields.push(("count_geki".to_owned(), count_geki_v));
    let count_katu_v = match x.count_katu {
        Some(u) => JsonValue::UInt(u as u64),
        None => JsonValue::Null,
    };
    fields.push(("count_katu".to_owned(), count_katu_v));
    fields.push(("count_miss".to_owned(), JsonValue::UInt(x.count_miss as u64)));
    JsonValue::Obj(fields)
}

/// Round trip: a JSON object that renders a `Stats` decodes back to
/// exactly that record.
pub proof fn lemma_stats_roundtrip(v: JsonValue, x: StatsV)
    requires
        encodes_stats(v, x),
    ensures
        spec_decode_stats(v) == Some(x),
{
    reveal_with_fuel(spec_obj_get, 8);
    reveal_strlit("count_100");
    reveal_strlit("count_300");
    reveal_strlit("count_50");
    reveal_strlit("count_geki");
    reveal_strlit("count_katu");
    reveal_strlit("count_miss");
    let s = v->Obj_0@;
    assert(("count_100"@).len() == 9);
    assert(("count_300"@).len() == 9);
    assert(("count_50"@).len() == 8);
    assert(("count_geki"@).len() == 10);
    assert(("count_katu"@).len() == 10);
    assert(("count_miss"@).len() == 10);
    assert(("count_100"@)[6] != ("count_300"@)[6]);
    assert(("count_geki"@)[6] != ("count_katu"@)[6]);
    assert(("count_geki"@)[6] != ("count_miss"@)[6]);
    assert(("count_katu"@)[6] != ("count_miss"@)[6]);
    assert(spec_obj_get(s, "count_100"@) == Some(s[0].1));
    assert(spec_obj_get(s, "count_300"@) == Some(s[1].1));
    assert(spec_obj_get(s, "count_50"@) == Some(s[2].1));
    assert(spec_obj_get(s, "count_geki"@) == Some(s[3].1));
    assert(spec_obj_get(s, "count_katu"@) == Some(s[4].1));
    assert(spec_obj_get(s, "count_miss"@) == Some(s[5].1));
    assert(spec_decode_stats(v) == Some(x));
}

/// The JSON object that renders a `Covers`: its members in canonical
/// order, each holding the corresponding field.
pub open spec fn encodes_covers(v: JsonValue, x: CoversV) -> bool {
    match v {
        JsonValue::Obj(fields) => {
            let s = fields@;
            s.len() == 8 && s[0].0@ == "cover"@ && is_str(s[0].1, x.cover) && s[1].0@ == "cover@2x"@ && is_str(s[1].1, x.cover2x) && s[2].0@ == "card"@ && is_str(s[2].1, x.card) && s[3].0@ == "card@2x"@ && is_str(s[3].1, x.card2x) && s[4].0@ == "list"@ && is_str(s[4].1, x.list) && s[5].0@ == "list@2x"@ && is_str(s[5].1, x.list2x) && s[6].0@ == "slimcover"@ && is_str(s[6].1, x.slimcover) && s[7].0@ == "slimcover@2x"@ && is_str(s[7].1, x.slimcover2x)
        },
        _ => false,
    }
}

/// The `Covers` held by a member, if it decodes.
pub open spec fn sget_covers(s: Seq<(String, JsonValue)>, key: Seq<char>) -> Option<CoversV> {
    match spec_obj_get(s, key) {
        Some(w) => spec_decode_covers(w),
        None => None,
    }
}

/// What a JSON value decodes to as a `Covers`, if anything: every
/// mandatory member present with the right shape, optional members
/// absent, null or well-shaped.
pub open spec fn spec_decode_covers(v: JsonValue) -> Option<CoversV> {
    match v {
        JsonValue::Obj(fields) => {
            let s = fields@;
            if sget_str(s, "cover"@) is Some && sget_str(s, "cover@2x"@) is Some && sget_str(s, "card"@) is Some && sget_str(s, "card@2x"@) is Some && sget_str(s, "list"@) is Some && sget_str(s, "list@2x"@) is Some && sget_str(s, "slimcover"@) is Some && sget_str(s, "slimcover@2x"@) is Some {
                Some(CoversV {
                    cover: sget_str(s, "cover"@)->0,
                    cover2x: sget_str(s, "cover@2x"@)->0,
                    card: sget_str(s, "card"@)->0,
                    card2x: sget_str(s, "card@2x"@)->0,
                    list: sget_str(s, "list"@)->0,
                    list2x: sget_str(s, "list@2x"@)->0,
                    slimcover: sget_str(s, "slimcover"@)->0,
                    slimcover2x: sget_str(s, "slimcover@2x"@)->0,
                })
            } else {
                None
            }
        },
        _ => None,
    }
}

/// Decodes a `Covers` from a JSON value; fails with `Schema` exactly
/// when the value does not decode.
pub fn decode_covers(v: &JsonValue) -> (r: Result<Covers, ApiError>)
    ensures
        match spec_decode_covers(*v) {
            Some(x) => r matches Ok(d) && d@ == x,
            None => r matches Err(e) && e == ApiError::Schema,
        },
{
    match v {
        JsonValue::Obj(fields) => {
            let cover = get_str(fields, "cover")?;
            let cover2x = get_str(fields, "cover@2x")?;
            let card = get_str(fields, "card")?;
            let card2x = get_str(fields, "card@2x")?;
            let list = get_str(fields, "list")?;
            let list2x = get_str(fields, "list@2x")?;
            let slimcover = get_str(fields, "slimcover")?;
            let slimcover2x = get_str(fields, "slimcover@2x")?;
            Ok(Covers {
                cover: cover,
                cover2x: cover2x,
                card: card,
                card2x: card2x,
                list: list,
                list2x: list2x,
                slimcover: slimcover,
                slimcover2x: slimcover2x,
            })
        },
        _ => Err(ApiError::Schema),
    }
}

/// Encodes a `Covers` as its canonical JSON object.
pub fn encode_covers(x: &Covers) -> (v: JsonValue)
    ensures
        encodes_covers(v, x@),
{
    let mut fields: Vec<(String, JsonValue)> = Vec::new();
    fields.push(("cover".to_owned(), JsonValue::Str(x.cover.clone())));
    fields.push(("cover@2x".to_owned(), JsonValue::Str(x.cover2x.clone())));
    fields.push(("card".to_owned(), JsonValue::Str(x.card.clone())));
    fields.push(("card@2x".to_owned(), JsonValue::Str(x.card2x.clone())));
    fields.push(("list".to_owned(), JsonValue::Str(x.list.clone())));
    fields.push(("list@2x".to_owned(), JsonValue::Str(x.list2x.clone())));
    fields.push(("slimcover".to_owned(), JsonValue::Str(x.slimcover.clone())));
    fields.push(("slimcover@2x".to_owned(), JsonValue::Str(x.slimcover2x.clone())));
    JsonValue::Obj(fields)
}

/// Round trip: a JSON object that renders a `Covers` decodes back to
/// exactly that record.
pub proof fn lemma_covers_roundtrip(v: JsonValue, x: CoversV)
    requires
        encodes_covers(v, x),
    ensures
        spec_decode_covers(v) == Some(x),
{
    reveal_with_fuel(spec_obj_get, 10);
    reveal_strlit("card");
    reveal_strlit("card@2x");
    reveal_strlit("cover");
    reveal_strlit("cover@2x");
    reveal_strlit("list");
    reveal_strlit("list@2x");
    reveal_strlit("slimcover");
    reveal_strlit("slimcover@2x");
    let s = v->Obj_0@;
    assert(("card"@).len() == 4);
    assert(("card@2x"@).len() == 7);
    assert(("cover"@).len() == 5);
    assert(("cover@2x"@).len() == 8);
    assert(("list"@).len() == 4);
    assert(("list@2x"@).len() == 7);
    assert(("slimcover"@).len() == 9);
    assert(("slimcover@2x"@).len() == 12);
    assert(("card"@)[0] != ("list"@)[0]);
    assert(("card@2x"@)[0] != ("list@2x"@)[0]);
    assert(spec_obj_get(s, "cover"@) == Some(s[0].1));
    assert(spec_obj_get(s, "cover@2x"@) == Some(s[1].1));
    assert(spec_obj_get(s, "card"@) == Some(s[2].1));
    assert(spec_obj_get(s, "card@2x"@) == Some(s[3].1));
    assert(spec_obj_get(s, "list"@) == Some(s[4].1));
    assert(spec_obj_get(s, "list@2x"@) == Some(s[5].1));
    assert(spec_obj_get(s, "slimcover"@) == Some(s[6].1));
    assert(spec_obj_get(s, "slimcover@2x"@) == Some(s[7].1));
    assert(spec_decode_covers(v) == Some(x));
}

/// The JSON object that renders a `BeatmapInfo`: its members in canonical
/// order, each holding the corresponding field.
pub open spec fn encodes_beatmap_info(v: JsonValue, x: BeatmapInfoV) -> bool {
    match v {
        JsonValue::Obj(fields) => {
            let s = fields@;
            s.len() == 27 && s[0].0@ == "beatmapset_id"@ && s[0].1 == JsonValue::UInt(x.beatmapset_id) && s[1].0@ == "difficulty_rating"@ && is_num(s[1].1, x.difficulty_rating) && s[2].0@ == "id"@ && s[2].1 == JsonValue::UInt(x.id) && s[3].0@ == "mode"@ && is_str(s[3].1, x.mode) && s[4].0@ == "status"@ && is_str(s[4].1, x.status) && s[5].0@ == "total_length"@ && s[5].1 == JsonValue::UInt(x.total_length as u64) && s[6].0@ == "user_id"@ && s[6].1 == JsonValue::UInt(x.user_id) && s[7].0@ == "version"@ && is_str(s[7].1, x.version) && s[8].0@ == "accuracy"@ && is_num(s[8].1, x.accuracy) && s[9].0@ == "ar"@ && is_num(s[9].1, x.ar) && s[10].0@ == "bpm"@ && is_num(s[10].1, x.bpm) && s[11].0@ == "convert"@ && s[11].1 == JsonValue::Bool(x.convert) && s[12].0@ == "count_circles"@ && s[12].1 == JsonValue::UInt(x.count_circles as u64) && s[13].0@ == "count_sliders"@ && s[13].1 == JsonValue::UInt(x.count_sliders as u64) && s[14].0@ == "count_spinners"@ && s[14].1 == JsonValue::UInt(x.count_spinners as u64) && s[15].0@ == "cs"@ && is_num(s[15].1, x.cs) && s[16].0@ == "deleted_at"@ && is_opt_str(s[16].1, x.deleted_at) && s[17].0@ == "drain"@ && is_num(s[17].1, x.drain) && s[18].0@ == "hit_length"@ && s[18].1 == JsonValue::UInt(x.hit_length as u64) && s[19].0@ == "is_scoreable"@ && s[19].1 == JsonValue::Bool(x.is_scoreable) && s[20].0@ == "last_updated"@ && is_str(s[20].1, x.last_updated) && s[21].0@ == "mode_int"@ && s[21].1 == JsonValue::UInt(x.mode_int as u64) && s[22].0@ == "passcount"@ && s[22].1 == JsonValue::UInt(x.passcount as u64) && s[23].0@ == "playcount"@ && s[23].1 == JsonValue::UInt(x.playcount as u64) && s[24].0@ == "ranked"@ && s[24].1 == JsonValue::UInt(x.ranked as u64) && s[25].0@ == "url"@ && is_str(s[25].1, x.url) && s[26].0@ == "checksum"@ && is_str(s[26].1, x.checksum)
        },
        _ => false,
    }
}

/// The `BeatmapInfo` held by a member, if it decodes.
pub open spec fn sget_beatmap_info(s: Seq<(String, JsonValue)>, key: Seq<char>) -> Option<BeatmapInfoV> {
    match spec_obj_get(s, key) {
        Some(w) => spec_decode_beatmap_info(w),
        None => None,
    }
}

/// What a JSON value decodes to as a `BeatmapInfo`, if anything: every
/// mandatory member present with the right shape, optional members
/// absent, null or well-shaped.
pub open spec fn spec_decode_beatmap_info(v: JsonValue) -> Option<BeatmapInfoV> {
    match v {
        JsonValue::Obj(fields) => {
            let s = fields@;
            if sget_u64(s, "beatmapset_id"@) is Some && sget_numtext(s, "difficulty_rating"@) is Some && sget_u64(s, "id"@) is Some && sget_str(s, "mode"@) is Some && sget_str(s, "status"@) is Some && sget_u32(s, "total_length"@) is Some && sget_u64(s, "user_id"@) is Some && sget_str(s, "version"@) is Some && sget_numtext(s, "accuracy"@) is Some && sget_numtext(s, "ar"@) is Some && sget_numtext(s, "bpm"@) is Some && sget_bool(s, "convert"@) is Some && sget_u32(s, "count_circles"@) is Some && sget_u32(s, "count_sliders"@) is Some && sget_u32(s, "count_spinners"@) is Some && sget_numtext(s, "cs"@) is Some && sget_opt_str(s, "deleted_at"@) is Some && sget_numtext(s, "drain"@) is Some && sget_u32(s, "hit_length"@) is Some && sget_bool(s, "is_scoreable"@) is Some && sget_str(s, "last_updated"@) is Some && sget_u32(s, "mode_int"@) is Some && sget_u32(s, "passcount"@) is Some && sget_u32(s, "playcount"@) is Some && sget_u32(s, "ranked"@) is Some && sget_str(s, "url"@) is Some && sget_str(s, "checksum"@) is Some {
                Some(BeatmapInfoV {
                    beatmapset_id: sget_u64(s, "beatmapset_id"@)->0,
                    difficulty_rating: sget_numtext(s, "difficulty_rating"@)->0,
                    id: sget_u64(s, "id"@)->0,
                    mode: sget_str(s, "mode"@)->0,
                    status: sget_str(s, "status"@)->0,
                    total_length: sget_u32(s, "total_length"@)->0,
                    user_id: sget_u64(s, "user_id"@)->0,
                    version: sget_str(s, "version"@)->0,
                    accuracy: sget_numtext(s, "accuracy"@)->0,
                    ar: sget_numtext(s, "ar"@)->0,
                    bpm: sget_numtext(s, "bpm"@)->0,
                    convert: sget_bool(s, "convert"@)->0,
                    count_circles: sget_u32(s, "count_circles"@)->0,
                    count_sliders: sget_u32(s, "count_sliders"@)->0,
                    count_spinners: sget_u32(s, "count_spinners"@)->0,
                    cs: sget_numtext(s, "cs"@)->0,
                    deleted_at: sget_opt_str(s, "deleted_at"@)->0,
                    drain: sget_numtext(s, "drain"@)->0,
                    hit_length: sget_u32(s, "hit_length"@)->0,
                    is_scoreable: sget_bool(s, "is_scoreable"@)->0,
                    last_updated: sget_str(s, "last_updated"@)->0,
                    mode_int: sget_u32(s, "mode_int"@)->0,
                    passcount: sget_u32(s, "passcount"@)->0,
                    playcount: sget_u32(s, "playcount"@)->0,
                    ranked: sget_u32(s, "ranked"@)->0,
                    url: sget_str(s, "url"@)->0,
                    checksum: sget_str(s, "checksum"@)->0,
                })
            } else {
                None
            }
        },
        _ => None,
    }
}

/// Decodes a `BeatmapInfo` from a JSON value; fails with `Schema` exactly
/// when the value does not decode.
pub fn decode_beatmap_info(v: &JsonValue) -> (r: Result<BeatmapInfo, ApiError>)
    ensures
        match spec_decode_beatmap_info(*v) {
            Some(x) => r matches Ok(d) && d@ == x,
            None => r matches Err(e) && e == ApiError::Schema,
        },
{
    match v {
        JsonValue::Obj(fields) => {
            let beatmapset_id = get_u64(fields, "beatmapset_id")?;
            let difficulty_rating = get_numtext(fields, "difficulty_rating")?;
            let id = get_u64(fields, "id")?;
            let mode = get_str(fields, "mode")?;
            let status = get_str(fields, "status")?;
            let total_length = get_u32(fields, "total_length")?;
            let user_id = get_u64(fields, "user_id")?;
            let version = get_str(fields, "version")?;
            let accuracy = get_numtext(fields, "accuracy")?;
            let ar = get_numtext(fields, "ar")?;
            let bpm = get_numtext(fields, "bpm")?;
            let convert = get_bool(fields, "convert")?;
            let count_circles = get_u32(fields, "count_circles")?;
            let count_sliders = get_u32(fields, "count_sliders")?;
            let count_spinners = get_u32(fields, "count_spinners")?;
            let cs = get_numtext(fields, "cs")?;
            let deleted_at = get_opt_str(fields, "deleted_at")?;
            let drain = get_numtext(fields, "drain")?;
            let hit_length = get_u32(fields, "hit_length")?;
            let is_scoreable = get_bool(fields, "is_scoreable")?;
            let last_updated = get_str(fields, "last_updated")?;
            let mode_int = get_u32(fields, "mode_int")?;
            let passcount = get_u32(fields, "passcount")?;
            let playcount = get_u32(fields, "playcount")?;
            let ranked = get_u32(fields, "ranked")?;
            let url = get_str(fields, "url")?;
            let checksum = get_str(fields, "checksum")?;
            Ok(BeatmapInfo {
                beatmapset_id: beatmapset_id,
                difficulty_rating: difficulty_rating,
                id: id,
                mode: mode,
                status: status,
                total_length: total_length,
                user_id: user_id,
                version: version,
                accuracy: accuracy,
                ar: ar,
                bpm: bpm,
                convert: convert,
                count_circles: count_circles,
                count_sliders: count_sliders,
                count_spinners: count_spinners,
                cs: cs,
                deleted_at: deleted_at,
                drain: drain,
                hit_length: hit_length,
                is_scoreable: is_scoreable,
                last_updated: last_updated,
                mode_int: mode_int,
                passcount: passcount,
                playcount: playcount,
                ranked: ranked,
                url: url,
                checksum: checksum,
            })
        },
        _ => Err(ApiError::Schema),
    }
}

/// Encodes a `BeatmapInfo` as its canonical JSON object.
pub fn encode_beatmap_info(x: &BeatmapInfo) -> (v: JsonValue)
    ensures
        encodes_beatmap_info(v, x@),
{
    let mut fields: Vec<(String, JsonValue)> = Vec::new();
    fields.push(("beatmapset_id".to_owned(), JsonValue::UInt(x.beatmapset_id)));
    fields.push(("difficulty_rating".to_owned(), JsonValue::Num(x.difficulty_rating.clone())));
    fields.push(("id".to_owned(), JsonValue::UInt(x.id)));
    fields.push(("mode".to_owned(), JsonValue::Str(x.mode.clone())));
    fields.push(("status".to_owned(), JsonValue::Str(x.status.clone())));
    fields.push(("total_length".to_owned(), JsonValue::UInt(x.total_length as u64)));
    fields.push(("user_id".to_owned(), JsonValue::UInt(x.user_id)));
    fields.push(("version".to_owned(), JsonValue::Str(x.version.clone())));
    fields.push(("accuracy".to_owned(), JsonValue::Num(x.accuracy.clone())));
    fields.push(("ar".to_owned(), JsonValue::Num(x.ar.clone())));
    fields.push(("bpm".to_owned(), JsonValue::Num(x.bpm.clone())));
    fields.push(("convert".to_owned(), JsonValue::Bool(x.convert)));
    fields.push(("count_circles".to_owned(), JsonValue::UInt(x.count_circles as u64)));
    fields.push(("count_sliders".to_owned(), JsonValue::UInt(x.count_sliders as u64)));
    fields.push(("count_spinners".to_owned(), JsonValue::UInt(x.count_spinners as u64)));
    fields.push(("cs".to_owned(), JsonValue::Num(x.cs.clone())));
    let deleted_at_v = match &x.deleted_at {
        Some(s) => JsonValue::Str(s.clone()),
        None => JsonValue::Null,
    };
    fields.push(("deleted_at".to_owned(), deleted_at_v));
    fields.push(("drain".to_owned(), JsonValue::Num(x.drain.clone())));
    fields.push(("hit_length".to_owned(), JsonValue::UInt(x.hit_length as u64)));
    fields.push(("is_scoreable".to_owned(), JsonValue::Bool(x.is_scoreable)));
    fields.push(("last_updated".to_owned(), JsonValue::Str(x.last_updated.clone())));
    fields.push(("mode_int".to_owned(), JsonValue::UInt(x.mode_int as u64)));
    fields.push(("passcount".to_owned(), JsonValue::UInt(x.passcount as u64)));
    fields.push(("playcount".to_owned(), JsonValue::UInt(x.playcount as u64)));
    fields.push(("ranked".to_owned(), JsonValue::UInt(x.ranked as u64)));
    fields.push(("url".to_owned(), JsonValue::Str(x.url.clone())));
    fields.push(("checksum".to_owned(), JsonValue::Str(x.checksum.clone())));
    JsonValue::Obj(fields)
}

/// Round trip: a JSON object that renders a `BeatmapInfo` decodes back to
/// exactly that record.
#[verifier::rlimit(100)]
pub proof fn lemma_beatmap_info_roundtrip(v: JsonValue, x: BeatmapInfoV)
    requires
        encodes_beatmap_info(v, x),
    ensures
        spec_decode_beatmap_info(v) == Some(x),
{
    reveal_with_fuel(spec_obj_get, 29);
    reveal_strlit("accuracy");
    reveal_strlit("ar");
    reveal_strlit("beatmapset_id");
    reveal_strlit("bpm");
    reveal_strlit("checksum");
    reveal_strlit("convert");
    reveal_strlit("count_circles");
    reveal_strlit("count_sliders");
    reveal_strlit("count_spinners");
    reveal_strlit("cs");
    reveal_strlit("deleted_at");
    reveal_strlit("difficulty_rating");
    reveal_strlit("drain");
    reveal_strlit("hit_length");
    reveal_strlit("id");
    reveal_strlit("is_scoreable");
    reveal_strlit("last_updated");
    reveal_strlit("mode");
    reveal_strlit("mode_int");
    reveal_strlit("passcount");
    reveal_strlit("playcount");
    reveal_strlit("ranked");
    reveal_strlit("status");
    reveal_strlit("total_length");
    reveal_strlit("url");
    reveal_strlit("user_id");
    reveal_strlit("version");
    let s = v->Obj_0@;
    assert(("accuracy"@).len() == 8);
    assert(("ar"@).len() == 2);
    assert(("beatmapset_id"@).len() == 13);
    assert(("bpm"@).len() == 3);
    assert(("checksum"@).len() == 8);
    assert(("convert"@).len() == 7);
    assert(("count_circles"@).len() == 13);
    assert(("count_sliders"@).len() == 13);
    assert(("count_spinners"@).len() == 14);
    assert(("cs"@).len() == 2);
    assert(("deleted_at"@).len() == 10);
    assert(("difficulty_rating"@).len() == 17);
    assert(("drain"@).len() == 5);
    assert(("hit_length"@).len() == 10);
    assert(("id"@).len() == 2);
    assert(("is_scoreable"@).len() == 12);
    assert(("last_updated"@).len() == 12);
    assert(("mode"@).len() == 4);
    assert(("mode_int"@).len() == 8);
    assert(("passcount"@).len() == 9);
    assert(("playcount"@).len() == 9);
    assert(("ranked"@).len() == 6);
    assert(("status"@).len() == 6);
    assert(("total_length"@).len() == 12);
    assert(("url"@).len() == 3);
    assert(("user_id"@).len() == 7);
    assert(("version"@).len() == 7);
    assert(("user_id"@)[0] != ("version"@)[0]);
    assert(("id"@)[0] != ("ar"@)[0]);
    assert(("user_id"@)[0] != ("convert"@)[0]);
    assert(("version"@)[0] != ("convert"@)[0]);
    assert(("beatmapset_id"@)[0] != ("count_circles"@)[0]);
    assert(("beatmapset_id"@)[0] != ("count_sliders"@)[0]);
    assert(("count_circles"@)[6] != ("count_sliders"@)[6]);
    assert(("id"@)[0] != ("cs"@)[0]);
    assert(("ar"@)[0] != ("cs"@)[0]);
    assert(("deleted_at"@)[0] != ("hit_length"@)[0]);
    assert(("total_length"@)[0] != ("is_scoreable"@)[0]);
    assert(("total_length"@)[0] != ("last_updated"@)[0]);
    assert(("is_scoreable"@)[0] != ("last_updated"@)[0]);
    assert(("accuracy"@)[0] != ("mode_int"@)[0]);
    assert(("passcount"@)[1] != ("playcount"@)[1]);
    assert(("status"@)[0] != ("ranked"@)[0]);
    assert(("bpm"@)[0] != ("url"@)[0]);
    assert(("accuracy"@)[0] != ("checksum"@)[0]);
    assert(("mode_int"@)[0] != ("checksum"@)[0]);
    assert(spec_obj_get(s, "beatmapset_id"@) == Some(s[0].1));
    assert(spec_obj_get(s, "difficulty_rating"@) == Some(s[1].1));
    assert(spec_obj_get(s, "id"@) == Some(s[2].1));
    assert(spec_obj_get(s, "mode"@) == Some(s[3].1));
    assert(spec_obj_get(s, "status"@) == Some(s[4].1));
    assert(spec_obj_get(s, "total_length"@) == Some(s[5].1));
    assert(spec_obj_get(s, "user_id"@) == Some(s[6].1));
    assert(spec_obj_get(s, "version"@) == Some(s[7].1));
    assert(spec_obj_get(s, "accuracy"@) == Some(s[8].1));
    assert(spec_obj_get(s, "ar"@) == Some(s[9].1));
    assert(spec_obj_get(s, "bpm"@) == Some(s[10].1));
    assert(spec_obj_get(s, "convert"@) == Some(s[11].1));
    assert(spec_obj_get(s, "count_circles"@) == Some(s[12].1));
    assert(spec_obj_get(s, "count_sliders"@) == Some(s[13].1));
    assert(spec_obj_get(s, "count_spinners"@) == Some(s[14].1));
    assert(spec_obj_get(s, "cs"@) == Some(s[15].1));
    assert(spec_obj_get(s, "deleted_at"@) == Some(s[16].1));
    assert(spec_obj_get(s, "drain"@) == Some(s[17].1));
    assert(spec_obj_get(s, "hit_length"@) == Some(s[18].1));
    assert(spec_obj_get(s, "is_scoreable"@) == Some(s[19].1));
    assert(spec_obj_get(s, "last_updated"@) == Some(s[20].1));
    assert(spec_obj_get(s, "mode_int"@) == Some(s[21].1));
    assert(spec_obj_get(s, "passcount"@) == Some(s[22].1));
    assert(spec_obj_get(s, "playcount"@) == Some(s[23].1));
    assert(spec_obj_get(s, "ranked"@) == Some(s[24].1));
    assert(spec_obj_get(s, "url"@) == Some(s[25].1));
    assert(spec_obj_get(s, "checksum"@) == Some(s[26].1));
    assert(spec_decode_beatmap_info(v) == Some(x));
}

/// The JSON object that renders a `BeatmapSetInfo`: its members in canonical
/// order, each holding the corresponding field.
pub open spec fn encodes_beatmap_set_info(v: JsonValue, x: BeatmapSetInfoV) -> bool {
    match v {
        JsonValue::Obj(fields) => {
            let s = fields@;
            s.len() == 19 && s[0].0@ == "artist"@ && is_str(s[0].1, x.artist) && s[1].0@ == "artist_unicode"@ && is_str(s[1].1, x.artist_unicode) && s[2].0@ == "covers"@ && encodes_covers(s[2].1, x.covers) && s[3].0@ == "creator"@ && is_str(s[3].1, x.creator) && s[4].0@ == "favourite_count"@ && s[4].1 == JsonValue::UInt(x.favourite_count as u64) && s[5].0@ == "hype"@ && is_opt_uint32(s[5].1, x.hype) && s[6].0@ == "id"@ && s[6].1 == JsonValue::UInt(x.id) && s[7].0@ == "nsfw"@ && s[7].1 == JsonValue::Bool(x.nsfw) && s[8].0@ == "offset"@ && s[8].1 == JsonValue::UInt(x.offset as u64) && s[9].0@ == "play_count"@ && s[9].1 == JsonValue::UInt(x.play_count as u64) && s[10].0@ == "preview_url"@ && is_str(s[10].1, x.preview_url) && s[11].0@ == "source"@ && is_str(s[11].1, x.source) && s[12].0@ == "spotlight"@ && s[12].1 == JsonValue::Bool(x.spotlight) && s[13].0@ == "status"@ && is_str(s[13].1, x.status) && s[14].0@ == "title"@ && is_str(s[14].1, x.title) && s[15].0@ == "title_unicode"@ && is_str(s[15].1, x.title_unicode) && s[16].0@ == "track_id"@ && is_opt_uint32(s[16].1, x.track_id) && s[17].0@ == "user_id"@ && s[17].1 == JsonValue::UInt(x.user_id) && s[18].0@ == "video"@ && s[18].1 == JsonValue::Bool(x.video)
        },
        _ => false,
    }
}

/// The `BeatmapSetInfo` held by a member, if it decodes.
pub open spec fn sget_beatmap_set_info(s: Seq<(String, JsonValue)>, key: Seq<char>) -> Option<BeatmapSetInfoV> {
    match spec_obj_get(s, key) {
        Some(w) => spec_decode_beatmap_set_info(w),
        None => None,
    }
}

/// What a JSON value decodes to as a `BeatmapSetInfo`, if anything: every
/// mandatory member present with the right shape, optional members
/// absent, null or well-shaped.
pub open spec fn spec_decode_beatmap_set_info(v: JsonValue) -> Option<BeatmapSetInfoV> {
    match v {
        JsonValue::Obj(fields) => {
            let s = fields@;
            if sget_str(s, "artist"@) is Some && sget_str(s, "artist_unicode"@) is Some && sget_covers(s, "covers"@) is Some && sget_str(s, "creator"@) is Some && sget_u32(s, "favourite_count"@) is Some && sget_opt_u32(s, "hype"@) is Some && sget_u64(s, "id"@) is Some && sget_bool(s, "nsfw"@) is Some && sget_u32(s, "offset"@) is Some && sget_u32(s, "play_count"@) is Some && sget_str(s, "preview_url"@) is Some && sget_str(s, "source"@) is Some && sget_bool(s, "spotlight"@) is Some && sget_str(s, "status"@) is Some && sget_str(s, "title"@) is Some && sget_str(s, "title_unicode"@) is Some && sget_opt_u32(s, "track_id"@) is Some && sget_u64(s, "user_id"@) is Some && sget_bool(s, "video"@) is Some {
                Some(BeatmapSetInfoV {
                    artist: sget_str(s, "artist"@)->0,
                    artist_unicode: sget_str(s, "artist_unicode"@)->0,
                    covers: sget_covers(s, "covers"@)->0,
                    creator: sget_str(s, "creator"@)->0,
                    favourite_count: sget_u32(s, "favourite_count"@)->0,
                    hype: sget_opt_u32(s, "hype"@)->0,
                    id: sget_u64(s, "id"@)->0,
                    nsfw: sget_bool(s, "nsfw"@)->0,
                    offset: sget_u32(s, "offset"@)->0,
                    play_count: sget_u32(s, "play_count"@)->0,
                    preview_url: sget_str(s, "preview_url"@)->0,
                    source: sget_str(s, "source"@)->0,
                    spotlight: sget_bool(s, "spotlight"@)->0,
                    status: sget_str(s, "status"@)->0,
                    title: sget_str(s, "title"@)->0,
                    title_unicode: sget_str(s, "title_unicode"@)->0,
                    track_id: sget_opt_u32(s, "track_id"@)->0,
                    user_id: sget_u64(s, "user_id"@)->0,
                    video: sget_bool(s, "video"@)->0,
                })
            } else {
                None
            }
        },
        _ => None,
    }
}

/// Decodes a `BeatmapSetInfo` from a JSON value; fails with `Schema` exactly
/// when the value does not decode.
pub fn decode_beatmap_set_info(v: &JsonValue) -> (r: Result<BeatmapSetInfo, ApiError>)
    ensures
        match spec_decode_beatmap_set_info(*v) {
            Some(x) => r matches Ok(d) && d@ == x,
            None => r matches Err(e) && e == ApiError::Schema,
        },
{
    match v {
        JsonValue::Obj(fields) => {
            let artist = get_str(fields, "artist")?;
            let artist_unicode = get_str(fields, "artist_unicode")?;
            let covers = match obj_get(fields, "covers") {
                Some(w) => decode_covers(w)?,
                None => {
                    return Err(ApiError::Schema);
                },
            };
            let creator = get_str(fields, "creator")?;
            let favourite_count = get_u32(fields, "favourite_count")?;
            let hype = get_opt_u32(fields, "hype")?;
            let id = get_u64(fields, "id")?;
            let nsfw = get_bool(fields, "nsfw")?;
            let offset = get_u32(fields, "offset")?;
            let play_count = get_u32(fields, "play_count")?;
            let preview_url = get_str(fields, "preview_url")?;
            let source = get_str(fields, "source")?;
            let spotlight = get_bool(fields, "spotlight")?;
            let status = get_str(fields, "status")?;
            let title = get_str(fields, "title")?;
            let title_unicode = get_str(fields, "title_unicode")?;
            let track_id = get_opt_u32(fields, "track_id")?;
            let user_id = get_u64(fields, "user_id")?;
            let video = get_bool(fields, "video")?;
            Ok(BeatmapSetInfo {
                artist: artist,
                artist_unicode: artist_unicode,
                covers: covers,
                creator: creator,
                favourite_count: favourite_count,
                hype: hype,
                id: id,
                nsfw: nsfw,
                offset: offset,
                play_count: play_count,
                preview_url: preview_url,
                source: source,
                spotlight: spotlight,
                status: status,
                title: title,
                title_unicode: title_unicode,
                track_id: track_id,
                user_id: user_id,
                video: video,
            })
        },
        _ => Err(ApiError::Schema),
    }
}

/// Encodes a `BeatmapSetInfo` as its canonical JSON object.
pub fn encode_beatmap_set_info(x: &BeatmapSetInfo) -> (v: JsonValue)
    ensures
        encodes_beatmap_set_info(v, x@),
{
    let mut fields: Vec<(String, JsonValue)> = Vec::new();
    fields.push(("artist".to_owned(), JsonValue::Str(x.artist.clone())));
    fields.push(("artist_unicode".to_owned(), JsonValue::Str(x.artist_unicode.clone())));
    fields.push(("covers".to_owned(), encode_covers(&x.covers)));
    fields.push(("creator".to_owned(), JsonValue::Str(x.creator.clone())));
    fields.push(("favourite_count".to_owned(), JsonValue::UInt(x.favourite_count as u64)));
    let hype_v = match x.hype {
        Some(u) => JsonValue::UInt(u as u64),
        None => JsonValue::Null,
    };
    fields.push(("hype".to_owned(), hype_v));
    fields.push(("id".to_owned(), JsonValue::UInt(x.id)));
    fields.push(("nsfw".to_owned(), JsonValue::Bool(x.nsfw)));
    fields.push(("offset".to_owned(), JsonValue::UInt(x.offset as u64)));
    fields.push(("play_count".to_owned(), JsonValue::UInt(x.play_count as u64)));
    fields.push(("preview_url".to_owned(), JsonValue::Str(x.preview_url.clone())));
    fields.push(("source".to_owned(), JsonValue::Str(x.source.clone())));
    fields.push(("spotlight".to_owned(), JsonValue::Bool(x.spotlight)));
    fields.push(("status".to_owned(), JsonValue::Str(x.status.clone())));
    fields.push(("title".to_owned(), JsonValue::Str(x.title.clone())));
    fields.push(("title_unicode".to_owned(), JsonValue::Str(x.title_unicode.clone())));
    let track_id_v = match x.track_id {
        Some(u) => JsonValue::UInt(u as u64),
        None => JsonValue::Null,
    };
    fields.push(("track_id".to_owned(), track_id_v));
    fields.push(("user_id".to_owned(), JsonValue::UInt(x.user_id)));
    fields.push(("video".to_owned(), JsonValue::Bool(x.video)));
    JsonValue::Obj(fields)
}

/// Round trip: a JSON object that renders a `BeatmapSetInfo` decodes back to
/// exactly that record.
#[verifier::rlimit(100)]
pub proof fn lemma_beatmap_set_info_roundtrip(v: JsonValue, x: BeatmapSetInfoV)
    requires
        encodes_beatmap_set_info(v, x),
    ensures
        spec_decode_beatmap_set_info(v) == Some(x),
{
    reveal_with_fuel(spec_obj_get, 21);
    reveal_strlit("artist");
    reveal_strlit("artist_unicode");
    reveal_strlit("covers");
    reveal_strlit("creator");
    reveal_strlit("favourite_count");
    reveal_strlit("hype");
    reveal_strlit("id");
    reveal_strlit("nsfw");
    reveal_strlit("offset");
    reveal_strlit("play_count");
    reveal_strlit("preview_url");
    reveal_strlit("source");
    reveal_strlit("spotlight");
    reveal_strlit("status");
    reveal_strlit("title");
    reveal_strlit("title_unicode");
    reveal_strlit("track_id");
    reveal_strlit("user_id");
    reveal_strlit("video");
    let s = v->Obj_0@;
    assert(("artist"@).len() == 6);
    assert(("artist_unicode"@).len() == 14);
    assert(("covers"@).len() == 6);
    assert(("creator"@).len() == 7);
    assert(("favourite_count"@).len() == 15);
    assert(("hype"@).len() == 4);
    assert(("id"@).len() == 2);
    assert(("nsfw"@).len() == 4);
    assert(("offset"@).len() == 6);
    assert(("play_count"@).len() == 10);
    assert(("preview_url"@).len() == 11);
    assert(("source"@).len() == 6);
    assert(("spotlight"@).len() == 9);
    assert(("status"@).len() == 6);
    assert(("title"@).len() == 5);
    assert(("title_unicode"@).len() == 13);
    assert(("track_id"@).len() == 8);
    assert(("user_id"@).len() == 7);
    assert(("video"@).len() == 5);
    assert(("artist"@)[0] != ("covers"@)[0]);
    assert(("hype"@)[0] != ("nsfw"@)[0]);
    assert(("artist"@)[0] != ("offset"@)[0]);
    assert(("covers"@)[0] != ("offset"@)[0]);
    assert(("artist"@)[0] != ("source"@)[0]);
    assert(("covers"@)[0] != ("source"@)[0]);
    assert(("offset"@)[0] != ("source"@)[0]);
    assert(("artist"@)[0] != ("status"@)[0]);
    assert(("covers"@)[0] != ("status"@)[0]);
    assert(("offset"@)[0] != ("status"@)[0]);
    assert(("source"@)[1] != ("status"@)[1]);
    assert(("creator"@)[0] != ("user_id"@)[0]);
    assert(("title"@)[0] != ("video"@)[0]);
    assert(spec_obj_get(s, "artist"@) == Some(s[0].1));
    assert(spec_obj_get(s, "artist_unicode"@) == Some(s[1].1));
    assert(spec_obj_get(s, "covers"@) == Some(s[2].1));
    assert(spec_obj_get(s, "creator"@) == Some(s[3].1));
    assert(spec_obj_get(s, "favourite_count"@) == Some(s[4].1));
    assert(spec_obj_get(s, "hype"@) == Some(s[5].1));
    assert(spec_obj_get(s, "id"@) == Some(s[6].1));
    assert(spec_obj_get(s, "nsfw"@) == Some(s[7].1));
    assert(spec_obj_get(s, "offset"@) == Some(s[8].1));
    assert(spec_obj_get(s, "play_count"@) == Some(s[9].1));
    assert(spec_obj_get(s, "preview_url"@) == Some(s[10].1));
    assert(spec_obj_get(s, "source"@) == Some(s[11].1));
    assert(spec_obj_get(s, "spotlight"@) == Some(s[12].1));
    assert(spec_obj_get(s, "status"@) == Some(s[13].1));
    assert(spec_obj_get(s, "title"@) == Some(s[14].1));
    assert(spec_obj_get(s, "title_unicode"@) == Some(s[15].1));
    assert(spec_obj_get(s, "track_id"@) == Some(s[16].1));
    assert(spec_obj_get(s, "user_id"@) == Some(s[17].1));
    assert(spec_obj_get(s, "video"@) == Some(s[18].1));
    lemma_covers_roundtrip(s[2].1, x.covers);
    assert(spec_decode_beatmap_set_info(v) == Some(x));
}

/// The JSON object that renders a `UserInfo`: its members in canonical
/// order, each holding the corresponding field.
pub open spec fn encodes_user_info(v: JsonValue, x: UserInfoV) -> bool {
    match v {
        JsonValue::Obj(fields) => {
            let s = fields@;
            s.len() == 13 && s[0].0@ == "avatar_url"@ && is_str(s[0].1, x.avatar_url) && s[1].0@ == "country_code"@ && is_str(s[1].1, x.country_code) && s[2].0@ == "default_group"@ && is_str(s[2].1, x.default_group) && s[3].0@ == "id"@ && s[3].1 == JsonValue::UInt(x.id) && s[4].0@ == "is_active"@ && s[4].1 == JsonValue::Bool(x.is_active) && s[5].0@ == "is_bot"@ && s[5].1 == JsonValue::Bool(x.is_bot) && s[6].0@ == "is_deleted"@ && s[6].1 == JsonValue::Bool(x.is_deleted) && s[7].0@ == "is_online"@ && s[7].1 == JsonValue::Bool(x.is_online) && s[8].0@ == "is_supporter"@ && s[8].1 == JsonValue::Bool(x.is_supporter) && s[9].0@ == "last_visit"@ && is_str(s[9].1, x.last_visit) && s[10].0@ == "pm_friends_only"@ && s[10].1 == JsonValue::Bool(x.pm_friends_only) && s[11].0@ == "profile_colour"@ && is_opt_str(s[11].1, x.profile_colour) && s[12].0@ == "username"@ && is_str(s[12].1, x.username)
        },
        _ => false,
    }
}

/// The `UserInfo` held by a member, if it decodes.
pub open spec fn sget_user_info(s: Seq<(String, JsonValue)>, key: Seq<char>) -> Option<UserInfoV> {
    match spec_obj_get(s, key) {
        Some(w) => spec_decode_user_info(w),
        None => None,
    }
}

/// What a JSON value decodes to as a `UserInfo`, if anything: every
/// mandatory member present with the right shape, optional members
/// absent, null or well-shaped.
pub open spec fn spec_decode_user_info(v: JsonValue) -> Option<UserInfoV> {
    match v {
        JsonValue::Obj(fields) => {
            let s = fields@;
            if sget_str(s, "avatar_url"@) is Some && sget_str(s, "country_code"@) is Some && sget_str(s, "default_group"@) is Some && sget_u64(s, "id"@) is Some && sget_bool(s, "is_active"@) is Some && sget_bool(s, "is_bot"@) is Some && sget_bool(s, "is_deleted"@) is Some && sget_bool(s, "is_online"@) is Some && sget_bool(s, "is_supporter"@) is Some && sget_str(s, "last_visit"@) is Some && sget_bool(s, "pm_friends_only"@) is Some && sget_opt_str(s, "profile_colour"@) is Some && sget_str(s, "username"@) is Some {
                Some(UserInfoV {
                    avatar_url: sget_str(s, "avatar_url"@)->0,
                    country_code: sget_str(s, "country_code"@)->0,
                    default_group: sget_str(s, "default_group"@)->0,
                    id: sget_u64(s, "id"@)->0,
                    is_active: sget_bool(s, "is_active"@)->0,
                    is_bot: sget_bool(s, "is_bot"@)->0,
                    is_deleted: sget_bool(s, "is_deleted"@)->0,
                    is_online: sget_bool(s, "is_online"@)->0,
                    is_supporter: sget_bool(s, "is_supporter"@)->0,
                    last_visit: sget_str(s, "last_visit"@)->0,
                    pm_friends_only: sget_bool(s, "pm_friends_only"@)->0,
                    profile_colour: sget_opt_str(s, "profile_colour"@)->0,
                    username: sget_str(s, "username"@)->0,
                })
            } else {
                None
            }
        },
        _ => None,
    }
}

/// Decodes a `UserInfo` from a JSON value; fails with `Schema` exactly
/// when the value does not decode.
pub fn decode_user_info(v: &JsonValue) -> (r: Result<UserInfo, ApiError>)
    ensures
        match spec_decode_user_info(*v) {
            Some(x) => r matches Ok(d) && d@ == x,
            None => r matches Err(e) && e == ApiError::Schema,
        },
{
    match v {
        JsonValue::Obj(fields) => {
            let avatar_url = get_str(fields, "avatar_url")?;
            let country_code = get_str(fields, "country_code")?;
            let default_group = get_str(fields, "default_group")?;
            let id = get_u64(fields, "id")?;
            let is_active = get_bool(fields, "is_active")?;
            let is_bot = get_bool(fields, "is_bot")?;
            let is_deleted = get_bool(fields, "is_deleted")?;
            let is_online = get_bool(fields, "is_online")?;
            let is_supporter = get_bool(fields, "is_supporter")?;
            let last_visit = get_str(fields, "last_visit")?;
            let pm_friends_only = get_bool(fields, "pm_friends_only")?;
            let profile_colour = get_opt_str(fields, "profile_colour")?;
            let username = get_str(fields, "username")?;
            Ok(UserInfo {
                avatar_url: avatar_url,
                country_code: country_code,
                default_group: default_group,
                id: id,
                is_active: is_active,
                is_bot: is_bot,
                is_deleted: is_deleted,
                is_online: is_online,
                is_supporter: is_supporter,
                last_visit: last_visit,
                pm_friends_only: pm_friends_only,
                profile_colour: profile_colour,
                username: username,
            })
        },
        _ => Err(ApiError::Schema),
    }
}

/// Encodes a `UserInfo` as its canonical JSON object.
pub fn encode_user_info(x: &UserInfo) -> (v: JsonValue)
    ensures
        encodes_user_info(v, x@),
{
    let mut fields: Vec<(String, JsonValue)> = Vec::new();
    fields.push(("avatar_url".to_owned(), JsonValue::Str(x.avatar_url.clone())));
    fields.push(("country_code".to_owned(), JsonValue::Str(x.country_code.clone())));
    fields.push(("default_group".to_owned(), JsonValue::Str(x.default_group.clone())));
    fields.push(("id".to_owned(), JsonValue::UInt(x.id)));
    fields.push(("is_active".to_owned(), JsonValue::Bool(x.is_active)));
    fields.push(("is_bot".to_owned(), JsonValue::Bool(x.is_bot)));
    fields.push(("is_deleted".to_owned(), JsonValue::Bool(x.is_deleted)));
    fields.push(("is_online".to_owned(), JsonValue::Bool(x.is_online)));
    fields.push(("is_supporter".to_owned(), JsonValue::Bool(x.is_supporter)));
    fields.push(("last_visit".to_owned(), JsonValue::Str(x.last_visit.clone())));
    fields.push(("pm_friends_only".to_owned(), JsonValue::Bool(x.pm_friends_only)));
    let profile_colour_v = match &x.profile_colour {
        Some(s) => JsonValue::Str(s.clone()),
        None => JsonValue::Null,
    };
    fields.push(("profile_colour".to_owned(), profile_colour_v));
    fields.push(("username".to_owned(), JsonValue::Str(x.username.clone())));
    JsonValue::Obj(fields)
}

/// Round trip: a JSON object that renders a `UserInfo` decodes back to
/// exactly that record.
#[verifier::rlimit(100)]
pub proof fn lemma_user_info_roundtrip(v: JsonValue, x: UserInfoV)
    requires
        encodes_user_info(v, x),
    ensures
        spec_decode_user_info(v) == Some(x),
{
    reveal_with_fuel(spec_obj_get, 15);
    reveal_strlit("avatar_url");
    reveal_strlit("country_code");
    reveal_strlit("default_group");
    reveal_strlit("id");
    reveal_strlit("is_active");
    reveal_strlit("is_bot");
    reveal_strlit("is_deleted");
    reveal_strlit("is_online");
    reveal_strlit("is_supporter");
    reveal_strlit("last_visit");
    reveal_strlit("pm_friends_only");
    reveal_strlit("profile_colour");
    reveal_strlit("username");
    let s = v->Obj_0@;
    assert(("avatar_url"@).len() == 10);
    assert(("country_code"@).len() == 12);
    assert(("default_group"@).len() == 13);
    assert(("id"@).len() == 2);
    assert(("is_active"@).len() == 9);
    assert(("is_bot"@).len() == 6);
    assert(("is_deleted"@).len() == 10);
    assert(("is_online"@).len() == 9);
    assert(("is_supporter"@).len() == 12);
    assert(("last_visit"@).len() == 10);
    assert(("pm_friends_only"@).len() == 15);
    assert(("profile_colour"@).len() == 14);
    assert(("username"@).len() == 8);
    assert(("avatar_url"@)[0] != ("is_deleted"@)[0]);
    assert(("is_active"@)[3] != ("is_online"@)[3]);
    assert(("country_code"@)[0] != ("is_supporter"@)[0]);
    assert(("avatar_url"@)[0] != ("last_visit"@)[0]);
    assert(("is_deleted"@)[0] != ("last_visit"@)[0]);
    assert(spec_obj_get(s, "avatar_url"@) == Some(s[0].1));
    assert(spec_obj_get(s, "country_code"@) == Some(s[1].1));
    assert(spec_obj_get(s, "default_group"@) == Some(s[2].1));
    assert(spec_obj_get(s, "id"@) == Some(s[3].1));
    assert(spec_obj_get(s, "is_active"@) == Some(s[4].1));
    assert(spec_obj_get(s, "is_bot"@) == Some(s[5].1));
    assert(spec_obj_get(s, "is_deleted"@) == Some(s[6].1));
    assert(spec_obj_get(s, "is_online"@) == Some(s[7].1));
    assert(spec_obj_get(s, "is_supporter"@) == Some(s[8].1));
    assert(spec_obj_get(s, "last_visit"@) == Some(s[9].1));
    assert(spec_obj_get(s, "pm_friends_only"@) == Some(s[10].1));
    assert(spec_obj_get(s, "profile_colour"@) == Some(s[11].1));
    assert(spec_obj_get(s, "username"@) == Some(s[12].1));
    assert(spec_decode_user_info(v) == Some(x));
}

/// The JSON object that renders a `CurrentUserAttributes`: its members in canonical
/// order, each holding the corresponding field.
pub open spec fn encodes_current_user_attributes(v: JsonValue, x: CurrentUserAttributesV) -> bool {
    match v {
        JsonValue::Obj(fields) => {
            let s = fields@;
            s.len() == 1 && s[0].0@ == "pin"@ && is_opt_str(s[0].1, x.pin)
        },
        _ => false,
    }
}

/// The `CurrentUserAttributes` held by a member, if it decodes.
pub open spec fn sget_current_user_attributes(s: Seq<(String, JsonValue)>, key: Seq<char>) -> Option<CurrentUserAttributesV> {
    match spec_obj_get(s, key) {
        Some(w) => spec_decode_current_user_attributes(w),
        None => None,
    }
}

/// What a JSON value decodes to as a `CurrentUserAttributes`, if anything: every
/// mandatory member present with the right shape, optional members
/// absent, null or well-shaped.
pub open spec fn spec_decode_current_user_attributes(v: JsonValue) -> Option<CurrentUserAttributesV> {
    match v {
        JsonValue::Obj(fields) => {
            let s = fields@;
            if sget_opt_str(s, "pin"@) is Some {
                Some(CurrentUserAttributesV {
                    pin: sget_opt_str(s, "pin"@)->0,
                })
            } else {
                None
            }
        },
        _ => None,
    }
}

/// Decodes a `CurrentUserAttributes` from a JSON value; fails with `Schema` exactly
/// when the value does not decode.
pub fn decode_current_user_attributes(v: &JsonValue) -> (r: Result<CurrentUserAttributes, ApiError>)
    ensures
        match spec_decode_current_user_attributes(*v) {
            Some(x) => r matches Ok(d) && d@ == x,
            None => r matches Err(e) && e == ApiError::Schema,
        },
{
    match v {
        JsonValue::Obj(fields) => {
            let pin = get_opt_str(fields, "pin")?;
            Ok(CurrentUserAttributes {
                pin: pin,
            })
        },
        _ => Err(ApiError::Schema),
    }
}

/// Encodes a `CurrentUserAttributes` as its canonical JSON object.
pub fn encode_current_user_attributes(x: &CurrentUserAttributes) -> (v: JsonValue)
    ensures
        encodes_current_user_attributes(v, x@),
{
    let mut fields: Vec<(String, JsonValue)> = Vec::new();
    let pin_v = match &x.pin {
        Some(s) => JsonValue::Str(s.clone()),
        None => JsonValue::Null,
    };
    fields.push(("pin".to_owned(), pin_v));
    JsonValue::Obj(fields)
}

/// Round trip: a JSON object that renders a `CurrentUserAttributes` decodes back to
/// exactly that record.
pub proof fn lemma_current_user_attributes_roundtrip(v: JsonValue, x: CurrentUserAttributesV)
    requires
        encodes_current_user_attributes(v, x),
    ensures
        spec_decode_current_user_attributes(v) == Some(x),
{
    reveal_with_fuel(spec_obj_get, 3);
    reveal_strlit("pin");
    let s = v->Obj_0@;
    assert(("pin"@).len() == 3);
    assert(spec_obj_get(s, "pin"@) == Some(s[0].1));
    assert(spec_decode_current_user_attributes(v) == Some(x));
}

/// The JSON object that renders a `Weight`: its members in canonical
/// order, each holding the corresponding field.
pub open spec fn encodes_weight(v: JsonValue, x: WeightV) -> bool {
    match v {
        JsonValue::Obj(fields) => {
            let s = fields@;
            s.len() == 2 && s[0].0@ == "percentage"@ && is_num(s[0].1, x.percentage) && s[1].0@ == "pp"@ && is_num(s[1].1, x.pp)
        },
        _ => false,
    }
}

/// An optional `Weight`: null for absent.
pub open spec fn encodes_opt_weight(v: JsonValue, o: Option<WeightV>) -> bool {
    match o {
        Some(x) => encodes_weight(v, x),
        None => v == JsonValue::Null,
    }
}

/// The `Weight` held by a member, if it decodes.
pub open spec fn sget_weight(s: Seq<(String, JsonValue)>, key: Seq<char>) -> Option<WeightV> {
    match spec_obj_get(s, key) {
        Some(w) => spec_decode_weight(w),
        None => None,
    }
}

/// An optional `Weight` member: absent or null is `None`.
pub open spec fn sget_opt_weight(s: Seq<(String, JsonValue)>, key: Seq<char>) -> Option<
    Option<WeightV>,
> {
    match spec_obj_get(s, key) {
        None => Some(None),
        Some(JsonValue::Null) => Some(None),
        Some(w) => match spec_decode_weight(w) {
            Some(x) => Some(Some(x)),
            None => None,
        },
    }
}

/// What a JSON value decodes to as a `Weight`, if anything: every
/// mandatory member present with the right shape, optional members
/// absent, null or well-shaped.
pub open spec fn spec_decode_weight(v: JsonValue) -> Option<WeightV> {
    match v {
        JsonValue::Obj(fields) => {
            let s = fields@;
            if sget_numtext(s, "percentage"@) is Some && sget_numtext(s, "pp"@) is Some {
                Some(WeightV {
                    percentage: sget_numtext(s, "percentage"@)->0,
                    pp: sget_numtext(s, "pp"@)->0,
                })
            } else {
                None
            }
        },
        _ => None,
    }
}

/// Decodes a `Weight` from a JSON value; fails with `Schema` exactly
/// when the value does not decode.
pub fn decode_weight(v: &JsonValue) -> (r: Result<Weight, ApiError>)
    ensures
        match spec_decode_weight(*v) {
            Some(x) => r matches Ok(d) && d@ == x,
            None => r matches Err(e) && e == ApiError::Schema,
        },
{
    match v {
        JsonValue::Obj(fields) => {
            let percentage = get_numtext(fields, "percentage")?;
            let pp = get_numtext(fields, "pp")?;
            Ok(Weight {
                percentage: percentage,
                pp: pp,
            })
        },
        _ => Err(ApiError::Schema),
    }
}

/// Encodes a `Weight` as its canonical JSON object.
pub fn encode_weight(x: &Weight) -> (v: JsonValue)
    ensures
        encodes_weight(v, x@),
{
    let mut fields: Vec<(String, JsonValue)> = Vec::new();
    fields.push(("percentage".to_owned(), JsonValue::Num(x.percentage.clone())));
    fields.push(("pp".to_owned(), JsonValue::Num(x.pp.clone())));
    JsonValue::Obj(fields)
}

/// Round trip: a JSON object that renders a `Weight` decodes back to
/// exactly that record.
pub proof fn lemma_weight_roundtrip(v: JsonValue, x: WeightV)
    requires
        encodes_weight(v, x),
    ensures
        spec_decode_weight(v) == Some(x),
{
    reveal_with_fuel(spec_obj_get, 4);
    reveal_strlit("percentage");
    reveal_strlit("pp");
    let s = v->Obj_0@;
    assert(("percentage"@).len() == 10);
    assert(("pp"@).len() == 2);
    assert(spec_obj_get(s, "percentage"@) == Some(s[0].1));
    assert(spec_obj_get(s, "pp"@) == Some(s[1].1));
    assert(spec_decode_weight(v) == Some(x));
}

/// The JSON object that renders a `Score`: its members in canonical
/// order, each holding the corresponding field.
pub open spec fn encodes_score(v: JsonValue, x: ScoreV) -> bool {
    match v {
        JsonValue::Obj(fields) => {
            let s = fields@;
            s.len() == 22 && s[0].0@ == "accuracy"@ && is_opt_num(s[0].1, x.accuracy) && s[1].0@ == "best_id"@ && is_opt_uint(s[1].1, x.best_id) && s[2].0@ == "created_at"@ && is_str(s[2].1, x.created_at) && s[3].0@ == "id"@ && s[3].1 == JsonValue::UInt(x.id) && s[4].0@ == "max_combo"@ && s[4].1 == JsonValue::UInt(x.max_combo as u64) && s[5].0@ == "mode"@ && is_str(s[5].1, x.mode) && s[6].0@ == "mode_int"@ && s[6].1 == JsonValue::UInt(x.mode_int as u64) && s[7].0@ == "mods"@ && is_strs(s[7].1, x.mods) && s[8].0@ == "passed"@ && s[8].1 == JsonValue::Bool(x.passed) && s[9].0@ == "perfect"@ && s[9].1 == JsonValue::Bool(x.perfect) && s[10].0@ == "pp"@ && is_opt_num(s[10].1, x.pp) && s[11].0@ == "rank"@ && is_str(s[11].1, x.rank) && s[12].0@ == "replay"@ && s[12].1 == JsonValue::Bool(x.replay) && s[13].0@ == "score"@ && s[13].1 == JsonValue::UInt(x.score) && s[14].0@ == "statistics"@ && encodes_stats(s[14].1, x.statistics) && s[15].0@ == "type"@ && is_str(s[15].1, x.score_type) && s[16].0@ == "user_id"@ && s[16].1 == JsonValue::UInt(x.user_id) && s[17].0@ == "current_user_attributes"@ && encodes_current_user_attributes(s[17].1, x.current_user_attributes) && s[18].0@ == "beatmap"@ && encodes_beatmap_info(s[18].1, x.beatmap) && s[19].0@ == "beatmapset"@ && encodes_beatmap_set_info(s[19].1, x.beatmapset) && s[20].0@ == "user"@ && encodes_user_info(s[20].1, x.user) && s[21].0@ == "weight"@ && encodes_opt_weight(s[21].1, x.weight)
        },
        _ => false,
    }
}

/// The `Score` held by a member, if it decodes.
pub open spec fn sget_score(s: Seq<(String, JsonValue)>, key: Seq<char>) -> Option<ScoreV> {
    match spec_obj_get(s, key) {
        Some(w) => spec_decode_score(w),
        None => None,
    }
}

/// What a JSON value decodes to as a `Score`, if anything: every
/// mandatory member present with the right shape, optional members
/// absent, null or well-shaped.
pub open spec fn spec_decode_score(v: JsonValue) -> Option<ScoreV> {
    match v {
        JsonValue::Obj(fields) => {
            let s = fields@;
            if sget_opt_numtext(s, "accuracy"@) is Some && sget_opt_u64(s, "best_id"@) is Some && sget_str(s, "created_at"@) is Some && sget_u64(s, "id"@) is Some && sget_u32(s, "max_combo"@) is Some && sget_str(s, "mode"@) is Some && sget_u32(s, "mode_int"@) is Some && sget_strs(s, "mods"@) is Some && sget_bool(s, "passed"@) is Some && sget_bool(s, "perfect"@) is Some && sget_opt_numtext(s, "pp"@) is Some && sget_str(s, "rank"@) is Some && sget_bool(s, "replay"@) is Some && sget_u64(s, "score"@) is Some && sget_stats(s, "statistics"@) is Some && sget_str(s, "type"@) is Some && sget_u64(s, "user_id"@) is Some && sget_current_user_attributes(s, "current_user_attributes"@) is Some && sget_beatmap_info(s, "beatmap"@) is Some && sget_beatmap_set_info(s, "beatmapset"@) is Some && sget_user_info(s, "user"@) is Some && sget_opt_weight(s, "weight"@) is Some {
                Some(ScoreV {
                    accuracy: sget_opt_numtext(s, "accuracy"@)->0,
                    best_id: sget_opt_u64(s, "best_id"@)->0,
                    created_at: sget_str(s, "created_at"@)->0,
                    id: sget_u64(s, "id"@)->0,
                    max_combo: sget_u32(s, "max_combo"@)->0,
                    mode: sget_str(s, "mode"@)->0,
                    mode_int: sget_u32(s, "mode_int"@)->0,
                    mods: sget_strs(s, "mods"@)->0,
                    passed: sget_bool(s, "passed"@)->0,
                    perfect: sget_bool(s, "perfect"@)->0,
                    pp: sget_opt_numtext(s, "pp"@)->0,
                    rank: sget_str(s, "rank"@)->0,
                    replay: sget_bool(s, "replay"@)->0,
                    score: sget_u64(s, "score"@)->0,
                    statistics: sget_stats(s, "statistics"@)->0,
                    score_type: sget_str(s, "type"@)->0,
                    user_id: sget_u64(s, "user_id"@)->0,
                    current_user_attributes: sget_current_user_attributes(s, "current_user_attributes"@)->0,
                    beatmap: sget_beatmap_info(s, "beatmap"@)->0,
                    beatmapset: sget_beatmap_set_info(s, "beatmapset"@)->0,
                    user: sget_user_info(s, "user"@)->0,
                    weight: sget_opt_weight(s, "weight"@)->0,
                })
            } else {
                None
            }
        },
        _ => None,
    }
}

/// Decodes a `Score` from a JSON value; fails with `Schema` exactly
/// when the value does not decode.
pub fn decode_score(v: &JsonValue) -> (r: Result<Score, ApiError>)
    ensures
        match spec_decode_score(*v) {
            Some(x) => r matches Ok(d) && d@ == x,
            None => r matches Err(e) && e == ApiError::Schema,
        },
{
    match v {
        JsonValue::Obj(fields) => {
            let accuracy = get_opt_numtext(fields, "accuracy")?;
            let best_id = get_opt_u64(fields, "best_id")?;
            let created_at = get_str(fields, "created_at")?;
            let id = get_u64(fields, "id")?;
            let max_combo = get_u32(fields, "max_combo")?;
            let mode = get_str(fields, "mode")?;
            let mode_int = get_u32(fields, "mode_int")?;
            let mods = get_strs(fields, "mods")?;
            let passed = get_bool(fields, "passed")?;
            let perfect = get_bool(fields, "perfect")?;
            let pp = get_opt_numtext(fields, "pp")?;
            let rank = get_str(fields, "rank")?;
            let replay = get_bool(fields, "replay")?;
            let score = get_u64(fields, "score")?;
            let statistics = match obj_get(fields, "statistics") {
                Some(w) => decode_stats(w)?,
                None => {
                    return Err(ApiError::Schema);
                },
            };
            let score_type = get_str(fields, "type")?;
            let user_id = get_u64(fields, "user_id")?;
            let current_user_attributes = match obj_get(fields, "current_user_attributes") {
                Some(w) => decode_current_user_attributes(w)?,
                None => {
                    return Err(ApiError::Schema);
                },
            };
            let beatmap = match obj_get(fields, "beatmap") {
                Some(w) => decode_beatmap_info(w)?,
                None => {
                    return Err(ApiError::Schema);
                },
            };
            let beatmapset = match obj_get(fields, "beatmapset") {
                Some(w) => decode_beatmap_set_info(w)?,
                None => {
                    return Err(ApiError::Schema);
                },
            };
            let user = match obj_get(fields, "user") {
                Some(w) => decode_user_info(w)?,
                None => {
                    return Err(ApiError::Schema);
                },
            };
            let weight = match obj_get(fields, "weight") {
                None => None,
                Some(JsonValue::Null) => None,
                Some(w) => Some(decode_weight(w)?),
            };
            Ok(Score {
                accuracy: accuracy,
                best_id: best_id,
                created_at: created_at,
                id: id,
                max_combo: max_combo,
                mode: mode,
                mode_int: mode_int,
                mods: mods,
                passed: passed,
                perfect: perfect,
                pp: pp,
                rank: rank,
                replay: replay,
                score: score,
                statistics: statistics,
                score_type: score_type,
                user_id: user_id,
                current_user_attributes: current_user_attributes,
                beatmap: beatmap,
                beatmapset: beatmapset,
                user: user,
                weight: weight,
            })
        },
        _ => Err(ApiError::Schema),
    }
}

/// Encodes a `Score` as its canonical JSON object.
pub fn encode_score(x: &Score) -> (v: JsonValue)
    ensures
        encodes_score(v, x@),
{
    let mut fields: Vec<(String, JsonValue)> = Vec::new();
    let accuracy_v = match &x.accuracy {
        Some(s) => JsonValue::Num(s.clone()),
        None => JsonValue::Null,
    };
    fields.push(("accuracy".to_owned(), accuracy_v));
    let best_id_v = match x.best_id {
        Some(u) => JsonValue::UInt(u),
        None => JsonValue::Null,
    };
    fields.push(("best_id".to_owned(), best_id_v));
    fields.push(("created_at".to_owned(), JsonValue::Str(x.created_at.clone())));
    fields.push(("id".to_owned(), JsonValue::UInt(x.id)));
    fields.push(("max_combo".to_owned(), JsonValue::UInt(x.max_combo as u64)));
    fields.push(("mode".to_owned(), JsonValue::Str(x.mode.clone())));
    fields.push(("mode_int".to_owned(), JsonValue::UInt(x.mode_int as u64)));
    fields.push(("mods".to_owned(), encode_strs(&x.mods)));
    fields.push(("passed".to_owned(), JsonValue::Bool(x.passed)));
    fields.push(("perfect".to_owned(), JsonValue::Bool(x.perfect)));
    let pp_v = match &x.pp {
        Some(s) => JsonValue::Num(s.clone()),
        None => JsonValue::Null,
    };
    fields.push(("pp".to_owned(), pp_v));
    fields.push(("rank".to_owned(), JsonValue::Str(x.rank.clone())));
    fields.push(("replay".to_owned(), JsonValue::Bool(x.replay)));
    fields.push(("score".to_owned(), JsonValue::UInt(x.score)));
    fields.push(("statistics".to_owned(), encode_stats(&x.statistics)));
    fields.push(("type".to_owned(), JsonValue::Str(x.score_type.clone())));
    fields.push(("user_id".to_owned(), JsonValue::UInt(x.user_id)));
    fields.push(("current_user_attributes".to_owned(), encode_current_user_attributes(&x.current_user_attributes)));
    fields.push(("beatmap".to_owned(), encode_beatmap_info(&x.beatmap)));
    fields.push(("beatmapset".to_owned(), encode_beatmap_set_info(&x.beatmapset)));
    fields.push(("user".to_owned(), encode_user_info(&x.user)));
    let weight_v = match &x.weight {
        Some(wv) => encode_weight(wv),
        None => JsonValue::Null,
    };
    fields.push(("weight".to_owned(), weight_v));
    JsonValue::Obj(fields)
}

/// Round trip: a JSON object that renders a `Score` decodes back to
/// exactly that record.
#[verifier::rlimit(100)]
pub proof fn lemma_score_roundtrip(v: JsonValue, x: ScoreV)
    requires
        encodes_score(v, x),
    ensures
        spec_decode_score(v) == Some(x),
{
    reveal_with_fuel(spec_obj_get, 24);
    reveal_strlit("accuracy");
    reveal_strlit("beatmap");
    reveal_strlit("beatmapset");
    reveal_strlit("best_id");
    reveal_strlit("created_at");
    reveal_strlit("current_user_attributes");
    reveal_strlit("id");
    reveal_strlit("max_combo");
    reveal_strlit("mode");
    reveal_strlit("mode_int");
    reveal_strlit("mods");
    reveal_strlit("passed");
    reveal_strlit("perfect");
    reveal_strlit("pp");
    reveal_strlit("rank");
    reveal_strlit("replay");
    reveal_strlit("score");
    reveal_strlit("statistics");
    reveal_strlit("type");
    reveal_strlit("user");
    reveal_strlit("user_id");
    reveal_strlit("weight");
    let s = v->Obj_0@;
    assert(("accuracy"@).len() == 8);
    assert(("beatmap"@).len() == 7);
    assert(("beatmapset"@).len() == 10);
    assert(("best_id"@).len() == 7);
    assert(("created_at"@).len() == 10);
    assert(("current_user_attributes"@).len() == 23);
    assert(("id"@).len() == 2);
    assert(("max_combo"@).len() == 9);
    assert(("mode"@).len() == 4);
    assert(("mode_int"@).len() == 8);
    assert(("mods"@).len() == 4);
    assert(("passed"@).len() == 6);
    assert(("perfect"@).len() == 7);
    assert(("pp"@).len() == 2);
    assert(("rank"@).len() == 4);
    assert(("replay"@).len() == 6);
    assert(("score"@).len() == 5);
    assert(("statistics"@).len() == 10);
    assert(("type"@).len() == 4);
    assert(("user"@).len() == 4);
    assert(("user_id"@).len() == 7);
    assert(("weight"@).len() == 6);
    assert(("accuracy"@)[0] != ("mode_int"@)[0]);
    assert(("mode"@)[3] != ("mods"@)[3]);
    assert(("best_id"@)[0] != ("perfect"@)[0]);
    assert(("id"@)[0] != ("pp"@)[0]);
    assert(("mode"@)[0] != ("rank"@)[0]);
    assert(("mods"@)[0] != ("rank"@)[0]);
    assert(("passed"@)[0] != ("replay"@)[0]);
    assert(("created_at"@)[0] != ("statistics"@)[0]);
    assert(("mode"@)[0] != ("type"@)[0]);
    assert(("mods"@)[0] != ("type"@)[0]);
    assert(("rank"@)[0] != ("type"@)[0]);
    assert(("best_id"@)[0] != ("user_id"@)[0]);
    assert(("perfect"@)[0] != ("user_id"@)[0]);
    assert(("best_id"@)[2] != ("beatmap"@)[2]);
    assert(("perfect"@)[0] != ("beatmap"@)[0]);
    assert(("user_id"@)[0] != ("beatmap"@)[0]);
    assert(("created_at"@)[0] != ("beatmapset"@)[0]);
    assert(("statistics"@)[0] != ("beatmapset"@)[0]);
    assert(("mode"@)[0] != ("user"@)[0]);
    assert(("mods"@)[0] != ("user"@)[0]);
    assert(("rank"@)[0] != ("user"@)[0]);
    assert(("type"@)[0] != ("user"@)[0]);
    assert(("passed"@)[0] != ("weight"@)[0]);
    assert(("replay"@)[0] != ("weight"@)[0]);
    assert(spec_obj_get(s, "accuracy"@) == Some(s[0].1));
    assert(spec_obj_get(s, "best_id"@) == Some(s[1].1));
    assert(spec_obj_get(s, "created_at"@) == Some(s[2].1));
    assert(spec_obj_get(s, "id"@) == Some(s[3].1));
    assert(spec_obj_get(s, "max_combo"@) == Some(s[4].1));
    assert(spec_obj_get(s, "mode"@) == Some(s[5].1));
    assert(spec_obj_get(s, "mode_int"@) == Some(s[6].1));
    assert(spec_obj_get(s, "mods"@) == Some(s[7].1));
    assert(spec_obj_get(s, "passed"@) == Some(s[8].1));
    assert(spec_obj_get(s, "perfect"@) == Some(s[9].1));
    assert(spec_obj_get(s, "pp"@) == Some(s[10].1));
    assert(spec_obj_get(s, "rank"@) == Some(s[11].1));
    assert(spec_obj_get(s, "replay"@) == Some(s[12].1));
    assert(spec_obj_get(s, "score"@) == Some(s[13].1));
    assert(spec_obj_get(s, "statistics"@) == Some(s[14].1));
    assert(spec_obj_get(s, "type"@) == Some(s[15].1));
    assert(spec_obj_get(s, "user_id"@) == Some(s[16].1));
    assert(spec_obj_get(s, "current_user_attributes"@) == Some(s[17].1));
    assert(spec_obj_get(s, "beatmap"@) == Some(s[18].1));
    assert(spec_obj_get(s, "beatmapset"@) == Some(s[19].1));
    assert(spec_obj_get(s, "user"@) == Some(s[20].1));
    assert(spec_obj_get(s, "weight"@) == Some(s[21].1));
    lemma_stats_roundtrip(s[14].1, x.statistics);
    lemma_current_user_attributes_roundtrip(s[17].1, x.current_user_attributes);
    lemma_beatmap_info_roundtrip(s[18].1, x.beatmap);
    lemma_beatmap_set_info_roundtrip(s[19].1, x.beatmapset);
    lemma_user_info_roundtrip(s[20].1, x.user);
    match x.weight {
        Some(wv) => {
            lemma_weight_roundtrip(s[21].1, wv);
        },
        None => {},
    }
    assert(spec_decode_score(v) == Some(x));
}

/// Decodes a user profile from a raw response body: the body must be
/// valid JSON whose document decodes as a `User`.
pub fn decode_user_body(body: &str) -> (r: Result<User, ApiError>)
    ensures
        match json_of(body@) {
            Some(v) => match spec_decode_user(v) {
                Some(x) => r matches Ok(u) && u@ == x,
                None => r matches Err(e) && e == ApiError::Schema,
            },
            None => r matches Err(e) && e == ApiError::Schema,
        },
{
    match parse_json(body) {
        Some(v) => decode_user(&v),
        None => Err(ApiError::Schema),
    }
}

/// The records of an array of `Beatmapset` documents, in order, or `None`
/// if any element does not decode.
pub open spec fn spec_beatmapset_items(items: Seq<JsonValue>) -> Option<Seq<BeatmapsetV>>
    decreases items.len(),
{
    if items.len() == 0 {
        Some(Seq::empty())
    } else {
        match spec_decode_beatmapset(items[0]) {
            Some(x) => match spec_beatmapset_items(items.drop_first()) {
                Some(rest) => Some(seq![x] + rest),
                None => None,
            },
            None => None,
        }
    }
}

/// What a JSON value decodes to as an ordered sequence of `Beatmapset`
/// records, if anything.
pub open spec fn spec_decode_beatmapsets(v: JsonValue) -> Option<Seq<BeatmapsetV>> {
    match v {
        JsonValue::Arr(items) => spec_beatmapset_items(items@),
        _ => None,
    }
}

/// Decodes an array of `Beatmapset` records; fails with `Schema` exactly
/// when the value is not an array or an element does not decode.
pub fn decode_beatmapsets(v: &JsonValue) -> (r: Result<Vec<Beatmapset>, ApiError>)
    ensures
        match spec_decode_beatmapsets(*v) {
            Some(xs) => r matches Ok(rv) && rv.deep_view() == xs,
            None => r matches Err(e) && e == ApiError::Schema,
        },
{
    match v {
        JsonValue::Arr(items) => {
            let mut out: Vec<Beatmapset> = Vec::new();
            let mut i: usize = 0;
            proof {
                assert(items@.skip(0) =~= items@);
                assert(out.deep_view() =~= Seq::<BeatmapsetV>::empty());
            }
            while i < items.len()
                invariant
                    i <= items.len(),
                    spec_decode_beatmapsets(*v) == spec_beatmapset_items(items@),
                    spec_beatmapset_items(items@) matches Some(all) ==> (spec_beatmapset_items(
                        items@.skip(i as int),
                    ) matches Some(rest) && all =~= out.deep_view() + rest),
                    spec_beatmapset_items(items@) is None ==> spec_beatmapset_items(
                        items@.skip(i as int),
                    ) is None,
                decreases items.len() - i,
            {
                proof {
                    assert(items@.skip(i as int)[0] == items@[i as int]);
                    assert(items@.skip(i as int).drop_first() =~= items@.skip(i + 1));
                }
                match decode_beatmapset(&items[i]) {
                    Ok(x) => {
                        let ghost prev = out.deep_view();
                        let ghost xv = x@;
                        out.push(x);
                        proof {
                            assert(out.deep_view() =~= prev + seq![xv]);
                        }
                    },
                    Err(_) => {
                        proof {
                            assert(spec_beatmapset_items(items@.skip(i as int)) is None);
                        }
                        return Err(ApiError::Schema);
                    },
                }
                i = i + 1;
            }
            proof {
                assert(items@.skip(i as int).len() == 0);
                if let Some(all) = spec_beatmapset_items(items@) {
                    assert(all =~= out.deep_view());
                }
            }
            Ok(out)
        },
        _ => Err(ApiError::Schema),
    }
}

/// Decodes an array of `Beatmapset` records from a raw response body.
pub fn decode_beatmapsets_body(body: &str) -> (r: Result<Vec<Beatmapset>, ApiError>)
    ensures
        match json_of(body@) {
            Some(v) => match spec_decode_beatmapsets(v) {
                Some(xs) => r matches Ok(rv) && rv.deep_view() == xs,
                None => r matches Err(e) && e == ApiError::Schema,
            },
            None => r matches Err(e) && e == ApiError::Schema,
        },
{
    match parse_json(body) {
        Some(v) => decode_beatmapsets(&v),
        None => Err(ApiError::Schema),
    }
}

/// The records of an array of `Score` documents, in order, or `None`
/// if any element does not decode.
pub open spec fn spec_score_items(items: Seq<JsonValue>) -> Option<Seq<ScoreV>>
    decreases items.len(),
{
    if items.len() == 0 {
        Some(Seq::empty())
    } else {
        match spec_decode_score(items[0]) {
            Some(x) => match spec_score_items(items.drop_first()) {
                Some(rest) => Some(seq![x] + rest),
                None => None,
            },
            None => None,
        }
    }
}

/// What a JSON value decodes to as an ordered sequence of `Score`
/// records, if anything.
pub open spec fn spec_decode_scores(v: JsonValue) -> Option<Seq<ScoreV>> {
    match v {
        JsonValue::Arr(items) => spec_score_items(items@),
        _ => None,
    }
}

/// Decodes an array of `Score` records; fails with `Schema` exactly
/// when the value is not an array or an element does not decode.
pub fn decode_scores(v: &JsonValue) -> (r: Result<Vec<Score>, ApiError>)
    ensures
        match spec_decode_scores(*v) {
            Some(xs) => r matches Ok(rv) && rv.deep_view() == xs,
            None => r matches Err(e) && e == ApiError::Schema,
        },
{
    match v {
        JsonValue::Arr(items) => {
            let mut out: Vec<Score> = Vec::new();
            let mut i: usize = 0;
            proof {
                assert(items@.skip(0) =~= items@);
                assert(out.deep_view() =~= Seq::<ScoreV>::empty());
            }
            while i < items.len()
                invariant
                    i <= items.len(),
                    spec_decode_scores(*v) == spec_score_items(items@),
                    spec_score_items(items@) matches Some(all) ==> (spec_score_items(
                        items@.skip(i as int),
                    ) matches Some(rest) && all =~= out.deep_view() + rest),
                    spec_score_items(items@) is None ==> spec_score_items(
                        items@.skip(i as int),
                    ) is None,
                decreases items.len() - i,
            {
                proof {
                    assert(items@.skip(i as int)[0] == items@[i as int]);
                    assert(items@.skip(i as int).drop_first() =~= items@.skip(i + 1));
                }
                match decode_score(&items[i]) {
                    Ok(x) => {
                        let ghost prev = out.deep_view();
                        let ghost xv = x@;
                        out.push(x);
                        proof {
                            assert(out.deep_view() =~= prev + seq![xv]);
                        }
                    },
                    Err(_) => {
                        proof {
                            assert(spec_score_items(items@.skip(i as int)) is None);
                        }
                        return Err(ApiError::Schema);
                    },
                }
                i = i + 1;
            }
            proof {
                assert(items@.skip(i as int).len() == 0);
                if let Some(all) = spec_score_items(items@) {
                    assert(all =~= out.deep_view());
                }
            }
            Ok(out)
        },
        _ => Err(ApiError::Schema),
    }
}

/// Decodes an array of `Score` records from a raw response body.
pub fn decode_scores_body(body: &str) -> (r: Result<Vec<Score>, ApiError>)
    ensures
        match json_of(body@) {
            Some(v) => match spec_decode_scores(v) {
                Some(xs) => r matches Ok(rv) && rv.deep_view() == xs,
                None => r matches Err(e) && e == ApiError::Schema,
            },
            None => r matches Err(e) && e == ApiError::Schema,
        },
{
    match parse_json(body) {
        Some(v) => decode_scores(&v),
        None => Err(ApiError::Schema),
    }
}

} // verus!
