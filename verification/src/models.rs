//! The record types mirroring the upstream JSON shapes, with spec-level
//! views. Fields the provider sends as non-integral numbers (difficulty,
//! accuracy, performance points) are held as their decimal text, so the
//! records stay plain data; optional fields are absent for some game modes
//! and record states.
use vstd::prelude::*;

verus! {

/// A user's level: tier and progress percentage.
#[derive(Debug, Clone, PartialEq)]
pub struct Level {
    pub current: u64,
    pub progress: u64,
}

pub struct LevelV {
    pub current: u64,
    pub progress: u64,
}

impl View for Level {
    type V = LevelV;

    open spec fn view(&self) -> LevelV {
        LevelV { current: self.current, progress: self.progress }
    }
}

/// A user's statistics block.
#[derive(Debug, Clone, PartialEq)]
pub struct Statistics {
    pub level: Level,
    pub global_rank: u64,
    pub country_rank: u64,
    /// Performance points, as decimal text.
    pub pp: String,
    /// Hit accuracy percentage, as decimal text.
    pub hit_accuracy: String,
}

pub struct StatisticsV {
    pub level: LevelV,
    pub global_rank: u64,
    pub country_rank: u64,
    pub pp: Seq<char>,
    pub hit_accuracy: Seq<char>,
}

impl View for Statistics {
    type V = StatisticsV;

    open spec fn view(&self) -> StatisticsV {
        StatisticsV {
            level: self.level@,
            global_rank: self.global_rank,
            country_rank: self.country_rank,
            pp: self.pp@,
            hit_accuracy: self.hit_accuracy@,
        }
    }
}

/// The fetched user profile.
#[derive(Debug, Clone, PartialEq)]
pub struct User {
    pub username: String,
    pub id: u64,
    pub country_code: String,
    pub statistics: Statistics,
}

pub struct UserV {
    pub username: Seq<char>,
    pub id: u64,
    pub country_code: Seq<char>,
    pub statistics: StatisticsV,
}

impl View for User {
    type V = UserV;

    open spec fn view(&self) -> UserV {
        UserV {
            username: self.username@,
            id: self.id,
            country_code: self.country_code@,
            statistics: self.statistics@,
        }
    }
}

/// One chart inside a most-played record.
#[derive(Debug, Clone, PartialEq)]
pub struct Beatmap {
    pub beatmapset_id: u64,
    /// Difficulty rating, as decimal text.
    pub difficulty_rating: String,
    pub id: u64,
    pub mode: String,
    pub status: String,
    pub total_length: u64,
    pub user_id: u64,
    pub version: String,
}

pub struct BeatmapV {
    pub beatmapset_id: u64,
    pub difficulty_rating: Seq<char>,
    pub id: u64,
    pub mode: Seq<char>,
    pub status: Seq<char>,
    pub total_length: u64,
    pub user_id: u64,
    pub version: Seq<char>,
}

impl View for Beatmap {
    type V = BeatmapV;

    open spec fn view(&self) -> BeatmapV {
        BeatmapV {
            beatmapset_id: self.beatmapset_id,
            difficulty_rating: self.difficulty_rating@,
            id: self.id,
            mode: self.mode@,
            status: self.status@,
            total_length: self.total_length,
            user_id: self.user_id,
            version: self.version@,
        }
    }
}

/// The set metadata inside a most-played record.
#[derive(Debug, Clone, PartialEq)]
pub struct BeatmapsetData {
    pub artist: String,
    pub artist_unicode: String,
    pub creator: String,
    pub favourite_count: Option<u64>,
    pub hype: Option<String>,
    pub id: u64,
    pub nsfw: bool,
    pub offset: u64,
    pub play_count: u64,
    pub preview_url: String,
    pub source: String,
    pub spotlight: bool,
    pub status: String,
    pub title: String,
    pub title_unicode: String,
    pub track_id: Option<u64>,
    pub user_id: u64,
    pub video: bool,
}

pub struct BeatmapsetDataV {
    pub artist: Seq<char>,
    pub artist_unicode: Seq<char>,
    pub creator: Seq<char>,
    pub favourite_count: Option<u64>,
    pub hype: Option<Seq<char>>,
    pub id: u64,
    pub nsfw: bool,
    pub offset: u64,
    pub play_count: u64,
    pub preview_url: Seq<char>,
    pub source: Seq<char>,
    pub spotlight: bool,
    pub status: Seq<char>,
    pub title: Seq<char>,
    pub title_unicode: Seq<char>,
    pub track_id: Option<u64>,
    pub user_id: u64,
    pub video: bool,
}

impl View for BeatmapsetData {
    type V = BeatmapsetDataV;

    open spec fn view(&self) -> BeatmapsetDataV {
        BeatmapsetDataV {
            artist: self.artist@,
            artist_unicode: self.artist_unicode@,
            creator: self.creator@,
            favourite_count: self.favourite_count,
            hype: self.hype.deep_view(),
            id: self.id,
            nsfw: self.nsfw,
            offset: self.offset,
            play_count: self.play_count,
            preview_url: self.preview_url@,
            source: self.source@,
            spotlight: self.spotlight,
            status: self.status@,
            title: self.title@,
            title_unicode: self.title_unicode@,
            track_id: self.track_id,
            user_id: self.user_id,
            video: self.video,
        }
    }
}

/// One most-played record: a chart, how often it was played, and its set.
#[derive(Debug, Clone, PartialEq)]
pub struct Beatmapset {
    pub beatmap_id: u64,
    pub count: u64,
    pub beatmap: Beatmap,
    pub beatmapset: BeatmapsetData,
}

pub struct BeatmapsetV {
    pub beatmap_id: u64,
    pub count: u64,
    pub beatmap: BeatmapV,
    pub beatmapset: BeatmapsetDataV,
}

impl View for Beatmapset {
    type V = BeatmapsetV;

    open spec fn view(&self) -> BeatmapsetV {
        BeatmapsetV {
            beatmap_id: self.beatmap_id,
            count: self.count,
            beatmap: self.beatmap@,
            beatmapset: self.beatmapset@,
        }
    }
}

/// Judgement counts of one score; some counts exist only for keyed modes.
#[derive(Debug, Clone, PartialEq)]
pub struct Stats {
    pub count_100: u32,
    pub count_300: u32,
    pub count_50: u32,
    pub count_geki: Option<u32>,
    pub count_katu: Option<u32>,
    pub count_miss: u32,
}

pub struct StatsV {
    pub count_100: u32,
    pub count_300: u32,
    pub count_50: u32,
    pub count_geki: Option<u32>,
    pub count_katu: Option<u32>,
    pub count_miss: u32,
}

impl View for Stats {
    type V = StatsV;

    open spec fn view(&self) -> StatsV {
        StatsV {
            count_100: self.count_100,
            count_300: self.count_300,
            count_50: self.count_50,
            count_geki: self.count_geki,
            count_katu: self.count_katu,
            count_miss: self.count_miss,
        }
    }
}

/// Cover image addresses of a beatmapset.
#[derive(Debug, Clone, PartialEq)]
pub struct Covers {
    pub cover: String,
    pub cover2x: String,
    pub card: String,
    pub card2x: String,
    pub list: String,
    pub list2x: String,
    pub slimcover: String,
    pub slimcover2x: String,
}

pub struct CoversV {
    pub cover: Seq<char>,
    pub cover2x: Seq<char>,
    pub card: Seq<char>,
    pub card2x: Seq<char>,
    pub list: Seq<char>,
    pub list2x: Seq<char>,
    pub slimcover: Seq<char>,
    pub slimcover2x: Seq<char>,
}

impl View for Covers {
    type V = CoversV;

    open spec fn view(&self) -> CoversV {
        CoversV {
            cover: self.cover@,
            cover2x: self.cover2x@,
            card: self.card@,
            card2x: self.card2x@,
            list: self.list@,
            list2x: self.list2x@,
            slimcover: self.slimcover@,
            slimcover2x: self.slimcover2x@,
        }
    }
}

/// The chart snapshot nested in a score.
#[derive(Debug, Clone, PartialEq)]
pub struct BeatmapInfo {
    pub beatmapset_id: u64,
    pub difficulty_rating: String,
    pub id: u64,
    pub mode: String,
    pub status: String,
    pub total_length: u32,
    pub user_id: u64,
    pub version: String,
    pub accuracy: String,
    pub ar: String,
    pub bpm: String,
    pub convert: bool,
    pub count_circles: u32,
    pub count_sliders: u32,
    pub count_spinners: u32,
    pub cs: String,
    pub deleted_at: Option<String>,
    pub drain: String,
    pub hit_length: u32,
    pub is_scoreable: bool,
    pub last_updated: String,
    pub mode_int: u32,
    pub passcount: u32,
    pub playcount: u32,
    pub ranked: u32,
    pub url: String,
    pub checksum: String,
}

pub struct BeatmapInfoV {
    pub beatmapset_id: u64,
    pub difficulty_rating: Seq<char>,
    pub id: u64,
    pub mode: Seq<char>,
    pub status: Seq<char>,
    pub total_length: u32,
    pub user_id: u64,
    pub version: Seq<char>,
    pub accuracy: Seq<char>,
    pub ar: Seq<char>,
    pub bpm: Seq<char>,
    pub convert: bool,
    pub count_circles: u32,
    pub count_sliders: u32,
    pub count_spinners: u32,
    pub cs: Seq<char>,
    pub deleted_at: Option<Seq<char>>,
    pub drain: Seq<char>,
    pub hit_length: u32,
    pub is_scoreable: bool,
    pub last_updated: Seq<char>,
    pub mode_int: u32,
    pub passcount: u32,
    pub playcount: u32,
    pub ranked: u32,
    pub url: Seq<char>,
    pub checksum: Seq<char>,
}

impl View for BeatmapInfo {
    type V = BeatmapInfoV;

    open spec fn view(&self) -> BeatmapInfoV {
        BeatmapInfoV {
            beatmapset_id: self.beatmapset_id,
            difficulty_rating: self.difficulty_rating@,
            id: self.id,
            mode: self.mode@,
            status: self.status@,
            total_length: self.total_length,
            user_id: self.user_id,
            version: self.version@,
            accuracy: self.accuracy@,
            ar: self.ar@,
            bpm: self.bpm@,
            convert: self.convert,
            count_circles: self.count_circles,
            count_sliders: self.count_sliders,
            count_spinners: self.count_spinners,
            cs: self.cs@,
            deleted_at: self.deleted_at.deep_view(),
            drain: self.drain@,
            hit_length: self.hit_length,
            is_scoreable: self.is_scoreable,
            last_updated: self.last_updated@,
            mode_int: self.mode_int,
            passcount: self.passcount,
            playcount: self.playcount,
            ranked: self.ranked,
            url: self.url@,
            checksum: self.checksum@,
        }
    }
}

/// The set snapshot nested in a score.
#[derive(Debug, Clone, PartialEq)]
pub struct BeatmapSetInfo {
    pub artist: String,
    pub artist_unicode: String,
    pub covers: Covers,
    pub creator: String,
    pub favourite_count: u32,
    pub hype: Option<u32>,
    pub id: u64,
    pub nsfw: bool,
    pub offset: u32,
    pub play_count: u32,
    pub preview_url: String,
    pub source: String,
    pub spotlight: bool,
    pub status: String,
    pub title: String,
    pub title_unicode: String,
    pub track_id: Option<u32>,
    pub user_id: u64,
    pub video: bool,
}

pub struct BeatmapSetInfoV {
    pub artist: Seq<char>,
    pub artist_unicode: Seq<char>,
    pub covers: CoversV,
    pub creator: Seq<char>,
    pub favourite_count: u32,
    pub hype: Option<u32>,
    pub id: u64,
    pub nsfw: bool,
    pub offset: u32,
    pub play_count: u32,
    pub preview_url: Seq<char>,
    pub source: Seq<char>,
    pub spotlight: bool,
    pub status: Seq<char>,
    pub title: Seq<char>,
    pub title_unicode: Seq<char>,
    pub track_id: Option<u32>,
    pub user_id: u64,
    pub video: bool,
}

impl View for BeatmapSetInfo {
    type V = BeatmapSetInfoV;

    open spec fn view(&self) -> BeatmapSetInfoV {
        BeatmapSetInfoV {
            artist: self.artist@,
            artist_unicode: self.artist_unicode@,
            covers: self.covers@,
            creator: self.creator@,
            favourite_count: self.favourite_count,
            hype: self.hype,
            id: self.id,
            nsfw: self.nsfw,
            offset: self.offset,
            play_count: self.play_count,
            preview_url: self.preview_url@,
            source: self.source@,
            spotlight: self.spotlight,
            status: self.status@,
            title: self.title@,
            title_unicode: self.title_unicode@,
            track_id: self.track_id,
            user_id: self.user_id,
            video: self.video,
        }
    }
}

/// The user snapshot nested in a score.
#[derive(Debug, Clone, PartialEq)]
pub struct UserInfo {
    pub avatar_url: String,
    pub country_code: String,
    pub default_group: String,
    pub id: u64,
    pub is_active: bool,
    pub is_bot: bool,
    pub is_deleted: bool,
    pub is_online: bool,
    pub is_supporter: bool,
    pub last_visit: String,
    pub pm_friends_only: bool,
    pub profile_colour: Option<String>,
    pub username: String,
}

pub struct UserInfoV {
    pub avatar_url: Seq<char>,
    pub country_code: Seq<char>,
    pub default_group: Seq<char>,
    pub id: u64,
    pub is_active: bool,
    pub is_bot: bool,
    pub is_deleted: bool,
    pub is_online: bool,
    pub is_supporter: bool,
    pub last_visit: Seq<char>,
    pub pm_friends_only: bool,
    pub profile_colour: Option<Seq<char>>,
    pub username: Seq<char>,
}

impl View for UserInfo {
    type V = UserInfoV;

    open spec fn view(&self) -> UserInfoV {
        UserInfoV {
            avatar_url: self.avatar_url@,
            country_code: self.country_code@,
            default_group: self.default_group@,
            id: self.id,
            is_active: self.is_active,
            is_bot: self.is_bot,
            is_deleted: self.is_deleted,
            is_online: self.is_online,
            is_supporter: self.is_supporter,
            last_visit: self.last_visit@,
            pm_friends_only: self.pm_friends_only,
            profile_colour: self.profile_colour.deep_view(),
            username: self.username@,
        }
    }
}

/// Per-viewer attributes of a score.
#[derive(Debug, Clone, PartialEq)]
pub struct CurrentUserAttributes {
    pub pin: Option<String>,
}

pub struct CurrentUserAttributesV {
    pub pin: Option<Seq<char>>,
}

impl View for CurrentUserAttributes {
    type V = CurrentUserAttributesV;

    open spec fn view(&self) -> CurrentUserAttributesV {
        CurrentUserAttributesV { pin: self.pin.deep_view() }
    }
}

/// The weighting of a top play.
#[derive(Debug, Clone, PartialEq)]
pub struct Weight {
    /// Percentage contribution, as decimal text.
    pub percentage: String,
    /// Weighted performance points, as decimal text.
    pub pp: String,
}

pub struct WeightV {
    pub percentage: Seq<char>,
    pub pp: Seq<char>,
}

impl View for Weight {
    type V = WeightV;

    open spec fn view(&self) -> WeightV {
        WeightV { percentage: self.percentage@, pp: self.pp@ }
    }
}

/// One score record.
#[derive(Debug, Clone, PartialEq)]
pub struct Score {
    /// Accuracy in [0,1], as decimal text; absent when not computed.
    pub accuracy: Option<String>,
    pub best_id: Option<u64>,
    pub created_at: String,
    pub id: u64,
    pub max_combo: u32,
    pub mode: String,
    pub mode_int: u32,
    pub mods: Vec<String>,
    pub passed: bool,
    pub perfect: bool,
    /// Performance points, as decimal text; absent when not computed.
    pub pp: Option<String>,
    pub rank: String,
    pub replay: bool,
    pub score: u64,
    pub statistics: Stats,
    pub score_type: String,
    pub user_id: u64,
    pub current_user_attributes: CurrentUserAttributes,
    pub beatmap: BeatmapInfo,
    pub beatmapset: BeatmapSetInfo,
    pub user: UserInfo,
    pub weight: Option<Weight>,
}

pub struct ScoreV {
    pub accuracy: Option<Seq<char>>,
    pub best_id: Option<u64>,
    pub created_at: Seq<char>,
    pub id: u64,
    pub max_combo: u32,
    pub mode: Seq<char>,
    pub mode_int: u32,
    pub mods: Seq<Seq<char>>,
    pub passed: bool,
    pub perfect: bool,
    pub pp: Option<Seq<char>>,
    pub rank: Seq<char>,
    pub replay: bool,
    pub score: u64,
    pub statistics: StatsV,
    pub score_type: Seq<char>,
    pub user_id: u64,
    pub current_user_attributes: CurrentUserAttributesV,
    pub beatmap: BeatmapInfoV,
    pub beatmapset: BeatmapSetInfoV,
    pub user: UserInfoV,
    pub weight: Option<WeightV>,
}

impl View for Score {
    type V = ScoreV;

    open spec fn view(&self) -> ScoreV {
        ScoreV {
            accuracy: self.accuracy.deep_view(),
            best_id: self.best_id,
            created_at: self.created_at@,
            id: self.id,
            max_combo: self.max_combo,
            mode: self.mode@,
            mode_int: self.mode_int,
            mods: self.mods.deep_view(),
            passed: self.passed,
            perfect: self.perfect,
            pp: self.pp.deep_view(),
            rank: self.rank@,
            replay: self.replay,
            score: self.score,
            statistics: self.statistics@,
            score_type: self.score_type@,
            user_id: self.user_id,
            current_user_attributes: self.current_user_attributes@,
            beatmap: self.beatmap@,
            beatmapset: self.beatmapset@,
            user: self.user@,
            weight: match self.weight {
                Some(w) => Some(w@),
                None => None,
            },
        }
    }
}

impl DeepView for Beatmapset {
    type V = BeatmapsetV;

    open spec fn deep_view(&self) -> BeatmapsetV {
        self@
    }
}

impl DeepView for Score {
    type V = ScoreV;

    open spec fn deep_view(&self) -> ScoreV {
        self@
    }
}

} // verus!
