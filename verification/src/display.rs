//! Human-readable rendering of a user profile: the username, identifier
//! and country lines followed by an indented statistics line.
use crate::models::{Statistics, StatisticsV, User, UserV};
use crate::text::{spec_dec, u64_to_string};
use vstd::prelude::*;

verus! {

/// The statistics line: level with progress, ranks, performance points
/// and hit accuracy.
pub open spec fn spec_format_statistics(s: StatisticsV) -> Seq<char> {
    "    Level: "@ + spec_dec(s.level.current as nat) + " (Progress: "@ + spec_dec(
        s.level.progress as nat,
    ) + "%), Global Rank: "@ + spec_dec(s.global_rank as nat) + ", Country Rank: "@ + spec_dec(
        s.country_rank as nat,
    ) + ", PP: "@ + s.pp + ", Hit Accuracy: "@ + s.hit_accuracy + "%"@
}

/// The full profile rendering: one line each for username, identifier and
/// country code, then the statistics line.
pub open spec fn spec_format_user(u: UserV) -> Seq<char> {
    "Username: "@ + u.username + "\nID: "@ + spec_dec(u.id as nat) + "\nCountry Code: "@
        + u.country_code + "\nStatistics:\n"@ + spec_format_statistics(u.statistics)
}

/// Renders the statistics line.
pub fn format_statistics(s: &Statistics) -> (r: String)
    ensures
        r@ == spec_format_statistics(s@),
{
    let mut r: String = "    Level: ".to_owned();
    r.append(u64_to_string(s.level.current).as_str());
    r.append(" (Progress: ");
    r.append(u64_to_string(s.level.progress).as_str());
    r.append("%), Global Rank: ");
    r.append(u64_to_string(s.global_rank).as_str());
    r.append(", Country Rank: ");
    r.append(u64_to_string(s.country_rank).as_str());
    r.append(", PP: ");
    r.append(s.pp.as_str());
    r.append(", Hit Accuracy: ");
    r.append(s.hit_accuracy.as_str());
    r.append("%");
    r
}

/// Renders the full profile.
pub fn format_user(u: &User) -> (r: String)
    ensures
        r@ == spec_format_user(u@),
{
    let mut r: String = "Username: ".to_owned();
    r.append(u.username.as_str());
    r.append("\nID: ");
    r.append(u64_to_string(u.id).as_str());
    r.append("\nCountry Code: ");
    r.append(u.country_code.as_str());
    r.append("\nStatistics:\n");
    r.append(format_statistics(&u.statistics).as_str());
    r
}

} // verus!
