//! Verified core of an osu! statistics client: OAuth client-credentials
//! token extraction, typed endpoint and query-string construction, JSON
//! decoding of user, beatmapset and score records, and profile formatting.
pub mod client;
pub mod codec;
pub mod display;
pub mod error;
pub mod json;
pub mod models;
pub mod parse;
pub mod query;
pub mod text;
pub mod token;
