//! Season-long football score-prediction game: the scoring and standings
//! engine. Converts finalized fixture results and user predictions into
//! per-prediction points, per-gameweek and per-season aggregates, and
//! deterministic leaderboard orderings. Storage and the web layer live
//! outside this crate; every function here is pure computation over plain
//! values, verified against the rules it implements.

pub mod auth;
pub mod config;
pub mod models;
pub mod predictions;
pub mod scoring;
pub mod standings;
pub mod templates;
pub mod validate;
