//! Plain-value records that the scoring and standings engine works on.
//!
//! Identifiers are 128-bit integers (the surrounding application maps its
//! own key type onto them), scores and counters are 32-bit integers as in
//! the storage schema. Only the fields that the engine reads or writes are
//! modelled; timestamps and presentation data stay with the caller.

use vstd::prelude::*;

verus! {

/// A finalized fixture result: both scores are known. A fixture with either
/// score missing is not finalized and never reaches the scoring engine.
#[derive(Clone, Copy, Debug, PartialEq, Eq, Structural)]
pub struct FixtureResult {
    pub fixture_id: u128,
    pub home_score: i32,
    pub away_score: i32,
}

/// A user's submitted prediction for one fixture, together with the points
/// the scoring pass last awarded it (0 until a pass has run).
#[derive(Clone, Copy, Debug, PartialEq, Eq, Structural)]
pub struct Prediction {
    pub id: u128,
    pub user_id: u128,
    pub fixture_id: u128,
    pub home_score_prediction: i32,
    pub away_score_prediction: i32,
    pub points_awarded: i32,
}

/// A prediction as submitted by a user, before it is stored.
#[derive(Clone, Copy, Debug, PartialEq, Eq, Structural)]
pub struct CreatePrediction {
    pub fixture_id: u128,
    pub home_score_prediction: i32,
    pub away_score_prediction: i32,
}

/// One pending points write: the gameweek scoring pass asks the caller to
/// store `points` into the prediction's `points_awarded` field.
#[derive(Clone, Copy, Debug, PartialEq, Eq, Structural)]
pub struct PredictionPoints {
    pub prediction_id: u128,
    pub points: i32,
}

/// Per-(user, gameweek) aggregate, recomputed wholesale by each scoring
/// pass: total points, and how many predictions were exact or correct.
#[derive(Clone, Copy, Debug, PartialEq, Eq, Structural)]
pub struct GameweekScore {
    pub user_id: u128,
    pub total_points: i32,
    pub exact_scores: i32,
    pub correct_results: i32,
}

/// Per-(user, season) aggregate: sums over that user's gameweek scores in
/// the season, plus the number of gameweeks played.
#[derive(Clone, Copy, Debug, PartialEq, Eq, Structural)]
pub struct SeasonScore {
    pub user_id: u128,
    pub total_points: i32,
    pub total_exact_scores: i32,
    pub total_correct_results: i32,
    pub gameweeks_played: i32,
}

/// A fixture as the administrator sets one up: the two team names, the
/// kickoff time as a unix timestamp, and the fixture's place (one to six)
/// in the gameweek.
#[derive(Clone, Debug)]
pub struct CreateFixture {
    pub home_team: String,
    pub away_team: String,
    pub kickoff_time: i64,
    pub fixture_order: i32,
}

/// A gameweek as the administrator sets one up: its number, its season's
/// name, and the prediction deadline as a unix timestamp.
#[derive(Clone, Debug)]
pub struct CreateGameweek {
    pub week_number: i32,
    pub season: String,
    pub deadline: i64,
}

/// One user's aggregate row for a leaderboard period (a gameweek or a
/// season), as handed to the standings ranker.
#[derive(Clone, Debug)]
pub struct StandingRow {
    pub user_id: u128,
    pub display_name: String,
    pub total_points: i32,
    pub exact_scores: i32,
    pub correct_results: i32,
}

/// A user as the leaderboard needs one: identifier and display name. Users
/// listed here but absent from the aggregate rows are ranked with all-zero
/// values.
#[derive(Clone, Debug)]
pub struct UserRef {
    pub user_id: u128,
    pub display_name: String,
}

/// One leaderboard line: a user's aggregate row together with its 1-based
/// position in the ranking.
#[derive(Clone, Debug)]
pub struct UserWithScore {
    pub user_id: u128,
    pub display_name: String,
    pub score: i32,
    pub exact_scores: i32,
    pub correct_results: i32,
    pub position: i32,
}

/// Registration form data, already past transport decoding.
#[derive(Clone, Debug)]
pub struct CreateUser {
    pub name: String,
    pub display_name: String,
    pub email: String,
    pub password: String,
}

/// Login form data.
#[derive(Clone, Debug)]
pub struct LoginUser {
    pub email: String,
    pub password: String,
}

} // verus!
