use superior6::models::{
    FixtureResult, GameweekScore, Prediction, SeasonScore, StandingRow, UserRef,
};
use superior6::scoring::{calculate_gameweek_scores, update_season_scores};
use superior6::standings::{name_le, rank, season_position};

fn row(user_id: u128, name: &str, points: i32, exact: i32, correct: i32) -> StandingRow {
    StandingRow {
        user_id,
        display_name: name.to_string(),
        total_points: points,
        exact_scores: exact,
        correct_results: correct,
    }
}

fn user(user_id: u128, name: &str) -> UserRef {
    UserRef { user_id, display_name: name.to_string() }
}

#[test]
fn test_name_order_is_case_sensitive_lexical() {
    assert!(name_le("Alice", "Bob"));
    assert!(!name_le("Bob", "Alice"));
    assert!(name_le("Alice", "Alice"));
    // A prefix comes before its extensions.
    assert!(name_le("Ann", "Anna"));
    assert!(!name_le("Anna", "Ann"));
    // Case-sensitive: upper-case letters order before lower-case ones.
    assert!(name_le("Zoe", "ava"));
    assert!(!name_le("ava", "Zoe"));
}

#[test]
fn test_rank_orders_by_points_exact_then_name() {
    let rows = vec![
        row(1, "alice", 10, 2, 1),
        row(2, "bob", 12, 0, 3),
        row(3, "carol", 10, 3, 0),
    ];
    let out = rank(rows, vec![]);
    let order: Vec<(u128, i32)> = out.iter().map(|r| (r.user_id, r.position)).collect();
    // bob on points, then carol over alice on exact scores.
    assert_eq!(order, vec![(2, 1), (3, 2), (1, 3)]);
}

#[test]
fn test_rank_tied_users_get_sequential_positions() {
    // Fully tied on points and exact scores: the name breaks the tie, and
    // the two rows still occupy distinct, consecutive positions.
    let rows = vec![row(5, "mallory", 8, 1, 1), row(4, "eve", 8, 1, 1)];
    let out = rank(rows, vec![]);
    assert_eq!(out.len(), 2);
    assert_eq!(out[0].user_id, 4);
    assert_eq!(out[0].position, 1);
    assert_eq!(out[1].user_id, 5);
    assert_eq!(out[1].position, 2);
}

#[test]
fn test_rank_includes_zero_rows_for_missing_users() {
    let rows = vec![row(1, "alice", 3, 0, 1)];
    let users = vec![user(1, "alice"), user(2, "bob"), user(3, "carol")];
    let out = rank(rows, users);
    assert_eq!(out.len(), 3);
    assert_eq!(out[0].user_id, 1);
    assert_eq!(out[0].score, 3);
    // The two inactive users follow with all-zero values, in name order.
    assert_eq!(out[1].user_id, 2);
    assert_eq!((out[1].score, out[1].exact_scores, out[1].correct_results), (0, 0, 0));
    assert_eq!(out[1].position, 2);
    assert_eq!(out[2].user_id, 3);
    assert_eq!(out[2].position, 3);
}

#[test]
fn test_rank_of_nothing_is_empty() {
    let out = rank(vec![], vec![]);
    assert!(out.is_empty());
}

fn season_row(user_id: u128, points: i32, exact: i32) -> SeasonScore {
    SeasonScore {
        user_id,
        total_points: points,
        total_exact_scores: exact,
        total_correct_results: 0,
        gameweeks_played: 1,
    }
}

#[test]
fn test_season_position_counts_users_ahead() {
    let rows = vec![
        season_row(1, 20, 3),
        season_row(2, 15, 2),
        season_row(3, 15, 5),
        season_row(4, 9, 0),
    ];
    // Nobody beats 20/3.
    assert_eq!(season_position(&rows, 20, 3), 1);
    // User 1 and user 3 (same points, more exact scores) beat 15/2.
    assert_eq!(season_position(&rows, 15, 2), 3);
    // Everyone in the table beats 5/0.
    assert_eq!(season_position(&rows, 5, 0), 5);
}

#[test]
fn test_season_position_ties_share_a_position() {
    let rows = vec![season_row(1, 10, 1), season_row(2, 10, 1)];
    // Two users with identical totals: each is beaten by nobody.
    assert_eq!(season_position(&rows, 10, 1), 1);
}

#[test]
fn test_two_gameweeks_to_season_leaderboard() {
    let prediction = |id: u128, user_id: u128, fixture_id: u128, home: i32, away: i32| Prediction {
        id,
        user_id,
        fixture_id,
        home_score_prediction: home,
        away_score_prediction: away,
        points_awarded: 0,
    };
    // Gameweek one: alice exact, bob right outcome.
    let week_one = calculate_gameweek_scores(
        &vec![FixtureResult { fixture_id: 1, home_score: 2, away_score: 0 }],
        &vec![prediction(10, 1, 1, 2, 0), prediction(11, 2, 1, 1, 0)],
    );
    // Gameweek two: alice wrong, bob exact.
    let week_two = calculate_gameweek_scores(
        &vec![FixtureResult { fixture_id: 2, home_score: 0, away_score: 1 }],
        &vec![prediction(20, 1, 2, 1, 0), prediction(21, 2, 2, 0, 1)],
    );

    let mut season_input: Vec<GameweekScore> = week_one.user_scores.clone();
    season_input.extend(week_two.user_scores.iter().copied());
    let season = update_season_scores(&season_input);

    let names = [(1u128, "alice"), (2, "bob")];
    let rows: Vec<StandingRow> = season
        .iter()
        .map(|s| {
            let name = names.iter().find(|(id, _)| *id == s.user_id).unwrap().1;
            StandingRow {
                user_id: s.user_id,
                display_name: name.to_string(),
                total_points: s.total_points,
                exact_scores: s.total_exact_scores,
                correct_results: s.total_correct_results,
            }
        })
        .collect();
    let board = rank(rows, vec![]);

    // Bob: 2 + 5 = 7 points with one exact score; alice: 5 + 0 = 5 points.
    assert_eq!(board[0].user_id, 2);
    assert_eq!(board[0].score, 7);
    assert_eq!(board[0].exact_scores, 1);
    assert_eq!(board[0].position, 1);
    assert_eq!(board[1].user_id, 1);
    assert_eq!(board[1].score, 5);
    assert_eq!(board[1].position, 2);
}
