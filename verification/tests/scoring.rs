use superior6::models::{FixtureResult, GameweekScore, Prediction};
use superior6::scoring::{
    calculate_gameweek_scores, calculate_points, update_season_scores, MatchResult,
    POINTS_CORRECT_RESULT, POINTS_EXACT_SCORE,
};

#[test]
fn text_exact_score() {
    assert_eq!(calculate_points(2, 1, 2, 1), POINTS_EXACT_SCORE);
    assert_eq!(calculate_points(0, 0, 0, 0), POINTS_EXACT_SCORE);
    assert_eq!(calculate_points(3, 2, 3, 2), POINTS_EXACT_SCORE);
    // A prediction that misses one of the two scores is not exact: (3, 3)
    // against an actual (3, 2) names the wrong outcome and earns nothing.
    assert_eq!(calculate_points(3, 2, 3, 3), 0);
}

#[test]
fn test_correct_result() {
    // Home wins
    assert_eq!(calculate_points(2, 1, 3, 0), POINTS_CORRECT_RESULT);
    assert_eq!(calculate_points(1, 0, 2, 1), POINTS_CORRECT_RESULT);

    // Draws
    assert_eq!(calculate_points(1, 1, 2, 2), POINTS_CORRECT_RESULT);
    assert_eq!(calculate_points(0, 0, 3, 3), POINTS_CORRECT_RESULT);

    // Away wins
    assert_eq!(calculate_points(0, 1, 1, 2), POINTS_CORRECT_RESULT);
    assert_eq!(calculate_points(1, 3, 0, 1), POINTS_CORRECT_RESULT);
}

#[test]
fn test_no_points() {
    // Wrong result
    assert_eq!(calculate_points(2, 1, 1, 2), 0); // Home win vs Away win
    assert_eq!(calculate_points(1, 1, 2, 0), 0); // Draw vs Home win
    assert_eq!(calculate_points(0, 2, 1, 1), 0); // Away win vs Draw
}

#[test]
fn test_match_result() {
    assert_eq!(MatchResult::from_scores(2, 1), MatchResult::HomeWin);
    assert_eq!(MatchResult::from_scores(1, 1), MatchResult::Draw);
    assert_eq!(MatchResult::from_scores(0, 2), MatchResult::AwayWin);
}

#[test]
fn test_points_swap_symmetry_examples() {
    assert_eq!(calculate_points(2, 1, 2, 1), calculate_points(1, 2, 1, 2));
    assert_eq!(calculate_points(2, 1, 3, 0), calculate_points(1, 2, 0, 3));
    assert_eq!(calculate_points(2, 1, 1, 2), calculate_points(1, 2, 2, 1));
    assert_eq!(calculate_points(1, 1, 2, 2), calculate_points(1, 1, 2, 2));
}

fn fixture(fixture_id: u128, home: i32, away: i32) -> FixtureResult {
    FixtureResult { fixture_id, home_score: home, away_score: away }
}

fn prediction(id: u128, user_id: u128, fixture_id: u128, home: i32, away: i32) -> Prediction {
    Prediction {
        id,
        user_id,
        fixture_id,
        home_score_prediction: home,
        away_score_prediction: away,
        points_awarded: 0,
    }
}

#[test]
fn test_gameweek_two_exact_predictions() {
    // Two of the gameweek's six fixtures are finalized; the user predicted
    // both exactly: 10 points, 2 exact scores, no correct results.
    let fixtures = vec![fixture(1, 2, 1), fixture(2, 0, 0)];
    let predictions = vec![prediction(10, 7, 1, 2, 1), prediction(11, 7, 2, 0, 0)];
    let out = calculate_gameweek_scores(&fixtures, &predictions);
    assert_eq!(out.prediction_points.len(), 2);
    assert_eq!(out.prediction_points[0].prediction_id, 10);
    assert_eq!(out.prediction_points[0].points, 5);
    assert_eq!(out.prediction_points[1].points, 5);
    assert_eq!(
        out.user_scores,
        vec![GameweekScore { user_id: 7, total_points: 10, exact_scores: 2, correct_results: 0 }]
    );
}

#[test]
fn test_gameweek_mixed_users() {
    let fixtures = vec![fixture(1, 2, 1), fixture(2, 1, 1)];
    let predictions = vec![
        prediction(10, 7, 1, 2, 1), // exact: 5
        prediction(11, 7, 2, 2, 2), // correct result: 2
        prediction(12, 8, 1, 0, 1), // wrong result: 0
        prediction(13, 8, 2, 1, 1), // exact: 5
        prediction(14, 9, 3, 1, 0), // fixture 3 not finalized: skipped
    ];
    let out = calculate_gameweek_scores(&fixtures, &predictions);
    let points: Vec<(u128, i32)> =
        out.prediction_points.iter().map(|w| (w.prediction_id, w.points)).collect();
    assert_eq!(points, vec![(10, 5), (11, 2), (12, 0), (13, 5)]);
    assert_eq!(out.user_scores.len(), 2);
    let seven = out.user_scores.iter().find(|r| r.user_id == 7).unwrap();
    assert_eq!((seven.total_points, seven.exact_scores, seven.correct_results), (7, 1, 1));
    let eight = out.user_scores.iter().find(|r| r.user_id == 8).unwrap();
    assert_eq!((eight.total_points, eight.exact_scores, eight.correct_results), (5, 1, 0));
}

#[test]
fn test_gameweek_no_finalized_fixtures_is_noop() {
    let fixtures: Vec<FixtureResult> = vec![];
    let predictions = vec![prediction(10, 7, 1, 2, 1), prediction(11, 8, 2, 0, 0)];
    let out = calculate_gameweek_scores(&fixtures, &predictions);
    assert!(out.prediction_points.is_empty());
    assert!(out.user_scores.is_empty());
}

#[test]
fn test_gameweek_scoring_pass_idempotent() {
    let fixtures = vec![fixture(1, 2, 1), fixture(2, 1, 1)];
    let mut predictions = vec![
        prediction(10, 7, 1, 2, 1),
        prediction(11, 7, 2, 2, 2),
        prediction(12, 8, 1, 0, 1),
        prediction(13, 9, 3, 4, 4),
    ];
    let first = calculate_gameweek_scores(&fixtures, &predictions);
    // Persist the first run's points writes, as the caller would.
    for write in &first.prediction_points {
        for p in predictions.iter_mut() {
            if p.id == write.prediction_id {
                p.points_awarded = write.points;
            }
        }
    }
    let second = calculate_gameweek_scores(&fixtures, &predictions);
    assert_eq!(first.prediction_points, second.prediction_points);
    assert_eq!(first.user_scores, second.user_scores);

    let season_first = update_season_scores(&first.user_scores);
    let season_second = update_season_scores(&second.user_scores);
    assert_eq!(season_first, season_second);
}

#[test]
fn test_season_totals_are_sums_of_gameweek_rows() {
    // Three gameweeks' rows for user 7, one for user 8.
    let rows = vec![
        GameweekScore { user_id: 7, total_points: 10, exact_scores: 2, correct_results: 0 },
        GameweekScore { user_id: 8, total_points: 4, exact_scores: 0, correct_results: 2 },
        GameweekScore { user_id: 7, total_points: 7, exact_scores: 1, correct_results: 1 },
        GameweekScore { user_id: 7, total_points: 0, exact_scores: 0, correct_results: 0 },
    ];
    let out = update_season_scores(&rows);
    assert_eq!(out.len(), 2);
    let seven = out.iter().find(|r| r.user_id == 7).unwrap();
    assert_eq!(seven.total_points, 17);
    assert_eq!(seven.total_exact_scores, 3);
    assert_eq!(seven.total_correct_results, 1);
    assert_eq!(seven.gameweeks_played, 3);
    let eight = out.iter().find(|r| r.user_id == 8).unwrap();
    assert_eq!(eight.total_points, 4);
    assert_eq!(eight.total_exact_scores, 0);
    assert_eq!(eight.total_correct_results, 2);
    assert_eq!(eight.gameweeks_played, 1);
}

#[test]
fn test_season_aggregation_of_no_rows() {
    let rows: Vec<GameweekScore> = vec![];
    let out = update_season_scores(&rows);
    assert!(out.is_empty());
}
