use superior6::models::{CreateFixture, CreateGameweek, CreatePrediction, FixtureResult};
use superior6::validate::{
    validate_create_gameweek, validate_fixture_batch, validate_gameweek_results,
    validate_gameweek_submission, FixtureBatchError, SubmissionError,
};

fn entry(fixture_id: u128, home: i32, away: i32) -> CreatePrediction {
    CreatePrediction { fixture_id, home_score_prediction: home, away_score_prediction: away }
}

fn six_predictions() -> Vec<CreatePrediction> {
    (1..=6).map(|f| entry(f as u128, 1, 0)).collect()
}

fn six_fixture_ids() -> Vec<u128> {
    (1..=6).collect()
}

const DEADLINE: i64 = 1_000;
const BEFORE: i64 = 999;
const AFTER: i64 = 1_000;

#[test]
fn test_submission_accepted() {
    let r = validate_gameweek_submission(&six_predictions(), &six_fixture_ids(), DEADLINE, BEFORE, 0);
    assert_eq!(r, Ok(()));
}

#[test]
fn test_submission_rejects_out_of_range_score() {
    let mut predictions = six_predictions();
    predictions[3].away_score_prediction = 21;
    let r = validate_gameweek_submission(&predictions, &six_fixture_ids(), DEADLINE, BEFORE, 0);
    assert_eq!(r, Err(SubmissionError::Validation));

    let mut predictions = six_predictions();
    predictions[0].home_score_prediction = -1;
    let r = validate_gameweek_submission(&predictions, &six_fixture_ids(), DEADLINE, BEFORE, 0);
    assert_eq!(r, Err(SubmissionError::Validation));
}

#[test]
fn test_submission_rejects_passed_deadline() {
    // The deadline moment itself already counts as passed.
    let r = validate_gameweek_submission(&six_predictions(), &six_fixture_ids(), DEADLINE, AFTER, 0);
    assert_eq!(r, Err(SubmissionError::DeadlinePassed));
}

#[test]
fn test_submission_rejects_wrong_count() {
    let mut predictions = six_predictions();
    predictions.pop();
    let r = validate_gameweek_submission(&predictions, &six_fixture_ids(), DEADLINE, BEFORE, 0);
    assert_eq!(r, Err(SubmissionError::InvalidPrediction));
}

#[test]
fn test_submission_rejects_foreign_fixture() {
    let mut predictions = six_predictions();
    predictions[5].fixture_id = 99; // not a fixture of this gameweek
    let r = validate_gameweek_submission(&predictions, &six_fixture_ids(), DEADLINE, BEFORE, 0);
    assert_eq!(r, Err(SubmissionError::InvalidPrediction));
}

#[test]
fn test_submission_rejects_duplicate_fixture() {
    let mut predictions = six_predictions();
    predictions[5].fixture_id = 1; // fixture 1 twice, fixture 6 never
    let r = validate_gameweek_submission(&predictions, &six_fixture_ids(), DEADLINE, BEFORE, 0);
    assert_eq!(r, Err(SubmissionError::InvalidPrediction));
}

#[test]
fn test_submission_rejects_resubmission() {
    let r = validate_gameweek_submission(&six_predictions(), &six_fixture_ids(), DEADLINE, BEFORE, 6);
    assert_eq!(r, Err(SubmissionError::PredictionsAlreadySubmitted));
}

fn result_entry(fixture_id: u128, home: i32, away: i32) -> FixtureResult {
    FixtureResult { fixture_id, home_score: home, away_score: away }
}

fn six_results() -> Vec<FixtureResult> {
    (1..=6).map(|f| result_entry(f as u128, 2, 2)).collect()
}

#[test]
fn test_results_accepted() {
    assert_eq!(validate_gameweek_results(&six_results()), Ok(()));
}

#[test]
fn test_results_reject_wrong_count() {
    let mut results = six_results();
    results.pop();
    assert_eq!(
        validate_gameweek_results(&results),
        Err(SubmissionError::InvalidPrediction)
    );
}

#[test]
fn test_results_reject_negative_score() {
    let mut results = six_results();
    results[2].home_score = -1;
    assert_eq!(validate_gameweek_results(&results), Err(SubmissionError::Validation));
}

fn six_fixtures() -> Vec<CreateFixture> {
    (1..=6)
        .map(|order| CreateFixture {
            home_team: format!("Home {order}"),
            away_team: format!("Away {order}"),
            kickoff_time: 1_000,
            fixture_order: order,
        })
        .collect()
}

#[test]
fn test_fixture_batch_accepted() {
    assert_eq!(validate_fixture_batch(&six_fixtures()), Ok(()));
}

#[test]
fn test_fixture_batch_rejects_wrong_count() {
    let mut fixtures = six_fixtures();
    fixtures.pop();
    assert_eq!(validate_fixture_batch(&fixtures), Err(FixtureBatchError::WrongCount));
}

#[test]
fn test_fixture_batch_rejects_short_team_name() {
    let mut fixtures = six_fixtures();
    fixtures[0].home_team = "X".to_string();
    assert_eq!(validate_fixture_batch(&fixtures), Err(FixtureBatchError::OutOfRange));
}

#[test]
fn test_fixture_batch_rejects_bad_slot() {
    let mut fixtures = six_fixtures();
    fixtures[5].fixture_order = 7;
    assert_eq!(validate_fixture_batch(&fixtures), Err(FixtureBatchError::OutOfRange));
}

#[test]
fn test_create_gameweek_season_name_length() {
    let mut gameweek = CreateGameweek {
        week_number: 1,
        season: "2024-25".to_string(),
        deadline: 1_000,
    };
    assert!(validate_create_gameweek(&gameweek));
    gameweek.season = "24-25".to_string();
    assert!(!validate_create_gameweek(&gameweek));
    gameweek.season = "a season name far too long".to_string();
    assert!(!validate_create_gameweek(&gameweek));
}
