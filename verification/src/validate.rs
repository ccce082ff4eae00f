//! Admission checks for the two submissions that feed the scoring
//! engine: a user's predictions for the active gameweek, and the
//! administrator's final results for it. Each check states which inputs it accepts
//! and which error every rejected input earns, checked in the same order
//! as the submission handlers apply them.

use crate::models::{CreateFixture, CreateGameweek, CreatePrediction, FixtureResult};
use vstd::string::StrSliceExecFns;
use vstd::prelude::*;

verus! {

/// A gameweek always holds exactly this many fixtures.
pub const FIXTURES_PER_GAMEWEEK: usize = 6;

/// The highest score a prediction may name for either side.
pub const MAX_PREDICTED_SCORE: i32 = 20;

/// Why a submission was turned away.
#[derive(Clone, Copy, Debug, PartialEq, Eq, Structural)]
pub enum SubmissionError {
    /// A submitted value is outside its allowed range.
    Validation,
    /// The gameweek's deadline has passed.
    DeadlinePassed,
    /// The submission does not cover the gameweek's fixtures exactly.
    InvalidPrediction,
    /// The user already has predictions for this gameweek.
    PredictionsAlreadySubmitted,
}

/// Both predicted scores are within the allowed range.
pub open spec fn prediction_in_range(p: CreatePrediction) -> bool {
    0 <= p.home_score_prediction <= MAX_PREDICTED_SCORE && 0 <= p.away_score_prediction
        <= MAX_PREDICTED_SCORE
}

/// Every submitted prediction is within range.
pub open spec fn all_predictions_in_range(ps: Seq<CreatePrediction>) -> bool {
    forall|i: int| 0 <= i < ps.len() ==> prediction_in_range(#[trigger] ps[i])
}

/// Whether some submitted prediction names this fixture.
pub open spec fn predicts_fixture(ps: Seq<CreatePrediction>, fixture_id: u128) -> bool {
    exists|i: int| 0 <= i < ps.len() && ps[i].fixture_id == fixture_id
}

/// How many of the gameweek's fixtures have a prediction among `ps`.
pub open spec fn covered_fixtures(fixture_ids: Seq<u128>, ps: Seq<CreatePrediction>) -> int
    decreases fixture_ids.len(),
{
    if fixture_ids.len() == 0 {
        0
    } else {
        covered_fixtures(fixture_ids.drop_last(), ps) + if predicts_fixture(
            ps,
            fixture_ids.last(),
        ) {
            1int
        } else {
            0int
        }
    }
}

/// Checks that every prediction is within range.
fn check_predictions_in_range(predictions: &Vec<CreatePrediction>) -> (r: bool)
    ensures
        r == all_predictions_in_range(predictions@),
{
    let mut i: usize = 0;
    while i < predictions.len()
        invariant
            i <= predictions@.len(),
            forall|k: int| 0 <= k < i ==> prediction_in_range(#[trigger] predictions@[k]),
        decreases predictions@.len() - i,
    {
        let p = &predictions[i];
        if p.home_score_prediction < 0 || p.home_score_prediction > MAX_PREDICTED_SCORE
            || p.away_score_prediction < 0 || p.away_score_prediction > MAX_PREDICTED_SCORE {
            return false;
        }
        i = i + 1;
    }
    true
}

/// Whether some prediction names this fixture, scanning in order.
fn predicts_fixture_exec(predictions: &Vec<CreatePrediction>, fixture_id: u128) -> (r: bool)
    ensures
        r == predicts_fixture(predictions@, fixture_id),
{
    let mut i: usize = 0;
    while i < predictions.len()
        invariant
            i <= predictions@.len(),
            forall|k: int| 0 <= k < i ==> (#[trigger] predictions@[k]).fixture_id != fixture_id,
        decreases predictions@.len() - i,
    {
        if predictions[i].fixture_id == fixture_id {
            return true;
        }
        i = i + 1;
    }
    false
}

/// Counts the gameweek's fixtures that have a prediction.
#[verifier::loop_isolation(false)]
fn count_covered_fixtures(
    gameweek_fixture_ids: &Vec<u128>,
    predictions: &Vec<CreatePrediction>,
) -> (n: usize)
    ensures
        n == covered_fixtures(gameweek_fixture_ids@, predictions@),
{
    let mut n: usize = 0;
    let mut i: usize = 0;
    while i < gameweek_fixture_ids.len()
        invariant
            i <= gameweek_fixture_ids@.len(),
            0 <= n <= i,
            n == covered_fixtures(gameweek_fixture_ids@.take(i as int), predictions@),
        decreases gameweek_fixture_ids@.len() - i,
    {
        proof {
            assert(gameweek_fixture_ids@.take(i + 1).drop_last() =~= gameweek_fixture_ids@.take(
                i as int,
            ));
            assert(gameweek_fixture_ids@.take(i + 1).last() == gameweek_fixture_ids@[i as int]);
        }
        if predicts_fixture_exec(predictions, gameweek_fixture_ids[i]) {
            n = n + 1;
        }
        i = i + 1;
    }
    proof {
        assert(gameweek_fixture_ids@.take(gameweek_fixture_ids@.len() as int)
            =~= gameweek_fixture_ids@);
    }
    n
}

/// A prediction submission is accepted exactly when every score is within
/// range, the deadline has not passed, it holds one prediction per fixture
/// of the gameweek, and the user has not submitted before.
pub open spec fn submission_accepted(
    predictions: Seq<CreatePrediction>,
    gameweek_fixture_ids: Seq<u128>,
    deadline: int,
    now: int,
    existing_predictions: int,
) -> bool {
    &&& all_predictions_in_range(predictions)
    &&& now < deadline
    &&& predictions.len() == FIXTURES_PER_GAMEWEEK
    &&& covered_fixtures(gameweek_fixture_ids, predictions) == FIXTURES_PER_GAMEWEEK
    &&& existing_predictions == 0
}

/// The admission check for a prediction submission.
///
/// `gameweek_fixture_ids` are the active gameweek's fixtures,
/// `existing_predictions` is how many predictions the user already has on
/// them, and times are the storage clock's values. The checks run in the
/// handler's order and the first failure names the error: out-of-range
/// scores, then a passed deadline, then wrong count or coverage, then an
/// earlier submission.
pub fn validate_gameweek_submission(
    predictions: &Vec<CreatePrediction>,
    gameweek_fixture_ids: &Vec<u128>,
    deadline: i64,
    now: i64,
    existing_predictions: usize,
) -> (r: Result<(), SubmissionError>)
    ensures
        r is Ok <==> submission_accepted(
            predictions@,
            gameweek_fixture_ids@,
            deadline as int,
            now as int,
            existing_predictions as int,
        ),
        r == Err::<(), SubmissionError>(SubmissionError::Validation) <==> !all_predictions_in_range(
            predictions@,
        ),
        r == Err::<(), SubmissionError>(SubmissionError::DeadlinePassed) <==> (
        all_predictions_in_range(predictions@) && now >= deadline),
        r == Err::<(), SubmissionError>(SubmissionError::InvalidPrediction) <==> (
        all_predictions_in_range(predictions@) && now < deadline && (predictions@.len()
            != FIXTURES_PER_GAMEWEEK || covered_fixtures(gameweek_fixture_ids@, predictions@)
            != FIXTURES_PER_GAMEWEEK)),
        r == Err::<(), SubmissionError>(SubmissionError::PredictionsAlreadySubmitted) <==> (
        all_predictions_in_range(predictions@) && now < deadline && predictions@.len()
            == FIXTURES_PER_GAMEWEEK && covered_fixtures(gameweek_fixture_ids@, predictions@)
            == FIXTURES_PER_GAMEWEEK && existing_predictions > 0),
{
    if !check_predictions_in_range(predictions) {
        return Err(SubmissionError::Validation);
    }
    if now >= deadline {
        return Err(SubmissionError::DeadlinePassed);
    }
    if predictions.len() != FIXTURES_PER_GAMEWEEK {
        return Err(SubmissionError::InvalidPrediction);
    }
    if count_covered_fixtures(gameweek_fixture_ids, predictions) != FIXTURES_PER_GAMEWEEK {
        return Err(SubmissionError::InvalidPrediction);
    }
    if existing_predictions > 0 {
        return Err(SubmissionError::PredictionsAlreadySubmitted);
    }
    Ok(())
}

/// Both entered scores are non-negative.
pub open spec fn result_in_range(r: FixtureResult) -> bool {
    r.home_score >= 0 && r.away_score >= 0
}

/// Every entered result is within range.
pub open spec fn all_results_in_range(rs: Seq<FixtureResult>) -> bool {
    forall|i: int| 0 <= i < rs.len() ==> result_in_range(#[trigger] rs[i])
}

/// The admission check for a results submission: the administrator must enter
/// exactly one result per fixture of the gameweek, and no score may be
/// negative. The count is checked first, as the handler does.
pub fn validate_gameweek_results(results: &Vec<FixtureResult>) -> (r: Result<
    (),
    SubmissionError,
>)
    ensures
        r is Ok <==> (results@.len() == FIXTURES_PER_GAMEWEEK && all_results_in_range(results@)),
        r == Err::<(), SubmissionError>(SubmissionError::InvalidPrediction) <==> results@.len()
            != FIXTURES_PER_GAMEWEEK,
        r == Err::<(), SubmissionError>(SubmissionError::Validation) <==> (results@.len()
            == FIXTURES_PER_GAMEWEEK && !all_results_in_range(results@)),
{
    if results.len() != FIXTURES_PER_GAMEWEEK {
        return Err(SubmissionError::InvalidPrediction);
    }
    let mut i: usize = 0;
    while i < results.len()
        invariant
            i <= results@.len(),
            results@.len() == FIXTURES_PER_GAMEWEEK,
            forall|k: int| 0 <= k < i ==> result_in_range(#[trigger] results@[k]),
        decreases results@.len() - i,
    {
        let entry = &results[i];
        if entry.home_score < 0 || entry.away_score < 0 {
            return Err(SubmissionError::Validation);
        }
        i = i + 1;
    }
    Ok(())
}

/// Why a fixture batch was turned away.
#[derive(Clone, Copy, Debug, PartialEq, Eq, Structural)]
pub enum FixtureBatchError {
    /// The batch does not hold exactly one fixture per slot of the
    /// gameweek.
    WrongCount,
    /// A team name or the fixture's slot is outside its allowed range.
    OutOfRange,
}

/// Both team names have between two and 255 characters and the fixture
/// sits in one of the gameweek's six slots.
pub open spec fn fixture_in_range(f: CreateFixture) -> bool {
    &&& 2 <= f.home_team@.len() <= 255
    &&& 2 <= f.away_team@.len() <= 255
    &&& 1 <= f.fixture_order <= FIXTURES_PER_GAMEWEEK as i32
}

/// Every fixture of the batch is within range.
pub open spec fn all_fixtures_in_range(fs: Seq<CreateFixture>) -> bool {
    forall|i: int| 0 <= i < fs.len() ==> fixture_in_range(#[trigger] fs[i])
}

/// The admission check for the administrator's fixture batch: a gameweek
/// takes exactly six fixtures, each within range. The count is checked
/// first, as the handler does.
pub fn validate_fixture_batch(fixtures: &Vec<CreateFixture>) -> (r: Result<
    (),
    FixtureBatchError,
>)
    ensures
        r is Ok <==> (fixtures@.len() == FIXTURES_PER_GAMEWEEK && all_fixtures_in_range(
            fixtures@,
        )),
        r == Err::<(), FixtureBatchError>(FixtureBatchError::WrongCount) <==> fixtures@.len()
            != FIXTURES_PER_GAMEWEEK,
        r == Err::<(), FixtureBatchError>(FixtureBatchError::OutOfRange) <==> (fixtures@.len()
            == FIXTURES_PER_GAMEWEEK && !all_fixtures_in_range(fixtures@)),
{
    if fixtures.len() != FIXTURES_PER_GAMEWEEK {
        return Err(FixtureBatchError::WrongCount);
    }
    let mut i: usize = 0;
    while i < fixtures.len()
        invariant
            i <= fixtures@.len(),
            fixtures@.len() == FIXTURES_PER_GAMEWEEK,
            forall|k: int| 0 <= k < i ==> fixture_in_range(#[trigger] fixtures@[k]),
        decreases fixtures@.len() - i,
    {
        let f = &fixtures[i];
        let home_len = f.home_team.as_str().unicode_len();
        let away_len = f.away_team.as_str().unicode_len();
        if home_len < 2 || home_len > 255 || away_len < 2 || away_len > 255 || f.fixture_order < 1
            || f.fixture_order > FIXTURES_PER_GAMEWEEK as i32 {
            return Err(FixtureBatchError::OutOfRange);
        }
        i = i + 1;
    }
    Ok(())
}

/// The season's name has between seven and twenty characters; nothing else
/// about a new gameweek is constrained.
pub open spec fn create_gameweek_in_range(g: CreateGameweek) -> bool {
    7 <= g.season@.len() <= 20
}

/// The admission check for a new gameweek's form data.
pub fn validate_create_gameweek(gameweek: &CreateGameweek) -> (r: bool)
    ensures
        r == create_gameweek_in_range(*gameweek),
{
    let season_len = gameweek.season.as_str().unicode_len();
    7 <= season_len && season_len <= 20
}

} // verus!
