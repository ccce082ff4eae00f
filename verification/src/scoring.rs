//! Match outcomes, the points rule, and the two aggregation passes.
//!
//! The points rule: five points for an exact score, two for the correct
//! result with a different score, none otherwise. The gameweek scoring pass
//! turns finalized fixtures and predictions into per-prediction points and
//! per-user gameweek aggregates; the season aggregation pass rolls gameweek
//! aggregates into season totals. Both passes are pure: they take the rows
//! the caller loaded and return the rows the caller must write back.

use crate::models::{FixtureResult, GameweekScore, Prediction, PredictionPoints, SeasonScore};
use vstd::prelude::*;

verus! {

/// Points for predicting the exact final score.
pub const POINTS_EXACT_SCORE: i32 = 5;

/// Points for predicting the right outcome with the wrong score.
pub const POINTS_CORRECT_RESULT: i32 = 2;

/// The three possible outcomes of a match.
#[derive(Clone, Copy, Debug, PartialEq, Eq, Structural)]
pub enum MatchResult {
    HomeWin,
    Draw,
    AwayWin,
}

/// The outcome of a match with the given final scores.
pub open spec fn outcome(home: int, away: int) -> MatchResult {
    if home > away {
        MatchResult::HomeWin
    } else if home == away {
        MatchResult::Draw
    } else {
        MatchResult::AwayWin
    }
}

/// The points awarded to a prediction `(ph, pw)` against the actual result
/// `(ah, aw)`: exact score first, then matching outcome, else nothing.
pub open spec fn points_for(ah: int, aw: int, ph: int, pw: int) -> int {
    if ah == ph && aw == pw {
        POINTS_EXACT_SCORE as int
    } else if outcome(ah, aw) == outcome(ph, pw) {
        POINTS_CORRECT_RESULT as int
    } else {
        0
    }
}

impl MatchResult {
    /// Classifies a pair of final scores as a home win, draw or away win.
    pub fn from_scores(home_score: i32, away_score: i32) -> (r: Self)
        ensures
            r == outcome(home_score as int, away_score as int),
    {
        if home_score > away_score {
            MatchResult::HomeWin
        } else if home_score == away_score {
            MatchResult::Draw
        } else {
            MatchResult::AwayWin
        }
    }
}

/// Computes the points for one prediction against one actual result.
pub fn calculate_points(
    actual_home: i32,
    actual_away: i32,
    predicted_home: i32,
    predicted_away: i32,
) -> (p: i32)
    ensures
        p == points_for(
            actual_home as int,
            actual_away as int,
            predicted_home as int,
            predicted_away as int,
        ),
{
    if actual_home == predicted_home && actual_away == predicted_away {
        return POINTS_EXACT_SCORE;
    }
    let actual_result = MatchResult::from_scores(actual_home, actual_away);
    let predicted_result = MatchResult::from_scores(predicted_home, predicted_away);
    if actual_result == predicted_result {
        return POINTS_CORRECT_RESULT;
    }
    0
}

/// A prediction is worth the full five points exactly when it names both
/// final scores.
pub proof fn lemma_points_exact_iff(ah: int, aw: int, ph: int, pw: int)
    ensures
        points_for(ah, aw, ph, pw) == POINTS_EXACT_SCORE <==> (ah == ph && aw == pw),
{
}

/// A prediction that is not the exact score is worth two points exactly
/// when it names the right outcome, and nothing otherwise.
pub proof fn lemma_points_correct_result_iff(ah: int, aw: int, ph: int, pw: int)
    requires
        !(ah == ph && aw == pw),
    ensures
        points_for(ah, aw, ph, pw) == POINTS_CORRECT_RESULT <==> outcome(ah, aw) == outcome(
            ph,
            pw,
        ),
        points_for(ah, aw, ph, pw) == 0 <==> outcome(ah, aw) != outcome(ph, pw),
{
}

/// Swapping home and away in both the actual and the predicted score leaves
/// the points unchanged: the rule has no home-side bias.
pub proof fn lemma_points_swap_symmetric(ah: int, aw: int, ph: int, pw: int)
    ensures
        points_for(ah, aw, ph, pw) == points_for(aw, ah, pw, ph),
{
}

/// The points rule takes only three values.
pub proof fn lemma_points_cases(ah: int, aw: int, ph: int, pw: int)
    ensures
        points_for(ah, aw, ph, pw) == POINTS_EXACT_SCORE || points_for(ah, aw, ph, pw)
            == POINTS_CORRECT_RESULT || points_for(ah, aw, ph, pw) == 0,
{
}

/// Whether some fixture in `fixtures` carries this identifier.
pub open spec fn has_fixture(fixtures: Seq<FixtureResult>, fixture_id: u128) -> bool {
    exists|i: int| 0 <= i < fixtures.len() && fixtures[i].fixture_id == fixture_id
}

/// The fixture in `fixtures` carrying this identifier; meaningful when
/// `has_fixture` holds and the identifiers are distinct.
pub open spec fn fixture_for(fixtures: Seq<FixtureResult>, fixture_id: u128) -> FixtureResult {
    fixtures[choose|i: int| 0 <= i < fixtures.len() && fixtures[i].fixture_id == fixture_id]
}

/// No two fixtures share an identifier.
pub open spec fn distinct_fixture_ids(fixtures: Seq<FixtureResult>) -> bool {
    forall|i: int, j: int|
        0 <= i < j < fixtures.len() ==> fixtures[i].fixture_id != fixtures[j].fixture_id
}

/// The points this prediction earns against its fixture's finalized result.
pub open spec fn prediction_points(fixtures: Seq<FixtureResult>, p: Prediction) -> int {
    points_for(
        fixture_for(fixtures, p.fixture_id).home_score as int,
        fixture_for(fixtures, p.fixture_id).away_score as int,
        p.home_score_prediction as int,
        p.away_score_prediction as int,
    )
}

/// Whether this prediction counts towards `user_id`'s gameweek score: it is
/// theirs and its fixture is finalized.
pub open spec fn scores_prediction(
    fixtures: Seq<FixtureResult>,
    p: Prediction,
    user_id: u128,
) -> bool {
    p.user_id == user_id && has_fixture(fixtures, p.fixture_id)
}

/// The points writes the pass produces: one per prediction whose fixture is
/// finalized, in prediction order.
pub open spec fn awarded_points(
    fixtures: Seq<FixtureResult>,
    preds: Seq<Prediction>,
) -> Seq<PredictionPoints>
    decreases preds.len(),
{
    if preds.len() == 0 {
        Seq::empty()
    } else {
        let rest = awarded_points(fixtures, preds.drop_last());
        let p = preds.last();
        if has_fixture(fixtures, p.fixture_id) {
            rest.push(
                PredictionPoints {
                    prediction_id: p.id,
                    points: prediction_points(fixtures, p) as i32,
                },
            )
        } else {
            rest
        }
    }
}

/// The user's total points over the predictions that count for them.
pub open spec fn user_total_points(
    fixtures: Seq<FixtureResult>,
    preds: Seq<Prediction>,
    user_id: u128,
) -> int
    decreases preds.len(),
{
    if preds.len() == 0 {
        0
    } else {
        user_total_points(fixtures, preds.drop_last(), user_id) + if scores_prediction(
            fixtures,
            preds.last(),
            user_id,
        ) {
            prediction_points(fixtures, preds.last())
        } else {
            0
        }
    }
}

/// How many of the user's counting predictions hit the exact score.
pub open spec fn user_exact_scores(
    fixtures: Seq<FixtureResult>,
    preds: Seq<Prediction>,
    user_id: u128,
) -> int
    decreases preds.len(),
{
    if preds.len() == 0 {
        0
    } else {
        user_exact_scores(fixtures, preds.drop_last(), user_id) + if scores_prediction(
            fixtures,
            preds.last(),
            user_id,
        ) && prediction_points(fixtures, preds.last()) == POINTS_EXACT_SCORE {
            1int
        } else {
            0int
        }
    }
}

/// How many of the user's counting predictions hit the result but not the
/// score.
pub open spec fn user_correct_results(
    fixtures: Seq<FixtureResult>,
    preds: Seq<Prediction>,
    user_id: u128,
) -> int
    decreases preds.len(),
{
    if preds.len() == 0 {
        0
    } else {
        user_correct_results(fixtures, preds.drop_last(), user_id) + if scores_prediction(
            fixtures,
            preds.last(),
            user_id,
        ) && prediction_points(fixtures, preds.last()) == POINTS_CORRECT_RESULT {
            1int
        } else {
            0int
        }
    }
}

/// Whether the user has at least one prediction on a finalized fixture.
pub open spec fn user_has_scored(
    fixtures: Seq<FixtureResult>,
    preds: Seq<Prediction>,
    user_id: u128,
) -> bool {
    exists|i: int| 0 <= i < preds.len() && scores_prediction(fixtures, preds[i], user_id)
}

/// Whether `rows` holds a score row for this user.
pub open spec fn has_score_row(rows: Seq<GameweekScore>, user_id: u128) -> bool {
    exists|k: int| 0 <= k < rows.len() && rows[k].user_id == user_id
}

/// Everything the gameweek scoring pass asks the caller to persist: the
/// points for each scored prediction, and one gameweek score row per user
/// who scored.
#[derive(Clone, Debug)]
pub struct GameweekScoring {
    pub prediction_points: Vec<PredictionPoints>,
    pub user_scores: Vec<GameweekScore>,
}

/// Finds the fixture with this identifier, scanning in order.
fn find_fixture(fixtures: &Vec<FixtureResult>, fixture_id: u128) -> (r: Option<FixtureResult>)
    requires
        distinct_fixture_ids(fixtures@),
    ensures
        match r {
            Some(f) => has_fixture(fixtures@, fixture_id) && f == fixture_for(
                fixtures@,
                fixture_id,
            ),
            None => !has_fixture(fixtures@, fixture_id),
        },
{
    let mut i: usize = 0;
    while i < fixtures.len()
        invariant
            i <= fixtures@.len(),
            distinct_fixture_ids(fixtures@),
            forall|k: int| 0 <= k < i ==> fixtures@[k].fixture_id != fixture_id,
        decreases fixtures@.len() - i,
    {
        if fixtures[i].fixture_id == fixture_id {
            proof {
                assert(has_fixture(fixtures@, fixture_id));
                let j = choose|j: int|
                    0 <= j < fixtures@.len() && fixtures@[j].fixture_id == fixture_id;
                assert(j == i);
            }
            return Some(fixtures[i]);
        }
        i = i + 1;
    }
    None
}

/// Whether `user_id` already occurs in `users`.
fn contains_user(users: &Vec<u128>, user_id: u128) -> (r: bool)
    ensures
        r == users@.contains(user_id),
{
    let mut i: usize = 0;
    while i < users.len()
        invariant
            i <= users@.len(),
            forall|k: int| 0 <= k < i ==> users@[k] != user_id,
        decreases users@.len() - i,
    {
        if users[i] == user_id {
            return true;
        }
        i = i + 1;
    }
    false
}

/// The gameweek scoring pass.
///
/// Given the gameweek's finalized fixtures and all predictions against
/// them, computes the points each prediction earns and one gameweek score
/// row per user who predicted at least one finalized fixture. With no
/// finalized fixtures both outputs are empty: the pass is a no-op, not an
/// error. The pass reads nothing but the inputs, so re-running it on
/// unchanged data returns the same rows.
#[verifier::loop_isolation(false)]
#[verifier::rlimit(30)]
pub fn calculate_gameweek_scores(
    fixtures: &Vec<FixtureResult>,
    predictions: &Vec<Prediction>,
) -> (out: GameweekScoring)
    requires
        distinct_fixture_ids(fixtures@),
        5 * predictions@.len() <= i32::MAX,
    ensures
        out.prediction_points@ == awarded_points(fixtures@, predictions@),
        forall|k: int|
            0 <= k < out.user_scores@.len() ==> user_has_scored(
                fixtures@,
                predictions@,
                (#[trigger] out.user_scores@[k]).user_id,
            ),
        forall|k: int|
            0 <= k < out.user_scores@.len() ==> {
                &&& (#[trigger] out.user_scores@[k]).total_points == user_total_points(
                    fixtures@,
                    predictions@,
                    out.user_scores@[k].user_id,
                )
                &&& out.user_scores@[k].exact_scores == user_exact_scores(
                    fixtures@,
                    predictions@,
                    out.user_scores@[k].user_id,
                )
                &&& out.user_scores@[k].correct_results == user_correct_results(
                    fixtures@,
                    predictions@,
                    out.user_scores@[k].user_id,
                )
            },
        forall|k1: int, k2: int|
            0 <= k1 < k2 < out.user_scores@.len() ==> (#[trigger] out.user_scores@[k1]).user_id
                != (#[trigger] out.user_scores@[k2]).user_id,
        forall|u: u128|
            #[trigger] user_has_scored(fixtures@, predictions@, u) ==> has_score_row(
                out.user_scores@,
                u,
            ),
{
    // Points for every prediction on a finalized fixture.
    let mut prediction_points_out: Vec<PredictionPoints> = Vec::new();
    let mut i: usize = 0;
    while i < predictions.len()
        invariant
            i <= predictions@.len(),
            prediction_points_out@ == awarded_points(fixtures@, predictions@.take(i as int)),
        decreases predictions@.len() - i,
    {
        let p = &predictions[i];
        if let Some(f) = find_fixture(fixtures, p.fixture_id) {
            let pts = calculate_points(
                f.home_score,
                f.away_score,
                p.home_score_prediction,
                p.away_score_prediction,
            );
            proof {
                lemma_points_cases(
                    f.home_score as int,
                    f.away_score as int,
                    p.home_score_prediction as int,
                    p.away_score_prediction as int,
                );
            }
            prediction_points_out.push(PredictionPoints { prediction_id: p.id, points: pts });
        }
        proof {
            assert(predictions@.take(i + 1).drop_last() =~= predictions@.take(i as int));
            assert(predictions@.take(i + 1).last() == predictions@[i as int]);
        }
        i = i + 1;
    }
    proof {
        assert(predictions@.take(predictions@.len() as int) =~= predictions@);
    }

    // The users who predicted at least one finalized fixture, each once.
    let mut users: Vec<u128> = Vec::new();
    let mut i: usize = 0;
    while i < predictions.len()
        invariant
            i <= predictions@.len(),
            forall|k: int|
                0 <= k < users@.len() ==> user_has_scored(
                    fixtures@,
                    predictions@,
                    #[trigger] users@[k],
                ),
            forall|k1: int, k2: int| 0 <= k1 < k2 < users@.len() ==> users@[k1] != users@[k2],
            forall|u: u128|
                #[trigger] user_has_scored(fixtures@, predictions@.take(i as int), u)
                    ==> users@.contains(u),
        decreases predictions@.len() - i,
    {
        let ghost users0 = users@;
        let p = &predictions[i];
        if find_fixture(fixtures, p.fixture_id).is_some() {
            if !contains_user(&users, p.user_id) {
                users.push(p.user_id);
                proof {
                    assert(users@[users@.len() - 1] == p.user_id);
                }
            }
            proof {
                assert(users@.contains(p.user_id));
                assert(scores_prediction(fixtures@, predictions@[i as int], p.user_id));
                assert(user_has_scored(fixtures@, predictions@, p.user_id));
            }
        }
        proof {
            let ghost prev = predictions@.take(i as int);
            let ghost cur = predictions@.take(i + 1);
            assert(cur.drop_last() =~= prev);
            assert forall|u: u128| #[trigger] user_has_scored(fixtures@, cur, u) implies users@.contains(
                u,
            ) by {
                let idx = choose|idx: int|
                    0 <= idx < cur.len() && scores_prediction(fixtures@, cur[idx], u);
                if idx < i {
                    assert(cur[idx] == prev[idx]);
                    assert(scores_prediction(fixtures@, prev[idx], u));
                    assert(user_has_scored(fixtures@, prev, u));
                    assert(users0.contains(u));
                    let m = choose|m: int| 0 <= m < users0.len() && users0[m] == u;
                    assert(users@[m] == u);
                    assert(users@.contains(u));
                } else {
                    assert(cur[idx] == predictions@[i as int]);
                    assert(u == predictions@[i as int].user_id);
                    assert(has_fixture(fixtures@, predictions@[i as int].fixture_id));
                }
            }
        }
        i = i + 1;
    }
    proof {
        assert(predictions@.take(predictions@.len() as int) =~= predictions@);
    }

    // One aggregate row per user: total points, exact scores, correct
    // results over that user's counting predictions.
    let mut user_scores: Vec<GameweekScore> = Vec::new();
    let mut k: usize = 0;
    while k < users.len()
        invariant
            k <= users@.len(),
            user_scores@.len() == k,
            forall|m: int|
                0 <= m < k ==> (#[trigger] user_scores@[m]).user_id == users@[m],
            forall|m: int|
                0 <= m < k ==> {
                    &&& (#[trigger] user_scores@[m]).total_points == user_total_points(
                        fixtures@,
                        predictions@,
                        users@[m],
                    )
                    &&& user_scores@[m].exact_scores == user_exact_scores(
                        fixtures@,
                        predictions@,
                        users@[m],
                    )
                    &&& user_scores@[m].correct_results == user_correct_results(
                        fixtures@,
                        predictions@,
                        users@[m],
                    )
                },
        decreases users@.len() - k,
    {
        let uid = users[k];
        let mut total: i32 = 0;
        let mut exact: i32 = 0;
        let mut correct: i32 = 0;
        let mut j: usize = 0;
        while j < predictions.len()
            invariant
                j <= predictions@.len(),
                total == user_total_points(fixtures@, predictions@.take(j as int), uid),
                exact == user_exact_scores(fixtures@, predictions@.take(j as int), uid),
                correct == user_correct_results(fixtures@, predictions@.take(j as int), uid),
                0 <= total <= 5 * j,
                0 <= exact <= j,
                0 <= correct <= j,
            decreases predictions@.len() - j,
        {
            let p = &predictions[j];
            proof {
                assert(predictions@.take(j + 1).drop_last() =~= predictions@.take(j as int));
                assert(predictions@.take(j + 1).last() == predictions@[j as int]);
            }
            if p.user_id == uid {
                if let Some(f) = find_fixture(fixtures, p.fixture_id) {
                    let pts = calculate_points(
                        f.home_score,
                        f.away_score,
                        p.home_score_prediction,
                        p.away_score_prediction,
                    );
                    proof {
                        lemma_points_cases(
                            f.home_score as int,
                            f.away_score as int,
                            p.home_score_prediction as int,
                            p.away_score_prediction as int,
                        );
                    }
                    total = total + pts;
                    if pts == POINTS_EXACT_SCORE {
                        exact = exact + 1;
                    } else if pts == POINTS_CORRECT_RESULT {
                        correct = correct + 1;
                    }
                }
            }
            j = j + 1;
        }
        proof {
            assert(predictions@.take(predictions@.len() as int) =~= predictions@);
        }
        user_scores.push(
            GameweekScore {
                user_id: uid,
                total_points: total,
                exact_scores: exact,
                correct_results: correct,
            },
        );
        k = k + 1;
    }

    proof {
        assert forall|u: u128| #[trigger] user_has_scored(fixtures@, predictions@, u) implies has_score_row(
            user_scores@,
            u,
        ) by {
            assert(users@.contains(u));
            let m = choose|m: int| 0 <= m < users@.len() && users@[m] == u;
            assert(user_scores@[m].user_id == u);
        }
    }

    GameweekScoring { prediction_points: prediction_points_out, user_scores }
}

/// A gameweek with no finalized fixtures is a no-op for the scoring pass:
/// no prediction earns points and no user scores, so the pass produces no
/// points writes and no gameweek score rows, and the season aggregation it
/// would feed is never reached. Existing rows are left untouched.
pub proof fn lemma_empty_gameweek_is_noop(fixtures: Seq<FixtureResult>, preds: Seq<Prediction>)
    requires
        fixtures.len() == 0,
    ensures
        awarded_points(fixtures, preds) == Seq::<PredictionPoints>::empty(),
        forall|u: u128| !user_has_scored(fixtures, preds, u),
    decreases preds.len(),
{
    assert(forall|fid: u128| !(#[trigger] has_fixture(fixtures, fid)));
    if preds.len() > 0 {
        lemma_empty_gameweek_is_noop(fixtures, preds.drop_last());
    }
}

/// One prediction with the points of the pass written into it; predictions
/// on fixtures that are not finalized keep whatever they held.
pub open spec fn apply_points(fixtures: Seq<FixtureResult>, p: Prediction) -> Prediction {
    if has_fixture(fixtures, p.fixture_id) {
        Prediction {
            id: p.id,
            user_id: p.user_id,
            fixture_id: p.fixture_id,
            home_score_prediction: p.home_score_prediction,
            away_score_prediction: p.away_score_prediction,
            points_awarded: prediction_points(fixtures, p) as i32,
        }
    } else {
        p
    }
}

/// The prediction table as it stands after the pass's points writes.
pub open spec fn with_points_applied(
    fixtures: Seq<FixtureResult>,
    preds: Seq<Prediction>,
) -> Seq<Prediction> {
    preds.map_values(|p: Prediction| apply_points(fixtures, p))
}

/// Running the gameweek scoring pass twice in succession on unchanged
/// fixtures gives identical results: the points writes of the first run
/// change nothing the pass reads, so the second run produces the same
/// points writes, the same per-user aggregates, and therefore the same
/// gameweek and season score rows.
pub proof fn lemma_scoring_pass_idempotent(fixtures: Seq<FixtureResult>, preds: Seq<Prediction>)
    ensures
        with_points_applied(fixtures, with_points_applied(fixtures, preds))
            == with_points_applied(fixtures, preds),
        awarded_points(fixtures, with_points_applied(fixtures, preds)) == awarded_points(
            fixtures,
            preds,
        ),
        forall|u: u128|
            #[trigger] user_total_points(fixtures, with_points_applied(fixtures, preds), u)
                == user_total_points(fixtures, preds, u),
        forall|u: u128|
            #[trigger] user_exact_scores(fixtures, with_points_applied(fixtures, preds), u)
                == user_exact_scores(fixtures, preds, u),
        forall|u: u128|
            #[trigger] user_correct_results(fixtures, with_points_applied(fixtures, preds), u)
                == user_correct_results(fixtures, preds, u),
        forall|u: u128|
            #[trigger] user_has_scored(fixtures, with_points_applied(fixtures, preds), u)
                == user_has_scored(fixtures, preds, u),
    decreases preds.len(),
{
    let ap = with_points_applied(fixtures, preds);
    assert(with_points_applied(fixtures, ap) =~= ap);
    assert forall|u: u128|
        #[trigger] user_has_scored(fixtures, ap, u) == user_has_scored(fixtures, preds, u) by {
        if user_has_scored(fixtures, ap, u) {
            let i = choose|i: int| 0 <= i < ap.len() && scores_prediction(fixtures, ap[i], u);
            assert(scores_prediction(fixtures, preds[i], u));
        }
        if user_has_scored(fixtures, preds, u) {
            let i = choose|i: int|
                0 <= i < preds.len() && scores_prediction(fixtures, preds[i], u);
            assert(scores_prediction(fixtures, ap[i], u));
        }
    }
    if preds.len() == 0 {
        assert(ap =~= preds);
    } else {
        lemma_scoring_pass_idempotent(fixtures, preds.drop_last());
        let apd = with_points_applied(fixtures, preds.drop_last());
        assert(ap.drop_last() =~= apd);
        assert(ap.last() == apply_points(fixtures, preds.last()));
        assert forall|u: u128|
            #[trigger] user_total_points(fixtures, ap, u) == user_total_points(
                fixtures,
                preds,
                u,
            ) by {
            assert(user_total_points(fixtures, apd, u) == user_total_points(
                fixtures,
                preds.drop_last(),
                u,
            ));
        }
        assert forall|u: u128|
            #[trigger] user_exact_scores(fixtures, ap, u) == user_exact_scores(
                fixtures,
                preds,
                u,
            ) by {
            assert(user_exact_scores(fixtures, apd, u) == user_exact_scores(
                fixtures,
                preds.drop_last(),
                u,
            ));
        }
        assert forall|u: u128|
            #[trigger] user_correct_results(fixtures, ap, u) == user_correct_results(
                fixtures,
                preds,
                u,
            ) by {
            assert(user_correct_results(fixtures, apd, u) == user_correct_results(
                fixtures,
                preds.drop_last(),
                u,
            ));
        }
    }
}

/// The user's points summed over their gameweek score rows.
pub open spec fn season_total_points(rows: Seq<GameweekScore>, user_id: u128) -> int
    decreases rows.len(),
{
    if rows.len() == 0 {
        0
    } else {
        season_total_points(rows.drop_last(), user_id) + if rows.last().user_id == user_id {
            rows.last().total_points as int
        } else {
            0
        }
    }
}

/// The user's exact-score count summed over their gameweek score rows.
pub open spec fn season_exact_scores(rows: Seq<GameweekScore>, user_id: u128) -> int
    decreases rows.len(),
{
    if rows.len() == 0 {
        0
    } else {
        season_exact_scores(rows.drop_last(), user_id) + if rows.last().user_id == user_id {
            rows.last().exact_scores as int
        } else {
            0
        }
    }
}

/// The user's correct-result count summed over their gameweek score rows.
pub open spec fn season_correct_results(rows: Seq<GameweekScore>, user_id: u128) -> int
    decreases rows.len(),
{
    if rows.len() == 0 {
        0
    } else {
        season_correct_results(rows.drop_last(), user_id) + if rows.last().user_id == user_id {
            rows.last().correct_results as int
        } else {
            0
        }
    }
}

/// How many gameweek score rows the user has: the gameweeks they played.
pub open spec fn season_gameweeks_played(rows: Seq<GameweekScore>, user_id: u128) -> int
    decreases rows.len(),
{
    if rows.len() == 0 {
        0
    } else {
        season_gameweeks_played(rows.drop_last(), user_id) + if rows.last().user_id == user_id {
            1int
        } else {
            0int
        }
    }
}

/// Whether the user has at least one gameweek score row in the season.
pub open spec fn user_in_season(rows: Seq<GameweekScore>, user_id: u128) -> bool {
    exists|i: int| 0 <= i < rows.len() && rows[i].user_id == user_id
}

/// Whether `rows` holds a season score row for this user.
pub open spec fn has_season_row(rows: Seq<SeasonScore>, user_id: u128) -> bool {
    exists|k: int| 0 <= k < rows.len() && rows[k].user_id == user_id
}

/// The season aggregation pass.
///
/// Given every gameweek score row of one season, recomputes the season
/// score of each user who has at least one such row: the three counters are
/// summed over the user's rows, and `gameweeks_played` counts those rows.
/// Each output row is what the caller must upsert, overwriting all fields;
/// prior season scores are never merged in, so the pass is idempotent. The
/// totals are the exact sums of the gameweek rows: that is the whole
/// contract, stated per user below.
#[verifier::loop_isolation(false)]
#[verifier::rlimit(30)]
pub fn update_season_scores(rows: &Vec<GameweekScore>) -> (out: Vec<SeasonScore>)
    requires
        rows@.len() <= i32::MAX,
        forall|u: u128|
            i32::MIN <= #[trigger] season_total_points(rows@, u) <= i32::MAX,
        forall|u: u128|
            i32::MIN <= #[trigger] season_exact_scores(rows@, u) <= i32::MAX,
        forall|u: u128|
            i32::MIN <= #[trigger] season_correct_results(rows@, u) <= i32::MAX,
    ensures
        forall|k: int|
            0 <= k < out@.len() ==> user_in_season(rows@, (#[trigger] out@[k]).user_id),
        forall|k: int|
            0 <= k < out@.len() ==> {
                &&& (#[trigger] out@[k]).total_points == season_total_points(
                    rows@,
                    out@[k].user_id,
                )
                &&& out@[k].total_exact_scores == season_exact_scores(rows@, out@[k].user_id)
                &&& out@[k].total_correct_results == season_correct_results(
                    rows@,
                    out@[k].user_id,
                )
                &&& out@[k].gameweeks_played == season_gameweeks_played(rows@, out@[k].user_id)
            },
        forall|k1: int, k2: int|
            0 <= k1 < k2 < out@.len() ==> (#[trigger] out@[k1]).user_id != (
            #[trigger] out@[k2]).user_id,
        forall|u: u128| #[trigger] user_in_season(rows@, u) ==> has_season_row(out@, u),
{
    // The users who played at least one gameweek, each once.
    let mut users: Vec<u128> = Vec::new();
    let mut i: usize = 0;
    while i < rows.len()
        invariant
            i <= rows@.len(),
            forall|k: int|
                0 <= k < users@.len() ==> user_in_season(rows@, #[trigger] users@[k]),
            forall|k1: int, k2: int| 0 <= k1 < k2 < users@.len() ==> users@[k1] != users@[k2],
            forall|k: int| 0 <= k < i ==> users@.contains((#[trigger] rows@[k]).user_id),
        decreases rows@.len() - i,
    {
        let ghost users0 = users@;
        let uid = rows[i].user_id;
        if !contains_user(&users, uid) {
            users.push(uid);
            proof {
                assert(users@[users@.len() - 1] == uid);
            }
        }
        proof {
            assert(users@.contains(uid));
            assert forall|k: int| 0 <= k < i + 1 implies users@.contains(
                (#[trigger] rows@[k]).user_id,
            ) by {
                if k < i {
                    assert(users0.contains(rows@[k].user_id));
                    let m = choose|m: int|
                        0 <= m < users0.len() && users0[m] == rows@[k].user_id;
                    assert(users@[m] == rows@[k].user_id);
                }
            }
            assert(user_in_season(rows@, uid));
        }
        i = i + 1;
    }

    // One season row per user: sums and the gameweeks-played count.
    let mut out: Vec<SeasonScore> = Vec::new();
    let mut k: usize = 0;
    while k < users.len()
        invariant
            k <= users@.len(),
            out@.len() == k,
            forall|m: int| 0 <= m < k ==> (#[trigger] out@[m]).user_id == users@[m],
            forall|m: int|
                0 <= m < k ==> {
                    &&& (#[trigger] out@[m]).total_points == season_total_points(
                        rows@,
                        users@[m],
                    )
                    &&& out@[m].total_exact_scores == season_exact_scores(rows@, users@[m])
                    &&& out@[m].total_correct_results == season_correct_results(
                        rows@,
                        users@[m],
                    )
                    &&& out@[m].gameweeks_played == season_gameweeks_played(rows@, users@[m])
                },
        decreases users@.len() - k,
    {
        let uid = users[k];
        let mut total: i64 = 0;
        let mut exact: i64 = 0;
        let mut correct: i64 = 0;
        let mut weeks: i32 = 0;
        let mut j: usize = 0;
        while j < rows.len()
            invariant
                j <= rows@.len(),
                total == season_total_points(rows@.take(j as int), uid),
                exact == season_exact_scores(rows@.take(j as int), uid),
                correct == season_correct_results(rows@.take(j as int), uid),
                weeks == season_gameweeks_played(rows@.take(j as int), uid),
                -0x8000_0000i64 * (j as i64) <= total <= 0x7fff_ffffi64 * (j as i64),
                -0x8000_0000i64 * (j as i64) <= exact <= 0x7fff_ffffi64 * (j as i64),
                -0x8000_0000i64 * (j as i64) <= correct <= 0x7fff_ffffi64 * (j as i64),
                0 <= weeks <= j,
            decreases rows@.len() - j,
        {
            proof {
                assert(rows@.take(j + 1).drop_last() =~= rows@.take(j as int));
                assert(rows@.take(j + 1).last() == rows@[j as int]);
            }
            let row = &rows[j];
            if row.user_id == uid {
                total = total + row.total_points as i64;
                exact = exact + row.exact_scores as i64;
                correct = correct + row.correct_results as i64;
                weeks = weeks + 1;
            }
            j = j + 1;
        }
        proof {
            assert(rows@.take(rows@.len() as int) =~= rows@);
        }
        out.push(
            SeasonScore {
                user_id: uid,
                total_points: total as i32,
                total_exact_scores: exact as i32,
                total_correct_results: correct as i32,
                gameweeks_played: weeks,
            },
        );
        k = k + 1;
    }

    proof {
        assert forall|u: u128| #[trigger] user_in_season(rows@, u) implies has_season_row(
            out@,
            u,
        ) by {
            let idx = choose|idx: int| 0 <= idx < rows@.len() && rows@[idx].user_id == u;
            assert(users@.contains(u));
            let m = choose|m: int| 0 <= m < users@.len() && users@[m] == u;
            assert(out@[m].user_id == u);
        }
    }

    out
}

} // verus!
