//! Pairing a gameweek's fixtures with one user's predictions, as the
//! prediction page shows them: each fixture either carries the user's
//! earliest stored prediction for it, or none.

use crate::models::Prediction;
use vstd::prelude::*;

verus! {

/// The first prediction in `preds` for this fixture, if any.
pub open spec fn first_prediction_for(
    preds: Seq<Prediction>,
    fixture_id: u128,
) -> Option<Prediction>
    decreases preds.len(),
{
    if preds.len() == 0 {
        Option::None
    } else if preds[0].fixture_id == fixture_id {
        Option::Some(preds[0])
    } else {
        first_prediction_for(preds.skip(1), fixture_id)
    }
}

/// Scans `preds` for this fixture from position `i` on.
fn find_prediction_from(preds: &Vec<Prediction>, fixture_id: u128, i: usize) -> (r: Option<
    Prediction,
>)
    requires
        i <= preds@.len(),
    ensures
        r == first_prediction_for(preds@.skip(i as int), fixture_id),
    decreases preds@.len() - i,
{
    if i == preds.len() {
        None
    } else {
        proof {
            assert(preds@.skip(i as int)[0] == preds@[i as int]);
            assert(preds@.skip(i as int).skip(1) =~= preds@.skip(i + 1));
        }
        if preds[i].fixture_id == fixture_id {
            Some(preds[i])
        } else {
            find_prediction_from(preds, fixture_id, i + 1)
        }
    }
}

/// For each fixture of the gameweek, in the given order, the user's first
/// stored prediction for it, or none where the user predicted nothing.
pub fn fixtures_with_predictions(
    gameweek_fixture_ids: &Vec<u128>,
    predictions: &Vec<Prediction>,
) -> (out: Vec<Option<Prediction>>)
    ensures
        out@.len() == gameweek_fixture_ids@.len(),
        forall|i: int|
            0 <= i < out@.len() ==> out@[i] == first_prediction_for(
                predictions@,
                #[trigger] gameweek_fixture_ids@[i],
            ),
{
    proof {
        assert(predictions@.skip(0) =~= predictions@);
    }
    let mut out: Vec<Option<Prediction>> = Vec::new();
    let mut i: usize = 0;
    while i < gameweek_fixture_ids.len()
        invariant
            i <= gameweek_fixture_ids@.len(),
            out@.len() == i,
            forall|m: int|
                0 <= m < i ==> out@[m] == first_prediction_for(
                    predictions@,
                    #[trigger] gameweek_fixture_ids@[m],
                ),
        decreases gameweek_fixture_ids@.len() - i,
    {
        out.push(find_prediction_from(predictions, gameweek_fixture_ids[i], 0));
        proof {
            assert(predictions@.skip(0) =~= predictions@);
        }
        i = i + 1;
    }
    out
}

} // verus!
