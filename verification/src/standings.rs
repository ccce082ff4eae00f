//! Leaderboard ordering: ranks aggregate rows by points, exact scores and
//! display name, and computes a single user's competition position.
//!
//! The sort order is descending total points, then descending exact-score
//! count, then ascending display name (case-sensitive, by code point).
//! Positions are 1-based and sequential: tied rows do not share a position,
//! each gets the next number in sort order.

use crate::models::{SeasonScore, StandingRow, UserRef, UserWithScore};
use vstd::prelude::*;

verus! {

/// Code-point lexicographic "less than or equal" on character sequences:
/// the order of a case-sensitive name comparison. A prefix comes before
/// every extension of itself.
pub open spec fn lex_le(a: Seq<char>, b: Seq<char>) -> bool
    decreases a.len(),
{
    if a.len() == 0 {
        true
    } else if b.len() == 0 {
        false
    } else if a[0] == b[0] {
        lex_le(a.skip(1), b.skip(1))
    } else {
        (a[0] as u32) < (b[0] as u32)
    }
}

/// Every sequence compares equal to itself.
pub proof fn lemma_lex_le_refl(a: Seq<char>)
    ensures
        lex_le(a, a),
    decreases a.len(),
{
    if a.len() > 0 {
        lemma_lex_le_refl(a.skip(1));
    }
}

/// Any two sequences are comparable: the order is total.
pub proof fn lemma_lex_le_total(a: Seq<char>, b: Seq<char>)
    ensures
        lex_le(a, b) || lex_le(b, a),
    decreases a.len(),
{
    if a.len() > 0 && b.len() > 0 {
        if a[0] == b[0] {
            lemma_lex_le_total(a.skip(1), b.skip(1));
        } else {
            vstd::utf8::char_u32_cast(a[0], a[0] as u32);
            vstd::utf8::char_u32_cast(b[0], b[0] as u32);
        }
    }
}

/// The order is transitive.
pub proof fn lemma_lex_le_trans(a: Seq<char>, b: Seq<char>, c: Seq<char>)
    requires
        lex_le(a, b),
        lex_le(b, c),
    ensures
        lex_le(a, c),
    decreases a.len(),
{
    if a.len() > 0 && b.len() > 0 && c.len() > 0 {
        vstd::utf8::char_u32_cast(a[0], a[0] as u32);
        vstd::utf8::char_u32_cast(b[0], b[0] as u32);
        vstd::utf8::char_u32_cast(c[0], c[0] as u32);
        if a[0] == b[0] && b[0] == c[0] {
            lemma_lex_le_trans(a.skip(1), b.skip(1), c.skip(1));
        }
    }
}

/// Compares the tails of `a` and `b` from character position `i` on.
fn name_le_from(a: &str, b: &str, i: usize) -> (r: bool)
    requires
        i <= a@.len(),
        i <= b@.len(),
    ensures
        r == lex_le(a@.skip(i as int), b@.skip(i as int)),
    decreases a@.len() - i,
{
    let la = a.unicode_len();
    let lb = b.unicode_len();
    if i == la {
        true
    } else if i == lb {
        false
    } else {
        let ca = a.get_char(i);
        let cb = b.get_char(i);
        proof {
            assert(a@.skip(i as int)[0] == a@[i as int]);
            assert(b@.skip(i as int)[0] == b@[i as int]);
            assert(a@.skip(i as int).skip(1) =~= a@.skip(i + 1));
            assert(b@.skip(i as int).skip(1) =~= b@.skip(i + 1));
        }
        if ca == cb {
            name_le_from(a, b, i + 1)
        } else {
            (ca as u32) < (cb as u32)
        }
    }
}

/// Whether `a` comes before `b` (or equals it) in case-sensitive
/// lexicographic name order.
pub fn name_le(a: &str, b: &str) -> (r: bool)
    ensures
        r == lex_le(a@, b@),
{
    proof {
        assert(a@.skip(0) =~= a@);
        assert(b@.skip(0) =~= b@);
    }
    name_le_from(a, b, 0)
}

/// Whether row `a` comes no later than row `b` in leaderboard order:
/// more points first, then more exact scores, then the earlier name.
pub open spec fn row_before(a: StandingRow, b: StandingRow) -> bool {
    ||| a.total_points > b.total_points
    ||| (a.total_points == b.total_points && a.exact_scores > b.exact_scores)
    ||| (a.total_points == b.total_points && a.exact_scores == b.exact_scores && lex_le(
        a.display_name@,
        b.display_name@,
    ))
}

/// Every row compares no later than itself.
pub proof fn lemma_row_order_refl(a: StandingRow)
    ensures
        row_before(a, a),
{
    lemma_lex_le_refl(a.display_name@);
}

/// Any two rows are comparable: the leaderboard order is total, so a full
/// ordering always exists.
pub proof fn lemma_row_order_total(a: StandingRow, b: StandingRow)
    ensures
        row_before(a, b) || row_before(b, a),
{
    lemma_lex_le_total(a.display_name@, b.display_name@);
}

/// The leaderboard order is transitive.
pub proof fn lemma_row_order_trans(a: StandingRow, b: StandingRow, c: StandingRow)
    requires
        row_before(a, b),
        row_before(b, c),
    ensures
        row_before(a, c),
{
    if a.total_points == b.total_points && b.total_points == c.total_points && a.exact_scores
        == b.exact_scores && b.exact_scores == c.exact_scores {
        lemma_lex_le_trans(a.display_name@, b.display_name@, c.display_name@);
    }
}

/// Whether the sequence is in leaderboard order.
pub open spec fn sorted_rows(s: Seq<StandingRow>) -> bool {
    forall|i: int, j: int| 0 <= i < j < s.len() ==> row_before(s[i], s[j])
}

/// Compares two rows in leaderboard order.
fn row_le(a: &StandingRow, b: &StandingRow) -> (r: bool)
    ensures
        r == row_before(*a, *b),
{
    if a.total_points != b.total_points {
        a.total_points > b.total_points
    } else if a.exact_scores != b.exact_scores {
        a.exact_scores > b.exact_scores
    } else {
        name_le(a.display_name.as_str(), b.display_name.as_str())
    }
}

/// Whether some aggregate row belongs to this user.
pub open spec fn has_row(rows: Seq<StandingRow>, user_id: u128) -> bool {
    exists|i: int| 0 <= i < rows.len() && rows[i].user_id == user_id
}

/// The all-zero aggregate row for a user without any activity in the
/// period.
pub open spec fn zero_row(u: UserRef) -> StandingRow {
    StandingRow {
        user_id: u.user_id,
        display_name: u.display_name,
        total_points: 0,
        exact_scores: 0,
        correct_results: 0,
    }
}

/// The all-zero rows added for the listed users that have no aggregate row,
/// in list order.
pub open spec fn zero_extras(rows: Seq<StandingRow>, users: Seq<UserRef>) -> Seq<StandingRow>
    decreases users.len(),
{
    if users.len() == 0 {
        Seq::empty()
    } else {
        let rest = zero_extras(rows, users.drop_last());
        if has_row(rows, users.last().user_id) {
            rest
        } else {
            rest.push(zero_row(users.last()))
        }
    }
}

/// The rows the ranker orders: the given aggregate rows, plus an all-zero
/// row for every listed user without one.
pub open spec fn zero_filled(rows: Seq<StandingRow>, users: Seq<UserRef>) -> Seq<StandingRow> {
    rows + zero_extras(rows, users)
}

/// No two aggregate rows belong to the same user.
pub open spec fn distinct_row_users(rows: Seq<StandingRow>) -> bool {
    forall|i: int, j: int| 0 <= i < j < rows.len() ==> rows[i].user_id != rows[j].user_id
}

/// No user is listed twice.
pub open spec fn distinct_user_refs(users: Seq<UserRef>) -> bool {
    forall|i: int, j: int| 0 <= i < j < users.len() ==> users[i].user_id != users[j].user_id
}

/// Whether `rows` holds a row for this user, scanning in order.
fn find_row(rows: &Vec<StandingRow>, user_id: u128) -> (r: bool)
    ensures
        r == has_row(rows@, user_id),
{
    let mut i: usize = 0;
    while i < rows.len()
        invariant
            i <= rows@.len(),
            forall|k: int| 0 <= k < i ==> (#[trigger] rows@[k]).user_id != user_id,
        decreases rows@.len() - i,
    {
        if rows[i].user_id == user_id {
            return true;
        }
        i = i + 1;
    }
    false
}

/// Sorts rows into leaderboard order by repeatedly moving the earliest
/// remaining row to the output: the result is an ordered permutation of
/// the input.
#[verifier::loop_isolation(false)]
#[verifier::rlimit(30)]
fn sort_rows(input: Vec<StandingRow>) -> (out: Vec<StandingRow>)
    ensures
        out@.len() == input@.len(),
        sorted_rows(out@),
        out@.to_multiset() == input@.to_multiset(),
{
    broadcast use vstd::seq_lib::group_to_multiset_ensures;

    let mut rest = input;
    let ghost orig = rest@;
    let mut out: Vec<StandingRow> = Vec::new();
    while rest.len() > 0
        invariant
            out@.to_multiset().add(rest@.to_multiset()) == orig.to_multiset(),
            out@.len() + rest@.len() == orig.len(),
            sorted_rows(out@),
            forall|x: int, y: int|
                0 <= x < out@.len() && 0 <= y < rest@.len() ==> row_before(
                    out@[x],
                    rest@[y],
                ),
        decreases rest@.len(),
    {
        // Index of the earliest row still unplaced.
        let mut m: usize = 0;
        let mut t: usize = 1;
        proof {
            lemma_row_order_refl(rest@[0]);
        }
        while t < rest.len()
            invariant
                m < rest@.len(),
                t <= rest@.len(),
                forall|q: int| 0 <= q < t ==> row_before(rest@[m as int], rest@[q]),
            decreases rest@.len() - t,
        {
            if !row_le(&rest[m], &rest[t]) {
                proof {
                    lemma_row_order_total(rest@[m as int], rest@[t as int]);
                    assert forall|q: int| 0 <= q < t + 1 implies row_before(
                        rest@[t as int],
                        rest@[q],
                    ) by {
                        if q < t {
                            lemma_row_order_trans(rest@[t as int], rest@[m as int], rest@[q]);
                        } else {
                            lemma_row_order_refl(rest@[t as int]);
                        }
                    }
                }
                m = t;
            }
            t = t + 1;
        }
        let ghost rest0 = rest@;
        let ghost out0 = out@;
        let x = rest.remove(m);
        out.push(x);
        proof {
            assert(rest@ == rest0.remove(m as int));
            assert(out@ == out0.push(x));
            assert(out@.to_multiset().add(rest@.to_multiset()) =~= orig.to_multiset()) by {
                assert(rest0.remove(m as int).to_multiset() =~= rest0.to_multiset().remove(x));
                assert(rest0.to_multiset().count(x) > 0) by {
                    assert(rest0.contains(x));
                }
                assert(out0.push(x).to_multiset() =~= out0.to_multiset().insert(x));
            }
            assert forall|p: int, q: int| 0 <= p < q < out@.len() implies row_before(
                out@[p],
                out@[q],
            ) by {
                if q == out@.len() - 1 {
                    assert(out@[q] == rest0[m as int]);
                    assert(row_before(out0[p], rest0[m as int]));
                }
            }
            assert forall|p: int, y: int|
                0 <= p < out@.len() && 0 <= y < rest@.len() implies row_before(
                out@[p],
                rest@[y],
            ) by {
                let ghost yo = if y < m { y } else { y + 1 };
                assert(rest@[y] == rest0[yo]);
                assert(row_before(rest0[m as int], rest0[yo]));
                if p < out@.len() - 1 {
                    assert(row_before(out0[p], rest0[yo]));
                } else {
                    assert(out@[p] == rest0[m as int]);
                }
            }
        }
    }
    out
}

/// The aggregate row carried by one leaderboard line.
pub open spec fn ranked_row(r: UserWithScore) -> StandingRow {
    StandingRow {
        user_id: r.user_id,
        display_name: r.display_name,
        total_points: r.score,
        exact_scores: r.exact_scores,
        correct_results: r.correct_results,
    }
}

/// The standings ranker.
///
/// Orders aggregate rows for one period (a gameweek or a season) into a
/// leaderboard: every listed user without a row is first given an all-zero
/// row, the rows are then sorted by descending points, descending exact
/// scores and ascending display name, and each line is numbered from one
/// in sort order. Tied rows keep separate, sequential positions. The
/// result is exactly an ordered permutation of the zero-filled input. The
/// ranker assumes at most one row per user; it does not deduplicate.
#[verifier::loop_isolation(false)]
pub fn rank(rows: Vec<StandingRow>, include_zero_for_users: Vec<UserRef>) -> (out: Vec<
    UserWithScore,
>)
    requires
        distinct_row_users(rows@),
        distinct_user_refs(include_zero_for_users@),
        rows@.len() + include_zero_for_users@.len() <= i32::MAX,
    ensures
        out@.len() == zero_filled(rows@, include_zero_for_users@).len(),
        out@.map_values(|r: UserWithScore| ranked_row(r)).to_multiset() == zero_filled(
            rows@,
            include_zero_for_users@,
        ).to_multiset(),
        sorted_rows(out@.map_values(|r: UserWithScore| ranked_row(r))),
        forall|k: int| 0 <= k < out@.len() ==> (#[trigger] out@[k]).position == k + 1,
{
    let ghost rows0 = rows@;
    let ghost users0 = include_zero_for_users@;
    let mut extras: Vec<StandingRow> = Vec::new();
    let mut i: usize = 0;
    while i < include_zero_for_users.len()
        invariant
            i <= users0.len(),
            extras@ == zero_extras(rows0, users0.take(i as int)),
            extras@.len() <= i,
        decreases users0.len() - i,
    {
        let u = &include_zero_for_users[i];
        if !find_row(&rows, u.user_id) {
            extras.push(
                StandingRow {
                    user_id: u.user_id,
                    display_name: u.display_name.clone(),
                    total_points: 0,
                    exact_scores: 0,
                    correct_results: 0,
                },
            );
        }
        proof {
            assert(users0.take(i + 1).drop_last() =~= users0.take(i as int));
            assert(users0.take(i + 1).last() == users0[i as int]);
        }
        i = i + 1;
    }
    proof {
        assert(users0.take(users0.len() as int) =~= users0);
    }
    let mut merged = rows;
    merged.append(&mut extras);
    assert(merged@ == zero_filled(rows0, users0));

    let sorted = sort_rows(merged);
    proof {
        assert(sorted@.len() <= rows0.len() + users0.len());
    }

    let mut out: Vec<UserWithScore> = Vec::new();
    let mut k: usize = 0;
    while k < sorted.len()
        invariant
            k <= sorted@.len(),
            out@.len() == k,
            forall|p: int|
                0 <= p < k ==> ranked_row(#[trigger] out@[p]) == sorted@[p],
            forall|p: int| 0 <= p < k ==> (#[trigger] out@[p]).position == p + 1,
        decreases sorted@.len() - k,
    {
        let r = &sorted[k];
        out.push(
            UserWithScore {
                user_id: r.user_id,
                display_name: r.display_name.clone(),
                score: r.total_points,
                exact_scores: r.exact_scores,
                correct_results: r.correct_results,
                position: (k + 1) as i32,
            },
        );
        k = k + 1;
    }
    proof {
        assert(out@.map_values(|r: UserWithScore| ranked_row(r)) =~= sorted@);
    }
    out
}

/// How many season rows beat the given totals: more points, or the same
/// points with more exact scores.
pub open spec fn count_better(rows: Seq<SeasonScore>, total_points: int, exact_scores: int) -> int
    decreases rows.len(),
{
    if rows.len() == 0 {
        0
    } else {
        count_better(rows.drop_last(), total_points, exact_scores) + if rows.last().total_points
            > total_points || (rows.last().total_points == total_points
            && rows.last().total_exact_scores > exact_scores) {
            1int
        } else {
            0int
        }
    }
}

/// A user's competition position on the season table: one more than the
/// number of season rows that beat their totals. Tied users share this
/// position, unlike on the ranked leaderboard.
#[verifier::loop_isolation(false)]
pub fn season_position(rows: &Vec<SeasonScore>, total_points: i32, exact_scores: i32) -> (pos:
    i32)
    requires
        rows@.len() < i32::MAX,
    ensures
        pos == 1 + count_better(rows@, total_points as int, exact_scores as int),
{
    let mut n: i32 = 0;
    let mut j: usize = 0;
    while j < rows.len()
        invariant
            j <= rows@.len(),
            0 <= n <= j,
            n == count_better(rows@.take(j as int), total_points as int, exact_scores as int),
        decreases rows@.len() - j,
    {
        proof {
            assert(rows@.take(j + 1).drop_last() =~= rows@.take(j as int));
            assert(rows@.take(j + 1).last() == rows@[j as int]);
        }
        let row = &rows[j];
        if row.total_points > total_points || (row.total_points == total_points
            && row.total_exact_scores > exact_scores) {
            n = n + 1;
        }
        j = j + 1;
    }
    proof {
        assert(rows@.take(rows@.len() as int) =~= rows@);
    }
    1 + n
}

} // verus!
