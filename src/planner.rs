use vstd::prelude::*;
use crate::catalog::{
    club, club_table, lie_modifiers, lie_of, shot_at, ShotType, CLUB_COUNT, PUTTER_IDX,
    SHOT_COUNT,
};
use crate::terrain::Surface;

verus! {

/// Distances handed to the planner are in ten-thousandths of a yard.
pub const UNITS_PER_YARD: u64 = 10000;

/// Beyond this distance (70 yards) the putter is not considered.
pub const PUTTER_LIMIT: u64 = 700000;

/// Largest distance the planner accepts (a bound of the integer width, far
/// beyond any distance on the field).
pub const MAX_PLAN_DISTANCE: u64 = 1_000_000_000_000;

/// Number of (club, shape) candidates, walked club by club, shapes in cycling order.
pub const CANDIDATE_COUNT: usize = 80;

/// The club of candidate `k`.
pub open spec fn cand_club(k: int) -> int {
    k / (SHOT_COUNT as int)
}

/// The shape of candidate `k`.
pub open spec fn cand_shot(k: int) -> ShotType {
    shot_at(k % (SHOT_COUNT as int))
}

/// Whether candidate `k` is considered at `distance`: every shape of every
/// club but the putter, and the putter once, as a full shot, only within the
/// putter limit.
pub open spec fn considered(k: int, distance: int) -> bool {
    &&& 0 <= k < CANDIDATE_COUNT
    &&& (club_table(cand_club(k)).putter ==> k % (SHOT_COUNT as int) == 0 && distance
        <= PUTTER_LIMIT)
}

/// Expected total distance of candidate `k` from lie `lie`, in planner units.
pub open spec fn expected_distance(k: int, lie: Surface) -> int {
    let c = club_table(cand_club(k));
    let s = cand_shot(k);
    if c.putter {
        c.rollout_yd * 10000
    } else {
        c.carry_yd * s.carry_pct_of() * lie_of(lie).0 + c.rollout_yd * s.roll_pct_of() * lie_of(
            lie,
        ).1
    }
}

/// The error of landing at `expected` when `distance` is wanted, times 100:
/// the absolute miss, plus 8% of the shortfall when the shot comes up short.
pub open spec fn biased_error(expected: int, distance: int) -> int {
    if expected < distance {
        100 * (distance - expected) + 8 * (distance - expected)
    } else {
        100 * (expected - distance)
    }
}

/// The biased error of candidate `k`.
pub open spec fn cand_error(k: int, distance: int, lie: Surface) -> int {
    biased_error(expected_distance(k, lie), distance)
}

/// Candidate `k` is the first considered candidate of least biased error.
pub open spec fn is_best_candidate(k: int, distance: int, lie: Surface) -> bool {
    &&& considered(k, distance)
    &&& forall|j: int|
        considered(j, distance) ==> cand_error(k, distance, lie) <= #[trigger] cand_error(
            j,
            distance,
            lie,
        )
    &&& forall|j: int|
        0 <= j < k && considered(j, distance) ==> cand_error(k, distance, lie) < #[trigger] cand_error(
            j,
            distance,
            lie,
        )
}

/// The club and shape the caddie recommends at `distance` from lie `lie`:
/// on the green always the putter with a full shot, elsewhere the best
/// candidate.
pub open spec fn is_recommendation(r: (usize, ShotType), distance: int, lie: Surface) -> bool {
    if lie == Surface::Green {
        r == (PUTTER_IDX, ShotType::Full)
    } else {
        exists|k: int|
            is_best_candidate(k, distance, lie) && r.0 as int == cand_club(k) && r.1 == cand_shot(
                k,
            )
    }
}

fn candidate_error(k: usize, distance: u64, lie: Surface) -> (r: u64)
    requires
        k < CANDIDATE_COUNT,
        distance <= MAX_PLAN_DISTANCE,
    ensures
        r as int == cand_error(k as int, distance as int, lie),
{
    let c = club(k / SHOT_COUNT);
    let s = ShotType::from_index(k % SHOT_COUNT);
    let (lc, lr, _) = lie_modifiers(lie);
    let expected: u64 = if c.putter {
        c.rollout_yd * UNITS_PER_YARD
    } else {
        assert(c.carry_yd <= 255 && c.rollout_yd <= 32);
        assert(c.carry_yd * s.carry_pct_of() <= 255 * 100) by (nonlinear_arith)
            requires c.carry_yd <= 255, s.carry_pct_of() <= 100;
        assert(c.carry_yd * s.carry_pct_of() * lc <= 255 * 100 * 100) by (nonlinear_arith)
            requires c.carry_yd * s.carry_pct_of() <= 255 * 100, lc <= 100;
        assert(c.rollout_yd * s.roll_pct_of() <= 32 * 100) by (nonlinear_arith)
            requires c.rollout_yd <= 32, s.roll_pct_of() <= 100;
        assert(c.rollout_yd * s.roll_pct_of() * lr <= 32 * 100 * 100) by (nonlinear_arith)
            requires c.rollout_yd * s.roll_pct_of() <= 32 * 100, lr <= 100;
        c.carry_yd * s.carry_mult() * lc + c.rollout_yd * s.roll_mult() * lr
    };
    if expected < distance {
        108 * (distance - expected)
    } else {
        100 * (expected - distance)
    }
}

/// The club index and shot shape that the caddie recommends at `distance`
/// (ten-thousandths of a yard) from the target, lying on `lie`.
pub fn plan_shot(distance: u64, lie: Surface) -> (r: (usize, ShotType))
    requires
        distance <= MAX_PLAN_DISTANCE,
    ensures
        r.0 < CLUB_COUNT,
        is_recommendation(r, distance as int, lie),
{
    if lie == Surface::Green {
        return (PUTTER_IDX, ShotType::Full);
    }
    let mut best: usize = 0;
    let mut best_err: u64 = candidate_error(0, distance, lie);
    let mut k: usize = 1;
    while k < CANDIDATE_COUNT
        invariant
            1 <= k <= CANDIDATE_COUNT,
            distance <= MAX_PLAN_DISTANCE,
            best < k,
            considered(best as int, distance as int),
            best_err as int == cand_error(best as int, distance as int, lie),
            forall|j: int|
                0 <= j < k && considered(j, distance as int) ==> best_err <= #[trigger] cand_error(
                    j,
                    distance as int,
                    lie,
                ),
            forall|j: int|
                0 <= j < best && considered(j, distance as int) ==> best_err < #[trigger] cand_error(
                    j,
                    distance as int,
                    lie,
                ),
        decreases CANDIDATE_COUNT - k,
    {
        let c = club(k / SHOT_COUNT);
        let skip = c.putter && (k % SHOT_COUNT != 0 || distance > PUTTER_LIMIT);
        if !skip {
            let e = candidate_error(k, distance, lie);
            if e < best_err {
                best = k;
                best_err = e;
            }
        }
        k += 1;
    }
    let s = ShotType::from_index(best % SHOT_COUNT);
    assert(is_best_candidate(best as int, distance as int, lie));
    (best / SHOT_COUNT, s)
}

/// Of two considered candidates that miss by the same amount, one reaching
/// the target and one coming up short, the short one has the larger biased
/// error and is never the recommendation.
pub proof fn lemma_short_candidate_loses(distance: int, lie: Surface, long: int, short: int)
    requires
        lie != Surface::Green,
        considered(long, distance),
        considered(short, distance),
        expected_distance(short, lie) < distance,
        expected_distance(long, lie) - distance == distance - expected_distance(short, lie),
    ensures
        cand_error(long, distance, lie) < cand_error(short, distance, lie),
        forall|r: (usize, ShotType)|
            #[trigger] is_recommendation(r, distance, lie) ==> !(r.0 as int == cand_club(short)
                && r.1 == cand_shot(short)),
{
    assert forall|r: (usize, ShotType)| #[trigger] is_recommendation(r, distance, lie) implies !(r.0
        as int == cand_club(short) && r.1 == cand_shot(short)) by {
        let k = choose|k: int|
            is_best_candidate(k, distance, lie) && r.0 as int == cand_club(k) && r.1 == cand_shot(k);
        if r.0 as int == cand_club(short) && r.1 == cand_shot(short) {
            lemma_candidate_determined(k, short);
            assert(cand_error(k, distance, lie) <= cand_error(long, distance, lie));
        }
    }
}

proof fn lemma_candidate_determined(a: int, b: int)
    requires
        0 <= a < CANDIDATE_COUNT,
        0 <= b < CANDIDATE_COUNT,
        cand_club(a) == cand_club(b),
        cand_shot(a) == cand_shot(b),
    ensures
        a == b,
{
    assert(shot_at(a % 5).index_of() == a % 5);
    assert(shot_at(b % 5).index_of() == b % 5);
}

/// On the green the recommendation is always the putter with a full shot,
/// whatever the distance.
pub proof fn lemma_green_means_putter(distance: int, r: (usize, ShotType))
    requires
        is_recommendation(r, distance, Surface::Green),
    ensures
        r.0 == PUTTER_IDX,
        r.1 == ShotType::Full,
        club_table(r.0 as int).putter,
{
}

/// Off the green, beyond the putter limit, the recommendation is never the
/// putter.
pub proof fn lemma_far_means_no_putter(distance: int, lie: Surface, r: (usize, ShotType))
    requires
        lie != Surface::Green,
        distance > PUTTER_LIMIT,
        is_recommendation(r, distance, lie),
    ensures
        !club_table(r.0 as int).putter,
{
}

} // verus!
