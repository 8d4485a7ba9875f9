//! The level adjuster: difficulty follows the percent score of a session.

use vstd::prelude::*;

use crate::score::PercentScore;

verus! {

/// The level after a session played at `level` that ended with `score`: one
/// higher for a score strictly above `raise_threshold`, one lower (but never
/// below 1) for a score strictly below `lower_threshold`, else unchanged.
pub open spec fn adjusted_level(
    level: u32,
    score: PercentScore,
    raise_threshold: u32,
    lower_threshold: u32,
) -> int {
    if score.is_above(raise_threshold) {
        level + 1
    } else if score.is_below(lower_threshold) {
        if level > 1 {
            level - 1
        } else {
            1
        }
    } else {
        level as int
    }
}

/// Decides the level of the next session from the score of the last one.
pub fn adjust_level(
    level: u32,
    score: PercentScore,
    raise_threshold: u32,
    lower_threshold: u32,
) -> (new_level: u32)
    requires
        level < u32::MAX,
    ensures
        new_level == adjusted_level(level, score, raise_threshold, lower_threshold),
{
    if score.above(raise_threshold) {
        level + 1
    } else if score.below(lower_threshold) {
        if level > 1 {
            level - 1
        } else {
            1
        }
    } else {
        level
    }
}

/// A score exactly on a threshold changes nothing: with the thresholds in
/// order, a session that scores exactly the raise threshold or exactly the
/// lower threshold keeps its level.
pub proof fn lemma_threshold_is_exclusive(
    level: u32,
    score: PercentScore,
    raise_threshold: u32,
    lower_threshold: u32,
)
    requires
        lower_threshold <= raise_threshold,
        score.is_exactly(raise_threshold) || score.is_exactly(lower_threshold),
    ensures
        adjusted_level(level, score, raise_threshold, lower_threshold) == level,
{
    let c = score.correct as int;
    let n = score.considered as int;
    let raise = raise_threshold as int;
    let lower = lower_threshold as int;
    if n > 0 {
        assert(lower * n <= raise * n) by (nonlinear_arith)
            requires
                lower <= raise,
                n > 0,
        ;
    }
}

/// The level never falls below 1: from any level of at least 1 the adjusted
/// level is at least 1, and a session at level 1 that scores below the lower
/// threshold (and not above the raise threshold) stays at level 1.
pub proof fn lemma_level_floor(
    level: u32,
    score: PercentScore,
    raise_threshold: u32,
    lower_threshold: u32,
)
    requires
        level >= 1,
    ensures
        adjusted_level(level, score, raise_threshold, lower_threshold) >= 1,
        level == 1 && score.is_below(lower_threshold) && !score.is_above(raise_threshold)
            ==> adjusted_level(level, score, raise_threshold, lower_threshold) == 1,
{
}

} // verus!
