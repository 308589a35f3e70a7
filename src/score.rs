use vstd::prelude::*;

use crate::objects::ObjectCounts;

verus! {

/// The hit results of a play on an osu!standard map.
#[derive(Clone, Copy, Debug, PartialEq, Eq, Structural)]
pub struct OsuScoreState {
    /// Highest combo reached.
    pub max_combo: u32,
    pub n300: u32,
    pub n100: u32,
    pub n50: u32,
    pub misses: u32,
}

impl OsuScoreState {
    pub open spec fn total(&self) -> int {
        self.n300 + self.n100 + self.n50 + self.misses
    }

    /// Number of judged hit objects.
    pub fn total_hits(&self) -> (r: u64)
        ensures
            r == self.total(),
    {
        self.n300 as u64 + self.n100 as u64 + self.n50 as u64 + self.misses as u64
    }
}

/// How the player's hit error is estimated.
#[derive(Clone, Copy, Debug, PartialEq, Eq, Structural)]
pub enum HitErrorEstimate {
    /// No accuracy object can be told to be a great hit: the error is read
    /// off the overall difficulty alone (`200 - 10 * od`).
    FromOd,
    /// The probability of a great hit is the inverse Beta CDF at 0.2 of
    /// `Beta(alpha, beta)`.
    FromDistribution { alpha: u64, beta: u64 },
}

/// The combo-based estimate of slider breaks, under classic slider accuracy.
#[derive(Clone, Copy, Debug, PartialEq, Eq, Structural)]
pub struct ComboMissEstimate {
    /// Ten times the full-combo threshold, `10 * max_combo - n_sliders`.
    pub threshold_tenths: u64,
    /// The play's highest combo, at least 1.
    pub divisor: u32,
    /// Most breaks there can have been: the hits that were not great.
    pub cap: u64,
}

/// The integer bookkeeping of a performance calculation.
#[derive(Clone, Copy, Debug, PartialEq, Eq, Structural)]
pub struct PerformancePlan {
    pub total_hits: u64,
    /// Objects whose judgement counts for accuracy: circles, and sliders
    /// unless slider accuracy is classic.
    pub accuracy_object_count: u64,
    pub hit_error: HitErrorEstimate,
    /// Present when the effective miss count may exceed the misses.
    pub combo_miss_estimate: Option<ComboMissEstimate>,
}

pub open spec fn accuracy_objects(counts: ObjectCounts, using_classic_slider_acc: bool) -> int {
    if using_classic_slider_acc {
        counts.n_circles as int
    } else {
        counts.n_circles + counts.n_sliders
    }
}

/// Great hits that can be attributed to accuracy objects.
pub open spec fn relevant_300s(state: OsuScoreState, accuracy_count: int) -> int {
    state.n300 - (state.total() - accuracy_count)
}

pub open spec fn hit_error_of(state: OsuScoreState, accuracy_count: int) -> HitErrorEstimate {
    let relevant = relevant_300s(state, accuracy_count);
    if relevant <= 0 {
        HitErrorEstimate::FromOd
    } else {
        HitErrorEstimate::FromDistribution {
            alpha: relevant as u64,
            beta: (1 + accuracy_count - relevant) as u64,
        }
    }
}

/// The combo falls short of `max_combo - n_sliders / 10`.
pub open spec fn below_full_combo(
    counts: ObjectCounts,
    map_max_combo: u32,
    state: OsuScoreState,
) -> bool {
    10 * state.max_combo + counts.n_sliders < 10 * map_max_combo
}

pub open spec fn combo_miss_estimate_of(
    counts: ObjectCounts,
    map_max_combo: u32,
    state: OsuScoreState,
    using_classic_slider_acc: bool,
) -> Option<ComboMissEstimate> {
    if using_classic_slider_acc && counts.n_sliders > 0 && below_full_combo(
        counts,
        map_max_combo,
        state,
    ) {
        Some(
            ComboMissEstimate {
                threshold_tenths: (10 * map_max_combo - counts.n_sliders) as u64,
                divisor: if state.max_combo == 0 {
                    1
                } else {
                    state.max_combo
                },
                cap: (state.total() - state.n300) as u64,
            },
        )
    } else {
        None
    }
}

pub open spec fn plan_of(
    counts: ObjectCounts,
    map_max_combo: u32,
    state: OsuScoreState,
    using_classic_slider_acc: bool,
) -> PerformancePlan {
    let accuracy_count = accuracy_objects(counts, using_classic_slider_acc);
    PerformancePlan {
        total_hits: state.total() as u64,
        accuracy_object_count: accuracy_count as u64,
        hit_error: hit_error_of(state, accuracy_count),
        combo_miss_estimate: combo_miss_estimate_of(
            counts,
            map_max_combo,
            state,
            using_classic_slider_acc,
        ),
    }
}

/// The bookkeeping of a performance calculation for a play on a map with
/// the given object counts and maximum combo; `None` when nothing was hit
/// or missed, in which case every pp value is zero.
pub fn performance_plan(
    counts: &ObjectCounts,
    map_max_combo: u32,
    state: &OsuScoreState,
    using_classic_slider_acc: bool,
) -> (r: Option<PerformancePlan>)
    ensures
        r == if state.total() == 0 {
            None::<PerformancePlan>
        } else {
            Some(plan_of(*counts, map_max_combo, *state, using_classic_slider_acc))
        },
{
    let total_hits = state.total_hits();
    if total_hits == 0 {
        return None;
    }
    let accuracy_object_count: u64 = if using_classic_slider_acc {
        counts.n_circles as u64
    } else {
        counts.n_circles as u64 + counts.n_sliders as u64
    };
    let mistakes: u64 = total_hits - state.n300 as u64;
    let hit_error = if state.n300 as u64 + accuracy_object_count <= total_hits {
        HitErrorEstimate::FromOd
    } else {
        let alpha: u64 = state.n300 as u64 + accuracy_object_count - total_hits;
        HitErrorEstimate::FromDistribution { alpha, beta: 1 + mistakes }
    };
    let combo_miss_estimate = if using_classic_slider_acc && counts.n_sliders > 0 && 10
        * state.max_combo as u64 + (counts.n_sliders as u64) < 10 * map_max_combo as u64 {
        Some(
            ComboMissEstimate {
                threshold_tenths: 10 * map_max_combo as u64 - counts.n_sliders as u64,
                divisor: if state.max_combo == 0 {
                    1
                } else {
                    state.max_combo
                },
                cap: mistakes,
            },
        )
    } else {
        None
    };
    Some(
        PerformancePlan {
            total_hits,
            accuracy_object_count,
            hit_error,
            combo_miss_estimate,
        },
    )
}

/// When the hit error is estimated from a Beta distribution, both of its
/// shape parameters are at least 1 and they add up to one more than the
/// number of accuracy objects, so the distribution always exists.
pub proof fn lemma_beta_shape_valid(
    counts: ObjectCounts,
    map_max_combo: u32,
    state: OsuScoreState,
    using_classic_slider_acc: bool,
)
    ensures
        ({
            let p = plan_of(counts, map_max_combo, state, using_classic_slider_acc);
            p.hit_error matches HitErrorEstimate::FromDistribution { alpha, beta } ==> alpha >= 1
                && beta >= 1 && alpha + beta == p.accuracy_object_count + 1
        }),
{
}

/// On a map without sliders, classic slider accuracy changes nothing: the
/// accuracy objects are the same and no slider break is estimated, so the
/// effective miss count is the miss count either way.
pub proof fn lemma_no_sliders_classic_no_op(
    counts: ObjectCounts,
    map_max_combo: u32,
    state: OsuScoreState,
)
    requires
        counts.n_sliders == 0,
    ensures
        plan_of(counts, map_max_combo, state, true) == plan_of(
            counts,
            map_max_combo,
            state,
            false,
        ),
        plan_of(counts, map_max_combo, state, true).combo_miss_estimate is None,
{
}

/// An estimate of slider breaks exists only under classic slider accuracy
/// and only when the combo falls short of the full-combo threshold.
pub proof fn lemma_combo_estimate_needs_short_combo(
    counts: ObjectCounts,
    map_max_combo: u32,
    state: OsuScoreState,
    using_classic_slider_acc: bool,
)
    ensures
        plan_of(counts, map_max_combo, state, using_classic_slider_acc).combo_miss_estimate is Some
            ==> using_classic_slider_acc && below_full_combo(counts, map_max_combo, state)
            && state.max_combo < map_max_combo,
{
}

} // verus!
