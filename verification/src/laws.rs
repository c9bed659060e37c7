//! The library's general laws, stated and proved over the model.

use vstd::prelude::*;

use crate::model::best_candidate;
use crate::model::feasible_candidate;
use crate::model::shot_result_spec;
use crate::model::ArcPreference;
use crate::model::VELOCITY_CAP_MICRO;
use crate::search::lemma_best_from_properties;

verus! {

/// Minimality and soundness of the selection.  A selected pair is an entry
/// of the table, feasible — its speed positive and below the cap — and of
/// minimum speed among all feasible entries: every other feasible grid
/// angle requires at least that speed, and every feasible angle earlier in
/// the sweep requires strictly more, so on ties the first candidate is the
/// one retained.  When nothing is selected, no entry of the table is
/// feasible.
pub proof fn lemma_best_candidate_properties(c: Seq<Option<u64>>)
    ensures
        match best_candidate(c) {
            Option::Some(p) => {
                &&& 0 <= p.0 < c.len()
                &&& c[p.0] == Option::Some(p.1)
                &&& 0 < p.1 < VELOCITY_CAP_MICRO
                &&& forall|j: int|
                    0 <= j < c.len() && feasible_candidate(#[trigger] c[j]) ==> p.1 <= c[j]->0
                &&& forall|j: int|
                    0 <= j < p.0 && feasible_candidate(#[trigger] c[j]) ==> p.1 < c[j]->0
            },
            Option::None => forall|j: int| 0 <= j < c.len() ==> !feasible_candidate(#[trigger] c[j]),
        },
{
    lemma_best_from_properties(c, 0);
}

/// Translation invariance.  The computed shot depends on the launch and
/// target heights only through their difference and through validation, and
/// the candidate table is a function of the distance and that difference
/// alone; so shifting both heights by a common vertical offset that keeps
/// them above the ground leaves the result unchanged.
pub proof fn lemma_translation_invariance(
    distance_micro: int,
    robot_height_micro: int,
    target_height_micro: int,
    offset_micro: int,
    arc: ArcPreference,
    c: Seq<Option<u64>>,
)
    requires
        robot_height_micro >= 0,
        target_height_micro >= 0,
        robot_height_micro + offset_micro >= 0,
        target_height_micro + offset_micro >= 0,
    ensures
        shot_result_spec(
            distance_micro,
            robot_height_micro + offset_micro,
            target_height_micro + offset_micro,
            arc,
            c,
        ) == shot_result_spec(distance_micro, robot_height_micro, target_height_micro, arc, c),
{
}

} // verus!
