//! The entry points: validate a shot request, run the sweep over the chosen
//! arc sub-range, and encode the outcome in a fixed result record.

use vstd::prelude::*;

use crate::model::arc_bounds;
use crate::model::arc_high_tenths;
use crate::model::arc_low_tenths;
use crate::model::best_candidate;
use crate::model::failure_result;
use crate::model::feasible_candidate;
use crate::model::grid_size;
use crate::model::shot_result_spec;
use crate::model::valid_request;
use crate::model::ArcPreference;
use crate::model::TrajectoryResult;
use crate::model::VELOCITY_CAP_MICRO;
use crate::search::find_optimal_trajectory;

verus! {

/// Compute a shot from a candidate table drawn from the sub-range chosen by
/// `arc`.  Entry `k` of `candidates` is the required speed, in micrometres
/// per second, at the grid angle `arc_low_tenths(arc) + k` for the request's
/// distance and height difference, or `None` where the physics yielded no
/// verified speed.
///
/// An invalid request — non-positive distance or a negative height — and a
/// table without a feasible candidate both produce the zeroed failure
/// record.  On success the result carries the feasible candidate of minimum
/// required speed, the lowest angle on ties, and its angle lies in `arc`'s
/// sub-range.
pub fn calculate_trajectory_with_arc(
    distance_micro: i64,
    robot_height_micro: i64,
    target_height_micro: i64,
    arc: ArcPreference,
    candidates: &Vec<Option<u64>>,
) -> (r: TrajectoryResult)
    requires
        candidates@.len() == grid_size(arc),
    ensures
        r == shot_result_spec(
            distance_micro as int,
            robot_height_micro as int,
            target_height_micro as int,
            arc,
            candidates@,
        ),
        !valid_request(distance_micro as int, robot_height_micro as int, target_height_micro as int)
            ==> r == failure_result(),
        !r.success ==> r == failure_result(),
        valid_request(distance_micro as int, robot_height_micro as int, target_height_micro as int)
            ==> (r.success <==> exists|j: int|
                0 <= j < candidates@.len() && feasible_candidate(#[trigger] candidates@[j])),
        r.success ==> arc_low_tenths(arc) <= r.angle_tenths <= arc_high_tenths(arc),
        r.success ==> 0 < r.velocity_micro < VELOCITY_CAP_MICRO,
        r.success ==> candidates@[r.angle_tenths - arc_low_tenths(arc)]
            == Option::Some(r.velocity_micro),
        r.success ==> forall|j: int|
            0 <= j < candidates@.len() && feasible_candidate(#[trigger] candidates@[j])
                ==> r.velocity_micro <= candidates@[j]->0,
{
    if distance_micro <= 0 || robot_height_micro < 0 || target_height_micro < 0 {
        return TrajectoryResult { angle_tenths: 0, velocity_micro: 0, success: false };
    }
    let (lo, _hi) = arc_bounds(arc);
    match find_optimal_trajectory(lo, candidates) {
        Some((angle, speed)) => TrajectoryResult {
            angle_tenths: angle,
            velocity_micro: speed,
            success: true,
        },
        None => TrajectoryResult { angle_tenths: 0, velocity_micro: 0, success: false },
    }
}

/// Compute a shot over the full angle grid, from 15.0 to 75.0 degrees.
/// Entry `k` of `candidates` is the required speed at the grid angle
/// `MIN_ANGLE_TENTHS + k`; the contract is that of
/// `calculate_trajectory_with_arc` with no arc preference.
pub fn calculate_trajectory(
    distance_micro: i64,
    robot_height_micro: i64,
    target_height_micro: i64,
    candidates: &Vec<Option<u64>>,
) -> (r: TrajectoryResult)
    requires
        candidates@.len() == grid_size(ArcPreference::Any),
    ensures
        r == shot_result_spec(
            distance_micro as int,
            robot_height_micro as int,
            target_height_micro as int,
            ArcPreference::Any,
            candidates@,
        ),
        !valid_request(distance_micro as int, robot_height_micro as int, target_height_micro as int)
            ==> r == failure_result(),
        !r.success ==> r == failure_result(),
        valid_request(distance_micro as int, robot_height_micro as int, target_height_micro as int)
            ==> (r.success <==> exists|j: int|
                0 <= j < candidates@.len() && feasible_candidate(#[trigger] candidates@[j])),
        r.success ==> arc_low_tenths(ArcPreference::Any) <= r.angle_tenths
            <= arc_high_tenths(ArcPreference::Any),
        r.success ==> 0 < r.velocity_micro < VELOCITY_CAP_MICRO,
        r.success ==> candidates@[r.angle_tenths - arc_low_tenths(ArcPreference::Any)]
            == Option::Some(r.velocity_micro),
        r.success ==> forall|j: int|
            0 <= j < candidates@.len() && feasible_candidate(#[trigger] candidates@[j])
                ==> r.velocity_micro <= candidates@[j]->0,
{
    calculate_trajectory_with_arc(
        distance_micro,
        robot_height_micro,
        target_height_micro,
        ArcPreference::Any,
        candidates,
    )
}

} // verus!
