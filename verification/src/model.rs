//! The mathematical model: units, the arc sub-ranges of the angle grid,
//! feasibility of a candidate speed, and the selection of the best candidate.

use vstd::prelude::*;

verus! {

/// Launch speeds at or above this cap (50 m/s, in micrometres per second)
/// are physically unreasonable for the launcher and are discarded.
pub const VELOCITY_CAP_MICRO: u64 = 50_000_000;

/// Lowest angle of the full grid, in tenths of a degree (15.0 degrees).
pub const MIN_ANGLE_TENTHS: u32 = 150;

/// The angle separating a low arc from a high arc (45.0 degrees).
pub const MID_ANGLE_TENTHS: u32 = 450;

/// Highest angle of the full grid, in tenths of a degree (75.0 degrees).
pub const MAX_ANGLE_TENTHS: u32 = 750;

/// Which part of the angle grid a caller wants the shot drawn from.
#[derive(Clone, Copy, Debug, PartialEq, Eq, Structural)]
pub enum ArcPreference {
    /// A flat trajectory: angles from 15.0 to 45.0 degrees.
    Low,
    /// A lofted trajectory: angles from 45.0 to 75.0 degrees.
    High,
    /// No preference: the full grid from 15.0 to 75.0 degrees.
    Any,
}

/// The outcome of a shot computation.  On failure every numeric field is
/// zero, so an invalid request and an infeasible one look alike.
#[derive(Clone, Copy, Debug, PartialEq, Eq, Structural)]
pub struct TrajectoryResult {
    /// Launch angle in tenths of a degree; `0` on failure.
    pub angle_tenths: u32,
    /// Launch speed in micrometres per second; `0` on failure.
    pub velocity_micro: u64,
    /// Whether a feasible launch was found for a valid request.
    pub success: bool,
}

/// First angle of the sub-range chosen by `arc`, in tenths of a degree.
pub open spec fn arc_low_tenths(arc: ArcPreference) -> int {
    match arc {
        ArcPreference::High => MID_ANGLE_TENTHS as int,
        _ => MIN_ANGLE_TENTHS as int,
    }
}

/// Last angle of the sub-range chosen by `arc`, in tenths of a degree.
pub open spec fn arc_high_tenths(arc: ArcPreference) -> int {
    match arc {
        ArcPreference::Low => MID_ANGLE_TENTHS as int,
        _ => MAX_ANGLE_TENTHS as int,
    }
}

/// Number of grid angles in the sub-range chosen by `arc`; both endpoints
/// are inclusive.
pub open spec fn grid_size(arc: ArcPreference) -> int {
    arc_high_tenths(arc) - arc_low_tenths(arc) + 1
}

/// Both endpoints of the sub-range chosen by `arc`, in tenths of a degree.
pub fn arc_bounds(arc: ArcPreference) -> (r: (u32, u32))
    ensures
        r.0 == arc_low_tenths(arc),
        r.1 == arc_high_tenths(arc),
{
    match arc {
        ArcPreference::Low => (MIN_ANGLE_TENTHS, MID_ANGLE_TENTHS),
        ArcPreference::High => (MID_ANGLE_TENTHS, MAX_ANGLE_TENTHS),
        ArcPreference::Any => (MIN_ANGLE_TENTHS, MAX_ANGLE_TENTHS),
    }
}

/// A request is valid when the target is strictly ahead of the launcher and
/// neither point lies below the ground.  A target below the launch point is
/// allowed: the height difference may be negative.
pub open spec fn valid_request(
    distance_micro: int,
    robot_height_micro: int,
    target_height_micro: int,
) -> bool {
    &&& distance_micro > 0
    &&& robot_height_micro >= 0
    &&& target_height_micro >= 0
}

/// A candidate entry is feasible when the physics produced a speed for its
/// angle and that speed is positive and below the cap.
pub open spec fn feasible_candidate(c: Option<u64>) -> bool {
    match c {
        Option::Some(s) => 0 < s && s < VELOCITY_CAP_MICRO,
        Option::None => false,
    }
}

/// Of two optional `(grid index, speed)` pairs, the one of smaller speed;
/// the left one on ties, so that the earlier grid angle wins.
pub open spec fn combine(
    a: Option<(int, u64)>,
    b: Option<(int, u64)>,
) -> Option<(int, u64)> {
    match (a, b) {
        (Option::Some(x), Option::Some(y)) => if x.1 <= y.1 {
            Option::Some(x)
        } else {
            Option::Some(y)
        },
        (Option::Some(x), Option::None) => Option::Some(x),
        (Option::None, y) => y,
    }
}

/// The best feasible candidate of `c` at an index at or after `i`: the pair
/// `(grid index, speed)` of minimum speed, the earliest such index on ties;
/// `None` when no feasible candidate remains.
pub open spec fn best_from(c: Seq<Option<u64>>, i: int) -> Option<(int, u64)>
    decreases c.len() - i,
{
    if i < 0 || i >= c.len() {
        Option::None
    } else {
        let here: Option<(int, u64)> = if feasible_candidate(c[i]) {
            Option::Some((i, c[i]->0))
        } else {
            Option::None
        };
        combine(here, best_from(c, i + 1))
    }
}

/// The best feasible candidate of the whole table `c`.
pub open spec fn best_candidate(c: Seq<Option<u64>>) -> Option<(int, u64)> {
    best_from(c, 0)
}

/// The result record for a failed computation: every numeric field zero.
pub open spec fn failure_result() -> TrajectoryResult {
    TrajectoryResult { angle_tenths: 0, velocity_micro: 0, success: false }
}

/// What a shot computation returns: the zeroed failure record on an invalid
/// request or an empty selection, and otherwise the best candidate of the
/// table, its grid index translated to an absolute angle of `arc`'s
/// sub-range.
pub open spec fn shot_result_spec(
    distance_micro: int,
    robot_height_micro: int,
    target_height_micro: int,
    arc: ArcPreference,
    c: Seq<Option<u64>>,
) -> TrajectoryResult {
    if !valid_request(distance_micro, robot_height_micro, target_height_micro) {
        failure_result()
    } else {
        match best_candidate(c) {
            Option::Some(p) => TrajectoryResult {
                angle_tenths: (arc_low_tenths(arc) + p.0) as u32,
                velocity_micro: p.1,
                success: true,
            },
            Option::None => failure_result(),
        }
    }
}

} // verus!
