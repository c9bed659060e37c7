//! Launch planning for a projectile launcher.
//!
//! Given a horizontal distance and a height difference, a launcher must pick
//! a launch angle and a launch speed so that the drag-free parabola passes
//! through the target point.  The caller evaluates the closed-form physics on
//! a fixed grid of candidate angles (tenths of a degree) and hands the
//! resulting table of required speeds to this library, which performs the
//! verified part of the work: validating the request, sweeping the grid,
//! discarding speeds at or above the physical cap, selecting the feasible
//! candidate of minimum required speed (first one on ties), and encoding
//! success or failure in a fixed result record.
//!
//! All quantities are scaled integers: lengths in micrometres, speeds in
//! micrometres per second, angles in tenths of a degree.

mod boundary;
mod laws;
mod model;
mod search;

pub use boundary::calculate_trajectory;
pub use boundary::calculate_trajectory_with_arc;
pub use laws::lemma_best_candidate_properties;
pub use laws::lemma_translation_invariance;
pub use model::arc_bounds;
pub use model::arc_high_tenths;
pub use model::arc_low_tenths;
pub use model::best_candidate;
pub use model::failure_result;
pub use model::best_from;
pub use model::combine;
pub use model::feasible_candidate;
pub use model::grid_size;
pub use model::shot_result_spec;
pub use model::valid_request;
pub use model::ArcPreference;
pub use model::TrajectoryResult;
pub use model::MAX_ANGLE_TENTHS;
pub use model::MID_ANGLE_TENTHS;
pub use model::MIN_ANGLE_TENTHS;
pub use model::VELOCITY_CAP_MICRO;
pub use search::find_optimal_trajectory;
