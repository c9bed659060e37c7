//! The grid sweep: walk the candidate table from the low end upward and keep
//! the feasible candidate of minimum required speed.

use vstd::prelude::*;

use crate::model::best_candidate;
use crate::model::best_from;
use crate::model::combine;
use crate::model::feasible_candidate;
use crate::model::VELOCITY_CAP_MICRO;

verus! {

/// `combine` is associative: preferring smaller speeds with a left bias can
/// be folded in from either side.
proof fn lemma_combine_assoc(
    a: Option<(int, u64)>,
    b: Option<(int, u64)>,
    c: Option<(int, u64)>,
)
    ensures
        combine(combine(a, b), c) == combine(a, combine(b, c)),
{
}

/// What the selection guarantees: a selected pair is a feasible entry of the
/// table, its speed is a minimum over all feasible entries, and no earlier
/// feasible entry matches that speed; when nothing is selected, no entry at
/// or after `i` is feasible.
pub(crate) proof fn lemma_best_from_properties(c: Seq<Option<u64>>, i: int)
    requires
        0 <= i <= c.len(),
    ensures
        match best_from(c, i) {
            Option::Some(p) => {
                &&& i <= p.0 < c.len()
                &&& c[p.0] == Option::Some(p.1)
                &&& 0 < p.1 < VELOCITY_CAP_MICRO
                &&& forall|j: int|
                    i <= j < c.len() && feasible_candidate(#[trigger] c[j]) ==> p.1 <= c[j]->0
                &&& forall|j: int|
                    i <= j < p.0 && feasible_candidate(#[trigger] c[j]) ==> p.1 < c[j]->0
            },
            Option::None => forall|j: int| i <= j < c.len() ==> !feasible_candidate(#[trigger] c[j]),
        },
    decreases c.len() - i,
{
    if i < c.len() {
        lemma_best_from_properties(c, i + 1);
    }
}

/// Sweep the candidate table and return the feasible candidate of minimum
/// required speed, as `(angle in tenths of a degree, speed in micrometres
/// per second)`.  Entry `k` of the table is the required speed at the grid
/// angle `lo + k`, or `None` where the physics yielded no verified speed.
/// Candidates whose speed is zero or at least the cap are discarded.  On
/// equal speeds the first candidate in sweep order — the lowest angle —
/// is retained.  Returns `None` when no candidate survives.
pub fn find_optimal_trajectory(lo: u32, candidates: &Vec<Option<u64>>) -> (r: Option<(u32, u64)>)
    requires
        lo + candidates@.len() <= u32::MAX,
    ensures
        match best_candidate(candidates@) {
            Option::Some(p) => r == Option::Some(((lo + p.0) as u32, p.1)),
            Option::None => r is None,
        },
        r matches Some(s) ==> {
            &&& lo <= s.0 < lo + candidates@.len()
            &&& candidates@[s.0 - lo] == Option::Some(s.1)
            &&& 0 < s.1 < VELOCITY_CAP_MICRO
            &&& forall|j: int|
                0 <= j < candidates@.len() && feasible_candidate(#[trigger] candidates@[j])
                    ==> s.1 <= candidates@[j]->0
        },
        r is None ==> forall|j: int|
            0 <= j < candidates@.len() ==> !feasible_candidate(#[trigger] candidates@[j]),
{
    let ghost table: Seq<Option<u64>> = candidates@;
    let mut best: Option<(u32, u64)> = None;
    let mut k: usize = 0;
    while k < candidates.len()
        invariant
            0 <= k <= table.len(),
            table == candidates@,
            lo + table.len() <= u32::MAX,
            combine(rebase(best, lo), best_from(table, k as int)) == best_candidate(table),
            match best {
                Option::Some(b) => lo <= b.0 < lo + k,
                Option::None => true,
            },
        decreases table.len() - k,
    {
        let c: Option<u64> = candidates[k];
        let ghost here: Option<(int, u64)> = if feasible_candidate(table[k as int]) {
            Option::Some((k as int, table[k as int]->0))
        } else {
            Option::None
        };
        proof {
            assert(best_from(table, k as int) == combine(here, best_from(table, k as int + 1)));
            lemma_combine_assoc(rebase(best, lo), here, best_from(table, k as int + 1));
        }
        if let Some(s) = c {
            if 0 < s && s < VELOCITY_CAP_MICRO {
                let replace: bool = match best {
                    Option::Some(b) => s < b.1,
                    Option::None => true,
                };
                if replace {
                    best = Some((lo + k as u32, s));
                }
            }
        }
        k = k + 1;
    }
    proof {
        lemma_best_from_properties(table, 0);
    }
    best
}

/// The best pair kept by the sweep, with its absolute angle mapped back to
/// a grid index relative to `lo`.
pub open spec fn rebase(b: Option<(u32, u64)>, lo: u32) -> Option<(int, u64)> {
    match b {
        Option::Some(p) => Option::Some((p.0 - lo, p.1)),
        Option::None => Option::None,
    }
}

} // verus!
