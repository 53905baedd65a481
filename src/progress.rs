use vstd::prelude::*;

verus! {

/// What the progress monitor shows while a run of `total` steps is under way.
#[derive(Clone, Copy, Debug, PartialEq, Eq)]
pub struct ProgressReport {
    pub completed: usize,
    pub total: usize,
    /// Completed share of the run in hundredths of a percent, rounded down.
    pub percent_hundredths: u64,
    /// Estimated time still needed, in nanoseconds; `None` until a step has
    /// completed and a per-step duration can be measured.
    pub remaining_nanos: Option<u128>,
}

/// Completed share of the run in hundredths of a percent, rounded down.
pub open spec fn percent_hundredths_of(completed: nat, total: nat) -> nat {
    completed * 10000 / total
}

/// Mean duration of the completed steps (rounded down to whole nanoseconds),
/// times the number of steps left.
pub open spec fn remaining_of(completed: nat, total: nat, elapsed_nanos: nat) -> nat {
    (elapsed_nanos / completed) * (total - completed) as nat
}

/// The report for a run of which `completed` of `total` steps are done after
/// `elapsed_nanos` nanoseconds; `None` once the run is complete, which is when
/// the monitor stops.
pub fn progress_report(completed: usize, total: usize, elapsed_nanos: u64) -> (r: Option<ProgressReport>)
    ensures
        r is None <==> completed >= total,
        r matches Some(p) ==> {
            &&& p.completed == completed
            &&& p.total == total
            &&& p.percent_hundredths == percent_hundredths_of(completed as nat, total as nat)
            &&& completed == 0 ==> p.remaining_nanos is None
            &&& completed > 0 ==> p.remaining_nanos == Some(
                remaining_of(completed as nat, total as nat, elapsed_nanos as nat) as u128,
            )
        },
{
    if completed >= total {
        return None;
    }
    let c = completed as u128;
    let t = total as u128;
    assert(((c * 10000) as int) / (t as int) < 10000) by (nonlinear_arith)
        requires
            c < t,
    ;
    let percent = (c * 10000 / t) as u64;
    let remaining = if completed == 0 {
        None
    } else {
        let per_step = elapsed_nanos as u128 / c;
        let left = t - c;
        assert(per_step * left <= u64::MAX * u64::MAX) by (nonlinear_arith)
            requires
                per_step <= u64::MAX,
                left <= u64::MAX,
        ;
        Some(per_step * left)
    };
    Some(ProgressReport { completed, total, percent_hundredths: percent, remaining_nanos: remaining })
}

} // verus!
