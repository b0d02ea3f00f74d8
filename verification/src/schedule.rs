//! How a step is cut into pieces by the contacts that fall within it.

use crate::contact::{impact_times, is_ordered, Contact};
use vstd::prelude::*;

verus! {

/// The time to advance before the event at place `i`: since the event before
/// it, or since the start of the step for the first.
pub open spec fn segment(times: Seq<int>, i: int) -> int {
    times[i] - if i == 0 {
        0
    } else {
        times[i - 1]
    }
}

/// The sum of the first `n` segments.
pub open spec fn segments_total(times: Seq<int>, n: int) -> int
    decreases n,
{
    if n <= 0 {
        0
    } else {
        segments_total(times, n - 1) + segment(times, n - 1)
    }
}

/// The time left after the last event to reach the end of a step of length `dt`.
pub open spec fn remainder(times: Seq<int>, dt: int) -> int {
    dt - if times.len() == 0 {
        0
    } else {
        times[times.len() - 1]
    }
}

/// True when the step has a length `dt` of zero or more, and the times do not
/// decrease, start at zero or later and end at `dt` or earlier.
pub open spec fn within_step(times: Seq<int>, dt: int) -> bool {
    &&& 0 <= dt
    &&& forall|i: int| 0 <= i < times.len() ==> 0 <= #[trigger] times[i] <= dt
    &&& forall|i: int, j: int| 0 <= i < j < times.len() ==> #[trigger] times[i] <= #[trigger] times[j]
}

/// The first `n` segments add up to the time of the last of them.
pub proof fn lemma_segments_telescope(times: Seq<int>, n: int)
    requires
        0 <= n <= times.len(),
    ensures
        segments_total(times, n) == if n == 0 {
            0
        } else {
            times[n - 1]
        },
    decreases n,
{
    if n > 0 {
        lemma_segments_telescope(times, n - 1);
    }
}

/// Time is conserved: for events at times `t1 <= t2 <= .. <= tn <= dt`, no
/// segment and no remainder is negative, and the segments and the remainder
/// add up to `dt` exactly.
pub proof fn lemma_time_conserved(times: Seq<int>, dt: int)
    requires
        within_step(times, dt),
    ensures
        forall|i: int| 0 <= i < times.len() ==> #[trigger] segment(times, i) >= 0,
        remainder(times, dt) >= 0,
        segments_total(times, times.len() as int) + remainder(times, dt) == dt,
{
    lemma_segments_telescope(times, times.len() as int);
}

/// The pieces of one step: the time to advance before each contact, in the
/// order of the contacts, and the time to advance after the last.
#[derive(Debug, PartialEq, Eq)]
pub struct StepPlan {
    pub segments: Vec<u64>,
    pub remainder: u64,
}

impl StepPlan {
    /// True when the plan cuts a step of `dt` ticks at the times of `contacts`.
    pub open spec fn cuts(&self, contacts: Seq<Contact>, dt: u64) -> bool {
        &&& self.segments@.len() == contacts.len()
        &&& forall|i: int|
            0 <= i < contacts.len() ==> (#[trigger] self.segments@[i]) as int == segment(
                impact_times(contacts),
                i,
            )
        &&& self.remainder as int == remainder(impact_times(contacts), dt as int)
    }
}

/// Cuts a step of `dt` ticks at the contacts' times of impact. The contacts
/// are in order of time and none falls after the end of the step.
pub fn plan_substeps(contacts: &Vec<Contact>, dt: u64) -> (plan: StepPlan)
    requires
        is_ordered(contacts@),
        forall|i: int| 0 <= i < contacts@.len() ==> (#[trigger] contacts@[i]).time_of_impact <= dt,
    ensures
        plan.cuts(contacts@, dt),
        segments_total(impact_times(contacts@), contacts@.len() as int) + plan.remainder == dt,
{
    let mut segments: Vec<u64> = Vec::new();
    let mut accumulated: u64 = 0;
    let mut i: usize = 0;
    let ghost times = impact_times(contacts@);
    while i < contacts.len()
        invariant
            i <= contacts.len(),
            times == impact_times(contacts@),
            is_ordered(contacts@),
            forall|k: int|
                0 <= k < contacts@.len() ==> (#[trigger] contacts@[k]).time_of_impact <= dt,
            segments@.len() == i,
            accumulated as int == if i == 0 {
                0
            } else {
                times[i - 1]
            },
            forall|k: int| 0 <= k < i ==> (#[trigger] segments@[k]) as int == segment(times, k),
        decreases contacts.len() - i,
    {
        let time: u64 = contacts[i].time_of_impact;
        proof {
            if i > 0 {
                assert(contacts@[i - 1].time_of_impact <= contacts@[i as int].time_of_impact);
            }
        }
        let delta: u64 = time - accumulated;
        segments.push(delta);
        accumulated = accumulated + delta;
        i += 1;
    }
    proof {
        lemma_segments_telescope(times, contacts@.len() as int);
        if contacts@.len() > 0 {
            assert(contacts@[contacts@.len() - 1].time_of_impact <= dt);
        }
    }
    StepPlan { segments, remainder: dt - accumulated }
}

/// The three phases of a solving pass.
#[derive(Clone, Copy, Debug, PartialEq, Eq, Structural)]
pub enum Phase {
    PreSolve,
    Solve,
    PostSolve,
}

/// One call of a solving pass: which phase, in which sweep, on which
/// constraint (its place in the order of insertion).
#[derive(Clone, Copy, Debug, PartialEq, Eq, Structural)]
pub struct SolveStep {
    pub phase: Phase,
    pub sweep: u32,
    pub constraint: usize,
}

impl SolveStep {
    /// True when the step belongs to a pass over `n` constraints with
    /// `sweeps` sweeps. Only the solve phase counts sweeps.
    pub open spec fn valid(self, n: usize, sweeps: u32) -> bool {
        &&& self.constraint < n
        &&& match self.phase {
            Phase::Solve => self.sweep < sweeps,
            _ => self.sweep == 0,
        }
    }

    /// The place of the step in the pass: every constraint is prepared, in
    /// order; then comes one sweep after another, each solving every
    /// constraint in order; then every constraint is closed, in order.
    pub open spec fn rank(self, n: usize, sweeps: u32) -> int {
        match self.phase {
            Phase::PreSolve => self.constraint as int,
            Phase::Solve => n + self.sweep * n + self.constraint,
            Phase::PostSolve => n + sweeps * n + self.constraint,
        }
    }

    /// The step that follows, or `None` after the last.
    pub open spec fn successor(self, n: usize, sweeps: u32) -> Option<SolveStep> {
        if self.constraint + 1 < n {
            Some(SolveStep { constraint: (self.constraint + 1) as usize, ..self })
        } else {
            match self.phase {
                Phase::PreSolve => if sweeps > 0 {
                    Some(SolveStep { phase: Phase::Solve, sweep: 0, constraint: 0 })
                } else {
                    Some(SolveStep { phase: Phase::PostSolve, sweep: 0, constraint: 0 })
                },
                Phase::Solve => if self.sweep + 1 < sweeps {
                    Some(
                        SolveStep {
                            phase: Phase::Solve,
                            sweep: (self.sweep + 1) as u32,
                            constraint: 0,
                        },
                    )
                } else {
                    Some(SolveStep { phase: Phase::PostSolve, sweep: 0, constraint: 0 })
                },
                Phase::PostSolve => None,
            }
        }
    }
}

/// The number of calls in a pass over `n` constraints with `sweeps` sweeps.
pub open spec fn pass_length(n: usize, sweeps: u32) -> int {
    n + sweeps * n + n
}

/// The first step of a pass over `n` constraints, or `None` where there is
/// no constraint.
pub fn first_solve_step(n: usize) -> (r: Option<SolveStep>)
    ensures
        r == if n == 0 {
            None
        } else {
            Some(SolveStep { phase: Phase::PreSolve, sweep: 0, constraint: 0 })
        },
{
    if n == 0 {
        None
    } else {
        Some(SolveStep { phase: Phase::PreSolve, sweep: 0, constraint: 0 })
    }
}

/// The step that follows `step` in a pass over `n` constraints with `sweeps`
/// sweeps, or `None` after the last.
pub fn next_solve_step(step: SolveStep, n: usize, sweeps: u32) -> (r: Option<SolveStep>)
    requires
        step.valid(n, sweeps),
    ensures
        r == step.successor(n, sweeps),
{
    if step.constraint + 1 < n {
        return Some(
            SolveStep { phase: step.phase, sweep: step.sweep, constraint: step.constraint + 1 },
        );
    }
    match step.phase {
        Phase::PreSolve => {
            if sweeps > 0 {
                Some(SolveStep { phase: Phase::Solve, sweep: 0, constraint: 0 })
            } else {
                Some(SolveStep { phase: Phase::PostSolve, sweep: 0, constraint: 0 })
            }
        },
        Phase::Solve => {
            if step.sweep + 1 < sweeps {
                Some(SolveStep { phase: Phase::Solve, sweep: step.sweep + 1, constraint: 0 })
            } else {
                Some(SolveStep { phase: Phase::PostSolve, sweep: 0, constraint: 0 })
            }
        },
        Phase::PostSolve => None,
    }
}

/// The first step of a pass stands at place zero.
pub proof fn lemma_first_step(n: usize, sweeps: u32)
    requires
        n > 0,
    ensures
        (SolveStep { phase: Phase::PreSolve, sweep: 0, constraint: 0 }).valid(n, sweeps),
        (SolveStep { phase: Phase::PreSolve, sweep: 0, constraint: 0 }).rank(n, sweeps) == 0,
{
}

/// The successor of a step of the pass is the step at the next place, and
/// only the step at the last place has none.
pub proof fn lemma_successor(step: SolveStep, n: usize, sweeps: u32)
    requires
        step.valid(n, sweeps),
    ensures
        0 <= step.rank(n, sweeps) < pass_length(n, sweeps),
        match step.successor(n, sweeps) {
            Some(next) => next.valid(n, sweeps) && next.rank(n, sweeps) == step.rank(n, sweeps) + 1,
            None => step.rank(n, sweeps) + 1 == pass_length(n, sweeps),
        },
{
    let s = step.sweep as int;
    let t = sweeps as int;
    let m = n as int;
    assert((s + 1) * m == s * m + m) by (nonlinear_arith);
    assert(0 * m == 0) by (nonlinear_arith);
    assert(s >= 0 && m >= 0 ==> s * m >= 0) by (nonlinear_arith);
    assert(t >= 0 && m >= 0 ==> t * m >= 0) by (nonlinear_arith);
    assert(s + 1 <= t && m >= 0 ==> (s + 1) * m <= t * m) by (nonlinear_arith);
}

} // verus!
