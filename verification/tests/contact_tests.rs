use physics::body::{BodyHandle, Vector3};
use physics::contact::{sort_contacts, Contact};
use physics::schedule::{
    first_solve_step, next_solve_step, plan_substeps, Phase, SolveStep, StepPlan,
};

fn contact(a: usize, b: usize, time_of_impact: u64) -> Contact {
    Contact {
        handle_a: BodyHandle { index: a },
        handle_b: BodyHandle { index: b },
        local_point_a: Vector3::zero(),
        local_point_b: Vector3::zero(),
        normal: Vector3::zero(),
        time_of_impact,
    }
}

#[test]
fn contacts_come_out_earliest_first() {
    let found = vec![contact(0, 1, 9), contact(2, 3, 1), contact(4, 5, 5), contact(6, 7, 0)];
    let sorted = sort_contacts(&found);
    let times: Vec<u64> = sorted.iter().map(|c| c.time_of_impact).collect();
    assert_eq!(times, vec![0, 1, 5, 9]);
    assert_eq!(sorted, vec![found[3], found[1], found[2], found[0]]);
}

#[test]
fn contacts_at_the_same_time_keep_the_order_of_discovery() {
    let found = vec![
        contact(1, 2, 4),
        contact(3, 4, 0),
        contact(5, 6, 4),
        contact(7, 8, 0),
        contact(9, 10, 4),
    ];
    let sorted = sort_contacts(&found);
    assert_eq!(sorted, vec![found[1], found[3], found[0], found[2], found[4]]);
}

#[test]
fn sorting_nothing_gives_nothing() {
    assert_eq!(sort_contacts(&Vec::new()), Vec::new());
    let one = vec![contact(0, 1, 7)];
    assert_eq!(sort_contacts(&one), one);
}

#[test]
fn sorting_agrees_with_the_standard_stable_sort() {
    let mut found = Vec::new();
    let mut seed: u64 = 12345;
    for i in 0..200usize {
        seed = seed.wrapping_mul(6364136223846793005).wrapping_add(1442695040888963407);
        found.push(contact(i, i + 1, (seed >> 33) % 16));
    }
    let mut expected = found.clone();
    expected.sort_by_key(|c| c.time_of_impact);
    assert_eq!(sort_contacts(&found), expected);
}

#[test]
fn a_step_is_cut_at_each_contact() {
    let contacts = vec![contact(0, 1, 0), contact(0, 2, 3), contact(1, 2, 3), contact(2, 3, 10)];
    let plan = plan_substeps(&contacts, 16);
    assert_eq!(plan, StepPlan { segments: vec![0, 3, 0, 7], remainder: 6 });
}

#[test]
fn the_pieces_of_a_step_add_up_to_the_step() {
    let contacts = vec![contact(0, 1, 2), contact(0, 2, 2), contact(1, 2, 11), contact(2, 3, 16_667)];
    let dt = 16_667;
    let plan = plan_substeps(&contacts, dt);
    assert_eq!(plan.segments.iter().sum::<u64>() + plan.remainder, dt);
    assert_eq!(plan.remainder, 0);
}

#[test]
fn a_step_without_contacts_is_one_piece() {
    let plan = plan_substeps(&Vec::new(), 1000);
    assert_eq!(plan, StepPlan { segments: vec![], remainder: 1000 });
    let plan = plan_substeps(&Vec::new(), 0);
    assert_eq!(plan, StepPlan { segments: vec![], remainder: 0 });
}

fn whole_pass(n: usize, sweeps: u32) -> Vec<SolveStep> {
    let mut steps = Vec::new();
    let mut at = first_solve_step(n);
    while let Some(step) = at {
        steps.push(step);
        at = next_solve_step(step, n, sweeps);
    }
    steps
}

fn step(phase: Phase, sweep: u32, constraint: usize) -> SolveStep {
    SolveStep { phase, sweep, constraint }
}

#[test]
fn a_pass_prepares_once_sweeps_in_order_and_closes_once() {
    assert_eq!(
        whole_pass(2, 2),
        vec![
            step(Phase::PreSolve, 0, 0),
            step(Phase::PreSolve, 0, 1),
            step(Phase::Solve, 0, 0),
            step(Phase::Solve, 0, 1),
            step(Phase::Solve, 1, 0),
            step(Phase::Solve, 1, 1),
            step(Phase::PostSolve, 0, 0),
            step(Phase::PostSolve, 0, 1),
        ]
    );
}

#[test]
fn a_pass_over_five_joints_with_five_sweeps_has_thirty_five_calls() {
    let pass = whole_pass(5, 5);
    assert_eq!(pass.len(), 35);
    assert_eq!(pass.iter().filter(|s| s.phase == Phase::PreSolve).count(), 5);
    assert_eq!(pass.iter().filter(|s| s.phase == Phase::Solve).count(), 25);
    assert_eq!(pass.iter().filter(|s| s.phase == Phase::PostSolve).count(), 5);
    assert_eq!(pass[5], step(Phase::Solve, 0, 0));
    assert_eq!(pass[29], step(Phase::Solve, 4, 4));
    assert_eq!(pass[34], step(Phase::PostSolve, 0, 4));
}

#[test]
fn a_pass_without_constraints_or_without_sweeps() {
    assert_eq!(first_solve_step(0), None);
    assert_eq!(whole_pass(0, 5), vec![]);
    assert_eq!(
        whole_pass(2, 0),
        vec![
            step(Phase::PreSolve, 0, 0),
            step(Phase::PreSolve, 0, 1),
            step(Phase::PostSolve, 0, 0),
            step(Phase::PostSolve, 0, 1),
        ]
    );
    assert_eq!(next_solve_step(step(Phase::PostSolve, 0, 0), 1, 3), None);
}
