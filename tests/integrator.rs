use std::cell::{Cell, RefCell};

use kinetic_theory::particles::{Particles, RunFailure, StepError};
use kinetic_theory::yoshida::{yoshida_stages, Stage, Weight};

/// Integer stand-ins for the Yoshida weights, distinct so the order shows.
fn int_weight(w: Weight) -> i64 {
    match w {
        Weight::C1 => 1,
        Weight::C2 => 2,
        Weight::D1 => 3,
        Weight::D2 => 4,
    }
}

fn advance_int(w: Weight, a: &i64, b: &i64) -> i64 {
    a + int_weight(w) * b
}

fn spring(pos: &Vec<i64>, _pot: &Option<()>) -> Result<Vec<i64>, String> {
    Ok(pos.iter().map(|x| -x).collect())
}

#[test]
fn plan_has_seven_stages_in_order() {
    let stages = yoshida_stages();
    assert_eq!(
        stages,
        vec![
            Stage::Drift(Weight::C1),
            Stage::Kick(Weight::D1),
            Stage::Drift(Weight::C2),
            Stage::Kick(Weight::D2),
            Stage::Drift(Weight::C2),
            Stage::Kick(Weight::D1),
            Stage::Drift(Weight::C1),
        ]
    );
    let kicks = stages.iter().filter(|s| matches!(s, Stage::Kick(_))).count();
    assert_eq!(kicks, 3);
    let mut reversed = stages.clone();
    reversed.reverse();
    assert_eq!(reversed, stages);
}

#[test]
fn step_applies_stages_in_order() {
    let mut p: Particles<i64, i64, ()> = Particles::new();
    p.add_particle(1, 0, 5);
    assert_eq!(p.update_yoshida(&advance_int, &spring), Ok(()));
    // x: 1 -> 1 -> -5 -> 29 -> -41, v: 0 -> -3 -> 17 -> -70
    assert_eq!(p.positions(), &vec![-41]);
    assert_eq!(p.velocities(), &vec![-70]);
    assert_eq!(p.masses(), &vec![5]);
}

#[test]
fn step_evaluates_field_three_times_on_current_positions() {
    let calls = Cell::new(0usize);
    let seen = RefCell::new(Vec::new());
    let field = |pos: &Vec<i64>, _pot: &Option<()>| -> Result<Vec<i64>, String> {
        calls.set(calls.get() + 1);
        seen.borrow_mut().push(pos.clone());
        spring(pos, &None)
    };
    let mut p: Particles<i64, i64, ()> = Particles::new();
    p.add_particle(1, 0, 1);
    p.add_particle(2, 1, 1);
    assert_eq!(p.update_yoshida(&advance_int, &field), Ok(()));
    assert_eq!(calls.get(), 3);
    // particle 0 as in the single-particle case; particle 1 starts at (2, 1)
    // x: 2 -> 3, v: 1 -> -8, x: 3 -> -13, v: -8 -> 44, x: -13 -> 75, v: 44 -> -181, x: 75 -> -106
    assert_eq!(*seen.borrow(), vec![vec![1, 3], vec![-5, -13], vec![29, 75]]);
    assert_eq!(p.positions(), &vec![-41, -106]);
    assert_eq!(p.velocities(), &vec![-70, -181]);
}

#[test]
fn step_on_empty_system_is_noop() {
    let mut p: Particles<i64, i64, ()> = Particles::new();
    let field = |pos: &Vec<i64>, _pot: &Option<()>| -> Result<Vec<i64>, String> {
        assert!(pos.is_empty());
        Ok(Vec::new())
    };
    assert_eq!(p.update_yoshida(&advance_int, &field), Ok(()));
    assert_eq!(p.num_particles(), 0);
    assert!(p.positions().is_empty());
    assert!(p.velocities().is_empty());
}

#[test]
fn failing_field_aborts_step_after_first_drift() {
    let mut p: Particles<i64, i64, ()> = Particles::new();
    p.add_particle(1, 2, 1);
    let field = |_pos: &Vec<i64>, _pot: &Option<()>| -> Result<Vec<i64>, String> { Err("potential failed".to_string()) };
    let r = p.update_yoshida(&advance_int, &field);
    assert_eq!(r, Err(StepError::Field("potential failed".to_string())));
    // the leading drift was applied, no kick was
    assert_eq!(p.positions(), &vec![3]);
    assert_eq!(p.velocities(), &vec![2]);
}

#[test]
fn field_with_wrong_length_is_rejected() {
    let mut p: Particles<i64, i64, ()> = Particles::new();
    p.add_particle(1, 0, 1);
    p.add_particle(2, 0, 1);
    let field = |_pos: &Vec<i64>, _pot: &Option<()>| -> Result<Vec<i64>, String> { Ok(vec![0]) };
    let r = p.update_yoshida(&advance_int, &field);
    assert_eq!(r, Err(StepError::FieldLength { expected: 2, found: 1 }));
    assert_eq!(p.velocities(), &vec![0, 0]);
}

#[test]
fn field_sees_the_potential() {
    let mut p: Particles<i64, i64, i64> = Particles::new();
    p.add_particle(0, 0, 1);
    p.set_potential(1);
    let field = |pos: &Vec<i64>, pot: &Option<i64>| -> Result<Vec<i64>, String> {
        Ok(pos.iter().map(|_| pot.unwrap_or(0)).collect())
    };
    assert_eq!(p.update_yoshida(&advance_int, &field), Ok(()));
    // v gains (3 + 4 + 3) times the constant force
    assert_eq!(p.velocities(), &vec![10]);
    // x: 0 -> 0 -> 6 -> 20 -> 30
    assert_eq!(p.positions(), &vec![30]);
    p.unset_potential();
    assert_eq!(p.update_yoshida(&advance_int, &field), Ok(()));
    assert_eq!(p.velocities(), &vec![10]);
}

#[test]
fn run_performs_exactly_n_steps_and_reports_each() {
    let calls = Cell::new(0usize);
    let field = |pos: &Vec<i64>, pot: &Option<()>| -> Result<Vec<i64>, String> {
        calls.set(calls.get() + 1);
        spring(pos, pot)
    };
    let reported = RefCell::new(Vec::new());
    let report = |k: usize| reported.borrow_mut().push(k);
    let mut p: Particles<i64, i64, ()> = Particles::new();
    p.add_particle(1, 0, 1);
    assert_eq!(p.run(4, &advance_int, &field, &report), Ok(()));
    assert_eq!(calls.get(), 12);
    assert_eq!(*reported.borrow(), vec![1, 2, 3, 4]);

    let mut q: Particles<i64, i64, ()> = Particles::new();
    q.add_particle(1, 0, 1);
    for _ in 0..4 {
        q.update_yoshida(&advance_int, &spring).unwrap();
    }
    assert_eq!(p.positions(), q.positions());
    assert_eq!(p.velocities(), q.velocities());
}

#[test]
fn run_of_zero_steps_changes_nothing() {
    let mut p: Particles<i64, i64, ()> = Particles::new();
    p.add_particle(1, 2, 3);
    assert_eq!(p.run(0, &advance_int, &spring, &|_k: usize| {}), Ok(()));
    assert_eq!(p.positions(), &vec![1]);
    assert_eq!(p.velocities(), &vec![2]);
}

#[test]
fn run_stops_at_first_failure_and_names_the_step() {
    let calls = Cell::new(0usize);
    // the seventh evaluation is the first kick of the third step
    let field = |pos: &Vec<i64>, pot: &Option<()>| -> Result<Vec<i64>, String> {
        calls.set(calls.get() + 1);
        if calls.get() == 7 {
            Err("boom".to_string())
        } else {
            spring(pos, pot)
        }
    };
    let reported = RefCell::new(Vec::new());
    let report = |k: usize| reported.borrow_mut().push(k);
    let mut p: Particles<i64, i64, ()> = Particles::new();
    p.add_particle(1, 0, 1);
    let r = p.run(5, &advance_int, &field, &report);
    assert_eq!(r, Err(RunFailure { step: 2, error: StepError::Field("boom".to_string()) }));
    assert_eq!(calls.get(), 7);
    assert_eq!(*reported.borrow(), vec![1, 2]);
}

const C14: f64 = 0.675603595979828817023843904485730413460999688108572414164;
const C23: f64 = -0.17560359597982881702384390448573041346099968810857241416;
const D13: f64 = 1.351207191959657634047687808971460826921999376217144828328;
const D2: f64 = -1.70241438391931526809537561794292165384399875243428965665;

fn coefficient(w: Weight) -> f64 {
    match w {
        Weight::C1 => C14,
        Weight::C2 => C23,
        Weight::D1 => D13,
        Weight::D2 => D2,
    }
}

type Potential = fn([f64; 3]) -> [f64; 3];

fn push_along_x(_p: [f64; 3]) -> [f64; 3] {
    [1.0, 0.0, 0.0]
}

#[test]
fn constant_external_force_advances_velocity_by_kick_weights() {
    let h = 0.001;
    let advance = |w: Weight, a: &[f64; 3], b: &[f64; 3]| -> [f64; 3] {
        let c = coefficient(w) * h;
        [a[0] + c * b[0], a[1] + c * b[1], a[2] + c * b[2]]
    };
    let field = |pos: &Vec<[f64; 3]>, pot: &Option<Potential>| -> Result<Vec<[f64; 3]>, String> {
        Ok(pos.iter().map(|p| pot.map(|f| f(*p)).unwrap_or([0.0; 3])).collect())
    };
    let mut p: Particles<[f64; 3], f64, Potential> = Particles::new();
    p.add_particle([0.0; 3], [0.0; 3], 1.0);
    p.set_potential(push_along_x);
    assert_eq!(p.update_yoshida(&advance, &field), Ok(()));
    let v = p.velocities()[0];
    let expected = (D13 + D2 + D13) * h;
    assert!((v[0] - expected).abs() < 1e-15);
    assert!((v[0] - h).abs() < 1e-12);
    assert_eq!(v[1], 0.0);
    assert_eq!(v[2], 0.0);
}

#[test]
fn position_weights_sum_to_one_step() {
    // a free particle moves exactly one time step along its velocity
    let h = 0.5;
    let advance = |w: Weight, a: &f64, b: &f64| -> f64 { a + coefficient(w) * b * h };
    let field = |pos: &Vec<f64>, _pot: &Option<()>| -> Result<Vec<f64>, String> { Ok(vec![0.0; pos.len()]) };
    let mut p: Particles<f64, f64, ()> = Particles::new();
    p.add_particle(1.0, 2.0, 1.0);
    assert_eq!(p.update_yoshida(&advance, &field), Ok(()));
    assert!((p.positions()[0] - 2.0).abs() < 1e-12);
    assert_eq!(p.velocities()[0], 2.0);
}
