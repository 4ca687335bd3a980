use odesolvers::runge_kutta::Integrator;
use odesolvers::runge_kutta::StepError;
use odesolvers::runge_kutta::MAX_HALVINGS;
use odesolvers::scalar::Floating;
use std::cell::Cell;

#[derive(Clone, Copy, Debug, PartialEq, PartialOrd)]
struct Real(f64);

impl Floating for Real {
    fn floatify(mantissa: i64, exponent: i32) -> Self {
        Real(format!("{}e{}", mantissa, exponent).parse::<f64>().unwrap())
    }

    fn plus(self, rhs: Self) -> Self {
        Real(self.0 + rhs.0)
    }

    fn minus(self, rhs: Self) -> Self {
        Real(self.0 - rhs.0)
    }

    fn times(self, rhs: Self) -> Self {
        Real(self.0 * rhs.0)
    }

    fn over(self, rhs: Self) -> Self {
        Real(self.0 / rhs.0)
    }

    fn less_than(self, rhs: Self) -> bool {
        self.0 < rhs.0
    }

    fn at_most(self, rhs: Self) -> bool {
        self.0 <= rhs.0
    }
}

const TOLERANCE: f64 = 1e-8;

fn oscillator(state: &[Real; 2]) -> [Real; 2] {
    let [x, v] = *state;
    [v, Real(-7.0 / 1.5 * x.0 + -0.1 / 1.5 * v.0)]
}

fn undefined(_state: &[Real; 2]) -> [Real; 2] {
    [Real(f64::NAN), Real(f64::NAN)]
}

fn squared_distance(a: [Real; 2], b: [Real; 2]) -> f64 {
    let mut sum = 0.0;
    for i in 0..2 {
        let d = a[i].0 * -1.0 + b[i].0;
        sum = sum + d * d;
    }
    sum
}

fn fixed_steps(state: [Real; 2], h: f64, count: usize) -> [Real; 2] {
    let mut integrator = Integrator::build(state, Real(h), oscillator);
    for _ in 0..count {
        integrator.step();
    }
    integrator.state()
}

#[test]
fn tolerance_literal_is_one_hundred_millionth() {
    assert_eq!(Real::floatify(1, -8), Real(TOLERANCE));
    assert_eq!(Real::floatify(5, -1), Real(0.5));
    assert_eq!(Real::floatify(-1, 0), Real(-1.0));
    assert_eq!(MAX_HALVINGS, 64);
}

#[test]
fn adaptive_step_strictly_advances_time() {
    let mut integrator = Integrator::build([Real(10.0), Real(-10.0)], Real(0.05), oscillator);
    let mut previous = integrator.curr_time();
    for _ in 0..200 {
        let state = integrator.dynamic_step().unwrap();
        assert_eq!(state, integrator.state());
        assert!(integrator.curr_time().0 > previous.0);
        previous = integrator.curr_time();
    }
}

#[test]
fn adaptive_step_agrees_with_fixed_steps_of_the_accepted_size() {
    let start = [Real(10.0), Real(-10.0)];
    let mut integrator = Integrator::build(start, Real(0.05), oscillator);
    let reached = integrator.dynamic_step().unwrap();
    // the clock started at zero, so it now shows the accepted step size
    let h = integrator.curr_time().0;
    assert!(h > 0.0);
    assert_eq!(reached, fixed_steps(start, h, 1));
    let finer = fixed_steps(start, h * 0.5, 2);
    assert!(squared_distance(reached, finer) <= TOLERANCE);
    assert_eq!(integrator.delta_time(), Real(h * 2.0));
}

#[test]
fn adaptive_step_halves_until_the_estimate_is_within_tolerance() {
    let start = [Real(10.0), Real(-10.0)];
    let mut integrator = Integrator::build(start, Real(10.0), oscillator);
    let reached = integrator.dynamic_step().unwrap();
    let h = integrator.curr_time().0;
    assert!(h < 10.0);
    // the accepted size is the initial one halved a whole number of times
    let halvings = (10.0 / h).log2();
    assert_eq!(halvings, halvings.round());
    assert!(halvings >= 1.0 && halvings <= 64.0);
    assert_eq!(h, 10.0 * 0.5_f64.powi(halvings as i32));
    // it is within tolerance, and the size tried just before it was not
    assert!(squared_distance(reached, fixed_steps(start, h * 0.5, 2)) <= TOLERANCE);
    let rejected = fixed_steps(start, h * 2.0, 1);
    assert!(squared_distance(rejected, fixed_steps(start, h, 2)) > TOLERANCE);
    assert_eq!(integrator.delta_time(), Real(h * 2.0));
}

#[test]
fn zero_step_size_collapses() {
    let mut integrator = Integrator::build([Real(1.0), Real(0.0)], Real(0.0), oscillator);
    assert_eq!(integrator.dynamic_step(), Err(StepError::StepCollapsed));
    assert_eq!(integrator.state(), [Real(1.0), Real(0.0)]);
    assert_eq!(integrator.curr_time(), Real(0.0));
    assert_eq!(integrator.delta_time(), Real(0.0));
}

#[test]
fn negative_step_size_collapses() {
    let mut integrator = Integrator::build([Real(1.0), Real(0.0)], Real(-0.1), oscillator);
    assert_eq!(integrator.dynamic_step(), Err(StepError::StepCollapsed));
    assert_eq!(integrator.curr_time(), Real(0.0));
    assert_eq!(integrator.delta_time(), Real(-0.1));
}

#[test]
fn step_too_small_for_the_clock_collapses() {
    let mut integrator = Integrator::build([Real(1.0), Real(0.0)], Real(1e300), undefined);
    integrator.step();
    assert_eq!(integrator.curr_time(), Real(1e300));
    // every size is rejected, and after some fifty halvings the size is
    // below the spacing of double-width numbers near 1e300
    assert_eq!(integrator.dynamic_step().map(|_| ()), Err(StepError::StepCollapsed));
    assert_eq!(integrator.curr_time(), Real(1e300));
    assert_eq!(integrator.delta_time(), Real(1e300));
}

#[test]
fn undefined_dynamics_exhaust_the_retries() {
    let calls = Cell::new(0_usize);
    let counted = |state: &[Real; 2]| {
        calls.set(calls.get() + 1);
        undefined(state)
    };
    let mut integrator = Integrator::build([Real(1.0), Real(0.0)], Real(1.0), counted);
    assert_eq!(integrator.dynamic_step(), Err(StepError::RetryLimit));
    // the first attempt and 64 halvings, each with one full and two half steps
    assert_eq!(calls.get(), (MAX_HALVINGS + 1) * 12);
    assert_eq!(integrator.state(), [Real(1.0), Real(0.0)]);
    assert_eq!(integrator.curr_time(), Real(0.0));
    assert_eq!(integrator.delta_time(), Real(1.0));
}

#[test]
fn accepted_adaptive_step_calls_the_dynamics_twelve_times() {
    let calls = Cell::new(0_usize);
    let counted = |state: &[Real; 2]| {
        calls.set(calls.get() + 1);
        oscillator(state)
    };
    let mut integrator = Integrator::build([Real(0.0), Real(0.0)], Real(0.05), counted);
    assert_eq!(integrator.dynamic_step(), Ok([Real(0.0), Real(0.0)]));
    assert_eq!(calls.get(), 12);
    assert_eq!(integrator.curr_time(), Real(0.05));
    assert_eq!(integrator.delta_time(), Real(0.1));
    calls.set(0);
    integrator.step();
    assert_eq!(calls.get(), 4);
}

#[test]
fn solve_dynamic_until_zero_on_fresh_integrator_is_empty() {
    let mut integrator = Integrator::build([Real(10.0), Real(-10.0)], Real(0.05), oscillator);
    assert_eq!(integrator.solve_dynamic_until(Real(0.0)), Ok(vec![]));
    assert_eq!(integrator.solve_dynamic_with_time(Real(0.0)), Ok(vec![]));
    assert_eq!(integrator.curr_time(), Real(0.0));
    assert_eq!(integrator.delta_time(), Real(0.05));
}

#[test]
fn solve_dynamic_until_collects_every_accepted_step() {
    let start = [Real(10.0), Real(-10.0)];
    let mut stepper = Integrator::build(start, Real(0.05), oscillator);
    let mut solver = Integrator::build(start, Real(0.05), oscillator);
    let states = solver.solve_dynamic_until(Real(2.0)).unwrap();
    assert!(!states.is_empty());
    for state in &states {
        assert!(stepper.curr_time().0 < 2.0);
        assert_eq!(*state, stepper.dynamic_step().unwrap());
    }
    assert!(stepper.curr_time().0 >= 2.0);
    assert_eq!(solver.curr_time(), stepper.curr_time());
    assert_eq!(solver.delta_time(), stepper.delta_time());
    assert_eq!(solver.state(), *states.last().unwrap());
}

#[test]
fn solve_dynamic_with_time_is_strictly_chronological() {
    let start = [Real(10.0), Real(-10.0)];
    let mut stepper = Integrator::build(start, Real(0.05), oscillator);
    let mut solver = Integrator::build(start, Real(0.05), oscillator);
    let output = solver.solve_dynamic_with_time(Real(2.0)).unwrap();
    assert!(output.len() > 1);
    assert_eq!(output[0].0, Real(0.0));
    for pair in output.windows(2) {
        assert!(pair[0].0 .0 < pair[1].0 .0);
    }
    for (began, state) in &output {
        assert_eq!(*began, stepper.curr_time());
        assert_eq!(*state, stepper.dynamic_step().unwrap());
    }
    assert!(output.last().unwrap().0 .0 < 2.0);
    assert!(solver.curr_time().0 >= 2.0);
}

#[test]
fn solve_dynamic_until_reports_a_failed_step() {
    let mut integrator = Integrator::build([Real(1.0), Real(0.0)], Real(1.0), undefined);
    assert_eq!(integrator.solve_dynamic_until(Real(5.0)), Err(StepError::RetryLimit));
    assert_eq!(integrator.curr_time(), Real(0.0));
    let mut stalled = Integrator::build([Real(1.0), Real(0.0)], Real(0.0), oscillator);
    assert_eq!(stalled.solve_dynamic_with_time(Real(5.0)), Err(StepError::StepCollapsed));
    assert_eq!(stalled.state(), [Real(1.0), Real(0.0)]);
}

#[test]
fn stiff_system_is_met_by_many_halvings_or_given_up() {
    fn stiff(state: &[Real; 2]) -> [Real; 2] {
        [Real(-1e9 * state[0].0), Real(0.0)]
    }
    fn stiffer(state: &[Real; 2]) -> [Real; 2] {
        [Real(-1e30 * state[0].0), Real(0.0)]
    }
    let mut integrator = Integrator::build([Real(1.0), Real(0.0)], Real(1.0), stiff);
    let reached = integrator.dynamic_step().unwrap();
    let h = integrator.curr_time().0;
    assert!(h < 1e-8 && h >= 0.5_f64.powi(64));
    assert!(reached[0].0 > 0.0 && reached[0].0 < 1.0);

    let mut hopeless = Integrator::build([Real(1.0), Real(0.0)], Real(1.0), stiffer);
    assert_eq!(hopeless.dynamic_step(), Err(StepError::RetryLimit));
    assert_eq!(hopeless.state(), [Real(1.0), Real(0.0)]);
    assert_eq!(hopeless.delta_time(), Real(1.0));
}
