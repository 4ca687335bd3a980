use odesolvers::runge_kutta::Integrator;
use odesolvers::scalar::Floating;

#[derive(Clone, Copy, Debug, PartialEq, PartialOrd)]
struct Real(f64);

impl Floating for Real {
    fn floatify(mantissa: i64, exponent: i32) -> Self {
        Real(format!("{}e{}", mantissa, exponent).parse::<f64>().unwrap())
    }

    fn plus(self, rhs: Self) -> Self {
        Real(self.0 + rhs.0)
    }

    fn minus(self, rhs: Self) -> Self {
        Real(self.0 - rhs.0)
    }

    fn times(self, rhs: Self) -> Self {
        Real(self.0 * rhs.0)
    }

    fn over(self, rhs: Self) -> Self {
        Real(self.0 / rhs.0)
    }

    fn less_than(self, rhs: Self) -> bool {
        self.0 < rhs.0
    }

    fn at_most(self, rhs: Self) -> bool {
        self.0 <= rhs.0
    }
}

const C: f64 = 0.55;
const K: f64 = 3.0;
const M: f64 = 1.0;

fn damped(state: &[Real; 2]) -> [Real; 2] {
    let [x, v] = *state;
    [v, Real(-K / M * x.0 + -C / M * v.0)]
}

fn undamped(state: &[Real; 2]) -> [Real; 2] {
    let [x, v] = *state;
    [v, Real(-K / M * x.0)]
}

fn lorenz(state: &[Real; 3]) -> [Real; 3] {
    let [x, y, z] = *state;
    [
        Real(10.0 * (y.0 - x.0)),
        Real(x.0 * (28.0 - z.0) - y.0),
        Real(x.0 * y.0 - 8.0 / 3.0 * z.0),
    ]
}

fn damped_plain(x: f64, v: f64) -> (f64, f64) {
    (v, -K / M * x + -C / M * v)
}

/// Closed-form solution of the damped oscillator at time `t`.
fn damped_exact(x0: f64, v0: f64, t: f64) -> (f64, f64) {
    let g = C / (2.0 * M);
    let w0 = (K / M).sqrt();
    let wd = (w0 * w0 - g * g).sqrt();
    let a = x0;
    let b = (v0 + g * x0) / wd;
    let decay = (-g * t).exp();
    let x = decay * (a * (wd * t).cos() + b * (wd * t).sin());
    let v = decay * ((-g * a + b * wd) * (wd * t).cos() + (-g * b - a * wd) * (wd * t).sin());
    (x, v)
}

#[test]
fn fresh_integrator_reports_what_it_was_built_from() {
    let integrator = Integrator::build([Real(10.0), Real(-3.0)], Real(0.1), damped);
    assert_eq!(integrator.state(), [Real(10.0), Real(-3.0)]);
    assert_eq!(integrator.delta_time(), Real(0.1));
    assert_eq!(integrator.curr_time(), Real(0.0));
}

#[test]
fn solve_until_zero_on_fresh_integrator_is_empty() {
    let mut integrator = Integrator::build([Real(10.0), Real(-3.0)], Real(0.1), damped);
    let states = integrator.solve_until(Real(0.0));
    assert!(states.is_empty());
    assert_eq!(integrator.curr_time(), Real(0.0));
    assert_eq!(integrator.state(), [Real(10.0), Real(-3.0)]);
}

#[test]
fn solve_with_time_zero_on_fresh_integrator_is_empty() {
    let mut integrator = Integrator::build([Real(10.0), Real(-3.0)], Real(0.1), damped);
    assert!(integrator.solve_with_time(Real(0.0)).is_empty());
    assert!(integrator.solve_with_time(Real(-1.0)).is_empty());
    assert_eq!(integrator.curr_time(), Real(0.0));
}

#[test]
fn one_step_of_damped_oscillator_matches_hand_computation() {
    let mut integrator = Integrator::build([Real(10.0), Real(-3.0)], Real(0.1), damped);
    let after = integrator.step();

    let (x, v, h) = (10.0_f64, -3.0_f64, 0.1_f64);
    let (k1x, k1v) = damped_plain(x, v);
    let (k2x, k2v) = damped_plain(x + k1x * (h / 2.0), v + k1v * (h / 2.0));
    let (k3x, k3v) = damped_plain(x + k2x * (h / 2.0), v + k2v * (h / 2.0));
    let (k4x, k4v) = damped_plain(x + k3x * h, v + k3v * h);
    let by_hand_x = x + (k1x + k4x) * (h / 6.0) + (k2x + k3x) * (h / 3.0);
    let by_hand_v = v + (k1v + k4v) * (h / 6.0) + (k2v + k3v) * (h / 3.0);

    assert_eq!(after, [Real(by_hand_x), Real(by_hand_v)]);
    assert!((after[0].0 - 9.562646767187498).abs() < 1e-12);
    assert!((after[1].0 - -5.700588128203125).abs() < 1e-12);
    assert_eq!(integrator.state(), after);
    assert_eq!(integrator.curr_time(), Real(0.1));
    assert_eq!(integrator.delta_time(), Real(0.1));
}

#[test]
fn one_step_matches_closed_form_to_fifth_order() {
    let mut previous = f64::INFINITY;
    for h in [0.1, 0.05, 0.025, 0.0125] {
        let mut integrator = Integrator::build([Real(10.0), Real(-3.0)], Real(h), damped);
        let after = integrator.step();
        let (x, v) = damped_exact(10.0, -3.0, h);
        let error = (after[0].0 - x).abs().max((after[1].0 - v).abs());
        assert!(error <= 2.0 * h.powi(5), "h = {}, error = {}", h, error);
        assert!(error < previous / 16.0 || previous == f64::INFINITY);
        previous = error;
    }
}

#[test]
fn undamped_oscillator_conserves_energy() {
    let mut integrator = Integrator::build([Real(10.0), Real(-3.0)], Real(0.01), undamped);
    let energy = |s: [Real; 2]| 0.5 * M * s[1].0 * s[1].0 + 0.5 * K * s[0].0 * s[0].0;
    let initial = energy(integrator.state());
    let mut worst: f64 = 0.0;
    for _ in 0..1000 {
        let state = integrator.step();
        worst = worst.max((energy(state) - initial).abs() / initial);
    }
    assert!(worst < 1e-3);
    assert!(worst < 1e-8);
}

#[test]
fn lorenz_system_stays_bounded() {
    let mut integrator =
        Integrator::build([Real(0.01), Real(0.0), Real(-0.01)], Real(0.01), lorenz);
    for _ in 0..1000 {
        let state = integrator.step();
        for component in state {
            assert!(component.0.is_finite());
            assert!(component.0.abs() < 50.0);
        }
    }
}

#[test]
fn solve_until_takes_one_entry_per_step_until_the_time_is_reached() {
    let mut stepper = Integrator::build([Real(10.0), Real(-3.0)], Real(0.1), damped);
    let mut solver = Integrator::build([Real(10.0), Real(-3.0)], Real(0.1), damped);
    let states = solver.solve_until(Real(1.0));
    // ten additions of 0.1 fall just short of 1.0, so an eleventh step is taken
    assert_eq!(states.len(), 11);
    for state in &states {
        assert_eq!(*state, stepper.step());
    }
    assert_eq!(solver.curr_time(), stepper.curr_time());
    assert_eq!(solver.curr_time(), Real(1.0999999999999999));
    assert_eq!(solver.state(), states[10]);
    assert!(solver.solve_until(Real(1.0)).is_empty());
}

#[test]
fn solve_with_time_tags_each_state_with_the_time_its_step_began() {
    let mut stepper = Integrator::build([Real(10.0), Real(-3.0)], Real(0.25), damped);
    let mut solver = Integrator::build([Real(10.0), Real(-3.0)], Real(0.25), damped);
    let output = solver.solve_with_time(Real(1.0));
    assert_eq!(output.len(), 4);
    let tags: Vec<f64> = output.iter().map(|entry| entry.0 .0).collect();
    assert_eq!(tags, vec![0.0, 0.25, 0.5, 0.75]);
    for (_, state) in &output {
        assert_eq!(*state, stepper.step());
    }
    assert_eq!(solver.curr_time(), Real(1.0));
}

#[test]
fn single_width_precision_is_supported() {
    #[derive(Clone, Copy, Debug, PartialEq)]
    struct Single(f32);
    impl Floating for Single {
        fn floatify(mantissa: i64, exponent: i32) -> Self {
            Single(format!("{}e{}", mantissa, exponent).parse::<f32>().unwrap())
        }
        fn plus(self, rhs: Self) -> Self {
            Single(self.0 + rhs.0)
        }
        fn minus(self, rhs: Self) -> Self {
            Single(self.0 - rhs.0)
        }
        fn times(self, rhs: Self) -> Self {
            Single(self.0 * rhs.0)
        }
        fn over(self, rhs: Self) -> Self {
            Single(self.0 / rhs.0)
        }
        fn less_than(self, rhs: Self) -> bool {
            self.0 < rhs.0
        }
        fn at_most(self, rhs: Self) -> bool {
            self.0 <= rhs.0
        }
    }
    fn decay(state: &[Single; 1]) -> [Single; 1] {
        [Single(-state[0].0)]
    }
    let mut integrator = Integrator::build([Single(1.0)], Single(0.5), decay);
    let after = integrator.step();
    // 1 - h + h^2/2 - h^3/6 + h^4/24 at h = 0.5
    assert!((after[0].0 - 0.606_770_8).abs() < 1e-6);
    assert_eq!(integrator.curr_time(), Single(0.5));
}

#[test]
fn diverged_state_is_reported_as_not_finite() {
    fn explode(state: &[Real; 2]) -> [Real; 2] {
        [Real(state[0].0 * 1e300), Real(0.0)]
    }
    let mut integrator = Integrator::build([Real(1e10), Real(1.0)], Real(1e10), explode);
    assert!(integrator.is_finite());
    integrator.step();
    assert!(!integrator.is_finite());
    // nothing stops further steps; the state stays meaningless
    let after = integrator.step();
    assert!(after[0].0.is_nan() || after[0].0.is_infinite());
    assert!(!integrator.is_finite());

    let nan = Integrator::build([Real(0.0), Real(f64::NAN)], Real(0.1), damped);
    assert!(!nan.is_finite());
    let infinite = Integrator::build([Real(f64::NEG_INFINITY), Real(0.0)], Real(0.1), damped);
    assert!(!infinite.is_finite());
    let largest = Integrator::build([Real(f64::MAX), Real(f64::MIN_POSITIVE)], Real(0.1), damped);
    assert!(largest.is_finite());
}
