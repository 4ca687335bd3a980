//! Numerical integration of ordinary differential equations by the classical
//! Runge-Kutta method of order four, with fixed and adaptive step sizes, over
//! states of any dimension and scalars of any precision, together with the
//! pieces that draw trajectories as braille text.

pub mod buffer;
pub mod integration_shared;
pub mod plot;
pub mod plot_utils;
pub mod runge_kutta;
pub mod scalar;
pub mod text;
pub mod vec3;
pub mod vector;

use scalar::Floating;
use scalar::FloatingSpec;
use std::ops::Add;
use std::ops::Mul;
use vstd::prelude::*;

verus! {

/// A state that knows its own instantaneous rate of change.
pub trait DynamicalSystem: Sized {
    /// The rate of change of this state, as a state of the same shape.
    fn derivative(&self) -> Self;
}

/// The derivative of a state depends on the state alone.
pub open spec fn is_deterministic<S: DynamicalSystem>() -> bool {
    forall|s: &S, r1: S, r2: S|
        call_ensures(S::derivative, (s,), r1) && call_ensures(S::derivative, (s,), r2) ==> r1
            == r2
}

/// The rate of change of the state `s`.
pub open spec fn derivative_of<S: DynamicalSystem>(s: S) -> S {
    choose|r: S| call_ensures(S::derivative, (&s,), r)
}

/// One full integration step in place.
trait IntegrationStep<S> {
    /// Moves the state by one step and returns it.
    fn rk4(&mut self) -> S;
}

/// What an [`Integrator`] holds: state, step size and elapsed time.
pub struct Moment<S, T> {
    pub state: S,
    pub delta_time: T,
    pub curr_time: T,
}

/// The sum of two states.
pub open spec fn sum_of<S: Add<S, Output = S>>(a: S, b: S) -> S {
    vstd::std_specs::ops::AddSpec::add_spec(a, b)
}

/// The state `a` scaled by `k`.
pub open spec fn scaled_by<S: Mul<T, Output = S>, T>(a: S, k: T) -> S {
    vstd::std_specs::ops::MulSpec::mul_spec(a, k)
}

/// Sums and scalings of states are defined for all operands and are
/// functions of their operands.
pub open spec fn has_state_algebra<S: Mul<T, Output = S> + Add<S, Output = S>, T>() -> bool {
    &&& <S as vstd::std_specs::ops::AddSpec<S>>::obeys_add_spec()
    &&& <S as vstd::std_specs::ops::MulSpec<T>>::obeys_mul_spec()
    &&& forall|a: S, b: S| #[trigger] vstd::std_specs::ops::AddSpec::add_req(a, b)
    &&& forall|a: S, k: T| #[trigger] vstd::std_specs::ops::MulSpec::mul_req(a, k)
}

/// The most steps one call of a solver takes: as many as a vector can hold
/// results.
pub open spec fn step_limit() -> nat {
    usize::MAX as nat
}

/// The state one classical Runge-Kutta step of size `h` leads to from `s`.
pub open spec fn rk4_step<
    S: DynamicalSystem + Mul<T, Output = S> + Add<S, Output = S>,
    T: Floating,
>(s: S, h: T) -> S {
    let half = h.div_spec(T::literal_spec(2, 0));
    let k1 = derivative_of(s);
    let k2 = derivative_of(sum_of(s, scaled_by(k1, half)));
    let k3 = derivative_of(sum_of(s, scaled_by(k2, half)));
    let k4 = derivative_of(sum_of(s, scaled_by(k3, h)));
    sum_of(
        sum_of(s, scaled_by(sum_of(k1, k4), h.div_spec(T::literal_spec(6, 0)))),
        scaled_by(sum_of(k2, k3), h.div_spec(T::literal_spec(3, 0))),
    )
}

/// The integrator after one step: the state moves by one Runge-Kutta step,
/// the clock by the step size, and the step size stays.
pub open spec fn advance<
    S: DynamicalSystem + Mul<T, Output = S> + Add<S, Output = S>,
    T: Floating,
>(m: Moment<S, T>) -> Moment<S, T> {
    Moment {
        state: rk4_step(m.state, m.delta_time),
        delta_time: m.delta_time,
        curr_time: m.curr_time.add_spec(m.delta_time),
    }
}

/// The moments that steps pass through, one per step, while the clock is
/// below `final_time` and fewer than `budget` steps were taken.
pub open spec fn run<S: DynamicalSystem + Mul<T, Output = S> + Add<S, Output = S>, T: Floating>(
    m: Moment<S, T>,
    final_time: T,
    budget: nat,
) -> Seq<Moment<S, T>>
    decreases budget,
{
    if budget == 0 || !m.curr_time.lt_spec(final_time) {
        Seq::empty()
    } else {
        seq![advance(m)] + run(advance(m), final_time, (budget - 1) as nat)
    }
}

/// Where an integrator stands after passing through `path` from `start`.
pub open spec fn end_of<S, T>(start: Moment<S, T>, path: Seq<Moment<S, T>>) -> Moment<S, T> {
    if path.len() == 0 {
        start
    } else {
        path.last()
    }
}

/// The time at which step `i` of `path` began, when the path began at `start`.
pub open spec fn start_time<S, T>(start: Moment<S, T>, path: Seq<Moment<S, T>>, i: int) -> T {
    if i == 0 {
        start.curr_time
    } else {
        path[i - 1].curr_time
    }
}

/// A fixed-step explicit Runge-Kutta integrator of order four over any state
/// type that can be added, scaled and differentiated.
#[verifier::reject_recursive_types(S)]
#[verifier::reject_recursive_types(T)]
pub struct Integrator<S, T> where
    S: DynamicalSystem + Mul<T, Output = S> + Add<S, Output = S> + Copy,
    T: Floating,
 {
    state: S,
    delta_time: T,
    curr_time: T,
}

impl<S, T> Integrator<S, T> where
    S: DynamicalSystem + Mul<T, Output = S> + Add<S, Output = S> + Copy,
    T: Floating,
 {
    #[verifier::type_invariant]
    spec fn well_formed(&self) -> bool {
        T::is_arithmetic() && has_state_algebra::<S, T>() && is_deterministic::<S>()
    }

    /// State, step size and elapsed time.
    pub closed spec fn view(&self) -> Moment<S, T> {
        Moment { state: self.state, delta_time: self.delta_time, curr_time: self.curr_time }
    }

    /// An integrator at time zero in the state `integrand`, with `dt` as its
    /// step size.
    pub fn build(integrand: S, dt: T) -> (r: Self)
        requires
            T::is_arithmetic(),
            has_state_algebra::<S, T>(),
            is_deterministic::<S>(),
        ensures
            r@.state == integrand,
            r@.delta_time == dt,
            r@.curr_time == T::literal_spec(0, 0),
    {
        Integrator { state: integrand, delta_time: dt, curr_time: T::floatify(0, 0) }
    }

    /// The current state.
    pub fn state(&self) -> (r: S)
        ensures
            r == self@.state,
    {
        self.state
    }

    /// The step size.
    pub fn delta_time(&self) -> (r: T)
        ensures
            r == self@.delta_time,
    {
        self.delta_time
    }

    /// The time elapsed since the integrator was built.
    pub fn curr_time(&self) -> (r: T)
        ensures
            r == self@.curr_time,
    {
        self.curr_time
    }

    /// Advances the clock by the step size and the state by one Runge-Kutta
    /// step of that size, and returns the new state.
    pub fn step(&mut self) -> (r: S)
        ensures
            final(self)@ == advance(old(self)@),
            r == final(self)@.state,
    {
        proof {
            use_type_invariant(&*self);
        }
        self.curr_time = self.curr_time.plus(self.delta_time);
        self.rk4()
    }

    /// Takes steps until the clock is no longer below `final_time`, and
    /// returns the state after each step, in the order the steps were taken.
    ///
    /// Nothing is done when the clock has already reached `final_time`. The
    /// run also ends when the result cannot hold another state.
    pub fn solve_until(&mut self, final_time: T) -> (states: Vec<S>)
        ensures
            ({
                let path = run(old(self)@, final_time, step_limit());
                &&& final(self)@ == end_of(old(self)@, path)
                &&& states@.len() == path.len()
                &&& forall|i: int| 0 <= i < path.len() ==> #[trigger] states@[i] == path[i].state
            }),
            !old(self)@.curr_time.lt_spec(final_time) ==> states@.len() == 0,
    {
        proof {
            use_type_invariant(&*self);
        }
        let mut states: Vec<S> = Vec::new();
        let ghost start = self@;
        let ghost mut path: Seq<Moment<S, T>> = Seq::empty();
        while self.curr_time.less_than(final_time) && states.len() < usize::MAX
            invariant
                T::is_arithmetic(),
                start == old(self)@,
                self@ == end_of(start, path),
                states@.len() == path.len(),
                forall|i: int| 0 <= i < path.len() ==> #[trigger] states@[i] == path[i].state,
                run(start, final_time, step_limit()) == path + run(
                    self@,
                    final_time,
                    (usize::MAX - path.len()) as nat,
                ),
            decreases usize::MAX - states.len(),
        {
            let ghost rest = run(advance(self@), final_time, (usize::MAX - path.len() - 1) as nat);
            let reached = self.step();
            states.push(reached);
            proof {
                assert(path + (seq![self@] + rest) =~= path.push(self@) + rest);
                path = path.push(self@);
            }
        }
        proof {
            assert(path + Seq::<Moment<S, T>>::empty() =~= path);
        }
        states
    }

    /// Like [`Integrator::solve_until`], with each state paired with the time
    /// at which the step that produced it began.
    pub fn solve_with_time(&mut self, final_time: T) -> (output: Vec<(T, S)>)
        ensures
            ({
                let path = run(old(self)@, final_time, step_limit());
                &&& final(self)@ == end_of(old(self)@, path)
                &&& output@.len() == path.len()
                &&& forall|i: int|
                    0 <= i < path.len() ==> {
                        &&& (#[trigger] output@[i]).0 == start_time(old(self)@, path, i)
                        &&& output@[i].1 == path[i].state
                    }
            }),
            !old(self)@.curr_time.lt_spec(final_time) ==> output@.len() == 0,
    {
        proof {
            use_type_invariant(&*self);
        }
        let mut output: Vec<(T, S)> = Vec::new();
        let ghost start = self@;
        let ghost mut path: Seq<Moment<S, T>> = Seq::empty();
        while self.curr_time.less_than(final_time) && output.len() < usize::MAX
            invariant
                T::is_arithmetic(),
                start == old(self)@,
                self@ == end_of(start, path),
                output@.len() == path.len(),
                forall|i: int|
                    0 <= i < path.len() ==> {
                        &&& (#[trigger] output@[i]).0 == start_time(start, path, i)
                        &&& output@[i].1 == path[i].state
                    },
                run(start, final_time, step_limit()) == path + run(
                    self@,
                    final_time,
                    (usize::MAX - path.len()) as nat,
                ),
            decreases usize::MAX - output.len(),
        {
            let ghost rest = run(advance(self@), final_time, (usize::MAX - path.len() - 1) as nat);
            let began = self.curr_time;
            let reached = self.step();
            output.push((began, reached));
            proof {
                assert(path + (seq![self@] + rest) =~= path.push(self@) + rest);
                path = path.push(self@);
            }
        }
        proof {
            assert(path + Seq::<Moment<S, T>>::empty() =~= path);
        }
        output
    }
}

impl<S, T> IntegrationStep<S> for Integrator<S, T> where
    S: DynamicalSystem + Mul<T, Output = S> + Add<S, Output = S> + Copy,
    T: Floating,
 {
    /// Moves the state by one Runge-Kutta step of the current size and
    /// returns it; the clock is left alone.
    fn rk4(&mut self) -> (r: S)
        ensures
            final(self)@.state == rk4_step(old(self)@.state, old(self)@.delta_time),
            final(self)@.delta_time == old(self)@.delta_time,
            final(self)@.curr_time == old(self)@.curr_time,
            r == final(self)@.state,
    {
        proof {
            use_type_invariant(&*self);
        }
        let half = self.delta_time.over(T::floatify(2, 0));
        let k1 = self.state.derivative();
        let k2 = (self.state + k1 * half).derivative();
        let k3 = (self.state + k2 * half).derivative();
        let k4 = (self.state + k3 * self.delta_time).derivative();

        self.state = self.state + (k1 + k4) * self.delta_time.over(T::floatify(6, 0)) + (k2
            + k3) * self.delta_time.over(T::floatify(3, 0));

        self.state
    }
}

} // verus!
