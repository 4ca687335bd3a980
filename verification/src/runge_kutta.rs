use crate::integration_shared::eval;
use crate::integration_shared::is_pure_function;
use crate::integration_shared::lemma_eval_of_call;
use crate::integration_shared::vec_norm;
use crate::integration_shared::vec_scaled;
use crate::integration_shared::vec_sum;
use crate::integration_shared::IntegrationStep;
use crate::integration_shared::Norm;
use crate::integration_shared::State;
use crate::scalar::Floating;
use crate::scalar::FloatingSpec;
use vstd::prelude::*;

verus! {

/// How often one adaptive step may halve its step size before it gives up.
pub const MAX_HALVINGS: usize = 64;

/// Why an adaptive step was not taken.
#[derive(Clone, Copy, Debug, PartialEq, Eq)]
pub enum StepError {
    /// The step size has become so small that adding it to the elapsed time
    /// no longer moves the clock forward.
    StepCollapsed,
    /// The local error was still above the tolerance after the last allowed
    /// halving of the step size.
    RetryLimit,
}

/// What an integrator holds besides its derivative function.
pub struct Snapshot<Float> {
    pub state: Seq<Float>,
    pub dt: Float,
    pub time: Float,
}

/// The largest local error estimate under which an adaptive step is accepted.
pub open spec fn tolerance<Float: Floating>() -> Float {
    Float::literal_spec(1, -8)
}

/// The most steps one call of a solver takes: as many as a vector can hold
/// results.
pub open spec fn step_limit() -> nat {
    usize::MAX as nat
}

/// Whether `x` is a finite number: only then is the difference of `x` and
/// itself a number that compares with itself.
pub open spec fn finite<Float: Floating>(x: Float) -> bool {
    x.sub_spec(x).le_spec(x.sub_spec(x))
}

/// Whether every element of `s` is a finite number.
pub open spec fn all_finite<Float: Floating>(s: Seq<Float>) -> bool {
    forall|i: int| 0 <= i < s.len() ==> finite(#[trigger] s[i])
}

/// The state one classical Runge-Kutta step of size `h` leads to from `s`.
pub open spec fn rk4<Float: Floating, F: Fn(&[Float; N]) -> [Float; N], const N: usize>(
    f: F,
    s: Seq<Float>,
    h: Float,
) -> Seq<Float> {
    let half = h.div_spec(Float::literal_spec(2, 0));
    let k1 = eval(f, s);
    let k2 = eval(f, vec_sum(s, vec_scaled(k1, half)));
    let k3 = eval(f, vec_sum(s, vec_scaled(k2, half)));
    let k4 = eval(f, vec_sum(s, vec_scaled(k3, h)));
    let ends = vec_scaled(vec_sum(k1, k4), h.div_spec(Float::literal_spec(6, 0)));
    let middle = vec_scaled(vec_sum(k2, k3), h.div_spec(Float::literal_spec(3, 0)));
    vec_sum(vec_sum(s, ends), middle)
}

/// The integrator after one fixed step: the state moves by one Runge-Kutta
/// step, the clock by the step size, and the step size stays.
pub open spec fn fixed_advance<Float: Floating, F: Fn(&[Float; N]) -> [Float; N], const N: usize>(
    f: F,
    v: Snapshot<Float>,
) -> Snapshot<Float> {
    Snapshot { state: rk4(f, v.state, v.dt), dt: v.dt, time: v.time.add_spec(v.dt) }
}

/// The snapshots that fixed steps pass through, one per step, while the clock
/// is below `final_time` and fewer than `budget` steps were taken.
pub open spec fn fixed_run<Float: Floating, F: Fn(&[Float; N]) -> [Float; N], const N: usize>(
    f: F,
    v: Snapshot<Float>,
    final_time: Float,
    budget: nat,
) -> Seq<Snapshot<Float>>
    decreases budget,
{
    if budget == 0 || !v.time.lt_spec(final_time) {
        Seq::empty()
    } else {
        let w = fixed_advance(f, v);
        seq![w] + fixed_run(f, w, final_time, (budget - 1) as nat)
    }
}

/// Step-doubling estimate of the local error of a step of size `h` from `s`:
/// the magnitude of the difference between one full step and two successive
/// half steps.
pub open spec fn error_estimate<Float: Floating, F: Fn(&[Float; N]) -> [Float; N], const N: usize>(
    f: F,
    s: Seq<Float>,
    h: Float,
) -> Float {
    let half = h.mul_spec(Float::literal_spec(5, -1));
    let fine = rk4(f, rk4(f, s, half), half);
    let coarse = rk4(f, s, h);
    vec_norm(vec_sum(vec_scaled(coarse, Float::literal_spec(-1, 0)), fine))
}

/// The step size an adaptive step settles on when it starts with `h` at
/// state `s` and time `t` and may halve `retries` more times.
///
/// A size is taken as soon as it moves the clock forward and its error
/// estimate is within the tolerance.
pub open spec fn settle<Float: Floating, F: Fn(&[Float; N]) -> [Float; N], const N: usize>(
    f: F,
    s: Seq<Float>,
    t: Float,
    h: Float,
    retries: nat,
) -> Result<Float, StepError>
    decreases retries,
{
    if !t.lt_spec(t.add_spec(h)) {
        Err(StepError::StepCollapsed)
    } else if error_estimate(f, s, h).le_spec(tolerance()) {
        Ok(h)
    } else if retries == 0 {
        Err(StepError::RetryLimit)
    } else {
        settle(f, s, t, h.mul_spec(Float::literal_spec(5, -1)), (retries - 1) as nat)
    }
}

/// The integrator after one adaptive step: it moves by one Runge-Kutta step
/// of the settled size and doubles that size for the next step.
pub open spec fn adaptive_advance<
    Float: Floating,
    F: Fn(&[Float; N]) -> [Float; N],
    const N: usize,
>(f: F, v: Snapshot<Float>) -> Result<Snapshot<Float>, StepError> {
    match settle(f, v.state, v.time, v.dt, MAX_HALVINGS as nat) {
        Ok(h) => Ok(
            Snapshot {
                state: rk4(f, v.state, h),
                dt: h.mul_spec(Float::literal_spec(2, 0)),
                time: v.time.add_spec(h),
            },
        ),
        Err(e) => Err(e),
    }
}

/// The snapshots that adaptive steps pass through, one per accepted step,
/// while the clock is below `final_time` and fewer than `budget` steps were
/// taken, together with the error that ended the run early, if one did.
pub open spec fn adaptive_run<Float: Floating, F: Fn(&[Float; N]) -> [Float; N], const N: usize>(
    f: F,
    v: Snapshot<Float>,
    final_time: Float,
    budget: nat,
) -> (Seq<Snapshot<Float>>, Option<StepError>)
    decreases budget,
{
    if budget == 0 || !v.time.lt_spec(final_time) {
        (Seq::empty(), None)
    } else {
        match adaptive_advance(f, v) {
            Err(e) => (Seq::empty(), Some(e)),
            Ok(w) => {
                let rest = adaptive_run(f, w, final_time, (budget - 1) as nat);
                (seq![w] + rest.0, rest.1)
            },
        }
    }
}

/// A step size that [`settle`] accepts moves the clock forward and keeps the
/// error estimate within the tolerance.
pub proof fn lemma_settled_size_is_acceptable<
    Float: Floating,
    F: Fn(&[Float; N]) -> [Float; N],
    const N: usize,
>(f: F, s: Seq<Float>, t: Float, h: Float, retries: nat)
    ensures
        settle(f, s, t, h, retries) matches Ok(a) ==> {
            &&& t.lt_spec(t.add_spec(a))
            &&& error_estimate(f, s, a).le_spec(tolerance())
        },
    decreases retries,
{
    if t.lt_spec(t.add_spec(h)) && !error_estimate(f, s, h).le_spec(tolerance()) && retries > 0 {
        lemma_settled_size_is_acceptable(
            f,
            s,
            t,
            h.mul_spec(Float::literal_spec(5, -1)),
            (retries - 1) as nat,
        );
    }
}

/// Elapsed time strictly increases with every accepted adaptive step: the
/// clock after the step is above the clock before it.
pub proof fn lemma_adaptive_step_advances_time<
    Float: Floating,
    F: Fn(&[Float; N]) -> [Float; N],
    const N: usize,
>(f: F, v: Snapshot<Float>)
    ensures
        adaptive_advance(f, v) matches Ok(w) ==> v.time.lt_spec(w.time),
{
    lemma_settled_size_is_acceptable(f, v.state, v.time, v.dt, MAX_HALVINGS as nat);
}

/// Along an adaptive run every snapshot is later than the one before it, and
/// the first is later than the start.
pub proof fn lemma_adaptive_run_is_chronological<
    Float: Floating,
    F: Fn(&[Float; N]) -> [Float; N],
    const N: usize,
>(f: F, v: Snapshot<Float>, final_time: Float, budget: nat)
    ensures
        forall|i: int|
            0 <= i < adaptive_run(f, v, final_time, budget).0.len() ==> start_time(
                v,
                adaptive_run(f, v, final_time, budget).0,
                i,
            ).lt_spec((#[trigger] adaptive_run(f, v, final_time, budget).0[i]).time),
    decreases budget,
{
    let path = adaptive_run(f, v, final_time, budget).0;
    if budget > 0 && v.time.lt_spec(final_time) {
        lemma_adaptive_step_advances_time(f, v);
        if let Ok(w) = adaptive_advance(f, v) {
            let rest = adaptive_run(f, w, final_time, (budget - 1) as nat).0;
            lemma_adaptive_run_is_chronological(f, w, final_time, (budget - 1) as nat);
            assert(path =~= seq![w] + rest);
            assert forall|i: int| 0 <= i < path.len() implies start_time(v, path, i).lt_spec(
                (#[trigger] path[i]).time,
            ) by {
                if i > 0 {
                    assert(path[i] == rest[i - 1]);
                    assert(start_time(v, path, i) == start_time(w, rest, i - 1));
                }
            }
        }
    }
}

/// Step-doubling consistency: the state that an accepted adaptive step
/// reaches is the state that one fixed step of the accepted size reaches,
/// and its distance from the state that two fixed steps of half that size
/// reach is within the tolerance.
pub proof fn lemma_step_doubling_consistency<
    Float: Floating,
    F: Fn(&[Float; N]) -> [Float; N],
    const N: usize,
>(f: F, v: Snapshot<Float>)
    ensures
        settle(f, v.state, v.time, v.dt, MAX_HALVINGS as nat) matches Ok(h) ==> {
            let taken = adaptive_advance(f, v)->Ok_0;
            let whole = fixed_advance(f, Snapshot { state: v.state, dt: h, time: v.time });
            let half = h.mul_spec(Float::literal_spec(5, -1));
            let halves = fixed_advance(
                f,
                fixed_advance(f, Snapshot { state: v.state, dt: half, time: v.time }),
            );
            &&& adaptive_advance(f, v) is Ok
            &&& taken.state == whole.state
            &&& taken.time == whole.time
            &&& vec_norm(
                vec_sum(vec_scaled(taken.state, Float::literal_spec(-1, 0)), halves.state),
            ).le_spec(tolerance())
        },
{
    lemma_settled_size_is_acceptable(f, v.state, v.time, v.dt, MAX_HALVINGS as nat);
}

/// Where an integrator stands after passing through `path` from `start`.
pub open spec fn end_of<Float>(start: Snapshot<Float>, path: Seq<Snapshot<Float>>) -> Snapshot<
    Float,
> {
    if path.len() == 0 {
        start
    } else {
        path.last()
    }
}

/// The time at which step `i` of `path` began, when the path began at `start`.
pub open spec fn start_time<Float>(
    start: Snapshot<Float>,
    path: Seq<Snapshot<Float>>,
    i: int,
) -> Float {
    if i == 0 {
        start.time
    } else {
        path[i - 1].time
    }
}

/// An explicit Runge-Kutta integrator of order four over a state of `N`
/// scalars, with a fixed-step and an adaptive-step mode.
#[verifier::reject_recursive_types(Float)]
#[verifier::reject_recursive_types(N)]
pub struct Integrator<Float: Floating, F: Fn(&[Float; N]) -> [Float; N], const N: usize> {
    state: State<Float, N>,
    dt: Float,
    ddt: F,
    time: Float,
}

impl<Float: Floating, F: Fn(&[Float; N]) -> [Float; N], const N: usize> Integrator<Float, F, N> {
    #[verifier::type_invariant]
    spec fn well_formed(&self) -> bool {
        Float::is_arithmetic() && is_pure_function(self.ddt)
    }

    /// State, step size and elapsed time.
    pub closed spec fn view(&self) -> Snapshot<Float> {
        Snapshot { state: self.state@, dt: self.dt, time: self.time }
    }

    /// The derivative function, which never changes.
    pub closed spec fn dynamics(&self) -> F {
        self.ddt
    }

    /// An integrator at time zero in the state `state`, with `delta_time` as
    /// its step size and `dynamics` as the derivative function.
    pub fn build(state: [Float; N], delta_time: Float, dynamics: F) -> (r: Self)
        requires
            Float::is_arithmetic(),
            is_pure_function(dynamics),
        ensures
            r@.state == state@,
            r@.dt == delta_time,
            r@.time == Float::literal_spec(0, 0),
            r.dynamics() == dynamics,
    {
        Integrator {
            state: State::build(state),
            dt: delta_time,
            ddt: dynamics,
            time: Float::floatify(0, 0),
        }
    }

    /// The current state.
    pub fn state(&self) -> (r: [Float; N])
        ensures
            r@ == self@.state,
    {
        self.state.values()
    }

    /// The current step size.
    pub fn delta_time(&self) -> (r: Float)
        ensures
            r == self@.dt,
    {
        self.dt
    }

    /// The time elapsed since the integrator was built.
    pub fn curr_time(&self) -> (r: Float)
        ensures
            r == self@.time,
    {
        self.time
    }

    /// Whether every component of the state is a finite number. A state
    /// that is not has diverged, and no step from it means anything.
    pub fn is_finite(&self) -> (r: bool)
        ensures
            r == all_finite(self@.state),
    {
        proof {
            use_type_invariant(self);
        }
        let mut idx: usize = 0;
        while idx < N
            invariant
                Float::is_arithmetic(),
                idx <= N,
                forall|j: int| 0 <= j < idx ==> finite(self.state@[j]),
            decreases N - idx,
        {
            let component = self.state.inner[idx];
            let difference = component.minus(component);
            if !difference.at_most(difference) {
                return false;
            }
            idx += 1;
        }
        true
    }

    /// One Runge-Kutta step of size `h` from `state`, leaving the integrator
    /// as it is.
    fn rk4_from(&self, state: State<Float, N>, h: Float) -> (r: State<Float, N>)
        ensures
            r@ == rk4(self.dynamics(), state@, h),
    {
        proof {
            use_type_invariant(self);
        }
        let half = h.over(Float::floatify(2, 0));
        let k1 = State::build((self.ddt)(&state.inner));
        proof {
            lemma_eval_of_call(self.ddt, state.inner, k1.inner);
        }
        let at2 = state + k1 * half;
        let k2 = State::build((self.ddt)(&at2.inner));
        proof {
            lemma_eval_of_call(self.ddt, at2.inner, k2.inner);
        }
        let at3 = state + k2 * half;
        let k3 = State::build((self.ddt)(&at3.inner));
        proof {
            lemma_eval_of_call(self.ddt, at3.inner, k3.inner);
        }
        let at4 = state + k3 * h;
        let k4 = State::build((self.ddt)(&at4.inner));
        proof {
            lemma_eval_of_call(self.ddt, at4.inner, k4.inner);
        }
        state + (k1 + k4) * h.over(Float::floatify(6, 0)) + (k2 + k3) * h.over(
            Float::floatify(3, 0),
        )
    }

    /// Advances the clock by the step size and the state by one Runge-Kutta
    /// step of that size, and returns the new state.
    pub fn step(&mut self) -> (r: [Float; N])
        ensures
            final(self).dynamics() == old(self).dynamics(),
            final(self)@ == fixed_advance(old(self).dynamics(), old(self)@),
            r@ == final(self)@.state,
    {
        proof {
            use_type_invariant(&*self);
        }
        self.time = self.time.plus(self.dt);
        self.state = State::build(self.runge_kutta_4());
        self.state()
    }

    /// Takes fixed steps until the clock is no longer below `final_time`, and
    /// returns the state after each step, in the order the steps were taken.
    ///
    /// Nothing is done when the clock has already reached `final_time`. The
    /// run also ends when the result cannot hold another state.
    pub fn solve_until(&mut self, final_time: Float) -> (states: Vec<[Float; N]>)
        ensures
            final(self).dynamics() == old(self).dynamics(),
            ({
                let path = fixed_run(
                    old(self).dynamics(),
                    old(self)@,
                    final_time,
                    step_limit(),
                );
                &&& final(self)@ == end_of(old(self)@, path)
                &&& states@.len() == path.len()
                &&& forall|i: int|
                    0 <= i < path.len() ==> (#[trigger] states@[i])@ == path[i].state
            }),
            !old(self)@.time.lt_spec(final_time) ==> states@.len() == 0,
    {
        let mut states: Vec<[Float; N]> = Vec::new();
        proof {
            use_type_invariant(&*self);
        }
        let ghost f = self.dynamics();
        let ghost start = self@;
        let ghost mut path: Seq<Snapshot<Float>> = Seq::empty();
        while self.time.less_than(final_time) && states.len() < usize::MAX
            invariant
                Float::is_arithmetic(),
                f == old(self).dynamics(),
                start == old(self)@,
                self.dynamics() == f,
                self@ == end_of(start, path),
                states@.len() == path.len(),
                forall|i: int| 0 <= i < path.len() ==> (#[trigger] states@[i])@ == path[i].state,
                fixed_run(f, start, final_time, step_limit()) == path + fixed_run(
                    f,
                    self@,
                    final_time,
                    (usize::MAX - path.len()) as nat,
                ),
            decreases usize::MAX - states.len(),
        {
            let ghost before = self@;
            let ghost rest = fixed_run(
                f,
                fixed_advance(f, before),
                final_time,
                (usize::MAX - path.len() - 1) as nat,
            );
            let reached = self.step();
            states.push(reached);
            proof {
                assert(path + (seq![self@] + rest) =~= path.push(self@) + rest);
                path = path.push(self@);
            }
        }
        proof {
            assert(path + Seq::<Snapshot<Float>>::empty() =~= path);
        }
        states
    }

    /// Like [`Integrator::solve_until`], with each state paired with the time
    /// at which the step that produced it began.
    pub fn solve_with_time(&mut self, final_time: Float) -> (output: Vec<(Float, [Float; N])>)
        ensures
            final(self).dynamics() == old(self).dynamics(),
            ({
                let path = fixed_run(
                    old(self).dynamics(),
                    old(self)@,
                    final_time,
                    step_limit(),
                );
                &&& final(self)@ == end_of(old(self)@, path)
                &&& output@.len() == path.len()
                &&& forall|i: int|
                    0 <= i < path.len() ==> {
                        &&& (#[trigger] output@[i]).0 == start_time(old(self)@, path, i)
                        &&& output@[i].1@ == path[i].state
                    }
            }),
            !old(self)@.time.lt_spec(final_time) ==> output@.len() == 0,
    {
        let mut output: Vec<(Float, [Float; N])> = Vec::new();
        proof {
            use_type_invariant(&*self);
        }
        let ghost f = self.dynamics();
        let ghost start = self@;
        let ghost mut path: Seq<Snapshot<Float>> = Seq::empty();
        while self.time.less_than(final_time) && output.len() < usize::MAX
            invariant
                Float::is_arithmetic(),
                f == old(self).dynamics(),
                start == old(self)@,
                self.dynamics() == f,
                self@ == end_of(start, path),
                output@.len() == path.len(),
                forall|i: int|
                    0 <= i < path.len() ==> {
                        &&& (#[trigger] output@[i]).0 == start_time(start, path, i)
                        &&& output@[i].1@ == path[i].state
                    },
                fixed_run(f, start, final_time, step_limit()) == path + fixed_run(
                    f,
                    self@,
                    final_time,
                    (usize::MAX - path.len()) as nat,
                ),
            decreases usize::MAX - output.len(),
        {
            let ghost before = self@;
            let ghost rest = fixed_run(
                f,
                fixed_advance(f, before),
                final_time,
                (usize::MAX - path.len() - 1) as nat,
            );
            let began = self.time;
            let reached = self.step();
            output.push((began, reached));
            proof {
                assert(path + (seq![self@] + rest) =~= path.push(self@) + rest);
                path = path.push(self@);
            }
        }
        proof {
            assert(path + Seq::<Snapshot<Float>>::empty() =~= path);
        }
        output
    }

    /// Takes one step whose size is chosen so that the step-doubling error
    /// estimate stays within the tolerance.
    ///
    /// Starting from the current step size, the size is halved until the
    /// estimate is within the tolerance. The accepted step moves the state and
    /// the clock, and the step size for the next call is twice the accepted
    /// one. When no size is accepted the integrator stays exactly as it was.
    pub fn dynamic_step(&mut self) -> (r: Result<[Float; N], StepError>)
        ensures
            final(self).dynamics() == old(self).dynamics(),
            match adaptive_advance(old(self).dynamics(), old(self)@) {
                Ok(w) => final(self)@ == w && (r matches Ok(x) && x@ == w.state),
                Err(e) => final(self)@ == old(self)@ && r == Err::<[Float; N], StepError>(e),
            },
            r is Ok ==> old(self)@.time.lt_spec(final(self)@.time),
    {
        proof {
            use_type_invariant(&*self);
        }
        let ghost f = self.dynamics();
        let ghost start = self@;
        let mut h = self.dt;
        let mut retries: usize = MAX_HALVINGS;
        loop
            invariant
                Float::is_arithmetic(),
                is_pure_function(self.ddt),
                f == old(self).dynamics(),
                start == old(self)@,
                self.dynamics() == f,
                self@ == start,
                retries <= MAX_HALVINGS,
                settle(f, start.state, start.time, h, retries as nat) == settle(
                    f,
                    start.state,
                    start.time,
                    start.dt,
                    MAX_HALVINGS as nat,
                ),
            decreases retries,
        {
            let reached = self.time.plus(h);
            if !self.time.less_than(reached) {
                return Err(StepError::StepCollapsed);
            }
            let half = h.times(Float::floatify(5, -1));
            let fine = self.rk4_from(self.rk4_from(self.state, half), half);
            let coarse = self.rk4_from(self.state, h);
            let error = (coarse * Float::floatify(-1, 0) + fine).norm();
            if error.at_most(Float::floatify(1, -8)) {
                self.time = reached;
                self.state = coarse;
                self.dt = h.times(Float::floatify(2, 0));
                return Ok(self.state());
            }
            if retries == 0 {
                return Err(StepError::RetryLimit);
            }
            retries -= 1;
            h = half;
        }
    }

    /// Takes adaptive steps until the clock is no longer below `final_time`,
    /// and returns the state after each accepted step, in order.
    ///
    /// When a step fails, its error is returned and the integrator stays
    /// where the last accepted step left it.
    pub fn solve_dynamic_until(&mut self, final_time: Float) -> (r: Result<
        Vec<[Float; N]>,
        StepError,
    >)
        ensures
            final(self).dynamics() == old(self).dynamics(),
            ({
                let run = adaptive_run(
                    old(self).dynamics(),
                    old(self)@,
                    final_time,
                    step_limit(),
                );
                &&& final(self)@ == end_of(old(self)@, run.0)
                &&& match run.1 {
                    Some(e) => r == Err::<Vec<[Float; N]>, StepError>(e),
                    None => {
                        &&& r matches Ok(states)
                        &&& states@.len() == run.0.len()
                        &&& forall|i: int|
                            0 <= i < run.0.len() ==> (#[trigger] states@[i])@ == run.0[i].state
                    },
                }
            }),
            !old(self)@.time.lt_spec(final_time) ==> (r matches Ok(states) && states@.len() == 0),
    {
        let mut states: Vec<[Float; N]> = Vec::new();
        proof {
            use_type_invariant(&*self);
        }
        let ghost f = self.dynamics();
        let ghost start = self@;
        let ghost mut path: Seq<Snapshot<Float>> = Seq::empty();
        while self.time.less_than(final_time) && states.len() < usize::MAX
            invariant
                Float::is_arithmetic(),
                f == old(self).dynamics(),
                start == old(self)@,
                self.dynamics() == f,
                self@ == end_of(start, path),
                states@.len() == path.len(),
                forall|i: int| 0 <= i < path.len() ==> (#[trigger] states@[i])@ == path[i].state,
                ({
                    let rest = adaptive_run(
                        f,
                        self@,
                        final_time,
                        (usize::MAX - path.len()) as nat,
                    );
                    adaptive_run(f, start, final_time, step_limit()) == (
                        path + rest.0,
                        rest.1,
                    )
                }),
            decreases usize::MAX - states.len(),
        {
            let ghost before = self@;
            match self.dynamic_step() {
                Err(e) => {
                    proof {
                        assert(path + Seq::<Snapshot<Float>>::empty() =~= path);
                    }
                    return Err(e);
                },
                Ok(reached) => {
                    states.push(reached);
                    proof {
                        let rest = adaptive_run(
                            f,
                            self@,
                            final_time,
                            (usize::MAX - path.len() - 1) as nat,
                        );
                        assert(path + (seq![self@] + rest.0) =~= path.push(self@) + rest.0);
                        path = path.push(self@);
                    }
                },
            }
        }
        proof {
            assert(path + Seq::<Snapshot<Float>>::empty() =~= path);
        }
        Ok(states)
    }

    /// Like [`Integrator::solve_dynamic_until`], with each state paired with
    /// the time at which the step that produced it began. The times strictly
    /// increase along the result.
    pub fn solve_dynamic_with_time(&mut self, final_time: Float) -> (r: Result<
        Vec<(Float, [Float; N])>,
        StepError,
    >)
        ensures
            final(self).dynamics() == old(self).dynamics(),
            ({
                let run = adaptive_run(
                    old(self).dynamics(),
                    old(self)@,
                    final_time,
                    step_limit(),
                );
                &&& final(self)@ == end_of(old(self)@, run.0)
                &&& match run.1 {
                    Some(e) => r == Err::<Vec<(Float, [Float; N])>, StepError>(e),
                    None => {
                        &&& r matches Ok(output)
                        &&& output@.len() == run.0.len()
                        &&& forall|i: int|
                            0 <= i < run.0.len() ==> {
                                &&& (#[trigger] output@[i]).0 == start_time(old(self)@, run.0, i)
                                &&& output@[i].1@ == run.0[i].state
                            }
                    },
                }
            }),
            !old(self)@.time.lt_spec(final_time) ==> (r matches Ok(output) && output@.len() == 0),
            r matches Ok(output) ==> forall|i: int|
                0 <= i < output@.len() - 1 ==> (#[trigger] output@[i]).0.lt_spec(output@[i + 1].0),
    {
        let mut output: Vec<(Float, [Float; N])> = Vec::new();
        proof {
            use_type_invariant(&*self);
        }
        let ghost f = self.dynamics();
        let ghost start = self@;
        let ghost mut path: Seq<Snapshot<Float>> = Seq::empty();
        while self.time.less_than(final_time) && output.len() < usize::MAX
            invariant
                Float::is_arithmetic(),
                f == old(self).dynamics(),
                start == old(self)@,
                self.dynamics() == f,
                self@ == end_of(start, path),
                output@.len() == path.len(),
                forall|i: int|
                    0 <= i < path.len() ==> {
                        &&& (#[trigger] output@[i]).0 == start_time(start, path, i)
                        &&& output@[i].1@ == path[i].state
                    },
                forall|i: int|
                    0 <= i < path.len() ==> start_time(start, path, i).lt_spec(
                        (#[trigger] path[i]).time,
                    ),
                ({
                    let rest = adaptive_run(
                        f,
                        self@,
                        final_time,
                        (usize::MAX - path.len()) as nat,
                    );
                    adaptive_run(f, start, final_time, step_limit()) == (
                        path + rest.0,
                        rest.1,
                    )
                }),
            decreases usize::MAX - output.len(),
        {
            let began = self.time;
            match self.dynamic_step() {
                Err(e) => {
                    proof {
                        assert(path + Seq::<Snapshot<Float>>::empty() =~= path);
                    }
                    return Err(e);
                },
                Ok(reached) => {
                    output.push((began, reached));
                    proof {
                        let rest = adaptive_run(
                            f,
                            self@,
                            final_time,
                            (usize::MAX - path.len() - 1) as nat,
                        );
                        assert(path + (seq![self@] + rest.0) =~= path.push(self@) + rest.0);
                        path = path.push(self@);
                    }
                },
            }
        }
        proof {
            assert(path + Seq::<Snapshot<Float>>::empty() =~= path);
            assert forall|i: int| 0 <= i < output@.len() - 1 implies (#[trigger] output@[i]).0.lt_spec(
                output@[i + 1].0,
            ) by {
                assert(output@[i + 1].0 == start_time(start, path, i + 1));
                assert(start_time(start, path, i).lt_spec(path[i].time));
            }
        }
        Ok(output)
    }
}

impl<Float: Floating, F: Fn(&[Float; N]) -> [Float; N], const N: usize> IntegrationStep<
    [Float; N],
> for Integrator<Float, F, N> {
    /// The state one step of the current size leads to; the integrator
    /// itself does not move.
    fn runge_kutta_4(&self) -> (r: [Float; N])
        ensures
            r@ == rk4(self.dynamics(), self@.state, self@.dt),
    {
        self.rk4_from(self.state, self.dt).values()
    }
}

} // verus!
