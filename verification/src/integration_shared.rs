use crate::scalar::Floating;
use crate::scalar::FloatingSpec;
use vstd::prelude::*;

verus! {

/// One full integration step, whatever the method behind it.
pub trait IntegrationStep<State> {
    /// The state one step leads to.
    fn runge_kutta_4(&self) -> State;
}

/// A magnitude for measuring how far apart two states are.
pub trait Norm<Float: Floating> {
    /// The magnitude that [`Norm::norm`] computes.
    spec fn norm_spec(&self) -> Float;

    /// The magnitude of `self`.
    fn norm(&self) -> (r: Float)
        requires
            Float::is_arithmetic(),
        ensures
            r == self.norm_spec(),
    ;
}

/// A point in phase space: `N` scalars in a fixed order.
#[derive(Clone, Copy)]
pub struct State<Float, const N: usize> {
    pub inner: [Float; N],
}

/// The array that holds exactly the elements of `x`.
pub open spec fn as_array<Float, const N: usize>(x: Seq<Float>) -> [Float; N] {
    choose|a: [Float; N]| a@ == x
}

/// Elementwise sum of two sequences of equal length.
pub open spec fn vec_sum<Float: Floating>(a: Seq<Float>, b: Seq<Float>) -> Seq<Float> {
    Seq::new(a.len(), |i: int| a[i].add_spec(b[i]))
}

/// Every element of `a` multiplied by `k`.
pub open spec fn vec_scaled<Float: Floating>(a: Seq<Float>, k: Float) -> Seq<Float> {
    Seq::new(a.len(), |i: int| a[i].mul_spec(k))
}

/// Sum of the squares of the first `n` elements of `a`, accumulated from
/// zero in index order.
pub open spec fn squares_sum<Float: Floating>(a: Seq<Float>, n: nat) -> Float
    decreases n,
{
    if n == 0 {
        Float::literal_spec(0, 0)
    } else {
        squares_sum(a, (n - 1) as nat).add_spec(a[n - 1].mul_spec(a[n - 1]))
    }
}

/// Sum of the squares of all elements of `a`.
pub open spec fn vec_norm<Float: Floating>(a: Seq<Float>) -> Float {
    squares_sum(a, a.len())
}

/// A derivative function is usable by an integrator when it accepts every
/// state and maps equal states to equal derivatives.
pub open spec fn is_pure_function<Float, F: Fn(&[Float; N]) -> [Float; N], const N: usize>(
    f: F,
) -> bool {
    &&& forall|x: &[Float; N]| call_requires(f, (x,))
    &&& forall|x: &[Float; N], y1: [Float; N], y2: [Float; N]|
        call_ensures(f, (x,), y1) && call_ensures(f, (x,), y2) ==> y1 == y2
}

/// The derivative that `f` assigns to the state `x`.
pub open spec fn eval<Float, F: Fn(&[Float; N]) -> [Float; N], const N: usize>(
    f: F,
    x: Seq<Float>,
) -> Seq<Float> {
    (choose|y: [Float; N]| call_ensures(f, (&as_array::<Float, N>(x),), y))@
}

/// An array is the one that `as_array` picks for its own elements.
pub proof fn lemma_as_array_of_view<Float, const N: usize>(a: [Float; N])
    ensures
        as_array::<Float, N>(a@) == a,
{
    let b = as_array::<Float, N>(a@);
    assert(b@ == a@);
    assert(b =~= a);
}

/// Whatever a pure derivative function returns for a state is its `eval`.
pub proof fn lemma_eval_of_call<Float, F: Fn(&[Float; N]) -> [Float; N], const N: usize>(
    f: F,
    x: [Float; N],
    y: [Float; N],
)
    requires
        is_pure_function(f),
        call_ensures(f, (&x,), y),
    ensures
        eval(f, x@) == y@,
{
    lemma_as_array_of_view(x);
}

impl<Float: Floating, const N: usize> State<Float, N> {
    /// The elements of the state, in order.
    pub open spec fn view(&self) -> Seq<Float> {
        self.inner@
    }

    /// The state with the elements `inner`.
    pub fn build(inner: [Float; N]) -> (r: Self)
        ensures
            r.inner == inner,
    {
        State { inner }
    }

    /// A copy of the elements of the state.
    pub fn values(&self) -> (r: [Float; N])
        ensures
            r == self.inner,
    {
        self.inner
    }
}

impl<Float: Floating, const N: usize> vstd::std_specs::ops::AddSpecImpl for State<Float, N> {
    open spec fn obeys_add_spec() -> bool {
        true
    }

    open spec fn add_req(self, rhs: Self) -> bool {
        Float::is_arithmetic()
    }

    open spec fn add_spec(self, rhs: Self) -> Self {
        State { inner: as_array(vec_sum(self@, rhs@)) }
    }
}

impl<Float: Floating, const N: usize> std::ops::Add for State<Float, N> {
    type Output = Self;

    /// The elementwise sum of two states.
    fn add(self, rhs: Self) -> (r: Self)
        ensures
            r@ == vec_sum(self@, rhs@),
    {
        let mut result = self.inner;
        let mut idx: usize = 0;
        while idx < N
            invariant
                Float::is_arithmetic(),
                idx <= N,
                forall|j: int| 0 <= j < idx ==> result@[j] == self@[j].add_spec(rhs@[j]),
                forall|j: int| idx <= j < N ==> result@[j] == self@[j],
            decreases N - idx,
        {
            result[idx] = self.inner[idx].plus(rhs.inner[idx]);
            idx += 1;
        }
        proof {
            assert(result@ =~= vec_sum(self@, rhs@));
            lemma_as_array_of_view(result);
        }
        State::build(result)
    }
}

impl<Float: Floating, const N: usize> vstd::std_specs::ops::MulSpecImpl<Float> for State<Float, N> {
    open spec fn obeys_mul_spec() -> bool {
        true
    }

    open spec fn mul_req(self, rhs: Float) -> bool {
        Float::is_arithmetic()
    }

    open spec fn mul_spec(self, rhs: Float) -> Self {
        State { inner: as_array(vec_scaled(self@, rhs)) }
    }
}

impl<Float: Floating, const N: usize> std::ops::Mul<Float> for State<Float, N> {
    type Output = Self;

    /// The state with every element multiplied by `rhs`.
    fn mul(self, rhs: Float) -> (r: Self)
        ensures
            r@ == vec_scaled(self@, rhs),
    {
        let mut result = self.inner;
        let mut idx: usize = 0;
        while idx < N
            invariant
                Float::is_arithmetic(),
                idx <= N,
                forall|j: int| 0 <= j < idx ==> result@[j] == self@[j].mul_spec(rhs),
                forall|j: int| idx <= j < N ==> result@[j] == self@[j],
            decreases N - idx,
        {
            result[idx] = self.inner[idx].times(rhs);
            idx += 1;
        }
        proof {
            assert(result@ =~= vec_scaled(self@, rhs));
            lemma_as_array_of_view(result);
        }
        State::build(result)
    }
}

impl<Float: Floating, const N: usize> Norm<Float> for State<Float, N> {
    open spec fn norm_spec(&self) -> Float {
        vec_norm(self@)
    }

    /// The sum of the squares of the elements, accumulated from zero in
    /// index order.
    fn norm(&self) -> (r: Float) {
        let mut sum = Float::floatify(0, 0);
        let mut idx: usize = 0;
        while idx < N
            invariant
                Float::is_arithmetic(),
                idx <= N,
                sum == squares_sum(self@, idx as nat),
            decreases N - idx,
        {
            sum = sum.plus(self.inner[idx].times(self.inner[idx]));
            idx += 1;
        }
        sum
    }
}

} // verus!
