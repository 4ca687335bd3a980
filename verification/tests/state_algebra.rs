use odesolvers::integration_shared::Norm;
use odesolvers::integration_shared::State;
use odesolvers::scalar::Floating;

#[derive(Clone, Copy, Debug, PartialEq)]
struct Real(f64);

impl Floating for Real {
    fn floatify(mantissa: i64, exponent: i32) -> Self {
        Real(format!("{}e{}", mantissa, exponent).parse::<f64>().unwrap())
    }

    fn plus(self, rhs: Self) -> Self {
        Real(self.0 + rhs.0)
    }

    fn minus(self, rhs: Self) -> Self {
        Real(self.0 - rhs.0)
    }

    fn times(self, rhs: Self) -> Self {
        Real(self.0 * rhs.0)
    }

    fn over(self, rhs: Self) -> Self {
        Real(self.0 / rhs.0)
    }

    fn less_than(self, rhs: Self) -> bool {
        self.0 < rhs.0
    }

    fn at_most(self, rhs: Self) -> bool {
        self.0 <= rhs.0
    }
}

fn state(values: [f64; 3]) -> State<Real, 3> {
    State::build([Real(values[0]), Real(values[1]), Real(values[2])])
}

#[test]
fn state_hands_back_the_values_it_was_built_from() {
    let s = state([1.0, -2.0, 0.5]);
    assert_eq!(s.values(), [Real(1.0), Real(-2.0), Real(0.5)]);
    assert_eq!(s.inner, [Real(1.0), Real(-2.0), Real(0.5)]);
}

#[test]
fn states_add_elementwise() {
    let sum = state([1.0, -2.0, 0.5]) + state([10.0, 20.0, 30.0]);
    assert_eq!(sum.values(), [Real(11.0), Real(18.0), Real(30.5)]);
}

#[test]
fn state_scales_elementwise() {
    let scaled = state([1.0, -2.0, 0.5]) * Real(-4.0);
    assert_eq!(scaled.values(), [Real(-4.0), Real(8.0), Real(-2.0)]);
}

#[test]
fn norm_is_the_sum_of_squares() {
    assert_eq!(state([3.0, -4.0, 12.0]).norm(), Real(169.0));
    assert_eq!(state([0.0, 0.0, 0.0]).norm(), Real(0.0));
    let empty: State<Real, 0> = State::build([]);
    assert_eq!(empty.norm(), Real(0.0));
}

#[test]
fn norm_accumulates_in_index_order() {
    // in double width, 1e16 + 1 is 1e16, so the order of the sum shows
    let ascending = State::build([Real(1.0), Real(1e8), Real(1.0)]);
    assert_eq!(ascending.norm(), Real((0.0 + 1.0 + 1e16) + 1.0));
    assert_eq!(ascending.norm(), Real(1e16));
    let descending = State::build([Real(1.0), Real(1.0), Real(1e8)]);
    assert_eq!(descending.norm(), Real(1e16 + 2.0));
}

#[test]
fn state_of_one_dimension() {
    let s = State::build([Real(2.0)]);
    assert_eq!((s + s).values(), [Real(4.0)]);
    assert_eq!((s * Real(0.5)).values(), [Real(1.0)]);
    assert_eq!(s.norm(), Real(4.0));
}
