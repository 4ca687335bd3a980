use vstd::prelude::*;

verus! {

/// A numeric type that can serve as the working precision of an integration:
/// it is closed under the four arithmetic operations, can be compared, and
/// can be made from a decimal literal.
///
/// One integration uses one such type throughout; nothing here mixes
/// precisions.
pub trait Floating: Copy + Sized {
    /// The value of this precision nearest to `mantissa * 10^exponent`.
    fn floatify(mantissa: i64, exponent: i32) -> Self;

    /// `self + rhs`.
    fn plus(self, rhs: Self) -> Self;

    /// `self - rhs`.
    fn minus(self, rhs: Self) -> Self;

    /// `self * rhs`.
    fn times(self, rhs: Self) -> Self;

    /// `self / rhs`.
    fn over(self, rhs: Self) -> Self;

    /// Whether `self < rhs`.
    fn less_than(self, rhs: Self) -> bool;

    /// Whether `self <= rhs`.
    fn at_most(self, rhs: Self) -> bool;
}

/// What the operations of a [`Floating`] type compute, as mathematical
/// functions of their operands.
///
/// Every [`Floating`] type has these: each names the result of the operation
/// it stands for. On a type that is arithmetic, a call of the operation
/// returns exactly that result.
pub trait FloatingSpec: Floating {
    /// Every operation of the type returns the same result whenever it is
    /// given the same operands.
    spec fn is_arithmetic() -> bool;

    /// The result of `floatify(mantissa, exponent)`, for a mantissa and an
    /// exponent that `floatify` takes.
    spec fn literal_spec(mantissa: int, exponent: int) -> Self;

    /// The result of `self.plus(rhs)`.
    spec fn add_spec(self, rhs: Self) -> Self;

    /// The result of `self.minus(rhs)`.
    spec fn sub_spec(self, rhs: Self) -> Self;

    /// The result of `self.times(rhs)`.
    spec fn mul_spec(self, rhs: Self) -> Self;

    /// The result of `self.over(rhs)`.
    spec fn div_spec(self, rhs: Self) -> Self;

    /// The result of `self.less_than(rhs)`.
    spec fn lt_spec(self, rhs: Self) -> bool;

    /// The result of `self.at_most(rhs)`.
    spec fn le_spec(self, rhs: Self) -> bool;
}

impl<T: Floating> FloatingSpec for T {
    open spec fn is_arithmetic() -> bool {
        &&& forall|m: i64, e: i32, r1: T, r2: T|
            call_ensures(T::floatify, (m, e), r1) && call_ensures(T::floatify, (m, e), r2) ==> r1
                == r2
        &&& forall|a: T, b: T, r1: T, r2: T|
            call_ensures(T::plus, (a, b), r1) && call_ensures(T::plus, (a, b), r2) ==> r1 == r2
        &&& forall|a: T, b: T, r1: T, r2: T|
            call_ensures(T::minus, (a, b), r1) && call_ensures(T::minus, (a, b), r2) ==> r1 == r2
        &&& forall|a: T, b: T, r1: T, r2: T|
            call_ensures(T::times, (a, b), r1) && call_ensures(T::times, (a, b), r2) ==> r1 == r2
        &&& forall|a: T, b: T, r1: T, r2: T|
            call_ensures(T::over, (a, b), r1) && call_ensures(T::over, (a, b), r2) ==> r1 == r2
        &&& forall|a: T, b: T, r1: bool, r2: bool|
            call_ensures(T::less_than, (a, b), r1) && call_ensures(T::less_than, (a, b), r2) ==> r1
                == r2
        &&& forall|a: T, b: T, r1: bool, r2: bool|
            call_ensures(T::at_most, (a, b), r1) && call_ensures(T::at_most, (a, b), r2) ==> r1
                == r2
    }

    open spec fn literal_spec(mantissa: int, exponent: int) -> Self {
        let m = mantissa as i64;
        let e = exponent as i32;
        choose|r: T| call_ensures(T::floatify, (m, e), r)
    }

    open spec fn add_spec(self, rhs: Self) -> Self {
        choose|r: T| call_ensures(T::plus, (self, rhs), r)
    }

    open spec fn sub_spec(self, rhs: Self) -> Self {
        choose|r: T| call_ensures(T::minus, (self, rhs), r)
    }

    open spec fn mul_spec(self, rhs: Self) -> Self {
        choose|r: T| call_ensures(T::times, (self, rhs), r)
    }

    open spec fn div_spec(self, rhs: Self) -> Self {
        choose|r: T| call_ensures(T::over, (self, rhs), r)
    }

    open spec fn lt_spec(self, rhs: Self) -> bool {
        choose|r: bool| call_ensures(T::less_than, (self, rhs), r)
    }

    open spec fn le_spec(self, rhs: Self) -> bool {
        choose|r: bool| call_ensures(T::at_most, (self, rhs), r)
    }
}

} // verus!
