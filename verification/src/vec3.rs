use std::ops::Div;
use vstd::prelude::*;

verus! {

/// Three values of one type, named `x`, `y` and `z`.
#[derive(Clone, Copy, PartialEq, Debug)]
pub struct Vec3<T> {
    pub x: T,
    pub y: T,
    pub z: T,
}

impl<T> Vec3<T> where T: Default {
    /// The vector with the components `x`, `y` and `z`.
    pub fn build(x: T, y: T, z: T) -> (r: Self)
        ensures
            r.x == x,
            r.y == y,
            r.z == z,
    {
        Vec3 { x, y, z }
    }

    /// A vector whose three components are each a default value of `T`.
    pub fn zeros() -> (r: Self)
        ensures
            call_ensures(T::default, (), r.x),
            call_ensures(T::default, (), r.y),
            call_ensures(T::default, (), r.z),
    {
        Vec3 { x: T::default(), y: T::default(), z: T::default() }
    }
}

impl<T, D> vstd::std_specs::ops::DivSpecImpl<D> for Vec3<T> where T: Div<D, Output = T> + Default, D: Clone + Copy {
    open spec fn obeys_div_spec() -> bool {
        <T as vstd::std_specs::ops::DivSpec<D>>::obeys_div_spec()
    }

    open spec fn div_req(self, rhs: D) -> bool {
        &&& vstd::std_specs::ops::DivSpec::div_req(self.x, rhs)
        &&& vstd::std_specs::ops::DivSpec::div_req(self.y, rhs)
        &&& vstd::std_specs::ops::DivSpec::div_req(self.z, rhs)
    }

    open spec fn div_spec(self, rhs: D) -> Self {
        Vec3 {
            x: vstd::std_specs::ops::DivSpec::div_spec(self.x, rhs),
            y: vstd::std_specs::ops::DivSpec::div_spec(self.y, rhs),
            z: vstd::std_specs::ops::DivSpec::div_spec(self.z, rhs),
        }
    }
}

impl<T, D> std::ops::Div<D> for Vec3<T> where T: Div<D, Output = T> + Default, D: Clone + Copy {
    type Output = Vec3<T>;

    fn div(self, rhs: D) -> Self::Output {
        Vec3::build(self.x / rhs, self.y / rhs, self.z / rhs)
    }
}

} // verus!
