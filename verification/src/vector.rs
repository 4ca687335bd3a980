use std::ops::Add;
use std::ops::Div;
use std::ops::Mul;
use std::ops::Sub;
use vstd::prelude::*;

verus! {

/// Three values of one type, named `x`, `y` and `z`.
#[derive(Clone, Copy, PartialEq, Debug)]
pub struct Vec3<T> {
    pub x: T,
    pub y: T,
    pub z: T,
}

impl<T> Vec3<T> where T: Default {
    /// The vector with the components `x`, `y` and `z`.
    pub fn build(x: T, y: T, z: T) -> (r: Self)
        ensures
            r.x == x,
            r.y == y,
            r.z == z,
    {
        Vec3 { x, y, z }
    }

    /// A vector whose three components are each a default value of `T`.
    pub fn zeros() -> (r: Self)
        ensures
            call_ensures(T::default, (), r.x),
            call_ensures(T::default, (), r.y),
            call_ensures(T::default, (), r.z),
    {
        Vec3 { x: T::default(), y: T::default(), z: T::default() }
    }

    /// The same vector with each component converted to `D`.
    pub fn cast<D>(self) -> (r: Vec3<D>) where T: Into<D>, D: Default
        ensures
            call_ensures(T::into, (self.x,), r.x),
            call_ensures(T::into, (self.y,), r.y),
            call_ensures(T::into, (self.z,), r.z),
    {
        Vec3::build(self.x.into(), self.y.into(), self.z.into())
    }
}

impl<T> vstd::std_specs::ops::AddSpecImpl for Vec3<T> where T: Add<Output = T> + Default {
    open spec fn obeys_add_spec() -> bool {
        <T as vstd::std_specs::ops::AddSpec>::obeys_add_spec()
    }

    open spec fn add_req(self, rhs: Self) -> bool {
        &&& vstd::std_specs::ops::AddSpec::add_req(self.x, rhs.x)
        &&& vstd::std_specs::ops::AddSpec::add_req(self.y, rhs.y)
        &&& vstd::std_specs::ops::AddSpec::add_req(self.z, rhs.z)
    }

    open spec fn add_spec(self, rhs: Self) -> Self {
        Vec3 {
            x: vstd::std_specs::ops::AddSpec::add_spec(self.x, rhs.x),
            y: vstd::std_specs::ops::AddSpec::add_spec(self.y, rhs.y),
            z: vstd::std_specs::ops::AddSpec::add_spec(self.z, rhs.z),
        }
    }
}

impl<T> std::ops::Add for Vec3<T> where T: Add<Output = T> + Default {
    type Output = Vec3<T>;

    fn add(self, rhs: Self) -> Self::Output {
        Vec3::build(self.x + rhs.x, self.y + rhs.y, self.z + rhs.z)
    }
}

impl<T> vstd::std_specs::ops::SubSpecImpl for Vec3<T> where T: Sub<Output = T> + Default {
    open spec fn obeys_sub_spec() -> bool {
        <T as vstd::std_specs::ops::SubSpec>::obeys_sub_spec()
    }

    open spec fn sub_req(self, rhs: Self) -> bool {
        &&& vstd::std_specs::ops::SubSpec::sub_req(self.x, rhs.x)
        &&& vstd::std_specs::ops::SubSpec::sub_req(self.y, rhs.y)
        &&& vstd::std_specs::ops::SubSpec::sub_req(self.z, rhs.z)
    }

    open spec fn sub_spec(self, rhs: Self) -> Self {
        Vec3 {
            x: vstd::std_specs::ops::SubSpec::sub_spec(self.x, rhs.x),
            y: vstd::std_specs::ops::SubSpec::sub_spec(self.y, rhs.y),
            z: vstd::std_specs::ops::SubSpec::sub_spec(self.z, rhs.z),
        }
    }
}

impl<T> std::ops::Sub for Vec3<T> where T: Sub<Output = T> + Default {
    type Output = Vec3<T>;

    fn sub(self, rhs: Self) -> Self::Output {
        Vec3::build(self.x - rhs.x, self.y - rhs.y, self.z - rhs.z)
    }
}

impl<T, D> vstd::std_specs::ops::MulSpecImpl<D> for Vec3<T> where T: Mul<D, Output = T> + Default, D: Clone + Copy {
    open spec fn obeys_mul_spec() -> bool {
        <T as vstd::std_specs::ops::MulSpec<D>>::obeys_mul_spec()
    }

    open spec fn mul_req(self, rhs: D) -> bool {
        &&& vstd::std_specs::ops::MulSpec::mul_req(self.x, rhs)
        &&& vstd::std_specs::ops::MulSpec::mul_req(self.y, rhs)
        &&& vstd::std_specs::ops::MulSpec::mul_req(self.z, rhs)
    }

    open spec fn mul_spec(self, rhs: D) -> Self {
        Vec3 {
            x: vstd::std_specs::ops::MulSpec::mul_spec(self.x, rhs),
            y: vstd::std_specs::ops::MulSpec::mul_spec(self.y, rhs),
            z: vstd::std_specs::ops::MulSpec::mul_spec(self.z, rhs),
        }
    }
}

impl<T, D> std::ops::Mul<D> for Vec3<T> where T: Mul<D, Output = T> + Default, D: Clone + Copy {
    type Output = Vec3<T>;

    fn mul(self, rhs: D) -> Self::Output {
        Vec3::build(self.x * rhs, self.y * rhs, self.z * rhs)
    }
}

impl<T, D> vstd::std_specs::ops::DivSpecImpl<D> for Vec3<T> where T: Div<D, Output = T> + Default, D: Clone + Copy {
    open spec fn obeys_div_spec() -> bool {
        <T as vstd::std_specs::ops::DivSpec<D>>::obeys_div_spec()
    }

    open spec fn div_req(self, rhs: D) -> bool {
        &&& vstd::std_specs::ops::DivSpec::div_req(self.x, rhs)
        &&& vstd::std_specs::ops::DivSpec::div_req(self.y, rhs)
        &&& vstd::std_specs::ops::DivSpec::div_req(self.z, rhs)
    }

    open spec fn div_spec(self, rhs: D) -> Self {
        Vec3 {
            x: vstd::std_specs::ops::DivSpec::div_spec(self.x, rhs),
            y: vstd::std_specs::ops::DivSpec::div_spec(self.y, rhs),
            z: vstd::std_specs::ops::DivSpec::div_spec(self.z, rhs),
        }
    }
}

impl<T, D> std::ops::Div<D> for Vec3<T> where T: Div<D, Output = T> + Default, D: Clone + Copy {
    type Output = Vec3<T>;

    fn div(self, rhs: D) -> Self::Output {
        Vec3::build(self.x / rhs, self.y / rhs, self.z / rhs)
    }
}

} // verus!
