//! Component-wise arithmetic on linear RGB colors, with another color or with
//! a single scalar for all three components. Each operation has the
//! requirement that the component type sets for it (no overflow, no division
//! by zero), component by component.

use core::marker::PhantomData;
use core::ops::{Add, Div, Mul, Sub};
use vstd::prelude::*;
use vstd::std_specs::ops::{
    AddSpec, AddSpecImpl, DivSpec, DivSpecImpl, MulSpec, MulSpecImpl, SubSpec, SubSpecImpl,
};

use crate::encoding::{LinearFn, RgbStandard};
use crate::rgb::Rgb;

verus! {

/// Sum of two colors, component by component.
impl<S: RgbStandard<TransferFn = LinearFn>, T: Add> Add<Rgb<S, T>> for Rgb<S, T> {
    type Output = Rgb<S, <T as Add>::Output>;

    fn add(self, other: Rgb<S, T>) -> (c: Self::Output) {
        Rgb {
            red: self.red + other.red,
            green: self.green + other.green,
            blue: self.blue + other.blue,
            standard: PhantomData,
        }
    }
}

impl<S: RgbStandard<TransferFn = LinearFn>, T: Add> AddSpecImpl<Rgb<S, T>> for Rgb<S, T> {
    open spec fn obeys_add_spec() -> bool {
        T::obeys_add_spec()
    }

    open spec fn add_req(self, other: Rgb<S, T>) -> bool {
        &&& self.red.add_req(other.red)
        &&& self.green.add_req(other.green)
        &&& self.blue.add_req(other.blue)
    }

    open spec fn add_spec(self, other: Rgb<S, T>) -> Self::Output {
        Rgb {
            red: self.red.add_spec(other.red),
            green: self.green.add_spec(other.green),
            blue: self.blue.add_spec(other.blue),
            standard: PhantomData,
        }
    }
}

/// Sum of each component of a color and a scalar.
impl<S: RgbStandard<TransferFn = LinearFn>, T: Add + Copy> Add<T> for Rgb<S, T> {
    type Output = Rgb<S, <T as Add>::Output>;

    fn add(self, c: T) -> (r: Self::Output) {
        Rgb {
            red: self.red + c,
            green: self.green + c,
            blue: self.blue + c,
            standard: PhantomData,
        }
    }
}

impl<S: RgbStandard<TransferFn = LinearFn>, T: Add + Copy> AddSpecImpl<T> for Rgb<S, T> {
    open spec fn obeys_add_spec() -> bool {
        T::obeys_add_spec()
    }

    open spec fn add_req(self, c: T) -> bool {
        &&& self.red.add_req(c)
        &&& self.green.add_req(c)
        &&& self.blue.add_req(c)
    }

    open spec fn add_spec(self, c: T) -> Self::Output {
        Rgb {
            red: self.red.add_spec(c),
            green: self.green.add_spec(c),
            blue: self.blue.add_spec(c),
            standard: PhantomData,
        }
    }
}

/// Difference of two colors, component by component.
impl<S: RgbStandard<TransferFn = LinearFn>, T: Sub> Sub<Rgb<S, T>> for Rgb<S, T> {
    type Output = Rgb<S, <T as Sub>::Output>;

    fn sub(self, other: Rgb<S, T>) -> (c: Self::Output) {
        Rgb {
            red: self.red - other.red,
            green: self.green - other.green,
            blue: self.blue - other.blue,
            standard: PhantomData,
        }
    }
}

impl<S: RgbStandard<TransferFn = LinearFn>, T: Sub> SubSpecImpl<Rgb<S, T>> for Rgb<S, T> {
    open spec fn obeys_sub_spec() -> bool {
        T::obeys_sub_spec()
    }

    open spec fn sub_req(self, other: Rgb<S, T>) -> bool {
        &&& self.red.sub_req(other.red)
        &&& self.green.sub_req(other.green)
        &&& self.blue.sub_req(other.blue)
    }

    open spec fn sub_spec(self, other: Rgb<S, T>) -> Self::Output {
        Rgb {
            red: self.red.sub_spec(other.red),
            green: self.green.sub_spec(other.green),
            blue: self.blue.sub_spec(other.blue),
            standard: PhantomData,
        }
    }
}

/// Difference of each component of a color and a scalar.
impl<S: RgbStandard<TransferFn = LinearFn>, T: Sub + Copy> Sub<T> for Rgb<S, T> {
    type Output = Rgb<S, <T as Sub>::Output>;

    fn sub(self, c: T) -> (r: Self::Output) {
        Rgb {
            red: self.red - c,
            green: self.green - c,
            blue: self.blue - c,
            standard: PhantomData,
        }
    }
}

impl<S: RgbStandard<TransferFn = LinearFn>, T: Sub + Copy> SubSpecImpl<T> for Rgb<S, T> {
    open spec fn obeys_sub_spec() -> bool {
        T::obeys_sub_spec()
    }

    open spec fn sub_req(self, c: T) -> bool {
        &&& self.red.sub_req(c)
        &&& self.green.sub_req(c)
        &&& self.blue.sub_req(c)
    }

    open spec fn sub_spec(self, c: T) -> Self::Output {
        Rgb {
            red: self.red.sub_spec(c),
            green: self.green.sub_spec(c),
            blue: self.blue.sub_spec(c),
            standard: PhantomData,
        }
    }
}

/// Product of two colors, component by component.
impl<S: RgbStandard<TransferFn = LinearFn>, T: Mul> Mul<Rgb<S, T>> for Rgb<S, T> {
    type Output = Rgb<S, <T as Mul>::Output>;

    fn mul(self, other: Rgb<S, T>) -> (c: Self::Output) {
        Rgb {
            red: self.red * other.red,
            green: self.green * other.green,
            blue: self.blue * other.blue,
            standard: PhantomData,
        }
    }
}

impl<S: RgbStandard<TransferFn = LinearFn>, T: Mul> MulSpecImpl<Rgb<S, T>> for Rgb<S, T> {
    open spec fn obeys_mul_spec() -> bool {
        T::obeys_mul_spec()
    }

    open spec fn mul_req(self, other: Rgb<S, T>) -> bool {
        &&& self.red.mul_req(other.red)
        &&& self.green.mul_req(other.green)
        &&& self.blue.mul_req(other.blue)
    }

    open spec fn mul_spec(self, other: Rgb<S, T>) -> Self::Output {
        Rgb {
            red: self.red.mul_spec(other.red),
            green: self.green.mul_spec(other.green),
            blue: self.blue.mul_spec(other.blue),
            standard: PhantomData,
        }
    }
}

/// Product of each component of a color and a scalar.
impl<S: RgbStandard<TransferFn = LinearFn>, T: Mul + Copy> Mul<T> for Rgb<S, T> {
    type Output = Rgb<S, <T as Mul>::Output>;

    fn mul(self, c: T) -> (r: Self::Output) {
        Rgb {
            red: self.red * c,
            green: self.green * c,
            blue: self.blue * c,
            standard: PhantomData,
        }
    }
}

impl<S: RgbStandard<TransferFn = LinearFn>, T: Mul + Copy> MulSpecImpl<T> for Rgb<S, T> {
    open spec fn obeys_mul_spec() -> bool {
        T::obeys_mul_spec()
    }

    open spec fn mul_req(self, c: T) -> bool {
        &&& self.red.mul_req(c)
        &&& self.green.mul_req(c)
        &&& self.blue.mul_req(c)
    }

    open spec fn mul_spec(self, c: T) -> Self::Output {
        Rgb {
            red: self.red.mul_spec(c),
            green: self.green.mul_spec(c),
            blue: self.blue.mul_spec(c),
            standard: PhantomData,
        }
    }
}

/// Quotient of two colors, component by component.
impl<S: RgbStandard<TransferFn = LinearFn>, T: Div> Div<Rgb<S, T>> for Rgb<S, T> {
    type Output = Rgb<S, <T as Div>::Output>;

    fn div(self, other: Rgb<S, T>) -> (c: Self::Output) {
        Rgb {
            red: self.red / other.red,
            green: self.green / other.green,
            blue: self.blue / other.blue,
            standard: PhantomData,
        }
    }
}

impl<S: RgbStandard<TransferFn = LinearFn>, T: Div> DivSpecImpl<Rgb<S, T>> for Rgb<S, T> {
    open spec fn obeys_div_spec() -> bool {
        T::obeys_div_spec()
    }

    open spec fn div_req(self, other: Rgb<S, T>) -> bool {
        &&& self.red.div_req(other.red)
        &&& self.green.div_req(other.green)
        &&& self.blue.div_req(other.blue)
    }

    open spec fn div_spec(self, other: Rgb<S, T>) -> Self::Output {
        Rgb {
            red: self.red.div_spec(other.red),
            green: self.green.div_spec(other.green),
            blue: self.blue.div_spec(other.blue),
            standard: PhantomData,
        }
    }
}

/// Quotient of each component of a color and a scalar.
impl<S: RgbStandard<TransferFn = LinearFn>, T: Div + Copy> Div<T> for Rgb<S, T> {
    type Output = Rgb<S, <T as Div>::Output>;

    fn div(self, c: T) -> (r: Self::Output) {
        Rgb {
            red: self.red / c,
            green: self.green / c,
            blue: self.blue / c,
            standard: PhantomData,
        }
    }
}

impl<S: RgbStandard<TransferFn = LinearFn>, T: Div + Copy> DivSpecImpl<T> for Rgb<S, T> {
    open spec fn obeys_div_spec() -> bool {
        T::obeys_div_spec()
    }

    open spec fn div_req(self, c: T) -> bool {
        &&& self.red.div_req(c)
        &&& self.green.div_req(c)
        &&& self.blue.div_req(c)
    }

    open spec fn div_spec(self, c: T) -> Self::Output {
        Rgb {
            red: self.red.div_spec(c),
            green: self.green.div_spec(c),
            blue: self.blue.div_spec(c),
            standard: PhantomData,
        }
    }
}

/// In-place arithmetic: `*self` becomes `*self` combined with `other`, which is
/// another color or a scalar.
impl<S: RgbStandard<TransferFn = LinearFn>, T: Copy> Rgb<S, T> {
    /// Adds `other` in place, component by component.
    pub fn add_assign<R>(&mut self, other: R) where Self: Add<R, Output = Self>
        requires
            old(self).add_req(other),
        ensures
            <Self as AddSpec<R>>::obeys_add_spec() ==> *final(self) == old(self).add_spec(other),
    {
        *self = *self + other;
    }

    /// Subtracts `other` in place, component by component.
    pub fn sub_assign<R>(&mut self, other: R) where Self: Sub<R, Output = Self>
        requires
            old(self).sub_req(other),
        ensures
            <Self as SubSpec<R>>::obeys_sub_spec() ==> *final(self) == old(self).sub_spec(other),
    {
        *self = *self - other;
    }

    /// Multiplies by `other` in place, component by component.
    pub fn mul_assign<R>(&mut self, other: R) where Self: Mul<R, Output = Self>
        requires
            old(self).mul_req(other),
        ensures
            <Self as MulSpec<R>>::obeys_mul_spec() ==> *final(self) == old(self).mul_spec(other),
    {
        *self = *self * other;
    }

    /// Divides by `other` in place, component by component.
    pub fn div_assign<R>(&mut self, other: R) where Self: Div<R, Output = Self>
        requires
            old(self).div_req(other),
        ensures
            <Self as DivSpec<R>>::obeys_div_spec() ==> *final(self) == old(self).div_spec(other),
    {
        *self = *self / other;
    }
}

} // verus!
