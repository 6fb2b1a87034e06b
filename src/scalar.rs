//! The number types that the scalar filters compute with, and the spec-level
//! view of their operators.
use core::ops::{Add, Div, Mul, Neg, Sub};
use vstd::prelude::*;
use vstd::std_specs::convert::FromSpec;
use vstd::std_specs::ops::{AddSpec, DivSpec, MulSpec, NegSpec, SubSpec};

verus! {

/// A number type with the four operations, negation and small integer
/// constants, as `f32` and `f64` have them.
pub trait Scalar: Copy + Add<Output = Self> + Sub<Output = Self> + Mul<Output = Self> + Div<
    Output = Self,
> + Neg<Output = Self> + From<u8> {

}

impl<T> Scalar for T where
    T: Copy + Add<Output = T> + Sub<Output = T> + Mul<Output = T> + Div<Output = T> + Neg<
        Output = T,
    > + From<u8>,
 {

}

/// Every operator of `T` is defined on all its operands, as the float
/// operators are: none of them fails.
pub open spec fn total<T: Scalar>() -> bool {
    &&& forall|a: T, b: T| #[trigger] a.add_req(b)
    &&& forall|a: T, b: T| #[trigger] a.sub_req(b)
    &&& forall|a: T, b: T| #[trigger] a.mul_req(b)
    &&& forall|a: T, b: T| #[trigger] a.div_req(b)
    &&& forall|a: T| #[trigger] a.neg_req()
}

/// Every operator of `T`, and its conversion from `u8`, computes what its
/// spec function says.
pub open spec fn exact<T: Scalar>() -> bool {
    &&& T::obeys_add_spec()
    &&& T::obeys_sub_spec()
    &&& T::obeys_mul_spec()
    &&& T::obeys_div_spec()
    &&& T::obeys_neg_spec()
    &&& <T as FromSpec<u8>>::obeys_from_spec()
}

/// `a + b` in `T`.
pub open spec fn plus<T: Scalar>(a: T, b: T) -> T {
    a.add_spec(b)
}

/// `a - b` in `T`.
pub open spec fn minus<T: Scalar>(a: T, b: T) -> T {
    a.sub_spec(b)
}

/// `a * b` in `T`.
pub open spec fn times<T: Scalar>(a: T, b: T) -> T {
    a.mul_spec(b)
}

/// `a / b` in `T`.
pub open spec fn over<T: Scalar>(a: T, b: T) -> T {
    a.div_spec(b)
}

/// `-a` in `T`.
pub open spec fn negated<T: Scalar>(a: T) -> T {
    a.neg_spec()
}

/// The integer `n` as a value of `T`.
pub open spec fn lit<T: Scalar>(n: u8) -> T {
    T::from_spec(n)
}

/// `a * a` in `T`.
pub open spec fn squared<T: Scalar>(a: T) -> T {
    times(a, a)
}

} // verus!
