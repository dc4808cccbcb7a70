//! The scalar a vector or matrix holds, and the vocabulary in which the
//! arithmetic contracts of this crate are written.

use core::ops::Add;
use core::ops::Div;
use core::ops::Mul;
use core::ops::Sub;
use vstd::prelude::*;

verus! {

/// What a component type must offer: it is copied freely, small integers
/// convert into it, and the four arithmetic operators stay inside it.
///
/// The trait has no methods of its own and every type with these operators
/// has it.
pub trait Scalar: Copy + From<i16> + Add<Output = Self> + Sub<Output = Self> + Mul<
    Output = Self,
> + Div<Output = Self> {

}

impl<T> Scalar for T where
    T: Copy + From<i16> + Add<Output = T> + Sub<Output = T> + Mul<Output = T> + Div<Output = T>,
 {

}

/// `r` is a value that converting the integer `n` into the scalar may give.
/// Only integers of sixteen bits convert.
pub open spec fn is_number<T: Scalar>(n: int, r: T) -> bool {
    i16::MIN <= n <= i16::MAX && call_ensures(T::from, (n as i16,), r)
}

/// `a + b` may be evaluated.
pub open spec fn can_add<T: Scalar>(a: T, b: T) -> bool {
    call_requires(T::add, (a, b))
}

/// `r` is a value that `a + b` may give.
pub open spec fn is_sum<T: Scalar>(a: T, b: T, r: T) -> bool {
    call_ensures(T::add, (a, b), r)
}

/// `a - b` may be evaluated.
pub open spec fn can_subtract<T: Scalar>(a: T, b: T) -> bool {
    call_requires(T::sub, (a, b))
}

/// `r` is a value that `a - b` may give.
pub open spec fn is_difference<T: Scalar>(a: T, b: T, r: T) -> bool {
    call_ensures(T::sub, (a, b), r)
}

/// `a * b` may be evaluated.
pub open spec fn can_multiply<T: Scalar>(a: T, b: T) -> bool {
    call_requires(T::mul, (a, b))
}

/// `r` is a value that `a * b` may give.
pub open spec fn is_product<T: Scalar>(a: T, b: T, r: T) -> bool {
    call_ensures(T::mul, (a, b), r)
}

/// `a / b` may be evaluated.
pub open spec fn can_divide<T: Scalar>(a: T, b: T) -> bool {
    call_requires(T::div, (a, b))
}

/// `r` is a value that `a / b` may give.
pub open spec fn is_quotient<T: Scalar>(a: T, b: T, r: T) -> bool {
    call_ensures(T::div, (a, b), r)
}

/// Zero and one act on `a` as they do in a ring: `a * 1` gives `a`,
/// `a * 0` gives a zero, and adding a zero on either side gives `a`. Zero and
/// one stand for every value that converting 0 and 1 may give.
pub open spec fn units_act_on<T: Scalar>(a: T) -> bool {
    &&& forall|one: T, p: T| is_number(1, one) && #[trigger] is_product(a, one, p) ==> p == a
    &&& forall|zero: T, p: T|
        is_number(0, zero) && #[trigger] is_product(a, zero, p) ==> is_number(0, p)
    &&& forall|zero: T, s: T| is_number(0, zero) && #[trigger] is_sum(zero, a, s) ==> s == a
    &&& forall|zero: T, s: T| is_number(0, zero) && #[trigger] is_sum(a, zero, s) ==> s == a
}

/// The scalar for the integer `n`.
pub(crate) fn number<T: Scalar>(n: i16) -> (r: T)
    ensures
        is_number(n as int, r),
{
    T::from(n)
}

} // verus!
