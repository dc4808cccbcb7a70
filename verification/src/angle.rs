//! Conversion between degrees and radians.
//!
//! A scalar type has no constant of its own for the circle, so the caller
//! hands in its value of pi.

use crate::scalar::can_divide;
use crate::scalar::can_multiply;
use crate::scalar::is_number;
use crate::scalar::is_product;
use crate::scalar::is_quotient;
use crate::scalar::number;
use crate::scalar::Scalar;
use vstd::prelude::*;

verus! {

/// The degrees in half a turn.
pub const HALF_TURN: i16 = 180;

/// `pi` may be divided by the scalar for 180, and `angle` may be multiplied
/// by whatever that gives.
pub open spec fn can_convert_to_radians<T: Scalar>(angle: T, pi: T) -> bool {
    &&& forall|half_turn: T| #[trigger]
        is_number(HALF_TURN as int, half_turn) ==> can_divide(pi, half_turn)
    &&& forall|half_turn: T, factor: T|
        is_number(HALF_TURN as int, half_turn) && #[trigger] is_quotient(pi, half_turn, factor)
            ==> can_multiply(angle, factor)
}

/// `radians` is a value that `angle * (pi / 180)` may give.
pub open spec fn is_radians<T: Scalar>(angle: T, pi: T, radians: T) -> bool {
    exists|half_turn: T, factor: T|
        #![trigger is_quotient(pi, half_turn, factor)]
        is_number(HALF_TURN as int, half_turn) && is_quotient(pi, half_turn, factor) && is_product(
            angle,
            factor,
            radians,
        )
}

/// The scalar for 180 may be divided by `pi`, and `radians` may be
/// multiplied by whatever that gives.
pub open spec fn can_convert_to_degrees<T: Scalar>(radians: T, pi: T) -> bool {
    &&& forall|half_turn: T| #[trigger]
        is_number(HALF_TURN as int, half_turn) ==> can_divide(half_turn, pi)
    &&& forall|half_turn: T, factor: T|
        is_number(HALF_TURN as int, half_turn) && #[trigger] is_quotient(half_turn, pi, factor)
            ==> can_multiply(radians, factor)
}

/// `degrees` is a value that `radians * (180 / pi)` may give.
pub open spec fn is_degrees<T: Scalar>(radians: T, pi: T, degrees: T) -> bool {
    exists|half_turn: T, factor: T|
        #![trigger is_quotient(half_turn, pi, factor)]
        is_number(HALF_TURN as int, half_turn) && is_quotient(half_turn, pi, factor) && is_product(
            radians,
            factor,
            degrees,
        )
}

/// An angle in degrees as radians: `angle * (pi / 180)`.
pub fn convert_to_radians<T: Scalar>(angle: T, pi: T) -> (radians: T)
    requires
        can_convert_to_radians(angle, pi),
    ensures
        is_radians(angle, pi, radians),
{
    let half_turn: T = number(HALF_TURN);
    let factor = pi / half_turn;
    assert(is_quotient(pi, half_turn, factor));
    angle * factor
}

/// An angle in radians as degrees: `radians * (180 / pi)`.
pub fn convert_to_degrees<T: Scalar>(radians: T, pi: T) -> (degrees: T)
    requires
        can_convert_to_degrees(radians, pi),
    ensures
        is_degrees(radians, pi, degrees),
{
    let half_turn: T = number(HALF_TURN);
    let factor = half_turn / pi;
    assert(is_quotient(half_turn, pi, factor));
    radians * factor
}

} // verus!
