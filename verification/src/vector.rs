//! Vectors of two, three and four components.

use crate::dot::dot_defined;
use crate::dot::is_dot;
use crate::dot::multiply_col_with_row;
use crate::index::Axis;
use crate::index::InvalidIndex;
use crate::index::DIMENSION;
use crate::matrix::can_negate;
use crate::matrix::is_negated;
use crate::matrix::is_rotation;
use crate::matrix::rotation;
use crate::matrix::Matrix4;
use crate::scalar::can_add;
use crate::scalar::can_divide;
use crate::scalar::can_multiply;
use crate::scalar::can_subtract;
use crate::scalar::is_difference;
use crate::scalar::is_number;
use crate::scalar::is_product;
use crate::scalar::is_quotient;
use crate::scalar::is_sum;
use crate::scalar::Scalar;
use vstd::prelude::*;

verus! {

/// A pair of coordinates.
#[derive(Debug, Clone, Copy)]
pub struct Vector2<T> {
    pub x: T,
    pub y: T,
}

/// A triple of coordinates.
#[derive(Debug, Clone, Copy)]
pub struct Vector3<T> {
    pub x: T,
    pub y: T,
    pub z: T,
}

/// A homogeneous vector: a point when `w` is one, a direction when it is
/// zero. The vector itself never checks `w`.
#[derive(Debug, Clone, Copy)]
pub struct Vector4<T> {
    pub x: T,
    pub y: T,
    pub z: T,
    pub w: T,
}

impl<T> View for Vector2<T> {
    type V = Seq<T>;

    /// The components in the order x, y.
    open spec fn view(&self) -> Seq<T> {
        seq![self.x, self.y]
    }
}

impl<T> View for Vector3<T> {
    type V = Seq<T>;

    /// The components in the order x, y, z.
    open spec fn view(&self) -> Seq<T> {
        seq![self.x, self.y, self.z]
    }
}

impl<T> View for Vector4<T> {
    type V = Seq<T>;

    /// The components in the order x, y, z, w.
    open spec fn view(&self) -> Seq<T> {
        seq![self.x, self.y, self.z, self.w]
    }
}

impl<T: Copy> Vector2<T> {
    pub fn new(x: T, y: T) -> (v: Self)
        ensures
            v.x == x,
            v.y == y,
    {
        Self { x, y }
    }
}

impl<T: Scalar> Vector2<T> {
    /// Component `k` is a one and the other a zero, each a value that
    /// converting 1 or 0 into the scalar may give.
    pub open spec fn is_unit(self, k: int) -> bool {
        &&& is_number(if k == 0 { 1 } else { 0 }, self.x)
        &&& is_number(if k == 1 { 1 } else { 0 }, self.y)
    }
}

impl<T: Copy> Vector3<T> {
    pub fn new(x: T, y: T, z: T) -> (v: Self)
        ensures
            v.x == x,
            v.y == y,
            v.z == z,
    {
        Self { x, y, z }
    }
}

impl<T: Scalar> Vector3<T> {
    /// Component `k` is a one and the others are zeros, each a value that
    /// converting 1 or 0 into the scalar may give.
    pub open spec fn is_unit(self, k: int) -> bool {
        &&& is_number(if k == 0 { 1 } else { 0 }, self.x)
        &&& is_number(if k == 1 { 1 } else { 0 }, self.y)
        &&& is_number(if k == 2 { 1 } else { 0 }, self.z)
    }
}

impl<T: Copy> Vector4<T> {
    pub fn new(x: T, y: T, z: T, w: T) -> (v: Self)
        ensures
            v.x == x,
            v.y == y,
            v.z == z,
            v.w == w,
    {
        Self { x, y, z, w }
    }

    /// The component that `i` selects: 0 is x, 1 is y, 2 is z, 3 is w.
    pub fn get_index(&self, i: usize) -> (c: T)
        requires
            i < DIMENSION,
        ensures
            c == self@[i as int],
    {
        match i {
            0 => self.x,
            1 => self.y,
            2 => self.z,
            3 => self.w,
            _ => vstd::pervasive::unreached(),
        }
    }

    /// The component that `i` selects, or the refusal of a selector that
    /// selects none.
    pub fn component_at(&self, i: usize) -> (c: Result<T, InvalidIndex>)
        ensures
            i < DIMENSION ==> c == Ok::<T, InvalidIndex>(self@[i as int]),
            i >= DIMENSION ==> c == Err::<T, InvalidIndex>(InvalidIndex { index: i }),
    {
        if i < DIMENSION {
            Ok(self.get_index(i))
        } else {
            Err(InvalidIndex { index: i })
        }
    }

    /// The components as `[x, y, z, w]`.
    pub fn as_array(&self) -> (a: [T; 4])
        ensures
            a@ == self@,
    {
        let a = [self.x, self.y, self.z, self.w];
        assert(a@ =~= self@);
        a
    }
}

impl<T: Scalar> Vector4<T> {
    /// Component `k` is a one and the others are zeros, each a value that
    /// converting 1 or 0 into the scalar may give.
    pub open spec fn is_unit(self, k: int) -> bool {
        &&& is_number(if k == 0 { 1 } else { 0 }, self.x)
        &&& is_number(if k == 1 { 1 } else { 0 }, self.y)
        &&& is_number(if k == 2 { 1 } else { 0 }, self.z)
        &&& is_number(if k == 3 { 1 } else { 0 }, self.w)
    }

    /// `n` may be added to each component.
    pub open spec fn can_add_scalar(self, n: T) -> bool {
        &&& can_add(self.x, n)
        &&& can_add(self.y, n)
        &&& can_add(self.z, n)
        &&& can_add(self.w, n)
    }

    /// Each component of `r` is a value that the same component of `self`
    /// plus `n` may give.
    pub open spec fn is_sum_with(self, n: T, r: Self) -> bool {
        &&& is_sum(self.x, n, r.x)
        &&& is_sum(self.y, n, r.y)
        &&& is_sum(self.z, n, r.z)
        &&& is_sum(self.w, n, r.w)
    }

    /// `n` may be subtracted from each component.
    pub open spec fn can_subtract_scalar(self, n: T) -> bool {
        &&& can_subtract(self.x, n)
        &&& can_subtract(self.y, n)
        &&& can_subtract(self.z, n)
        &&& can_subtract(self.w, n)
    }

    /// Each component of `r` is a value that the same component of `self`
    /// minus `n` may give.
    pub open spec fn is_difference_with(self, n: T, r: Self) -> bool {
        &&& is_difference(self.x, n, r.x)
        &&& is_difference(self.y, n, r.y)
        &&& is_difference(self.z, n, r.z)
        &&& is_difference(self.w, n, r.w)
    }

    /// Each component may be multiplied by `n`.
    pub open spec fn can_multiply_scalar(self, n: T) -> bool {
        &&& can_multiply(self.x, n)
        &&& can_multiply(self.y, n)
        &&& can_multiply(self.z, n)
        &&& can_multiply(self.w, n)
    }

    /// Each component of `r` is a value that the same component of `self`
    /// times `n` may give.
    pub open spec fn is_product_with(self, n: T, r: Self) -> bool {
        &&& is_product(self.x, n, r.x)
        &&& is_product(self.y, n, r.y)
        &&& is_product(self.z, n, r.z)
        &&& is_product(self.w, n, r.w)
    }

    /// Each component may be divided by `n`.
    pub open spec fn can_divide_scalar(self, n: T) -> bool {
        &&& can_divide(self.x, n)
        &&& can_divide(self.y, n)
        &&& can_divide(self.z, n)
        &&& can_divide(self.w, n)
    }

    /// Each component of `r` is a value that the same component of `self`
    /// divided by `n` may give.
    pub open spec fn is_quotient_with(self, n: T, r: Self) -> bool {
        &&& is_quotient(self.x, n, r.x)
        &&& is_quotient(self.y, n, r.y)
        &&& is_quotient(self.z, n, r.z)
        &&& is_quotient(self.w, n, r.w)
    }

    /// Adds `n` to all four components.
    pub fn add_scalar(&mut self, n: T)
        requires
            old(self).can_add_scalar(n),
        ensures
            old(self).is_sum_with(n, *final(self)),
    {
        self.x = self.x + n;
        self.y = self.y + n;
        self.z = self.z + n;
        self.w = self.w + n;
    }

    /// Subtracts `n` from all four components.
    pub fn subtract_scalar(&mut self, n: T)
        requires
            old(self).can_subtract_scalar(n),
        ensures
            old(self).is_difference_with(n, *final(self)),
    {
        self.x = self.x - n;
        self.y = self.y - n;
        self.z = self.z - n;
        self.w = self.w - n;
    }

    /// Multiplies all four components by `n`.
    pub fn multiply_scalar(&mut self, n: T)
        requires
            old(self).can_multiply_scalar(n),
        ensures
            old(self).is_product_with(n, *final(self)),
    {
        self.x = self.x * n;
        self.y = self.y * n;
        self.z = self.z * n;
        self.w = self.w * n;
    }

    /// Divides all four components by `n`. A scalar type decides for itself
    /// what dividing by its zero means: where it allows the division, the
    /// quotient it gives is stored.
    pub fn divide_scalar(&mut self, n: T)
        requires
            old(self).can_divide_scalar(n),
        ensures
            old(self).is_quotient_with(n, *final(self)),
    {
        self.x = self.x / n;
        self.y = self.y / n;
        self.z = self.z / n;
        self.w = self.w / n;
    }
}

impl<T: Scalar> Vector4<T> {
    /// The dot product of this vector with each row of `m` may be evaluated.
    pub open spec fn can_transform(self, m: Matrix4<T>) -> bool {
        &&& dot_defined(self@, m.spec_row(0))
        &&& dot_defined(self@, m.spec_row(1))
        &&& dot_defined(self@, m.spec_row(2))
        &&& dot_defined(self@, m.spec_row(3))
    }

    /// `out` is an image of this vector under `m`: component `i` of `out` is
    /// a value that the dot product of this vector with row `i` of `m` may
    /// give.
    pub open spec fn is_transformed(self, m: Matrix4<T>, out: Self) -> bool {
        &&& is_dot(self@, m.spec_row(0), out.x)
        &&& is_dot(self@, m.spec_row(1), out.y)
        &&& is_dot(self@, m.spec_row(2), out.z)
        &&& is_dot(self@, m.spec_row(3), out.w)
    }

    /// The sine and cosine may be taken of `angle`, the sine may be negated,
    /// and the rotation they make may be applied to this vector.
    pub open spec fn can_rotate<C: Fn(T) -> T, S: Fn(T) -> T>(
        self,
        axis: Axis,
        angle: T,
        cos: C,
        sin: S,
    ) -> bool {
        &&& call_requires(cos, (angle,))
        &&& call_requires(sin, (angle,))
        &&& forall|s: T| #[trigger] call_ensures(sin, (angle,), s) ==> can_negate(s)
        &&& forall|c: T, s: T, zero: T, one: T, minus_sin: T|
            call_ensures(cos, (angle,), c) && call_ensures(sin, (angle,), s) && is_number(0, zero)
                && is_number(1, one) && is_negated(s, minus_sin) ==> self.can_transform(
                #[trigger] rotation(axis, zero, one, c, s, minus_sin),
            )
    }

    /// `out` is an image of this vector under a rotation about `axis` whose
    /// cosine and sine are values that `cos` and `sin` may give for `angle`
    /// as it stands: the angle is handed to them unchanged.
    pub open spec fn is_rotated<C: Fn(T) -> T, S: Fn(T) -> T>(
        self,
        axis: Axis,
        angle: T,
        cos: C,
        sin: S,
        out: Self,
    ) -> bool {
        exists|c: T, s: T, m: Matrix4<T>|
            #![trigger is_rotation(axis, c, s, m)]
            call_ensures(cos, (angle,), c) && call_ensures(sin, (angle,), s) && is_rotation(
                axis,
                c,
                s,
                m,
            ) && self.is_transformed(m, out)
    }

    /// Replaces this vector by its image under `trans`. All four dot
    /// products read the vector as it was before the call.
    pub fn translate(&mut self, trans: Matrix4<T>)
        requires
            old(self).can_transform(trans),
        ensures
            old(self).is_transformed(trans, *final(self)),
    {
        let components = self.as_array();
        let x = multiply_col_with_row(components, trans.get_row(0));
        let y = multiply_col_with_row(components, trans.get_row(1));
        let z = multiply_col_with_row(components, trans.get_row(2));
        let w = multiply_col_with_row(components, trans.get_row(3));
        self.x = x;
        self.y = y;
        self.z = z;
        self.w = w;
    }

    /// Rotates this vector about `axis`. `cos` and `sin` are applied to
    /// `angle` as given, so the unit of the angle is theirs to define.
    pub fn rotate<C: Fn(T) -> T, S: Fn(T) -> T>(&mut self, axis: Axis, angle: T, cos: C, sin: S)
        requires
            old(self).can_rotate(axis, angle, cos, sin),
        ensures
            old(self).is_rotated(axis, angle, cos, sin, *final(self)),
    {
        let c = cos(angle);
        let s = sin(angle);
        let mat = Matrix4::create_rotation(axis, c, s);
        self.translate(mat);
    }
}

impl<T: Scalar> Vector4<T> {
    /// The squares of x, y and z may be formed and added up, whatever each
    /// step gives.
    pub open spec fn can_square_length(self) -> bool {
        &&& can_multiply(self.x, self.x)
        &&& can_multiply(self.y, self.y)
        &&& can_multiply(self.z, self.z)
        &&& forall|xx: T, yy: T|
            #![trigger is_product(self.x, self.x, xx), is_product(self.y, self.y, yy)]
            is_product(self.x, self.x, xx) && is_product(self.y, self.y, yy) ==> can_add(xx, yy)
        &&& forall|xx: T, yy: T, zz: T, xy: T|
            #![trigger is_sum(xx, yy, xy), is_product(self.z, self.z, zz)]
            is_product(self.x, self.x, xx) && is_product(self.y, self.y, yy) && is_product(
                self.z,
                self.z,
                zz,
            ) && is_sum(xx, yy, xy) ==> can_add(xy, zz)
    }

    /// `s` is a value that `(x * x + y * y) + z * z` may give. The component
    /// `w` takes no part.
    pub open spec fn is_squared_length(self, s: T) -> bool {
        exists|xx: T, yy: T, zz: T, xy: T|
            #![trigger is_sum(xx, yy, xy), is_sum(xy, zz, s)]
            is_product(self.x, self.x, xx) && is_product(self.y, self.y, yy) && is_product(
                self.z,
                self.z,
                zz,
            ) && is_sum(xx, yy, xy) && is_sum(xy, zz, s)
    }

    /// The squared length may be formed, and `sqrt` may be applied to it.
    pub open spec fn can_measure<F: Fn(T) -> T>(self, sqrt: F) -> bool {
        &&& self.can_square_length()
        &&& forall|s: T| #[trigger] self.is_squared_length(s) ==> call_requires(sqrt, (s,))
    }

    /// `length` is a value that `sqrt` may give for the squared length.
    pub open spec fn is_length<F: Fn(T) -> T>(self, sqrt: F, length: T) -> bool {
        exists|s: T|
            #![trigger call_ensures(sqrt, (s,), length)]
            self.is_squared_length(s) && call_ensures(sqrt, (s,), length)
    }

    /// The length may be taken, and x, y and z may be divided by it.
    pub open spec fn can_normalize<F: Fn(T) -> T>(self, sqrt: F) -> bool {
        &&& self.can_measure(sqrt)
        &&& forall|length: T| #[trigger]
            self.is_length(sqrt, length) ==> can_divide(self.x, length) && can_divide(
                self.y,
                length,
            ) && can_divide(self.z, length)
    }

    /// `out` holds x, y and z of this vector, each divided by one length of
    /// it, and its `w` unchanged.
    pub open spec fn is_normalized<F: Fn(T) -> T>(self, sqrt: F, out: Self) -> bool {
        exists|length: T|
            #![trigger self.is_length(sqrt, length)]
            self.is_length(sqrt, length) && is_quotient(self.x, length, out.x) && is_quotient(
                self.y,
                length,
                out.y,
            ) && is_quotient(self.z, length, out.z) && out.w == self.w
    }

    /// Divides x, y and z by the length of the vector and leaves `w` as it
    /// is. A vector of length zero is divided like any other.
    pub fn normalize<F: Fn(T) -> T>(&mut self, sqrt: F)
        requires
            old(self).can_normalize(sqrt),
        ensures
            old(self).is_normalized(sqrt, *final(self)),
    {
        let length: T = self.get_length(sqrt);

        self.x = self.x / length;
        self.y = self.y / length;
        self.z = self.z / length;
    }

    /// The Euclidean norm of (x, y, z): `sqrt` applied to the sum of their
    /// squares.
    pub fn get_length<F: Fn(T) -> T>(&self, sqrt: F) -> (length: T)
        requires
            self.can_measure(sqrt),
        ensures
            self.is_length(sqrt, length),
    {
        let xx = self.x * self.x;
        let yy = self.y * self.y;
        let zz = self.z * self.z;
        assert(is_product(self.x, self.x, xx) && is_product(self.y, self.y, yy) && is_product(
            self.z,
            self.z,
            zz,
        ));
        let xy = xx + yy;
        assert(is_sum(xx, yy, xy));
        let s = xy + zz;
        assert(is_sum(xy, zz, s));
        assert(self.is_squared_length(s));
        sqrt(s)
    }
}

} // verus!
