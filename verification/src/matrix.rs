//! Column-major matrices of rank two, three and four.

use crate::dot::dot_defined;
use crate::dot::is_dot;
use crate::dot::multiply_col_with_row;
use crate::index::Axis;
use crate::index::InvalidIndex;
use crate::index::DIMENSION;
use crate::scalar::can_multiply;
use crate::scalar::is_number;
use crate::scalar::is_product;
use crate::scalar::number;
use crate::scalar::Scalar;
use crate::vector::Vector2;
use crate::vector::Vector3;
use crate::vector::Vector4;
use vstd::prelude::*;

verus! {

/// A 2x2 matrix: `x` and `y` are its columns.
#[derive(Debug, Clone, Copy)]
pub struct Matrix2<T> {
    pub x: Vector2<T>,
    pub y: Vector2<T>,
}

/// A 3x3 matrix: `x`, `y` and `z` are its columns.
#[derive(Debug, Clone, Copy)]
pub struct Matrix3<T> {
    pub x: Vector3<T>,
    pub y: Vector3<T>,
    pub z: Vector3<T>,
}

/// A 4x4 matrix: `x`, `y`, `z` and `w` are its columns, so the entry in row
/// `r` of column `c` is component `r` of the `c`-th field.
#[derive(Debug, Clone, Copy)]
pub struct Matrix4<T> {
    pub x: Vector4<T>,
    pub y: Vector4<T>,
    pub z: Vector4<T>,
    pub w: Vector4<T>,
}

impl<T> View for Matrix2<T> {
    type V = Seq<Seq<T>>;

    /// The columns in storage order, each as the sequence of its components.
    open spec fn view(&self) -> Seq<Seq<T>> {
        seq![self.x@, self.y@]
    }
}

impl<T> View for Matrix3<T> {
    type V = Seq<Seq<T>>;

    /// The columns in storage order, each as the sequence of its components.
    open spec fn view(&self) -> Seq<Seq<T>> {
        seq![self.x@, self.y@, self.z@]
    }
}

impl<T> View for Matrix4<T> {
    type V = Seq<Seq<T>>;

    /// The columns in storage order, each as the sequence of its components.
    open spec fn view(&self) -> Seq<Seq<T>> {
        seq![self.x@, self.y@, self.z@, self.w@]
    }
}

/// `r` is a value that the scalar for -1 times `s` may give.
pub open spec fn is_negated<T: Scalar>(s: T, r: T) -> bool {
    exists|minus_one: T|
        #![trigger is_product(minus_one, s, r)]
        is_number(-1, minus_one) && is_product(minus_one, s, r)
}

/// `s` may be multiplied by whatever the scalar for -1 is.
pub open spec fn can_negate<T: Scalar>(s: T) -> bool {
    forall|minus_one: T| #[trigger] is_number(-1, minus_one) ==> can_multiply(minus_one, s)
}

/// The right-handed rotation about `axis`, written with the five scalars
/// that occur in it. Each line below is one column.
pub open spec fn rotation<T>(axis: Axis, zero: T, one: T, cos: T, sin: T, minus_sin: T) -> Matrix4<
    T,
> {
    match axis {
        Axis::X => Matrix4 {
            x: Vector4 { x: one, y: zero, z: zero, w: zero },
            y: Vector4 { x: zero, y: cos, z: sin, w: zero },
            z: Vector4 { x: zero, y: minus_sin, z: cos, w: zero },
            w: Vector4 { x: zero, y: zero, z: zero, w: one },
        },
        Axis::Y => Matrix4 {
            x: Vector4 { x: cos, y: zero, z: minus_sin, w: zero },
            y: Vector4 { x: zero, y: one, z: zero, w: zero },
            z: Vector4 { x: sin, y: zero, z: cos, w: zero },
            w: Vector4 { x: zero, y: zero, z: zero, w: one },
        },
        Axis::Z => Matrix4 {
            x: Vector4 { x: cos, y: sin, z: zero, w: zero },
            y: Vector4 { x: minus_sin, y: cos, z: zero, w: zero },
            z: Vector4 { x: zero, y: zero, z: one, w: zero },
            w: Vector4 { x: zero, y: zero, z: zero, w: one },
        },
    }
}

/// `m` is the rotation about `axis` for an angle whose cosine is `cos` and
/// whose sine is `sin`: zero and one are values that converting 0 and 1 may
/// give, and the negated sine is a value that multiplying `sin` by the
/// scalar for -1 may give.
pub open spec fn is_rotation<T: Scalar>(axis: Axis, cos: T, sin: T, m: Matrix4<T>) -> bool {
    exists|zero: T, one: T, minus_sin: T|
        #![trigger rotation(axis, zero, one, cos, sin, minus_sin)]
        is_number(0, zero) && is_number(1, one) && is_negated(sin, minus_sin) && m == rotation(
            axis,
            zero,
            one,
            cos,
            sin,
            minus_sin,
        )
}

impl<T: Copy> Matrix2<T> {
    /// The matrix with the given entries, listed column by column.
    pub fn new(c0r0: T, c0r1: T, c1r0: T, c1r1: T) -> (m: Self)
        ensures
            m.x == (Vector2 { x: c0r0, y: c0r1 }),
            m.y == (Vector2 { x: c1r0, y: c1r1 }),
    {
        Matrix2::from_columns(Vector2::new(c0r0, c0r1), Vector2::new(c1r0, c1r1))
    }

    /// The matrix whose columns are `c0` and `c1`.
    pub fn from_columns(c0: Vector2<T>, c1: Vector2<T>) -> (m: Self)
        ensures
            m.x == c0,
            m.y == c1,
    {
        Matrix2 { x: c0, y: c1 }
    }
}

impl<T: Scalar> Matrix2<T> {
    /// Ones on the diagonal and zeros elsewhere: column `c` is the unit
    /// vector of component `c`.
    pub open spec fn is_identity(self) -> bool {
        &&& self.x.is_unit(0)
        &&& self.y.is_unit(1)
    }

    /// The 2x2 identity.
    pub fn identity() -> (m: Self)
        ensures
            m.is_identity(),
    {
        let one: T = number(1);
        let zero: T = number(0);
        Matrix2::new(one, zero, zero, one)
    }
}

impl<T: Copy> Matrix3<T> {
    /// The matrix with the given entries, listed column by column.
    pub fn new(
        c0r0: T,
        c0r1: T,
        c0r2: T,
        c1r0: T,
        c1r1: T,
        c1r2: T,
        c2r0: T,
        c2r1: T,
        c2r2: T,
    ) -> (m: Self)
        ensures
            m.x == (Vector3 { x: c0r0, y: c0r1, z: c0r2 }),
            m.y == (Vector3 { x: c1r0, y: c1r1, z: c1r2 }),
            m.z == (Vector3 { x: c2r0, y: c2r1, z: c2r2 }),
    {
        Matrix3::from_columns(
            Vector3::new(c0r0, c0r1, c0r2),
            Vector3::new(c1r0, c1r1, c1r2),
            Vector3::new(c2r0, c2r1, c2r2),
        )
    }

    /// The matrix whose columns are `c0`, `c1` and `c2`.
    pub fn from_columns(c0: Vector3<T>, c1: Vector3<T>, c2: Vector3<T>) -> (m: Self)
        ensures
            m.x == c0,
            m.y == c1,
            m.z == c2,
    {
        Matrix3 { x: c0, y: c1, z: c2 }
    }
}

impl<T: Scalar> Matrix3<T> {
    /// Ones on the diagonal and zeros elsewhere: column `c` is the unit
    /// vector of component `c`.
    pub open spec fn is_identity(self) -> bool {
        &&& self.x.is_unit(0)
        &&& self.y.is_unit(1)
        &&& self.z.is_unit(2)
    }

    /// The 3x3 identity.
    pub fn identity() -> (m: Self)
        ensures
            m.is_identity(),
    {
        let one: T = number(1);
        let zero: T = number(0);
        Matrix3::new(one, zero, zero, zero, one, zero, zero, zero, one)
    }
}

impl<T: Copy> Matrix4<T> {
    /// The entry in row `r` of column `c`.
    pub open spec fn entry(self, r: int, c: int) -> T {
        self@[c][r]
    }

    /// Column `c`, top to bottom.
    pub open spec fn spec_column(self, c: int) -> Seq<T> {
        self@[c]
    }

    /// Row `r`, left to right.
    pub open spec fn spec_row(self, r: int) -> Seq<T> {
        seq![self.x@[r], self.y@[r], self.z@[r], self.w@[r]]
    }

    /// The sixteen entries, column after column.
    pub open spec fn flat(self) -> Seq<T> {
        self.x@ + self.y@ + self.z@ + self.w@
    }

    /// The matrix with the given entries, listed column by column.
    pub fn new(
        c0r0: T,
        c0r1: T,
        c0r2: T,
        c0r3: T,
        c1r0: T,
        c1r1: T,
        c1r2: T,
        c1r3: T,
        c2r0: T,
        c2r1: T,
        c2r2: T,
        c2r3: T,
        c3r0: T,
        c3r1: T,
        c3r2: T,
        c3r3: T,
    ) -> (m: Self)
        ensures
            m.x == (Vector4 { x: c0r0, y: c0r1, z: c0r2, w: c0r3 }),
            m.y == (Vector4 { x: c1r0, y: c1r1, z: c1r2, w: c1r3 }),
            m.z == (Vector4 { x: c2r0, y: c2r1, z: c2r2, w: c2r3 }),
            m.w == (Vector4 { x: c3r0, y: c3r1, z: c3r2, w: c3r3 }),
    {
        Matrix4::from_columns(
            Vector4::new(c0r0, c0r1, c0r2, c0r3),
            Vector4::new(c1r0, c1r1, c1r2, c1r3),
            Vector4::new(c2r0, c2r1, c2r2, c2r3),
            Vector4::new(c3r0, c3r1, c3r2, c3r3),
        )
    }

    /// The matrix whose columns are `c0`, `c1`, `c2` and `c3`.
    pub fn from_columns(c0: Vector4<T>, c1: Vector4<T>, c2: Vector4<T>, c3: Vector4<T>) -> (m:
        Self)
        ensures
            m.x == c0,
            m.y == c1,
            m.z == c2,
            m.w == c3,
    {
        Matrix4 { x: c0, y: c1, z: c2, w: c3 }
    }

    /// A copy of `base` whose last column holds the offset `vec` in its first
    /// three rows. The first three columns and the entry in the last row of
    /// the last column are those of `base`.
    pub fn create_translation(base: Matrix4<T>, vec: Vector3<T>) -> (m: Self)
        ensures
            m.x == base.x,
            m.y == base.y,
            m.z == base.z,
            m.w == (Vector4 { x: vec.x, y: vec.y, z: vec.z, w: base.w.w }),
    {
        Matrix4::from_columns(base.x, base.y, base.z, Vector4::new(vec.x, vec.y, vec.z, base.w.w))
    }

    /// Row `i`: component `i` of each column, in column order.
    pub fn get_row(&self, i: usize) -> (row: [T; 4])
        requires
            i < DIMENSION,
        ensures
            row@ == self.spec_row(i as int),
    {
        let row: [T; 4] = [
            self.x.get_index(i),
            self.y.get_index(i),
            self.z.get_index(i),
            self.w.get_index(i),
        ];
        assert(row@ =~= self.spec_row(i as int));
        row
    }

    /// Column `i` as it is stored.
    pub fn get_column(&self, i: usize) -> (column: [T; 4])
        requires
            i < DIMENSION,
        ensures
            column@ == self.spec_column(i as int),
    {
        match i {
            0 => self.x.as_array(),
            1 => self.y.as_array(),
            2 => self.z.as_array(),
            3 => self.w.as_array(),
            _ => vstd::pervasive::unreached(),
        }
    }

    /// Row `i`, or the refusal of a selector that names no row.
    pub fn row(&self, i: usize) -> (row: Result<[T; 4], InvalidIndex>)
        ensures
            i < DIMENSION ==> row is Ok && row->Ok_0@ == self.spec_row(i as int),
            i >= DIMENSION ==> row == Err::<[T; 4], InvalidIndex>(InvalidIndex { index: i }),
    {
        if i < DIMENSION {
            Ok(self.get_row(i))
        } else {
            Err(InvalidIndex { index: i })
        }
    }

    /// Column `i`, or the refusal of a selector that names no column.
    pub fn column(&self, i: usize) -> (column: Result<[T; 4], InvalidIndex>)
        ensures
            i < DIMENSION ==> column is Ok && column->Ok_0@ == self.spec_column(i as int),
            i >= DIMENSION ==> column == Err::<[T; 4], InvalidIndex>(InvalidIndex { index: i }),
    {
        if i < DIMENSION {
            Ok(self.get_column(i))
        } else {
            Err(InvalidIndex { index: i })
        }
    }

    /// The sixteen entries as one array, column after column, which is the
    /// order in which a 4x4 shader uniform takes them.
    pub fn to_array(&self) -> (flat: [T; 16])
        ensures
            flat@ == self.flat(),
    {
        let flat = [
            self.x.x,
            self.x.y,
            self.x.z,
            self.x.w,
            self.y.x,
            self.y.y,
            self.y.z,
            self.y.w,
            self.z.x,
            self.z.y,
            self.z.z,
            self.z.w,
            self.w.x,
            self.w.y,
            self.w.z,
            self.w.w,
        ];
        assert(flat@ =~= self.flat());
        flat
    }
}

impl<T: Scalar> Matrix4<T> {
    /// Ones on the diagonal and zeros elsewhere: column `c` is the unit
    /// vector of component `c`.
    pub open spec fn is_identity(self) -> bool {
        &&& self.x.is_unit(0)
        &&& self.y.is_unit(1)
        &&& self.z.is_unit(2)
        &&& self.w.is_unit(3)
    }

    /// `n` may be added to each entry.
    pub open spec fn can_add_scalar(self, n: T) -> bool {
        &&& self.x.can_add_scalar(n)
        &&& self.y.can_add_scalar(n)
        &&& self.z.can_add_scalar(n)
        &&& self.w.can_add_scalar(n)
    }

    /// Each entry of `r` is a value that the same entry of `self` plus `n`
    /// may give.
    pub open spec fn is_sum_with(self, n: T, r: Self) -> bool {
        &&& self.x.is_sum_with(n, r.x)
        &&& self.y.is_sum_with(n, r.y)
        &&& self.z.is_sum_with(n, r.z)
        &&& self.w.is_sum_with(n, r.w)
    }

    /// `n` may be subtracted from each entry.
    pub open spec fn can_subtract_scalar(self, n: T) -> bool {
        &&& self.x.can_subtract_scalar(n)
        &&& self.y.can_subtract_scalar(n)
        &&& self.z.can_subtract_scalar(n)
        &&& self.w.can_subtract_scalar(n)
    }

    /// Each entry of `r` is a value that the same entry of `self` minus `n`
    /// may give.
    pub open spec fn is_difference_with(self, n: T, r: Self) -> bool {
        &&& self.x.is_difference_with(n, r.x)
        &&& self.y.is_difference_with(n, r.y)
        &&& self.z.is_difference_with(n, r.z)
        &&& self.w.is_difference_with(n, r.w)
    }

    /// Each entry may be multiplied by `n`.
    pub open spec fn can_multiply_scalar(self, n: T) -> bool {
        &&& self.x.can_multiply_scalar(n)
        &&& self.y.can_multiply_scalar(n)
        &&& self.z.can_multiply_scalar(n)
        &&& self.w.can_multiply_scalar(n)
    }

    /// Each entry of `r` is a value that the same entry of `self` times `n`
    /// may give.
    pub open spec fn is_product_with(self, n: T, r: Self) -> bool {
        &&& self.x.is_product_with(n, r.x)
        &&& self.y.is_product_with(n, r.y)
        &&& self.z.is_product_with(n, r.z)
        &&& self.w.is_product_with(n, r.w)
    }

    /// Each entry may be divided by `n`.
    pub open spec fn can_divide_scalar(self, n: T) -> bool {
        &&& self.x.can_divide_scalar(n)
        &&& self.y.can_divide_scalar(n)
        &&& self.z.can_divide_scalar(n)
        &&& self.w.can_divide_scalar(n)
    }

    /// Each entry of `r` is a value that the same entry of `self` divided by
    /// `n` may give.
    pub open spec fn is_quotient_with(self, n: T, r: Self) -> bool {
        &&& self.x.is_quotient_with(n, r.x)
        &&& self.y.is_quotient_with(n, r.y)
        &&& self.z.is_quotient_with(n, r.z)
        &&& self.w.is_quotient_with(n, r.w)
    }

    /// The dot product of `column` with each row of `self` may be evaluated.
    pub open spec fn can_multiply_column(self, column: Seq<T>) -> bool {
        &&& dot_defined(column, self.spec_row(0))
        &&& dot_defined(column, self.spec_row(1))
        &&& dot_defined(column, self.spec_row(2))
        &&& dot_defined(column, self.spec_row(3))
    }

    /// Component `r` of `out` is a value that the dot product of `column`
    /// with row `r` of `self` may give.
    pub open spec fn is_product_column(self, column: Seq<T>, out: Vector4<T>) -> bool {
        &&& is_dot(column, self.spec_row(0), out.x)
        &&& is_dot(column, self.spec_row(1), out.y)
        &&& is_dot(column, self.spec_row(2), out.z)
        &&& is_dot(column, self.spec_row(3), out.w)
    }

    /// Each of the sixteen dot products of a row of `self` with a column of
    /// `m` may be evaluated.
    pub open spec fn can_multiply_matrix(self, m: Self) -> bool {
        &&& self.can_multiply_column(m.x@)
        &&& self.can_multiply_column(m.y@)
        &&& self.can_multiply_column(m.z@)
        &&& self.can_multiply_column(m.w@)
    }

    /// `p` is a product `self` x `m`: its entry in row `r` of column `c` is a
    /// value that the dot product of column `c` of `m` with row `r` of
    /// `self` may give.
    pub open spec fn is_matrix_product(self, m: Self, p: Self) -> bool {
        &&& self.is_product_column(m.x@, p.x)
        &&& self.is_product_column(m.y@, p.y)
        &&& self.is_product_column(m.z@, p.z)
        &&& self.is_product_column(m.w@, p.w)
    }

    /// Adds `n` to all sixteen entries.
    pub fn add_scalar(&mut self, n: T)
        requires
            old(self).can_add_scalar(n),
        ensures
            old(self).is_sum_with(n, *final(self)),
    {
        self.x.add_scalar(n);
        self.y.add_scalar(n);
        self.z.add_scalar(n);
        self.w.add_scalar(n);
    }

    /// Subtracts `n` from all sixteen entries.
    pub fn subtract_scalar(&mut self, n: T)
        requires
            old(self).can_subtract_scalar(n),
        ensures
            old(self).is_difference_with(n, *final(self)),
    {
        self.x.subtract_scalar(n);
        self.y.subtract_scalar(n);
        self.z.subtract_scalar(n);
        self.w.subtract_scalar(n);
    }

    /// Multiplies all sixteen entries by `n`.
    pub fn multiply_scalar(&mut self, n: T)
        requires
            old(self).can_multiply_scalar(n),
        ensures
            old(self).is_product_with(n, *final(self)),
    {
        self.x.multiply_scalar(n);
        self.y.multiply_scalar(n);
        self.z.multiply_scalar(n);
        self.w.multiply_scalar(n);
    }

    /// Divides all sixteen entries by `n`.
    pub fn divide_scalar(&mut self, n: T)
        requires
            old(self).can_divide_scalar(n),
        ensures
            old(self).is_quotient_with(n, *final(self)),
    {
        self.x.divide_scalar(n);
        self.y.divide_scalar(n);
        self.z.divide_scalar(n);
        self.w.divide_scalar(n);
    }

    /// Replaces `self` by `self` x `m`. The receiver supplies the rows and
    /// `m` the columns, and every row is read before anything is stored.
    pub fn multiply_matrix(&mut self, m: Matrix4<T>)
        requires
            old(self).can_multiply_matrix(m),
        ensures
            old(self).is_matrix_product(m, *final(self)),
    {
        let col0 = self.times_column(m, 0);
        let col1 = self.times_column(m, 1);
        let col2 = self.times_column(m, 2);
        let col3 = self.times_column(m, 3);

        self.x = col0;
        self.y = col1;
        self.z = col2;
        self.w = col3;
    }

    /// Column `c` of `self` x `m`.
    fn times_column(&self, m: Matrix4<T>, c: usize) -> (column: Vector4<T>)
        requires
            c < DIMENSION,
            self.can_multiply_column(m.spec_column(c as int)),
        ensures
            self.is_product_column(m.spec_column(c as int), column),
    {
        Vector4::new(
            multiply_col_with_row(m.get_column(c), self.get_row(0)),
            multiply_col_with_row(m.get_column(c), self.get_row(1)),
            multiply_col_with_row(m.get_column(c), self.get_row(2)),
            multiply_col_with_row(m.get_column(c), self.get_row(3)),
        )
    }

    /// The rotation about `axis` for an angle of which `cos` is the cosine
    /// and `sin` the sine.
    pub fn create_rotation(axis: Axis, cos: T, sin: T) -> (m: Self)
        requires
            can_negate(sin),
        ensures
            is_rotation(axis, cos, sin, m),
    {
        let zero: T = number(0);
        let one: T = number(1);
        let minus_one: T = number(-1);
        let minus_sin = minus_one * sin;
        assert(is_product(minus_one, sin, minus_sin));
        let m = match axis {
            Axis::X => Matrix4::from_columns(
                Vector4::new(one, zero, zero, zero),
                Vector4::new(zero, cos, sin, zero),
                Vector4::new(zero, minus_sin, cos, zero),
                Vector4::new(zero, zero, zero, one),
            ),
            Axis::Y => Matrix4::from_columns(
                Vector4::new(cos, zero, minus_sin, zero),
                Vector4::new(zero, one, zero, zero),
                Vector4::new(sin, zero, cos, zero),
                Vector4::new(zero, zero, zero, one),
            ),
            Axis::Z => Matrix4::from_columns(
                Vector4::new(cos, sin, zero, zero),
                Vector4::new(minus_sin, cos, zero, zero),
                Vector4::new(zero, zero, one, zero),
                Vector4::new(zero, zero, zero, one),
            ),
        };
        assert(m == rotation(axis, zero, one, cos, sin, minus_sin));
        m
    }

    /// The 4x4 identity.
    pub fn identity() -> (m: Self)
        ensures
            m.is_identity(),
    {
        let one: T = number(1);
        let zero: T = number(0);
        Matrix4::new(
            one,
            zero,
            zero,
            zero,
            zero,
            one,
            zero,
            zero,
            zero,
            zero,
            one,
            zero,
            zero,
            zero,
            zero,
            one,
        )
    }
}

} // verus!
