//! What holds of the operations taken together.

use crate::dot::is_dot;
use crate::dot::is_partial_dot;
use crate::dot::is_dot_step;
use crate::matrix::Matrix4;
use crate::scalar::is_number;
use crate::scalar::is_product;
use crate::scalar::is_sum;
use crate::scalar::units_act_on;
use crate::scalar::Scalar;
use crate::vector::Vector4;
use vstd::prelude::*;

verus! {

/// `row` holds a one at index `k` and zeros at the other three.
pub open spec fn is_unit_row<T: Scalar>(row: Seq<T>, k: int) -> bool {
    &&& row.len() == 4
    &&& is_number(if k == 0 { 1 } else { 0 }, row[0])
    &&& is_number(if k == 1 { 1 } else { 0 }, row[1])
    &&& is_number(if k == 2 { 1 } else { 0 }, row[2])
    &&& is_number(if k == 3 { 1 } else { 0 }, row[3])
}

/// Zero and one act as units on the four entries of `v` and on every zero.
pub open spec fn units_act_on_each<T: Scalar>(v: Seq<T>) -> bool {
    &&& v.len() == 4
    &&& forall|j: int| 0 <= j < 4 ==> units_act_on(#[trigger] v[j])
    &&& forall|zero: T| #[trigger] is_number(0, zero) ==> units_act_on(zero)
}

/// One step of a dot product with a unit row: a zero stays a zero until the
/// one is met, the step that meets it gives the entry of `v` there, and that
/// entry stays from then on.
proof fn lemma_step_with_unit_row<T: Scalar>(v: Seq<T>, row: Seq<T>, k: int, i: int, acc: T, next: T)
    requires
        0 <= k < 4,
        0 <= i < 4,
        is_unit_row(row, k),
        units_act_on_each(v),
        is_dot_step(v, row, i, acc, next),
        i <= k ==> is_number(0, acc),
        i > k ==> acc == v[k],
    ensures
        i < k ==> is_number(0, next),
        i >= k ==> next == v[k],
{
    let p = choose|p: T| is_product(v[i], row[i], p) && is_sum(acc, p, next);
    assert(units_act_on(v[i]));
    assert(units_act_on(v[k]));
    assert(is_number(if i == k { 1 } else { 0 }, row[i]));
    if i != k {
        assert(is_number(0, p));
        assert(units_act_on(p));
    }
}

/// The dot product of `v` with a unit row is the entry of `v` that meets
/// the one.
pub proof fn lemma_dot_with_unit_row<T: Scalar>(v: Seq<T>, row: Seq<T>, k: int, r: T)
    requires
        0 <= k < 4,
        is_unit_row(row, k),
        units_act_on_each(v),
        is_dot(v, row, r),
    ensures
        r == v[k],
{
    reveal(is_partial_dot);
    let (a, b, c, d) = choose|a: T, b: T, c: T, d: T|
        is_number(0, a) && is_dot_step(v, row, 0, a, b) && is_dot_step(v, row, 1, b, c)
            && is_dot_step(v, row, 2, c, d) && is_dot_step(v, row, 3, d, r);
    lemma_step_with_unit_row(v, row, k, 0, a, b);
    lemma_step_with_unit_row(v, row, k, 1, b, c);
    lemma_step_with_unit_row(v, row, k, 2, c, d);
    lemma_step_with_unit_row(v, row, k, 3, d, r);
}

/// The identity leaves every vector as it is: whatever `translate` stores
/// for a vector and an identity matrix is that vector again, provided zero
/// and one act as units on its components.
pub proof fn lemma_identity_keeps_vector<T: Scalar>(v: Vector4<T>, m: Matrix4<T>, out: Vector4<T>)
    requires
        m.is_identity(),
        units_act_on_each(v@),
        v.is_transformed(m, out),
    ensures
        out == v,
{
    lemma_dot_with_unit_row(v@, m.spec_row(0), 0, out.x);
    lemma_dot_with_unit_row(v@, m.spec_row(1), 1, out.y);
    lemma_dot_with_unit_row(v@, m.spec_row(2), 2, out.z);
    lemma_dot_with_unit_row(v@, m.spec_row(3), 3, out.w);
}

/// A row and a column cross at one entry: entry `c` of row `r` is entry `r`
/// of column `c`.
pub proof fn lemma_row_meets_column<T: Copy>(m: Matrix4<T>, r: int, c: int)
    requires
        0 <= r < 4,
        0 <= c < 4,
    ensures
        m.spec_row(r)[c] == m.spec_column(c)[r],
        m.spec_row(r)[c] == m.entry(r, c),
{
}

/// In a matrix of four identical columns every row repeats one component
/// four times, and every column is that one column.
pub proof fn lemma_identical_columns<T: Copy>(m: Matrix4<T>, i: int)
    requires
        0 <= i < 4,
        m.x == m.y,
        m.y == m.z,
        m.z == m.w,
    ensures
        m.spec_row(i) == seq![m.x@[i], m.x@[i], m.x@[i], m.x@[i]],
        m.spec_column(i) == m.x@,
{
}

/// The flat form is column-major: the entry in row `r` of column `c` stands
/// at `4 * c + r`.
pub proof fn lemma_flat_is_column_major<T: Copy>(m: Matrix4<T>, r: int, c: int)
    requires
        0 <= r < 4,
        0 <= c < 4,
    ensures
        m.flat().len() == 16,
        m.flat()[4 * c + r] == m.entry(r, c),
{
}

} // verus!
