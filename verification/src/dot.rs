//! The sum of products that every transform in this crate is built from.
//!
//! The dot product is specified twice. For every scalar it is a chain of
//! operator results, each a value that the operator may give
//! ([`is_dot_chain`]). For a scalar whose operators are functions of their
//! operands it is also the one value that the chain can have
//! ([`exact_dot`]), which needs no quantifier.

use crate::scalar::can_add;
use crate::scalar::can_multiply;
use crate::scalar::is_number;
use crate::scalar::is_product;
use crate::scalar::is_sum;
use crate::scalar::number;
use crate::scalar::Scalar;
use vstd::prelude::*;
use vstd::std_specs::convert::FromSpec;
use vstd::std_specs::ops::AddSpec;
use vstd::std_specs::ops::MulSpec;

verus! {

/// `next` is a value that adding the product `col[i] * row[i]` to `acc` may
/// give, the product standing on the right of the sum.
pub open spec fn is_dot_step<T: Scalar>(col: Seq<T>, row: Seq<T>, i: int, acc: T, next: T) -> bool {
    exists|p: T|
        #![trigger is_sum(acc, p, next)]
        is_product(col[i], row[i], p) && is_sum(acc, p, next)
}

/// `r` is a value that accumulating the first `n` products
/// `col[i] * row[i]` may give: the accumulator starts at the scalar for 0 and
/// takes one step per product, in index order. `n` is at most four.
///
/// A proof sees this definition after `reveal(is_partial_dot)`.
#[verifier::opaque]
pub open spec fn is_partial_dot<T: Scalar>(col: Seq<T>, row: Seq<T>, n: nat, r: T) -> bool {
    if n == 0 {
        is_number(0, r)
    } else if n == 1 {
        exists|a: T|
            #![trigger is_dot_step(col, row, 0, a, r)]
            is_number(0, a) && is_dot_step(col, row, 0, a, r)
    } else if n == 2 {
        exists|a: T, b: T|
            #![trigger is_dot_step(col, row, 0, a, b), is_dot_step(col, row, 1, b, r)]
            is_number(0, a) && is_dot_step(col, row, 0, a, b) && is_dot_step(col, row, 1, b, r)
    } else if n == 3 {
        exists|a: T, b: T, c: T|
            #![trigger is_dot_step(col, row, 0, a, b), is_dot_step(col, row, 1, b, c), is_dot_step(col, row, 2, c, r)]
            is_number(0, a) && is_dot_step(col, row, 0, a, b) && is_dot_step(col, row, 1, b, c)
                && is_dot_step(col, row, 2, c, r)
    } else {
        exists|a: T, b: T, c: T, d: T|
            #![trigger is_dot_step(col, row, 0, a, b), is_dot_step(col, row, 1, b, c), is_dot_step(col, row, 2, c, d), is_dot_step(col, row, 3, d, r)]
            is_number(0, a) && is_dot_step(col, row, 0, a, b) && is_dot_step(col, row, 1, b, c)
                && is_dot_step(col, row, 2, c, d) && is_dot_step(col, row, 3, d, r)
    }
}

/// `r` is a value that the chain
/// `(((0 + col[0] * row[0]) + col[1] * row[1]) + col[2] * row[2]) + col[3] * row[3]`
/// may give.
pub open spec fn is_dot_chain<T: Scalar>(col: Seq<T>, row: Seq<T>, r: T) -> bool {
    is_partial_dot(col, row, 4, r)
}

/// The product at index `n` may be formed, and it may be added to whatever
/// the accumulator holds by then.
pub open spec fn dot_step_defined<T: Scalar>(col: Seq<T>, row: Seq<T>, n: nat) -> bool {
    &&& can_multiply(col[n as int], row[n as int])
    &&& forall|acc: T, p: T|
        #![trigger is_partial_dot(col, row, n, acc), is_product(col[n as int], row[n as int], p)]
        is_partial_dot(col, row, n, acc) && is_product(col[n as int], row[n as int], p)
            ==> can_add(acc, p)
}

/// Every operation of the chain may be evaluated, whatever the earlier ones
/// gave.
pub open spec fn dot_chain_defined<T: Scalar>(col: Seq<T>, row: Seq<T>) -> bool {
    &&& dot_step_defined(col, row, 0)
    &&& dot_step_defined(col, row, 1)
    &&& dot_step_defined(col, row, 2)
    &&& dot_step_defined(col, row, 3)
}

/// Converting an integer, adding and multiplying are functions of their
/// operands for the scalar `T`.
pub open spec fn has_exact_dot<T: Scalar>() -> bool {
    &&& <T as FromSpec<i16>>::obeys_from_spec()
    &&& <T as AddSpec>::obeys_add_spec()
    &&& <T as MulSpec>::obeys_mul_spec()
}

/// The value of the chain for a scalar whose operators are functions:
/// `(((0 + col[0] * row[0]) + col[1] * row[1]) + col[2] * row[2]) + col[3] * row[3]`.
pub open spec fn exact_dot<T: Scalar>(col: Seq<T>, row: Seq<T>) -> T {
    T::from_spec(0i16).add_spec(col[0].mul_spec(row[0])).add_spec(
        col[1].mul_spec(row[1]),
    ).add_spec(col[2].mul_spec(row[2])).add_spec(col[3].mul_spec(row[3]))
}

/// Each product and each partial sum of [`exact_dot`] may be formed.
pub open spec fn exact_dot_defined<T: Scalar>(col: Seq<T>, row: Seq<T>) -> bool {
    let term0 = col[0].mul_spec(row[0]);
    let term1 = col[1].mul_spec(row[1]);
    let term2 = col[2].mul_spec(row[2]);
    let term3 = col[3].mul_spec(row[3]);
    let sum0 = T::from_spec(0i16);
    let sum1 = sum0.add_spec(term0);
    let sum2 = sum1.add_spec(term1);
    let sum3 = sum2.add_spec(term2);
    &&& can_multiply(col[0], row[0]) && can_add(sum0, term0)
    &&& can_multiply(col[1], row[1]) && can_add(sum1, term1)
    &&& can_multiply(col[2], row[2]) && can_add(sum2, term2)
    &&& can_multiply(col[3], row[3]) && can_add(sum3, term3)
}

/// The dot product of `col` and `row` may be evaluated: every operation of
/// the chain may, whatever the earlier ones gave. Where the operators are
/// functions it is enough that the operations of [`exact_dot`] may.
pub open spec fn dot_defined<T: Scalar>(col: Seq<T>, row: Seq<T>) -> bool {
    dot_chain_defined(col, row) || (has_exact_dot::<T>() && exact_dot_defined(col, row))
}

/// `r` is a value that the dot product of `col` and `row` may give: a value
/// of the chain, and where the operators are functions the one value that
/// the chain has.
pub open spec fn is_dot<T: Scalar>(col: Seq<T>, row: Seq<T>, r: T) -> bool {
    &&& is_dot_chain(col, row, r)
    &&& has_exact_dot::<T>() ==> r == exact_dot(col, row)
}

/// For a scalar whose operators are functions of their operands, the chain
/// may be evaluated as soon as its four products and four sums may.
pub proof fn lemma_exact_dot_is_defined<T: Scalar>(col: Seq<T>, row: Seq<T>)
    requires
        has_exact_dot::<T>(),
        exact_dot_defined(col, row),
    ensures
        dot_chain_defined(col, row),
{
    reveal(is_partial_dot);
}

/// For a scalar whose operators are functions of their operands, the chain
/// has one value only.
pub proof fn lemma_dot_of_exact_scalars<T: Scalar>(col: Seq<T>, row: Seq<T>, r: T)
    requires
        has_exact_dot::<T>(),
        is_dot_chain(col, row, r),
    ensures
        r == exact_dot(col, row),
{
    reveal(is_partial_dot);
}

/// The dot product of a column and a row of four scalars:
/// `0 + col[0] * row[0] + col[1] * row[1] + col[2] * row[2] + col[3] * row[3]`,
/// associated to the left.
pub fn multiply_col_with_row<T: Scalar>(col: [T; 4], row: [T; 4]) -> (sum: T)
    requires
        dot_defined(col@, row@),
    ensures
        is_dot(col@, row@, sum),
{
    proof {
        if !dot_chain_defined(col@, row@) {
            lemma_exact_dot_is_defined(col@, row@);
        }
    }
    let mut sum: T = number(0);
    let mut i: usize = 0;
    proof {
        reveal(is_partial_dot);
    }
    while i < 4
        invariant
            i <= 4,
            dot_chain_defined(col@, row@),
            is_partial_dot(col@, row@, i as nat, sum),
        decreases 4 - i,
    {
        proof {
            reveal(is_partial_dot);
        }
        assert(dot_step_defined(col@, row@, i as nat));
        let p = col[i] * row[i];
        assert(is_product(col@[i as int], row@[i as int], p));
        let next = sum + p;
        assert(is_sum(sum, p, next));
        assert(is_dot_step(col@, row@, i as int, sum, next));
        assert(is_partial_dot(col@, row@, (i + 1) as nat, next));
        sum = next;
        i += 1;
    }
    proof {
        if has_exact_dot::<T>() {
            lemma_dot_of_exact_scalars(col@, row@, sum);
        }
    }
    sum
}

} // verus!
