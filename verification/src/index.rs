//! Component, row and column selectors.

use vstd::prelude::*;

verus! {

/// The number of components of a four-component vector, and of rows and
/// columns of a 4x4 matrix.
pub const DIMENSION: usize = 4;

/// A selector that names no component, row or column: it is not below
/// [`DIMENSION`].
#[derive(Debug, Clone, Copy, PartialEq, Eq)]
pub struct InvalidIndex {
    /// The selector that was refused.
    pub index: usize,
}

/// One of the three coordinate axes.
#[derive(Debug, Clone, Copy, PartialEq, Eq)]
pub enum Axis {
    X,
    Y,
    Z,
}

} // verus!
