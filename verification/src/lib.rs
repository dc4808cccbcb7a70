//! Column-major vectors and matrices for building model, view and projection
//! transforms, generic over the scalar they hold.
//!
//! Moving components about (construction, rows, columns, the flat array) is
//! specified outright. Arithmetic is specified against the scalar's own
//! operators: a result is described as a value that the operator may give on
//! the stated operands, so the contracts hold for scalars whose arithmetic is
//! not a function of its operands alone as well as for those where it is.
//! What a scalar has no operator for (square root, sine, cosine, pi) the
//! caller hands in.
//!
//! - [`scalar`]: what a scalar is, and the words the contracts use;
//! - [`index`]: selectors of components, rows, columns and axes;
//! - [`dot`]: the dot product of four-component rows and columns;
//! - [`vector`], [`matrix`]: the types and their operations;
//! - [`angle`]: degrees and radians;
//! - [`laws`]: what holds of the operations taken together.

pub mod angle;
pub mod dot;
pub mod index;
pub mod laws;
pub mod matrix;
pub mod scalar;
pub mod vector;
