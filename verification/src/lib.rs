//! Built-in operators of a dataflow query engine, evaluated over bound values.
//!
//! The library never computes in floating point. A number is held by the bits
//! of its IEEE 754 double, a numeric result is handed back as an arithmetic
//! expression over such numbers, and the host's floating-point unit evaluates
//! it. Everything that is decided on the way (which rows come out, which calls
//! are type errors, what the error row says) is decided here.

pub mod cell;
pub mod formula;
pub mod laws;
pub mod number;
pub mod primitive;
pub mod registry;
pub mod text;
pub mod value;

pub use crate::cell::Cell;
pub use crate::formula::{Expr, Function, Operation};
pub use crate::number::Comparison;
pub use crate::primitive::Primitive;
pub use crate::registry::primitives;
pub use crate::value::Value;
