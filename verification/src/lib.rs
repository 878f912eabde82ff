//! A transparent wrapper that marks a scalar as eligible for relaxed
//! ("fast-math") arithmetic, together with its operator surface.
//!
//! The wrapper adds no arithmetic of its own. It takes each operator from
//! the scalar type inside it and carries the result on in wrapped form, so
//! a whole expression stays marked without being annotated again.
//!
//! * [`fast`] holds the wrapper itself: construction, conversion and
//!   transparent access to the wrapped scalar.
//! * [`ops`] holds the five binary operators in their three operand shapes.
//! * [`assign`] derives the compound assignments from the binary operators.
//! * [`compare`] gives wrappers the equality and order of their scalars.
//! * [`text`] hands the four textual forms on to the scalar.
//! * [`laws`] states what the operand shapes and the two ways of wrapping
//!   have in common.

pub mod assign;
pub mod compare;
pub mod fast;
pub mod laws;
pub mod ops;
pub mod text;

pub use fast::Fast;
