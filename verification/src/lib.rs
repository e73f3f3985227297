//! Size negotiation for nested terminal elements, and frame-scoped access to
//! dynamic values.
//!
//! The geometry half holds the constraint window, the sizes that come out of
//! a layout pass and the border layout, which insets its single child by a
//! fixed frame. The value half holds the scalar kinds, the borrowed
//! value reference that a frame hands to its readers, the conversions of
//! host values into such a reference, and the fallible conversions from it
//! to concrete types.

pub mod border;
pub mod convert;
pub mod geometry;
pub mod host;
pub mod scalar;
pub mod value;

pub use border::{BorderLayout, Plan};
pub use geometry::{Constraints, Error, Size};
pub use scalar::{Color, Num, Owned};
pub use value::{Collection, ExpressionMap, Expressions, ValueExpr, ValueRef};
