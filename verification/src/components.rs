//! The components of the synthesis library, one per operator.

pub mod elementwise;
pub mod reduce;
pub mod shape;
pub mod arrays;
