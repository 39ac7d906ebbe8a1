//! Nested-module demonstration: a function buried one module deeper, called
//! through its full path.

pub mod of;
