//! Three-dimensional vectors over a generic scalar type, with their algebra
//! (dot and cross products) and the componentwise and scalar operators.
pub mod vector;
