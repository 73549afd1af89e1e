//! Geometry and dynamics core of a 2D physics sandbox: the integer and
//! combinatorial parts, each with a verified contract.

pub mod connection;
pub mod integrators;
pub mod intersections;
pub mod shapes;
pub mod wrapping_windows;

pub use wrapping_windows::{WrappingWindows, WrappingWindowsIter};
