//! The drawable primitives components emit.

pub mod rectangle;

pub use rectangle::Rectangle;
