//! Stock components exercising the layout protocol.

pub mod scrollbar;

pub use scrollbar::ScrollBar;
