//! A retained-mode UI toolkit skeleton: components negotiate size through a
//! measure/arrange/render protocol and emit drawing primitives, while a window
//! lifecycle manager tracks render targets through creation, close-request and
//! destruction.
//!
//! Layout lengths are integers in an arbitrary device unit chosen by the
//! embedder (whole pixels, tenths of a pixel, ...); an axis may instead be
//! marked unbounded, which stands for "unconstrained in this axis" during
//! size negotiation.

pub mod abstraction;
pub mod application;
pub mod color;
pub mod components;
pub mod data;
pub mod renderers;
pub mod sample;
pub mod visuals;
pub mod window;
