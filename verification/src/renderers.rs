//! Concrete rendering backends and their provisioning errors. The library
//! ships a verified headless backend that records the primitives it is
//! handed; GPU-accelerated backends live with the host, outside the library.

use vstd::prelude::*;

pub mod headless;

pub use headless::{HeadlessRenderer, HeadlessSurface};

verus! {

/// Why provisioning a render surface failed at the platform or GPU layer.
/// Carried messages are the backend's own descriptions of the failure.
#[derive(Clone, Debug, PartialEq, Eq)]
pub enum Errors {
    /// The platform refused to create a window.
    FailedToCreateWindow,
    /// Neither the preferred nor the fallback graphics API yielded a
    /// context; both failures are carried.
    FailedToCreateContext(String, String),
    /// The window surface could not be created on the graphics display.
    FailedToCreateSurface(String),
    /// The context could not be made current for the new surface.
    FailedToCreateContextForSurface(String),
    /// The graphics function loader yielded no usable interface.
    FailedToCreateInterface,
}

} // verus!
