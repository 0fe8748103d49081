//! A filled rectangle, the one primitive the stock components draw with.

use vstd::prelude::*;

use crate::abstraction::{Renderer, Visual};
use crate::color::Color;
use crate::data::Dim;

verus! {

/// A filled axis-aligned rectangle in the current coordinate space.
#[derive(Clone, Copy, Debug, PartialEq, Eq, Structural)]
pub struct Rectangle {
    pub x: Dim,
    pub y: Dim,
    pub width: Dim,
    pub height: Dim,
    pub fill: Color,
}

impl Visual for Rectangle {
    fn draw<R: Renderer>(&self, renderer: &mut R) {
        renderer.draw_rectangle(self.x, self.y, self.width, self.height, self.fill);
    }
}

} // verus!
