//! A headless rendering backend: a renderer that records every filled
//! rectangle it is handed, with the accumulated translation applied, and a
//! surface wrapping it. It lets a host or a test harness drive the window
//! manager and inspect exactly what a frame drew, without a platform window.

use vstd::prelude::*;

use crate::abstraction::{RenderSurface, Renderer};
use crate::color::Color;
use crate::data::{spec_dim_add, Dim};
use crate::visuals::Rectangle;

verus! {

/// Records draws instead of rasterizing them. `ops` holds the filled
/// rectangles of the current frame in submission order, each with the
/// translation at submission time already applied to its position.
pub struct HeadlessRenderer {
    pub tx: u64,
    pub ty: u64,
    pub ops: Vec<Rectangle>,
}

impl Renderer for HeadlessRenderer {
    /// Appends the rectangle, moved by the accumulated translation.
    fn draw_rectangle(&mut self, x: Dim, y: Dim, width: Dim, height: Dim, fill: Color)
        ensures
            final(self).tx == old(self).tx,
            final(self).ty == old(self).ty,
            final(self).ops@ == old(self).ops@.push(
                Rectangle {
                    x: spec_dim_add(x, old(self).tx),
                    y: spec_dim_add(y, old(self).ty),
                    width,
                    height,
                    fill,
                },
            ),
    {
        let op = Rectangle {
            x: x.saturating_add(self.tx),
            y: y.saturating_add(self.ty),
            width,
            height,
            fill,
        };
        self.ops.push(op);
    }

    /// Accumulates the origin offset applied to subsequent draws.
    fn translate(&mut self, x: u64, y: u64)
        ensures
            final(self).tx == spec_dim_add(Dim::Finite(old(self).tx), x)->Finite_0,
            final(self).ty == spec_dim_add(Dim::Finite(old(self).ty), y)->Finite_0,
            final(self).ops == old(self).ops,
    {
        self.tx = match self.tx.checked_add(x) {
            Some(s) => s,
            None => u64::MAX,
        };
        self.ty = match self.ty.checked_add(y) {
            Some(s) => s,
            None => u64::MAX,
        };
    }
}

/// A render surface over a recording renderer, standing in for a platform
/// window with the identifier it was created with.
pub struct HeadlessSurface {
    pub platform_id: u64,
    pub painter: HeadlessRenderer,
}

impl HeadlessSurface {
    /// A fresh surface for platform window `platform_id`, with an empty
    /// frame and no translation.
    pub fn new(platform_id: u64) -> (s: HeadlessSurface)
        ensures
            s.platform_id == platform_id,
            s.painter.tx == 0,
            s.painter.ty == 0,
            s.painter.ops@.len() == 0,
    {
        HeadlessSurface {
            platform_id,
            painter: HeadlessRenderer { tx: 0, ty: 0, ops: Vec::new() },
        }
    }
}

impl RenderSurface for HeadlessSurface {
    type Painter = HeadlessRenderer;

    open spec fn id(&self) -> u64 {
        self.platform_id
    }

    fn window_id(&self) -> (r: u64) {
        self.platform_id
    }

    /// Begins a frame: clears the recorded primitives and resets the
    /// translation, as a rasterizing backend resets its matrix and clears
    /// its canvas.
    fn start_rendering(&mut self)
        ensures
            final(self).platform_id == old(self).platform_id,
            final(self).painter.tx == 0,
            final(self).painter.ty == 0,
            final(self).painter.ops@.len() == 0,
    {
        self.painter.tx = 0;
        self.painter.ty = 0;
        self.painter.ops = Vec::new();
    }

    fn renderer(&mut self) -> (r: &mut HeadlessRenderer)
        ensures
            *r == old(self).painter,
            *final(self) == (HeadlessSurface {
                painter: *final(r),
                ..*old(self)
            }),
    {
        &mut self.painter
    }

    /// Ends the frame. There is nothing to present; the recorded frame
    /// stays inspectable until the next `start_rendering`.
    fn finish_rendering(&mut self)
        ensures
            *final(self) == *old(self),
    {
    }

    /// Forwarded to the recording renderer.
    fn translate(&mut self, x: u64, y: u64)
        ensures
            final(self).platform_id == old(self).platform_id,
            final(self).painter.ops == old(self).painter.ops,
            final(self).painter.tx == spec_dim_add(Dim::Finite(old(self).painter.tx), x)->Finite_0,
            final(self).painter.ty == spec_dim_add(Dim::Finite(old(self).painter.ty), y)->Finite_0,
    {
        self.painter.translate(x, y);
    }
}

} // verus!
