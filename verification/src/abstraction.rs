//! The capability sets of the toolkit: what a drawing backend must expose
//! (`Renderer`, `RenderSurface`), what a drawable primitive can do (`Visual`),
//! and the measure/arrange/render protocol every UI element implements
//! (`Component`, with `ContainerComponent` as the composition capability).

use vstd::prelude::*;

use crate::color::Color;
use crate::data::{size_le, Dim, Size};
use crate::visuals::Rectangle;

verus! {

/// The capability set a drawing backend must expose: filling a rectangle and
/// translating the coordinate origin. Backends implement this outside the
/// library; no behavior is promised of them here.
pub trait Renderer {
    /// Fills the axis-aligned rectangle at (`x`, `y`) in the current
    /// coordinate space.
    fn draw_rectangle(&mut self, x: Dim, y: Dim, width: Dim, height: Dim, fill: Color);

    /// Accumulates an offset applied to all subsequent draws.
    fn translate(&mut self, x: u64, y: u64);
}

/// A drawable primitive that knows how to submit itself to a renderer,
/// decoupling "what to draw" from "how to draw it".
pub trait Visual {
    /// Submits this primitive to `renderer`.
    fn draw<R: Renderer>(&self, renderer: &mut R);
}

/// A render target bound to one platform window. Implemented by concrete
/// backends outside the library; the one fact the window manager relies on is
/// that `window_id` reports the platform identifier `id()` of the surface.
pub trait RenderSurface {
    /// The drawing capability this surface exposes between `start_rendering`
    /// and `finish_rendering`.
    type Painter: Renderer;

    /// The platform identifier of the window this surface is bound to.
    spec fn id(&self) -> u64;

    /// Reports the platform identifier of the bound window.
    fn window_id(&self) -> (r: u64)
        ensures
            r == self.id(),
    ;

    /// Begins a frame.
    fn start_rendering(&mut self);

    /// The drawing capability of the current frame.
    fn renderer(&mut self) -> &mut Self::Painter;

    /// Ends a frame: flushes and presents the drawn buffer.
    fn finish_rendering(&mut self);

    /// Forwarded convenience for `Renderer::translate`.
    fn translate(&mut self, x: u64, y: u64);
}

/// The three-phase contract between a layout host and any visual element.
/// Per rendered frame the host calls `measure` once, then `arrange` once with
/// a size derived from that measurement, then `render` any number of times.
///
/// Each phase is pinned to a spec-level function of the element's state, so
/// that within one arranged state every call is deterministic: in particular
/// two `render` calls with no intervening `arrange` emit the identical
/// primitive sequence.
pub trait Component: Sized {
    /// The size this element desires within `available`, including all of its
    /// children. `available` may be unbounded in either axis.
    spec fn spec_measure(&self, available: Size<Dim>) -> Size<Dim>;

    /// The element state after arranging into `given`, paired with the size
    /// actually used.
    spec fn spec_arrange(&self, given: Size<Dim>) -> (Self, Size<Dim>);

    /// The primitives `render` emits from the cached arrange-time state, in
    /// back-to-front order.
    spec fn spec_render(&self) -> Seq<Rectangle>;

    /// Measures the size this element requires, including its children. Must
    /// not mutate rendered state, and must accept the unbounded sentinel in
    /// either axis of `available`.
    fn measure(&self, available: Size<Dim>) -> (desired: Size<Dim>)
        ensures
            desired == self.spec_measure(available),
    ;

    /// Finalizes geometry for the authoritative space `given` and caches
    /// whatever `render` will need. The size returned never exceeds `given`
    /// in any axis.
    fn arrange(&mut self, given: Size<Dim>) -> (used: Size<Dim>)
        ensures
            (*final(self), used) == old(self).spec_arrange(given),
            size_le(used, given),
    ;

    /// Emits the cached primitives. Recomputes no layout, and may be called
    /// any number of times per arrange pass.
    fn render(&self) -> (out: Vec<Rectangle>)
        ensures
            out@ == self.spec_render(),
    ;
}

/// Rendering is idempotent: `render` emits exactly `spec_render` of the
/// component's state, and takes the component immutably, so two emissions of
/// one component with no intervening `arrange` — each bound by `render`'s
/// ensures — are the identical primitive sequence.
pub proof fn lemma_render_idempotent<C: Component>(c: C, first: Seq<Rectangle>, second: Seq<
    Rectangle,
>)
    requires
        first == c.spec_render(),
        second == c.spec_render(),
    ensures
        first == second,
{
}

/// The composition capability: a container owns an ordered sequence of child
/// components, whose order fixes measure/arrange traversal and render order.
pub trait ContainerComponent: Component {
    /// The kind of child this container owns.
    type Child: Component;

    /// Appends an owned child.
    fn add_child(&mut self, child: Box<Self::Child>);
}

} // verus!
