//! One window slot: the platform identifier, generation counter and owned
//! render surface of a logical window, plus the render pass that draws the
//! window's scene into its surface.

use vstd::prelude::*;

use crate::abstraction::{Component, RenderSurface, Visual};
use crate::components::ScrollBar;
use crate::data::{Dim, Size};

verus! {

/// One entry in the window manager's slot table.
///
/// * `id` is `None` exactly while the slot is free (never allocated, or fully
///   destroyed and reclaimed).
/// * `render_surface` is dropped (`None`) while the window is closing: the
///   close was requested but the platform has not yet confirmed destruction.
/// * `generation` increases every time the slot is reused, so a logical
///   window identity survives the platform reusing raw identifiers.
pub struct AppWindow<S> {
    pub id: Option<u64>,
    pub generation: usize,
    pub render_surface: Option<S>,
}

impl<S> AppWindow<S> {
    pub fn new(id: Option<u64>, render_surface: Option<S>, generation: usize) -> (w: AppWindow<S>)
        ensures
            w.id == id,
            w.generation == generation,
            w.render_surface.is_some() == render_surface.is_some(),
            w.render_surface == render_surface,
    {
        AppWindow { id, render_surface, generation }
    }
}

impl<S: RenderSurface> AppWindow<S> {
    /// One render pass: begins a frame on the owned surface, draws the
    /// window's scene (a stack of horizontal scroll bars at different
    /// positions), and presents the frame. Only windows that still own a
    /// surface are rendered; the slot's lifecycle state is untouched.
    pub fn render(&mut self)
        requires
            old(self).render_surface.is_some(),
        ensures
            final(self).id == old(self).id,
            final(self).generation == old(self).generation,
            final(self).render_surface.is_some(),
    {
        match &mut self.render_surface {
            Some(surface) => {
                surface.start_rendering();
                draw_scroll_bar_row(surface, 0);
                draw_scroll_bar_row(surface, 25);
                draw_scroll_bar_row(surface, 50);
                draw_scroll_bar_row(surface, 75);
                surface.finish_rendering();
            },
            None => {
                proof {
                    assert(false);
                }
            },
        }
    }
}

/// Lays out and draws one demo scroll bar at scroll position `value` over the
/// range 0..=100, inside a 100 by 100 unit area, advancing the surface's
/// vertical offset past the drawn row.
fn draw_scroll_bar_row<S: RenderSurface>(surface: &mut S, value: u64) {
    let area = Size { width: Dim::Finite(100), height: Dim::Finite(100) };
    surface.translate(0, 3);
    let mut scroll_bar = ScrollBar::new();
    scroll_bar.max_value = 100;
    scroll_bar.value = value;
    scroll_bar.bar_value = 40;
    scroll_bar.thickness = 14;
    scroll_bar.measure(area);
    scroll_bar.arrange(area);
    let visuals = scroll_bar.render();
    let n = visuals.len();
    let mut i: usize = 0;
    while i < n
        invariant
            i <= n,
            n == visuals.len(),
        decreases n - i,
    {
        visuals[i].draw(surface.renderer());
        i = i + 1;
    }
    surface.translate(0, 17);
}

} // verus!
