//! A scroll bar: a leaf component exercising the full layout protocol with
//! real track/thumb geometry derived from a value range.
//!
//! All geometry is exact integer arithmetic over the embedder's device unit.
//! Ratios are applied as `length * numerator / denominator` with truncating
//! division. Two edge policies are fixed here rather than left undefined:
//! when `max_value <= min_value` the value range collapses and both the thumb
//! length and the thumb offset are zero, and an unbounded track yields an
//! unbounded thumb at offset zero.

use vstd::prelude::*;

use crate::abstraction::Component;
use crate::color::Color;
use crate::data::{spec_dim_sub, spec_min_with, Dim, Orientation, Size};
use crate::visuals::Rectangle;

verus! {

/// `value - min_value`, saturating at zero.
pub open spec fn spec_sat_sub(value: u64, min_value: u64) -> u64 {
    if value >= min_value {
        (value - min_value) as u64
    } else {
        0
    }
}

/// `a + b`, saturating at the largest representable length.
pub open spec fn spec_sat_add(a: u64, b: u64) -> u64 {
    if a + b > u64::MAX {
        u64::MAX
    } else {
        (a + b) as u64
    }
}

/// `a * b / d` with truncating division, saturating at the largest
/// representable length; a zero denominator collapses to zero.
pub open spec fn spec_mul_div_sat(a: u64, b: u64, d: u64) -> u64 {
    if d == 0 {
        0
    } else {
        let q = a * b / (d as int);
        if q > u64::MAX {
            u64::MAX
        } else {
            q as u64
        }
    }
}

/// The width of the scroll bar's value range; collapsed to zero when
/// `max_value` does not exceed `min_value`.
pub open spec fn spec_value_span(min_value: u64, max_value: u64) -> u64 {
    if max_value > min_value {
        (max_value - min_value) as u64
    } else {
        0
    }
}

/// The thumb length: the track length scaled by `bar_value / span`, the
/// scale clamped to one so the thumb never overflows the track.
pub open spec fn spec_thumb_length(track: Dim, bar_value: u64, span: u64) -> Dim {
    if span == 0 {
        Dim::Finite(0)
    } else {
        match track {
            Dim::Unbounded => Dim::Unbounded,
            Dim::Finite(t) => Dim::Finite(
                spec_mul_div_sat(t, if bar_value <= span { bar_value } else { span }, span),
            ),
        }
    }
}

/// The thumb offset: the slack left of the thumb scaled by the normalized
/// scroll position `(value - min_value) / span`. The position is not clamped
/// above one, so a `value` beyond `max_value` pushes the thumb past the
/// track, exactly as an unclamped ratio would.
pub open spec fn spec_thumb_offset(
    track: Dim,
    thumb: Dim,
    value: u64,
    min_value: u64,
    span: u64,
) -> u64 {
    if span == 0 {
        0
    } else {
        let slack = match (track, thumb) {
            (Dim::Finite(t), Dim::Finite(l)) => if l <= t {
                (t - l) as u64
            } else {
                0
            },
            _ => 0,
        };
        spec_mul_div_sat(slack, spec_sat_sub(value, min_value), span)
    }
}

fn sat_sub(value: u64, min_value: u64) -> (r: u64)
    ensures
        r == spec_sat_sub(value, min_value),
{
    if value >= min_value {
        value - min_value
    } else {
        0
    }
}

fn sat_add(a: u64, b: u64) -> (r: u64)
    ensures
        r == spec_sat_add(a, b),
{
    match a.checked_add(b) {
        Some(s) => s,
        None => u64::MAX,
    }
}

fn mul_div_sat(a: u64, b: u64, d: u64) -> (r: u64)
    ensures
        r == spec_mul_div_sat(a, b, d),
{
    if d == 0 {
        0
    } else {
        proof {
            assert(a * b <= u128::MAX) by (nonlinear_arith)
                requires
                    a <= u64::MAX,
                    b <= u64::MAX,
            ;
        }
        let p: u128 = (a as u128) * (b as u128);
        let q: u128 = p / (d as u128);
        if q > (u64::MAX as u128) {
            u64::MAX
        } else {
            q as u64
        }
    }
}

/// A scroll bar over the value range `min_value ..= max_value`, showing a
/// thumb spanning `bar_value` of that range at position `value`. The four
/// `arrange`-time fields below the configuration are the cached geometry
/// `render` reads.
#[derive(Clone, Copy, Debug, PartialEq, Eq, Structural)]
pub struct ScrollBar {
    /// The orientation of the scroll bar.
    pub mode: Orientation,
    /// The thickness of the scroll bar.
    pub thickness: u64,
    /// The minimum value of the scroll bar.
    pub min_value: u64,
    /// The actual value of the scroll bar.
    pub value: u64,
    /// The maximum value of the scroll bar.
    pub max_value: u64,
    /// The value the bar represents: the visible span, in value space.
    pub bar_value: u64,
    /// Cached: the thickness actually rendered, clamped to the given space.
    pub render_thickness: u64,
    /// Cached: the size reported from the last `arrange`.
    pub size: Size<Dim>,
    /// Cached: the thumb length.
    pub bar_length: Dim,
    /// Cached: the thumb offset within the track.
    pub bar_offset: u64,
}

impl ScrollBar {
    /// A horizontal scroll bar with every numeric field zero.
    pub fn new() -> (s: ScrollBar)
        ensures
            s == (ScrollBar {
                mode: Orientation::Horizontal,
                thickness: 0,
                min_value: 0,
                value: 0,
                max_value: 0,
                bar_value: 0,
                render_thickness: 0,
                size: Size { width: Dim::Finite(0), height: Dim::Finite(0) },
                bar_length: Dim::Finite(0),
                bar_offset: 0,
            }),
    {
        ScrollBar {
            bar_offset: 0,
            bar_value: 0,
            max_value: 0,
            value: 0,
            bar_length: Dim::Finite(0),
            size: Size { width: Dim::Finite(0), height: Dim::Finite(0) },
            mode: Orientation::Horizontal,
            thickness: 0,
            render_thickness: 0,
            min_value: 0,
        }
    }
}

impl Component for ScrollBar {
    /// A scroll bar consumes the full length of its orientation axis
    /// verbatim — unbounded stays unbounded — and its configured thickness
    /// in the cross axis.
    open spec fn spec_measure(&self, available: Size<Dim>) -> Size<Dim> {
        match self.mode {
            Orientation::Horizontal => Size {
                width: available.width,
                height: Dim::Finite(self.thickness),
            },
            Orientation::Vertical => Size {
                width: Dim::Finite(self.thickness),
                height: available.height,
            },
        }
    }

    /// The arranged scroll bar: the rendered thickness is clamped to the
    /// cross axis, the track is the length axis less one thickness-sized cap
    /// at each end, and thumb length and offset follow the value range.
    open spec fn spec_arrange(&self, given: Size<Dim>) -> (ScrollBar, Size<Dim>) {
        let span = spec_value_span(self.min_value, self.max_value);
        match self.mode {
            Orientation::Horizontal => {
                let rt = spec_min_with(self.thickness, given.height);
                let track = spec_dim_sub(spec_dim_sub(given.width, rt), rt);
                let thumb = spec_thumb_length(track, self.bar_value, span);
                let size = Size { width: given.width, height: Dim::Finite(rt) };
                let arranged = ScrollBar {
                    render_thickness: rt,
                    size: size,
                    bar_length: thumb,
                    bar_offset: spec_thumb_offset(track, thumb, self.value, self.min_value, span),
                    ..*self
                };
                (arranged, size)
            },
            Orientation::Vertical => {
                let rt = spec_min_with(self.thickness, given.width);
                let track = spec_dim_sub(spec_dim_sub(given.height, rt), rt);
                let thumb = spec_thumb_length(track, self.bar_value, span);
                let size = Size { width: Dim::Finite(rt), height: given.height };
                let arranged = ScrollBar {
                    render_thickness: rt,
                    size: size,
                    bar_length: thumb,
                    bar_offset: spec_thumb_offset(track, thumb, self.value, self.min_value, span),
                    ..*self
                };
                (arranged, size)
            },
        }
    }

    /// Exactly four rectangles, in a fixed back-to-front order: leading cap,
    /// trailing cap, track background, thumb.
    open spec fn spec_render(&self) -> Seq<Rectangle> {
        let t = Dim::Finite(self.render_thickness);
        match self.mode {
            Orientation::Horizontal => {
                let length = self.size.width;
                seq![
                    Rectangle {
                        x: Dim::Finite(0),
                        y: Dim::Finite(0),
                        width: t,
                        height: t,
                        fill: Color { rgba: 0x808080FF },
                    },
                    Rectangle {
                        x: spec_dim_sub(length, self.render_thickness),
                        y: Dim::Finite(0),
                        width: t,
                        height: t,
                        fill: Color { rgba: 0x808080FF },
                    },
                    Rectangle {
                        x: t,
                        y: Dim::Finite(0),
                        width: spec_dim_sub(
                            spec_dim_sub(length, self.render_thickness),
                            self.render_thickness,
                        ),
                        height: t,
                        fill: Color { rgba: 0xD3D3D3FF },
                    },
                    Rectangle {
                        x: Dim::Finite(spec_sat_add(self.bar_offset, self.render_thickness)),
                        y: Dim::Finite(0),
                        width: self.bar_length,
                        height: t,
                        fill: Color { rgba: 0xA9A9A9FF },
                    },
                ]
            },
            Orientation::Vertical => {
                let length = self.size.height;
                seq![
                    Rectangle {
                        x: Dim::Finite(0),
                        y: Dim::Finite(0),
                        width: t,
                        height: t,
                        fill: Color { rgba: 0x00FFFFFF },
                    },
                    Rectangle {
                        x: Dim::Finite(0),
                        y: spec_dim_sub(length, self.render_thickness),
                        width: t,
                        height: t,
                        fill: Color { rgba: 0xF5F5DCFF },
                    },
                    Rectangle {
                        x: Dim::Finite(0),
                        y: t,
                        width: t,
                        height: spec_dim_sub(
                            spec_dim_sub(length, self.render_thickness),
                            self.render_thickness,
                        ),
                        fill: Color { rgba: 0x808080FF },
                    },
                    Rectangle {
                        x: Dim::Finite(0),
                        y: Dim::Finite(self.bar_offset),
                        width: t,
                        height: self.bar_length,
                        fill: Color { rgba: 0xFFD700FF },
                    },
                ]
            },
        }
    }

    fn measure(&self, available: Size<Dim>) -> (desired: Size<Dim>) {
        match self.mode {
            Orientation::Horizontal => Size {
                height: Dim::Finite(self.thickness),
                width: available.width,
            },
            Orientation::Vertical => Size {
                height: available.height,
                width: Dim::Finite(self.thickness),
            },
        }
    }

    fn arrange(&mut self, given: Size<Dim>) -> (used: Size<Dim>) {
        let span = if self.max_value > self.min_value {
            self.max_value - self.min_value
        } else {
            0
        };
        let size = match self.mode {
            Orientation::Horizontal => {
                self.render_thickness = Dim::min_with(self.thickness, given.height);
                let track = given.width.saturating_sub(self.render_thickness).saturating_sub(
                    self.render_thickness,
                );
                self.bar_length = thumb_length(track, self.bar_value, span);
                self.bar_offset = thumb_offset(
                    track,
                    self.bar_length,
                    self.value,
                    self.min_value,
                    span,
                );
                Size { height: Dim::Finite(self.render_thickness), width: given.width }
            },
            Orientation::Vertical => {
                self.render_thickness = Dim::min_with(self.thickness, given.width);
                let track = given.height.saturating_sub(self.render_thickness).saturating_sub(
                    self.render_thickness,
                );
                self.bar_length = thumb_length(track, self.bar_value, span);
                self.bar_offset = thumb_offset(
                    track,
                    self.bar_length,
                    self.value,
                    self.min_value,
                    span,
                );
                Size { height: given.height, width: Dim::Finite(self.render_thickness) }
            },
        };
        self.size = size;
        size
    }

    fn render(&self) -> (out: Vec<Rectangle>) {
        let t = Dim::Finite(self.render_thickness);
        let mut out: Vec<Rectangle> = Vec::new();
        match self.mode {
            Orientation::Horizontal => {
                let length = self.size.width;
                out.push(
                    Rectangle {
                        y: Dim::Finite(0),
                        x: Dim::Finite(0),
                        height: t,
                        width: t,
                        fill: Color::gray(),
                    },
                );
                out.push(
                    Rectangle {
                        y: Dim::Finite(0),
                        x: length.saturating_sub(self.render_thickness),
                        height: t,
                        width: t,
                        fill: Color::gray(),
                    },
                );
                out.push(
                    Rectangle {
                        y: Dim::Finite(0),
                        x: t,
                        height: t,
                        width: length.saturating_sub(self.render_thickness).saturating_sub(
                            self.render_thickness,
                        ),
                        fill: Color::light_gray(),
                    },
                );
                out.push(
                    Rectangle {
                        y: Dim::Finite(0),
                        x: Dim::Finite(sat_add(self.bar_offset, self.render_thickness)),
                        height: t,
                        width: self.bar_length,
                        fill: Color::dark_gray(),
                    },
                );
            },
            Orientation::Vertical => {
                let length = self.size.height;
                out.push(
                    Rectangle {
                        x: Dim::Finite(0),
                        y: Dim::Finite(0),
                        width: t,
                        height: t,
                        fill: Color::aqua(),
                    },
                );
                out.push(
                    Rectangle {
                        x: Dim::Finite(0),
                        y: length.saturating_sub(self.render_thickness),
                        width: t,
                        height: t,
                        fill: Color::beige(),
                    },
                );
                out.push(
                    Rectangle {
                        x: Dim::Finite(0),
                        y: t,
                        width: t,
                        height: length.saturating_sub(self.render_thickness).saturating_sub(
                            self.render_thickness,
                        ),
                        fill: Color::gray(),
                    },
                );
                out.push(
                    Rectangle {
                        x: Dim::Finite(0),
                        y: Dim::Finite(self.bar_offset),
                        width: t,
                        height: self.bar_length,
                        fill: Color::gold(),
                    },
                );
            },
        }
        proof {
            assert(out@ =~= self.spec_render());
        }
        out
    }
}

fn thumb_length(track: Dim, bar_value: u64, span: u64) -> (r: Dim)
    ensures
        r == spec_thumb_length(track, bar_value, span),
{
    if span == 0 {
        Dim::Finite(0)
    } else {
        match track {
            Dim::Unbounded => Dim::Unbounded,
            Dim::Finite(t) => {
                let visible = if bar_value <= span {
                    bar_value
                } else {
                    span
                };
                Dim::Finite(mul_div_sat(t, visible, span))
            },
        }
    }
}

fn thumb_offset(track: Dim, thumb: Dim, value: u64, min_value: u64, span: u64) -> (r: u64)
    ensures
        r == spec_thumb_offset(track, thumb, value, min_value, span),
{
    if span == 0 {
        0
    } else {
        let slack = match (track, thumb) {
            (Dim::Finite(t), Dim::Finite(l)) => if l <= t {
                t - l
            } else {
                0
            },
            _ => 0,
        };
        mul_div_sat(slack, sat_sub(value, min_value), span)
    }
}

/// The measuring rule holds for every `available` size, in particular with
/// the unbounded sentinel in either axis: the orientation axis is passed
/// through verbatim — a horizontal bar measures `available.width` exactly —
/// and the cross axis is the configured thickness.
pub proof fn lemma_measure_rule(s: ScrollBar, available: Size<Dim>)
    ensures
        s.mode == Orientation::Horizontal ==> s.spec_measure(available) == (Size {
            width: available.width,
            height: Dim::Finite(s.thickness),
        }),
        s.mode == Orientation::Vertical ==> s.spec_measure(available) == (Size {
            width: Dim::Finite(s.thickness),
            height: available.height,
        }),
{
}

} // verus!
