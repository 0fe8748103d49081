//! Geometric value types shared by the layout protocol: an orientation, a
//! layout dimension with an "unbounded" sentinel, and size/rectangle pairs.

use vstd::prelude::*;

verus! {

/// The axis a component is laid out along.
#[derive(Clone, Copy, Debug, PartialEq, Eq, Structural)]
pub enum Orientation {
    /// Laid out along the x axis.
    Horizontal,
    /// Laid out along the y axis.
    Vertical,
}

/// One layout dimension. Lengths are integers in a device unit chosen by the
/// embedder; `Unbounded` is the sentinel for "unconstrained in this axis",
/// which size negotiation may pass in either direction.
#[derive(Clone, Copy, Debug, PartialEq, Eq, Structural)]
pub enum Dim {
    Finite(u64),
    Unbounded,
}

/// `a` fits within `b`; everything fits within an unbounded dimension.
pub open spec fn dim_le(a: Dim, b: Dim) -> bool {
    match b {
        Dim::Unbounded => true,
        Dim::Finite(bv) => match a {
            Dim::Finite(av) => av <= bv,
            Dim::Unbounded => false,
        },
    }
}

/// The smaller of a finite length and a dimension; a bound of `Unbounded`
/// does not constrain the length.
pub open spec fn spec_min_with(len: u64, bound: Dim) -> u64 {
    match bound {
        Dim::Finite(b) => if len <= b {
            len
        } else {
            b
        },
        Dim::Unbounded => len,
    }
}

/// Adding a finite offset to a dimension saturates at the largest
/// representable length and leaves an unbounded dimension unbounded.
pub open spec fn spec_dim_add(d: Dim, off: u64) -> Dim {
    match d {
        Dim::Finite(v) => if v + off > u64::MAX {
            Dim::Finite(u64::MAX)
        } else {
            Dim::Finite((v + off) as u64)
        },
        Dim::Unbounded => Dim::Unbounded,
    }
}

/// Subtracting a finite length from a dimension saturates at zero and leaves
/// an unbounded dimension unbounded.
pub open spec fn spec_dim_sub(d: Dim, len: u64) -> Dim {
    match d {
        Dim::Finite(v) => if v >= len {
            Dim::Finite((v - len) as u64)
        } else {
            Dim::Finite(0)
        },
        Dim::Unbounded => Dim::Unbounded,
    }
}

impl Dim {
    /// The smaller of a finite length and this dimension.
    pub fn min_with(len: u64, bound: Dim) -> (r: u64)
        ensures
            r == spec_min_with(len, bound),
    {
        match bound {
            Dim::Finite(b) => if len <= b {
                len
            } else {
                b
            },
            Dim::Unbounded => len,
        }
    }

    /// Saturating addition of a finite offset to this dimension.
    pub fn saturating_add(self, off: u64) -> (r: Dim)
        ensures
            r == spec_dim_add(self, off),
    {
        match self {
            Dim::Finite(v) => match v.checked_add(off) {
                Some(s) => Dim::Finite(s),
                None => Dim::Finite(u64::MAX),
            },
            Dim::Unbounded => Dim::Unbounded,
        }
    }

    /// Saturating subtraction of a finite length from this dimension.
    pub fn saturating_sub(self, len: u64) -> (r: Dim)
        ensures
            r == spec_dim_sub(self, len),
    {
        match self {
            Dim::Finite(v) => if v >= len {
                Dim::Finite(v - len)
            } else {
                Dim::Finite(0)
            },
            Dim::Unbounded => Dim::Unbounded,
        }
    }
}

/// Available or required layout space.
#[derive(Clone, Copy, Debug, PartialEq, Eq, Structural)]
pub struct Size<T> {
    pub width: T,
    pub height: T,
}

/// `a` fits within `b` on both axes.
pub open spec fn size_le(a: Size<Dim>, b: Size<Dim>) -> bool {
    dim_le(a.width, b.width) && dim_le(a.height, b.height)
}

/// Drawing geometry in the current (possibly translated) coordinate space.
#[derive(Clone, Copy, Debug, PartialEq, Eq, Structural)]
pub struct Rectangle<T> {
    pub x: T,
    pub y: T,
    pub width: T,
    pub height: T,
}

} // verus!
