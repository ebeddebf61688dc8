//! Plain integer geometry for the widget layer.
//!
//! The host renderer measures in floating-point pixels; this crate keeps all
//! coordinates in fixed integer units so that layout arithmetic can be
//! reasoned about exactly. Coordinates are bounded by [`MAX_COORD`] and glyph
//! metrics by [`MAX_GLYPH_EXTENT`], which gives every accumulation in the
//! text layer comfortable headroom inside `i64`.

use vstd::prelude::*;

verus! {

/// Largest magnitude a well-formed coordinate may have.
pub const MAX_COORD: i64 = 0x4000_0000_0000;

/// Largest magnitude a well-formed glyph metric may have.
pub const MAX_GLYPH_EXTENT: i64 = 0x1_0000;

/// A point in layout space.
#[derive(Clone, Copy, PartialEq, Eq, Structural, Debug)]
pub struct LayoutPoint {
    pub x: i64,
    pub y: i64,
}

impl LayoutPoint {
    pub open spec fn wf(self) -> bool {
        -MAX_COORD <= self.x <= MAX_COORD && -MAX_COORD <= self.y <= MAX_COORD
    }

    pub fn new(x: i64, y: i64) -> (r: LayoutPoint)
        ensures
            r == (LayoutPoint { x, y }),
    {
        LayoutPoint { x, y }
    }
}

/// A width and height in layout space.
#[derive(Clone, Copy, PartialEq, Eq, Structural, Debug)]
pub struct LayoutSize {
    pub w: i64,
    pub h: i64,
}

impl LayoutSize {
    pub open spec fn wf(self) -> bool {
        0 <= self.w <= MAX_COORD && 0 <= self.h <= MAX_COORD
    }

    pub fn new(w: i64, h: i64) -> (r: LayoutSize)
        ensures
            r == (LayoutSize { w, h }),
    {
        LayoutSize { w, h }
    }
}

/// An axis-aligned rectangle: an origin and a size.
#[derive(Clone, Copy, PartialEq, Eq, Structural, Debug)]
pub struct LayoutRect {
    pub origin: LayoutPoint,
    pub size: LayoutSize,
}

impl LayoutRect {
    pub open spec fn wf(self) -> bool {
        self.origin.wf() && self.size.wf()
    }

    pub fn new(origin: LayoutPoint, size: LayoutSize) -> (r: LayoutRect)
        ensures
            r == (LayoutRect { origin, size }),
    {
        LayoutRect { origin, size }
    }
}

/// An RGBA color with 8-bit channels.
#[derive(Clone, Copy, PartialEq, Eq, Structural, Debug)]
pub struct Color {
    pub r: u8,
    pub g: u8,
    pub b: u8,
    pub a: u8,
}

impl Color {
    pub fn new(r: u8, g: u8, b: u8, a: u8) -> (c: Color)
        ensures
            c == (Color { r, g, b, a }),
    {
        Color { r, g, b, a }
    }
}

/// Builds rectangles from integer corner pairs, so that `(x, y).to(x2, y2)`
/// and `(x, y).by(w, h)` read naturally at widget construction sites.
pub trait HandyDandyRectBuilder {
    /// The corner this builder starts from.
    spec fn corner(&self) -> LayoutPoint;

    /// The rectangle spanning from this corner to `(x2, y2)`.
    fn to(&self, x2: i64, y2: i64) -> (r: LayoutRect)
        requires
            self.corner().wf(),
            -MAX_COORD <= x2 <= MAX_COORD,
            -MAX_COORD <= y2 <= MAX_COORD,
        ensures
            r == (LayoutRect {
                origin: self.corner(),
                size: LayoutSize {
                    w: (x2 - self.corner().x) as i64,
                    h: (y2 - self.corner().y) as i64,
                },
            }),
    ;

    /// The rectangle with this corner as origin and extent `(w, h)`.
    fn by(&self, w: i64, h: i64) -> (r: LayoutRect)
        ensures
            r == (LayoutRect { origin: self.corner(), size: LayoutSize { w, h } }),
    ;
}

impl HandyDandyRectBuilder for (i64, i64) {
    open spec fn corner(&self) -> LayoutPoint {
        LayoutPoint { x: self.0, y: self.1 }
    }

    fn to(&self, x2: i64, y2: i64) -> (r: LayoutRect) {
        LayoutRect {
            origin: LayoutPoint { x: self.0, y: self.1 },
            size: LayoutSize { w: x2 - self.0, h: y2 - self.1 },
        }
    }

    fn by(&self, w: i64, h: i64) -> (r: LayoutRect) {
        LayoutRect {
            origin: LayoutPoint { x: self.0, y: self.1 },
            size: LayoutSize { w, h },
        }
    }
}

} // verus!
