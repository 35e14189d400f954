//! Render-target surfaces.
//!
//! A surface is an opaque render-target handle plus a rectangular
//! viewport.  It subdivides hierarchically into non-overlapping
//! sub-rectangles: a full-rectangle subsurface, and vertical or
//! horizontal splits.  The draw executor binds a surface as its target;
//! the clear operations the backend offers are scissored to the
//! rectangle held here.

use vstd::prelude::*;

verus! {

/// An opaque render-target handle with a rectangular viewport.
#[derive(Clone, Copy, Debug, PartialEq, Eq, Structural)]
pub struct Surface {
    /// The backend render-target handle.
    pub id: u64,
    /// Left edge of the viewport, in pixels from the target's origin.
    pub x: u32,
    /// Bottom edge of the viewport, in pixels from the target's origin.
    pub y: u32,
    /// Width of the viewport in pixels.
    pub width: u32,
    /// Height of the viewport in pixels.
    pub height: u32,
}

impl Surface {
    /// A surface is well formed when its far edges stay representable.
    pub open spec fn wf(self) -> bool {
        &&& self.x + self.width <= u32::MAX
        &&& self.y + self.height <= u32::MAX
    }

    /// The whole rectangle of a render target, with the viewport at the
    /// origin.
    pub fn new(id: u64, width: u32, height: u32) -> (r: Surface)
        ensures
            r == (Surface { id, x: 0, y: 0, width, height }),
            r.wf(),
    {
        Surface { id, x: 0, y: 0, width, height }
    }

    /// Width of the viewport in pixels.
    pub fn get_width(&self) -> (w: u32)
        ensures
            w == self.width,
    {
        self.width
    }

    /// Height of the viewport in pixels.
    pub fn get_height(&self) -> (h: u32)
        ensures
            h == self.height,
    {
        self.height
    }

    /// The sub-rectangle of this surface at offset (`x`, `y`) with the
    /// given extent; it must lie within this surface.
    pub fn subsurface(&self, x: u32, y: u32, width: u32, height: u32) -> (r: Surface)
        requires
            self.wf(),
            x <= self.width,
            y <= self.height,
            x + width <= self.width,
            y + height <= self.height,
        ensures
            r == (Surface { id: self.id, x: (self.x + x) as u32, y: (self.y + y) as u32, width, height }),
            r.wf(),
    {
        Surface { id: self.id, x: self.x + x, y: self.y + y, width, height }
    }

    /// Splits the surface at `x` pixels from its left edge into a left
    /// and a right part: two non-overlapping, adjacent sub-rectangles
    /// that together cover the whole surface.
    pub fn split_vertical(&self, x: u32) -> (r: (Surface, Surface))
        requires
            self.wf(),
            x <= self.width,
        ensures
            r.0 == (Surface {
                id: self.id,
                x: self.x,
                y: self.y,
                width: x,
                height: self.height,
            }),
            r.1 == (Surface {
                id: self.id,
                x: (self.x + x) as u32,
                y: self.y,
                width: (self.width - x) as u32,
                height: self.height,
            }),
            r.0.wf() && r.1.wf(),
            r.1.x == r.0.x + r.0.width,
            r.0.width + r.1.width == self.width,
    {
        (
            Surface { id: self.id, x: self.x, y: self.y, width: x, height: self.height },
            Surface {
                id: self.id,
                x: self.x + x,
                y: self.y,
                width: self.width - x,
                height: self.height,
            },
        )
    }

    /// Splits the surface at `y` pixels from its bottom edge into a
    /// bottom and a top part: two non-overlapping, adjacent
    /// sub-rectangles that together cover the whole surface.
    pub fn split_horizontal(&self, y: u32) -> (r: (Surface, Surface))
        requires
            self.wf(),
            y <= self.height,
        ensures
            r.0 == (Surface {
                id: self.id,
                x: self.x,
                y: self.y,
                width: self.width,
                height: y,
            }),
            r.1 == (Surface {
                id: self.id,
                x: self.x,
                y: (self.y + y) as u32,
                width: self.width,
                height: (self.height - y) as u32,
            }),
            r.0.wf() && r.1.wf(),
            r.1.y == r.0.y + r.0.height,
            r.0.height + r.1.height == self.height,
    {
        (
            Surface { id: self.id, x: self.x, y: self.y, width: self.width, height: y },
            Surface {
                id: self.id,
                x: self.x,
                y: self.y + y,
                width: self.width,
                height: self.height - y,
            },
        )
    }
}

} // verus!
