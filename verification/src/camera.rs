//! The state of the camera and the invariant that every change has to keep.

use vstd::prelude::*;
use crate::scalar::{is_finite, less, finite, lt, ONE_BITS, ZERO_BITS};

verus! {

/// The camera: a world-space centre and a zoom factor per axis, from world
/// units to device units. The arithmetic of panning and zooming is done
/// outside; a result enters the state only through `moved_to`.
#[derive(Debug, Clone, Copy, PartialEq)]
pub struct Camera2D {
    pub x: u32,
    pub y: u32,
    pub zoom_x: u32,
    pub zoom_y: u32,
}

impl Camera2D {
    /// The centre is finite and both zoom factors are finite and above
    /// zero, so that the map between world and device can be inverted.
    pub open spec fn wf(&self) -> bool {
        &&& is_finite(self.x)
        &&& is_finite(self.y)
        &&& is_finite(self.zoom_x)
        &&& is_finite(self.zoom_y)
        &&& less(ZERO_BITS, self.zoom_x)
        &&& less(ZERO_BITS, self.zoom_y)
    }

    /// The camera at the origin with both zoom factors one.
    pub fn new() -> (r: Camera2D)
        ensures
            r == (Camera2D { x: ZERO_BITS, y: ZERO_BITS, zoom_x: ONE_BITS, zoom_y: ONE_BITS }),
            r.wf(),
    {
        Camera2D { x: ZERO_BITS, y: ZERO_BITS, zoom_x: ONE_BITS, zoom_y: ONE_BITS }
    }

    /// Tells whether the camera can be used.
    pub fn is_valid(&self) -> (r: bool)
        ensures
            r == self.wf(),
    {
        finite(self.x) && finite(self.y) && finite(self.zoom_x) && finite(self.zoom_y) && lt(
            ZERO_BITS,
            self.zoom_x,
        ) && lt(ZERO_BITS, self.zoom_y)
    }

    /// The camera after a pan, zoom or fit that computed `next`: `next`
    /// where it can be used, and the camera as it was where the arithmetic
    /// left the usable range.
    pub fn moved_to(self, next: Camera2D) -> (r: Camera2D)
        ensures
            r == if next.wf() { next } else { self },
            self.wf() ==> r.wf(),
    {
        if next.is_valid() {
            next
        } else {
            self
        }
    }
}

} // verus!
