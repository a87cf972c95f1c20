//! Descriptors of device buffers and of the dispatches that work on them.

use vstd::prelude::*;

verus! {

/// The width of a work group of the per-pixel kernels, in pixels.
pub const GROUP_WIDTH: u32 = 64;

/// A two-dimensional device buffer, known to the host by its dimensions.
#[derive(Clone, Copy, Debug, PartialEq, Eq, Structural)]
pub struct Plane {
    pub width: u32,
    pub height: u32,
}

/// The extent of a compute dispatch, in work groups along each axis.
#[derive(Clone, Copy, Debug, PartialEq, Eq, Structural)]
pub struct WorkGroups {
    pub x: u32,
    pub y: u32,
    pub z: u32,
}

/// Whether a buffer that was allocated for `held` has to be replaced before
/// it can take a frame of the dimensions of `wanted`: there is no buffer, or
/// its dimensions differ.
pub fn stale(held: &Option<Plane>, wanted: &Plane) -> (r: bool)
    ensures
        r == (*held != Some(*wanted)),
{
    match held {
        Some(plane) => plane.width != wanted.width || plane.height != wanted.height,
        None => true,
    }
}

impl Plane {
    /// The dispatch that covers every pixel once: each row is cut into
    /// groups of `GROUP_WIDTH` pixels, with one group more than the full
    /// ones, and every row is a group of its own.
    pub open spec fn spec_work_groups(self) -> WorkGroups {
        WorkGroups { x: (self.width / GROUP_WIDTH + 1) as u32, y: self.height, z: 1 }
    }

    /// A descriptor of a buffer of `width` by `height` pixels.
    pub fn new(width: u32, height: u32) -> (plane: Plane)
        ensures
            plane == (Plane { width, height }),
    {
        Plane { width, height }
    }

    /// The dimensions as a pair, width first.
    pub fn dimensions(&self) -> (d: (u32, u32))
        ensures
            d == (self.width, self.height),
    {
        (self.width, self.height)
    }

    /// The extent of a per-pixel dispatch over this plane.
    pub fn work_groups(&self) -> (groups: WorkGroups)
        ensures
            groups == self.spec_work_groups(),
            groups.x as int * GROUP_WIDTH as int > self.width as int,
    {
        WorkGroups { x: self.width / GROUP_WIDTH + 1, y: self.height, z: 1 }
    }
}

} // verus!
