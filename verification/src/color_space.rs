//! The split of a frame into luma and chroma and back.
//!
//! The conversion is the BT.709 transform, applied in place to every pixel
//! of a four-channel buffer by a kernel on the device. The host chooses the
//! direction and the extent of the dispatch.

use vstd::prelude::*;
use crate::plane::{Plane, WorkGroups};

verus! {

/// Kernel mode: RGB to luma and chroma.
pub const MODE_RGB_TO_YCBCR: u32 = 0;

/// Kernel mode: luma and chroma to RGB.
pub const MODE_YCBCR_TO_RGB: u32 = 1;

/// One run of the conversion kernel over a buffer.
#[derive(Clone, Copy, Debug, PartialEq, Eq, Structural)]
pub struct ColorDispatch {
    pub mode: u32,
    pub work_groups: WorkGroups,
}

/// The color-space converter.
#[derive(Clone, Copy, Debug, PartialEq, Eq, Structural)]
pub struct ColorSpace {}

impl ColorSpace {
    /// A converter.
    pub fn new() -> (c: ColorSpace) {
        ColorSpace {  }
    }

    /// The dispatch that takes `texture` from RGB to luma and chroma.
    pub fn rgb_to_ycbcr(&self, texture: &Plane) -> (d: ColorDispatch)
        ensures
            d == (ColorDispatch {
                mode: MODE_RGB_TO_YCBCR,
                work_groups: texture.spec_work_groups(),
            }),
    {
        self.invoke(texture, MODE_RGB_TO_YCBCR)
    }

    /// The dispatch that takes `texture` from luma and chroma back to RGB.
    pub fn ycbcr_to_rgb(&self, texture: &Plane) -> (d: ColorDispatch)
        ensures
            d == (ColorDispatch {
                mode: MODE_YCBCR_TO_RGB,
                work_groups: texture.spec_work_groups(),
            }),
    {
        self.invoke(texture, MODE_YCBCR_TO_RGB)
    }

    /// The dispatch of the kernel in `mode` over every pixel of `texture`.
    pub fn invoke(&self, texture: &Plane, mode: u32) -> (d: ColorDispatch)
        ensures
            d == (ColorDispatch { mode, work_groups: texture.spec_work_groups() }),
    {
        ColorDispatch { mode, work_groups: texture.work_groups() }
    }
}

} // verus!
