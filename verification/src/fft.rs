//! The host side of the two-dimensional transform: the sizes of its planes,
//! the buffers it keeps from frame to frame, and the order of its passes.
//!
//! The passes themselves run on the device. Here a pass is a `Dispatch`: a
//! stage number and the number of work groups to launch.
//!
//! The host expects one normalization of the kernels: the forward passes do
//! not scale, and each inverse pass divides by the padded length of the
//! axis that it transforms. The inverse of the forward transform of a plane
//! is then the plane itself, and a bin of the spectrum is the plain sum over
//! the pixels, so that scaling a bin by a ratio scales its part of the
//! image by the same ratio.

use vstd::prelude::*;
use vstd::arithmetic::power2::{
    lemma2_to64, lemma_pow2_pos, lemma_pow2_strictly_increases, lemma_pow2_unfold, pow2,
};
use crate::bits::{
    ceil_log2, clz, is_power_of_two, lemma_ceil_log2_bounds, lemma_ceil_log2_monotonic,
    lemma_ceil_log2_of_power, lemma_ceil_log2_unique, lemma_next_power_of_two_is_least,
    next_power_of_two, spec_clz, spec_next_power_of_two,
};
use crate::error::PipelineError;
use crate::plane::Plane;

verus! {

/// The largest dimension whose padded size still fits the signed 32-bit
/// fields that the kernels read.
pub const MAX_DIMENSION: u32 = 0x4000_0000;

/// Forward pass along the width.
pub const STAGE_FORWARD_WIDTH: u32 = 0;

/// Forward pass along the height.
pub const STAGE_FORWARD_HEIGHT: u32 = 1;

/// Inverse pass along the height.
pub const STAGE_INVERSE_HEIGHT: u32 = 2;

/// Inverse pass along the width.
pub const STAGE_INVERSE_WIDTH: u32 = 3;

/// How many components a pixel of a buffer has.
#[derive(Clone, Copy, Debug, PartialEq, Eq, Structural)]
pub enum InternalFormat {
    OneComponent,
    TwoComponents,
    ThreeComponents,
    FourComponents,
}

/// The number of channels of a format.
pub open spec fn spec_format_channels(format: InternalFormat) -> u32 {
    match format {
        InternalFormat::OneComponent => 1,
        InternalFormat::TwoComponents => 2,
        InternalFormat::ThreeComponents => 3,
        InternalFormat::FourComponents => 4,
    }
}

/// The number of channels of a format.
pub fn format_channels(format: &InternalFormat) -> (n: u32)
    ensures
        n == spec_format_channels(*format),
        1 <= n <= 4,
{
    match format {
        InternalFormat::OneComponent => 1,
        InternalFormat::TwoComponents => 2,
        InternalFormat::ThreeComponents => 3,
        InternalFormat::FourComponents => 4,
    }
}

/// The sizes that the kernels are told about one transform target, laid out
/// as they read them.
#[derive(Clone, Copy, Debug, PartialEq, Eq, Structural)]
pub struct ImgInfo {
    pub input_width: i32,
    pub input_height: i32,
    pub output_width: i32,
    pub output_height: i32,
    pub logtwo_width: i32,
    pub logtwo_height: i32,
    pub clz_width: i32,
    pub clz_height: i32,
    pub no_of_channels: i32,
}

/// One axis of a target: the padded size, its base-2 logarithm, and the
/// number of bits above the logarithm in a 32-bit word.
#[derive(Clone, Copy, Debug, PartialEq, Eq, Structural)]
pub struct Axis {
    pub output: u32,
    pub logtwo: u32,
    pub clz: u32,
}

/// The padding of one axis of `dim` pixels.
pub open spec fn spec_pad_axis(dim: u32) -> Axis {
    Axis {
        output: spec_next_power_of_two(dim as nat) as u32,
        logtwo: ceil_log2(dim as nat) as u32,
        clz: (32 - ceil_log2(dim as nat)) as u32,
    }
}

/// An axis that can be padded has a logarithm of at most 30, and its padded
/// size is that power of two.
pub proof fn lemma_pad_axis(dim: u32)
    requires
        dim <= MAX_DIMENSION,
    ensures
        ceil_log2(dim as nat) <= 30,
        spec_next_power_of_two(dim as nat) == pow2(ceil_log2(dim as nat)),
        dim <= spec_next_power_of_two(dim as nat) <= MAX_DIMENSION,
        is_power_of_two(spec_next_power_of_two(dim as nat) as int),
        forall|q: int| is_power_of_two(q) && dim <= q ==> spec_next_power_of_two(dim as nat) <= q,
        spec_clz(spec_next_power_of_two(dim as nat)) + 1 == 32 - ceil_log2(dim as nat),
{
    lemma2_to64();
    let c = ceil_log2(dim as nat);
    lemma_ceil_log2_monotonic(dim as nat, pow2(30));
    lemma_ceil_log2_of_power(30);
    lemma_next_power_of_two_is_least(dim as nat);
    lemma_ceil_log2_bounds(dim as nat);
    if c < 30 {
        lemma_pow2_strictly_increases(c, 30);
    }
    lemma_pow2_pos(c);
    lemma_pow2_strictly_increases(c, c + 1);
    lemma_pow2_unfold(c + 1);
    lemma_ceil_log2_unique(pow2(c) + 1, c + 1);
}

/// Pads one axis: rounds `dim` up to a power of two, scans the result for
/// its leading zeros, and takes the logarithm as what is left of 32 bits
/// after the scan's count and one more.
pub fn pad_axis(dim: u32) -> (axis: Axis)
    requires
        dim <= MAX_DIMENSION,
    ensures
        axis == spec_pad_axis(dim),
        axis.output == pow2(axis.logtwo as nat),
        axis.logtwo <= 30,
        dim <= axis.output <= MAX_DIMENSION,
{
    proof {
        lemma_pad_axis(dim);
    }
    let output = next_power_of_two(dim);
    let scan = clz(output) + 1;
    Axis { output, logtwo: 32 - scan, clz: scan }
}

impl ImgInfo {
    /// The sizes of a target for a source of `width` by `height` pixels.
    pub open spec fn spec_new(width: u32, height: u32, format: InternalFormat) -> ImgInfo {
        ImgInfo {
            input_width: width as i32,
            input_height: height as i32,
            output_width: spec_pad_axis(width).output as i32,
            output_height: spec_pad_axis(height).output as i32,
            logtwo_width: spec_pad_axis(width).logtwo as i32,
            logtwo_height: spec_pad_axis(height).logtwo as i32,
            clz_width: spec_pad_axis(width).clz as i32,
            clz_height: spec_pad_axis(height).clz as i32,
            no_of_channels: spec_format_channels(format) as i32,
        }
    }

    /// Each padded dimension is the smallest power of two that holds the
    /// input dimension, each logarithm is exact, and the channel count is
    /// between one and four.
    pub open spec fn wf(self) -> bool {
        &&& 0 <= self.input_width <= MAX_DIMENSION
        &&& 0 <= self.input_height <= MAX_DIMENSION
        &&& self.output_width == spec_next_power_of_two(self.input_width as nat)
        &&& self.output_height == spec_next_power_of_two(self.input_height as nat)
        &&& 0 <= self.logtwo_width <= 30
        &&& 0 <= self.logtwo_height <= 30
        &&& self.output_width == pow2(self.logtwo_width as nat)
        &&& self.output_height == pow2(self.logtwo_height as nat)
        &&& self.clz_width == 32 - self.logtwo_width
        &&& self.clz_height == 32 - self.logtwo_height
        &&& 1 <= self.no_of_channels <= 4
    }

    /// The source's dimensions.
    pub open spec fn input(self) -> Plane {
        Plane { width: self.input_width as u32, height: self.input_height as u32 }
    }

    /// The padded dimensions.
    pub open spec fn output(self) -> Plane {
        Plane { width: self.output_width as u32, height: self.output_height as u32 }
    }

    /// Computes the sizes of a target for a source of `width` by `height`
    /// pixels. A source with a dimension above `MAX_DIMENSION` has no
    /// target: its planes could not be allocated.
    pub fn new(width: u32, height: u32, format: &InternalFormat) -> (r: Result<
        ImgInfo,
        PipelineError,
    >)
        ensures
            r is Ok <==> width <= MAX_DIMENSION && height <= MAX_DIMENSION,
            r matches Ok(info) ==> {
                &&& info == ImgInfo::spec_new(width, height, *format)
                &&& info.wf()
                &&& info.input() == (Plane { width, height })
            },
            r matches Err(e) ==> e == PipelineError::ResourceError,
    {
        if width > MAX_DIMENSION || height > MAX_DIMENSION {
            return Err(PipelineError::ResourceError);
        }
        let w = pad_axis(width);
        let h = pad_axis(height);
        let channels = format_channels(format);
        proof {
            lemma_pad_axis(width);
            lemma_pad_axis(height);
        }
        Ok(
            ImgInfo {
                input_width: width as i32,
                input_height: height as i32,
                output_width: w.output as i32,
                output_height: h.output as i32,
                logtwo_width: w.logtwo as i32,
                logtwo_height: h.logtwo as i32,
                clz_width: w.clz as i32,
                clz_height: h.clz as i32,
                no_of_channels: channels as i32,
            },
        )
    }
}

/// Padding is per axis: for a source that can be padded, each padded
/// dimension is a power of two, holds the source's dimension, is the
/// smallest power of two that does, and is two to the power of the
/// logarithm that is stored beside it.
pub proof fn lemma_padding(width: u32, height: u32, format: InternalFormat)
    requires
        width <= MAX_DIMENSION,
        height <= MAX_DIMENSION,
    ensures
        ImgInfo::spec_new(width, height, format).wf(),
        ImgInfo::spec_new(width, height, format).input() == (Plane { width, height }),
        is_power_of_two(ImgInfo::spec_new(width, height, format).output_width as int),
        is_power_of_two(ImgInfo::spec_new(width, height, format).output_height as int),
        width <= ImgInfo::spec_new(width, height, format).output_width,
        height <= ImgInfo::spec_new(width, height, format).output_height,
        forall|q: int|
            is_power_of_two(q) && width <= q ==> ImgInfo::spec_new(
                width,
                height,
                format,
            ).output_width <= q,
        forall|q: int|
            is_power_of_two(q) && height <= q ==> ImgInfo::spec_new(
                width,
                height,
                format,
            ).output_height <= q,
        pow2(ImgInfo::spec_new(width, height, format).logtwo_width as nat) == ImgInfo::spec_new(
            width,
            height,
            format,
        ).output_width,
        pow2(ImgInfo::spec_new(width, height, format).logtwo_height as nat) == ImgInfo::spec_new(
            width,
            height,
            format,
        ).output_height,
{
    lemma_pad_axis(width);
    lemma_pad_axis(height);
}

/// Which representation the planes of a target hold.
#[derive(Clone, Copy, Debug, PartialEq, Eq, Structural)]
pub enum Domain {
    /// The source has been copied in and no pass has run since, or the
    /// inverse passes have brought the image back.
    Spatial,
    /// The forward passes have run: the real and imaginary planes hold the
    /// spectrum.
    Frequency,
}

/// One pass of the transform over a whole plane.
#[derive(Clone, Copy, Debug, PartialEq, Eq, Structural)]
pub struct Dispatch {
    /// Which of the four stages runs.
    pub stage: u32,
    /// How many work groups are launched: the padded dimension that the
    /// stage transforms.
    pub work_groups: u32,
}

/// What the device has to do before a target can take a new frame.
#[derive(Clone, Copy, Debug, PartialEq, Eq, Structural)]
pub enum PlaneAction {
    /// The planes of the last frame fit: only the source is copied in again.
    Recopy,
    /// The planes of the last frame, if any, are dropped, new ones are
    /// allocated for these sizes, and the source is copied in.
    Reallocate { info: ImgInfo },
}

/// The two passes of the forward transform for a target of these sizes.
pub open spec fn spec_forward_passes(info: ImgInfo) -> (Dispatch, Dispatch) {
    (
        Dispatch { stage: STAGE_FORWARD_WIDTH, work_groups: info.output_width as u32 },
        Dispatch { stage: STAGE_FORWARD_HEIGHT, work_groups: info.output_height as u32 },
    )
}

/// The two passes of the inverse transform for a target of these sizes.
pub open spec fn spec_inverse_passes(info: ImgInfo) -> (Dispatch, Dispatch) {
    (
        Dispatch { stage: STAGE_INVERSE_HEIGHT, work_groups: info.output_height as u32 },
        Dispatch { stage: STAGE_INVERSE_WIDTH, work_groups: info.output_width as u32 },
    )
}

/// One transform target: a plane of the source's size, a real and an
/// imaginary plane of the padded size, and the sizes as the kernels read
/// them.
#[derive(Clone, Copy, Debug, PartialEq, Eq, Structural)]
pub struct FftTexture {
    orig: Plane,
    real_plane: Plane,
    imag_plane: Plane,
    img_info: ImgInfo,
    domain: Domain,
}

impl FftTexture {
    /// The plane of the source's size.
    pub closed spec fn spec_orig(&self) -> Plane {
        self.orig
    }

    /// The real plane.
    pub closed spec fn spec_real(&self) -> Plane {
        self.real_plane
    }

    /// The imaginary plane.
    pub closed spec fn spec_imag(&self) -> Plane {
        self.imag_plane
    }

    /// The sizes as the kernels read them.
    pub closed spec fn spec_img_info(&self) -> ImgInfo {
        self.img_info
    }

    /// The representation that the planes hold.
    pub closed spec fn spec_domain(&self) -> Domain {
        self.domain
    }

    /// The sizes are consistent, the first plane has the source's size, and
    /// the real and the imaginary plane both have the padded size.
    pub open spec fn wf(&self) -> bool {
        &&& self.spec_img_info().wf()
        &&& self.spec_orig() == self.spec_img_info().input()
        &&& self.spec_real() == self.spec_img_info().output()
        &&& self.spec_imag() == self.spec_img_info().output()
    }

    /// The target for a source plane, in the spatial domain.
    pub fn new(orig: &Plane, format: &InternalFormat) -> (r: Result<FftTexture, PipelineError>)
        ensures
            r is Ok <==> orig.width <= MAX_DIMENSION && orig.height <= MAX_DIMENSION,
            r matches Ok(texture) ==> {
                &&& texture.wf()
                &&& texture.spec_img_info() == ImgInfo::spec_new(orig.width, orig.height, *format)
                &&& texture.spec_orig() == *orig
                &&& texture.spec_domain() == Domain::Spatial
            },
            r matches Err(e) ==> e == PipelineError::ResourceError,
    {
        match ImgInfo::new(orig.width, orig.height, format) {
            Ok(img_info) => {
                let padded = Plane {
                    width: img_info.output_width as u32,
                    height: img_info.output_height as u32,
                };
                Ok(
                    FftTexture {
                        orig: *orig,
                        real_plane: padded,
                        imag_plane: padded,
                        img_info,
                        domain: Domain::Spatial,
                    },
                )
            },
            Err(e) => Err(e),
        }
    }

    /// The forward transform: the pass along the width, then the pass along
    /// the height. It is refused unless the planes are in the spatial domain.
    pub fn fft(&mut self) -> (r: Result<(Dispatch, Dispatch), PipelineError>)
        requires
            old(self).wf(),
        ensures
            final(self).wf(),
            final(self).spec_img_info() == old(self).spec_img_info(),
            final(self).spec_orig() == old(self).spec_orig(),
            r is Ok <==> old(self).spec_domain() == Domain::Spatial,
            r matches Ok(passes) ==> {
                &&& passes == spec_forward_passes(old(self).spec_img_info())
                &&& final(self).spec_domain() == Domain::Frequency
            },
            r matches Err(e) ==> e == PipelineError::StateError && *final(self) == *old(self),
    {
        match self.domain {
            Domain::Spatial => {
                self.domain = Domain::Frequency;
                Ok(
                    (
                        Dispatch {
                            stage: STAGE_FORWARD_WIDTH,
                            work_groups: self.img_info.output_width as u32,
                        },
                        Dispatch {
                            stage: STAGE_FORWARD_HEIGHT,
                            work_groups: self.img_info.output_height as u32,
                        },
                    ),
                )
            },
            Domain::Frequency => Err(PipelineError::StateError),
        }
    }

    /// The inverse transform: the pass along the height, then the pass along
    /// the width. It is refused unless the forward transform has run on
    /// these planes since the source was last copied in.
    pub fn ifft(&mut self) -> (r: Result<(Dispatch, Dispatch), PipelineError>)
        requires
            old(self).wf(),
        ensures
            final(self).wf(),
            final(self).spec_img_info() == old(self).spec_img_info(),
            final(self).spec_orig() == old(self).spec_orig(),
            r is Ok <==> old(self).spec_domain() == Domain::Frequency,
            r matches Ok(passes) ==> {
                &&& passes == spec_inverse_passes(old(self).spec_img_info())
                &&& final(self).spec_domain() == Domain::Spatial
            },
            r matches Err(e) ==> e == PipelineError::StateError && *final(self) == *old(self),
    {
        match self.domain {
            Domain::Frequency => {
                self.domain = Domain::Spatial;
                Ok(
                    (
                        Dispatch {
                            stage: STAGE_INVERSE_HEIGHT,
                            work_groups: self.img_info.output_height as u32,
                        },
                        Dispatch {
                            stage: STAGE_INVERSE_WIDTH,
                            work_groups: self.img_info.output_width as u32,
                        },
                    ),
                )
            },
            Domain::Spatial => Err(PipelineError::StateError),
        }
    }

    /// The plane of the source's size: the passes read the image from it
    /// and write the result back to it.
    pub fn orig(&self) -> (plane: &Plane)
        ensures
            *plane == self.spec_orig(),
    {
        &self.orig
    }

    /// The real plane.
    pub fn real_plane(&self) -> (plane: &Plane)
        ensures
            *plane == self.spec_real(),
    {
        &self.real_plane
    }

    /// The imaginary plane.
    pub fn imag(&self) -> (plane: &Plane)
        ensures
            *plane == self.spec_imag(),
    {
        &self.imag_plane
    }

    /// The sizes as the kernels read them.
    pub fn img_info(&self) -> (info: &ImgInfo)
        ensures
            *info == self.spec_img_info(),
    {
        &self.img_info
    }

    /// The representation that the planes hold.
    pub fn domain(&self) -> (domain: Domain)
        ensures
            domain == self.spec_domain(),
    {
        self.domain
    }
}

/// The transform engine: at most one target, kept from frame to frame for
/// as long as the frames keep their dimensions.
#[derive(Clone, Copy, Debug, PartialEq, Eq, Structural)]
pub struct Fft {
    texture: Option<FftTexture>,
}

impl Fft {
    /// The target that the engine holds, if any.
    pub closed spec fn spec_texture(&self) -> Option<FftTexture> {
        self.texture
    }

    /// A target that is held is well formed.
    pub open spec fn wf(&self) -> bool {
        self.spec_texture() matches Some(texture) ==> texture.wf()
    }

    /// Whether the target that is held was made for a source of this size.
    pub open spec fn fits(&self, source: Plane) -> bool {
        self.spec_texture() matches Some(texture) && texture.spec_orig() == source
    }

    /// An engine without a target.
    pub fn new() -> (fft: Fft)
        ensures
            fft.spec_texture() is None,
            fft.wf(),
    {
        Fft { texture: None }
    }

    /// Readies the target for a frame. If the last frame had the same
    /// dimensions its planes are kept, whatever the format, and only the
    /// source is copied in again. Otherwise they are dropped first, and new
    /// ones are allocated; if that cannot be done the engine is left without
    /// a target. Either way the target then holds the frame in the spatial
    /// domain.
    pub fn process_texture(&mut self, texture: &Plane, format: &InternalFormat) -> (r: Result<
        PlaneAction,
        PipelineError,
    >)
        requires
            old(self).wf(),
        ensures
            final(self).wf(),
            r is Ok <==> old(self).fits(*texture) || (texture.width <= MAX_DIMENSION
                && texture.height <= MAX_DIMENSION),
            r matches Ok(action) ==> {
                &&& final(self).fits(*texture)
                &&& final(self).spec_texture()->0.spec_domain() == Domain::Spatial
                &&& old(self).fits(*texture) ==> {
                    &&& action == PlaneAction::Recopy
                    &&& final(self).spec_texture()->0.spec_img_info() == old(
                        self,
                    ).spec_texture()->0.spec_img_info()
                }
                &&& !old(self).fits(*texture) ==> {
                    &&& action == (PlaneAction::Reallocate {
                        info: ImgInfo::spec_new(texture.width, texture.height, *format),
                    })
                    &&& final(self).spec_texture()->0.spec_img_info() == ImgInfo::spec_new(
                        texture.width,
                        texture.height,
                        *format,
                    )
                }
            },
            r matches Err(e) ==> e == PipelineError::ResourceError && final(self).spec_texture()
                is None,
    {
        match self.texture {
            Some(held) => {
                if held.orig.width == texture.width && held.orig.height == texture.height {
                    let mut kept = held;
                    kept.domain = Domain::Spatial;
                    self.texture = Some(kept);
                    return Ok(PlaneAction::Recopy);
                }
            },
            None => {},
        }
        self.texture = None;
        match FftTexture::new(texture, format) {
            Ok(fresh) => {
                self.texture = Some(fresh);
                Ok(PlaneAction::Reallocate { info: fresh.img_info })
            },
            Err(e) => Err(e),
        }
    }

    /// Whether the target that is held was made for a source of this size.
    pub fn holds(&self, source: &Plane) -> (r: bool)
        ensures
            r == self.fits(*source),
    {
        match self.texture {
            Some(held) => held.orig.width == source.width && held.orig.height == source.height,
            None => false,
        }
    }

    /// The target that the engine holds, if any.
    pub fn texture(&self) -> (texture: Option<FftTexture>)
        ensures
            texture == self.spec_texture(),
    {
        self.texture
    }

    /// The forward transform on the target that is held. It is refused if
    /// there is none, or if it is not in the spatial domain.
    pub fn forward(&mut self) -> (r: Result<(Dispatch, Dispatch), PipelineError>)
        requires
            old(self).wf(),
        ensures
            final(self).wf(),
            r is Ok <==> (old(self).spec_texture() matches Some(texture) && texture.spec_domain()
                == Domain::Spatial),
            r matches Ok(passes) ==> {
                &&& passes == spec_forward_passes(old(self).spec_texture()->0.spec_img_info())
                &&& final(self).spec_texture() is Some
                &&& final(self).spec_texture()->0.spec_domain() == Domain::Frequency
                &&& final(self).spec_texture()->0.spec_img_info() == old(
                    self,
                ).spec_texture()->0.spec_img_info()
                &&& final(self).spec_texture()->0.spec_orig() == old(
                    self,
                ).spec_texture()->0.spec_orig()
            },
            r matches Err(e) ==> e == PipelineError::StateError && *final(self) == *old(self),
    {
        match self.texture {
            Some(held) => {
                let mut target = held;
                let r = target.fft();
                self.texture = Some(target);
                r
            },
            None => Err(PipelineError::StateError),
        }
    }

    /// The inverse transform on the target that is held. It is refused if
    /// there is none, or if the forward transform has not run on it since
    /// the source was last copied in.
    pub fn inverse(&mut self) -> (r: Result<(Dispatch, Dispatch), PipelineError>)
        requires
            old(self).wf(),
        ensures
            final(self).wf(),
            r is Ok <==> (old(self).spec_texture() matches Some(texture) && texture.spec_domain()
                == Domain::Frequency),
            r matches Ok(passes) ==> {
                &&& passes == spec_inverse_passes(old(self).spec_texture()->0.spec_img_info())
                &&& final(self).spec_texture() is Some
                &&& final(self).spec_texture()->0.spec_domain() == Domain::Spatial
                &&& final(self).spec_texture()->0.spec_img_info() == old(
                    self,
                ).spec_texture()->0.spec_img_info()
                &&& final(self).spec_texture()->0.spec_orig() == old(
                    self,
                ).spec_texture()->0.spec_orig()
            },
            r matches Err(e) ==> e == PipelineError::StateError && *final(self) == *old(self),
    {
        match self.texture {
            Some(held) => {
                let mut target = held;
                let r = target.ifft();
                self.texture = Some(target);
                r
            },
            None => Err(PipelineError::StateError),
        }
    }
}

} // verus!
