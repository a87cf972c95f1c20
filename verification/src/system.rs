//! The frame pipeline: what the device is asked to do for one frame, and in
//! which order.
//!
//! A frame is described by its dimensions. `System::draw` turns it into a
//! list of commands that the caller runs on the device one after the other:
//! the frame is copied into an intermediate buffer, split into luma and
//! chroma, transformed, adapted, transformed back, merged and presented.
//! Buffers are kept from frame to frame and replaced only when the
//! dimensions of the frames change.
//!
//! The adapter has two variants, chosen by `System::strategy`. In the
//! frequency domain the frame is transformed and every bin is scaled; the
//! table of the model is asked for on every such frame, and sampled and
//! uploaded only when the parameters have changed. In the spatial domain no
//! pass of the transform runs and the contrast of the image is scaled by
//! one factor. Either way the frame is worked on in
//! the plane of the transform target that has its size, so the target is
//! readied for both.

use vstd::prelude::*;
use crate::color_space::{ColorDispatch, ColorSpace, MODE_RGB_TO_YCBCR, MODE_YCBCR_TO_RGB};
use crate::csf::Csf;
use crate::error::PipelineError;
use crate::fft::{
    Dispatch, Domain, Fft, ImgInfo, InternalFormat, PlaneAction, MAX_DIMENSION,
    spec_forward_passes, spec_inverse_passes,
};
use crate::perception_adapter::{
    Adaptation, PerceptionAdapter, Strategy, spec_can_sample, spec_valid_density, valid_density,
};
use crate::plane::{stale, Plane, WorkGroups};
use crate::scalar::Scalar;

verus! {

/// The buffer that a frame is presented from.
#[derive(Clone, Copy, Debug, PartialEq, Eq, Structural)]
pub enum Source {
    /// The intermediate buffer, which holds the frame as it came.
    Intermediate,
    /// The plane of the transform target that has the frame's size, which
    /// holds the adapted frame.
    Original,
}

/// One step of the work on a frame.
#[derive(Clone, Copy, Debug, PartialEq)]
pub enum Command {
    /// Drop the intermediate buffer, if there is one, and allocate one of
    /// this size.
    AllocateIntermediate { plane: Plane },
    /// Copy the frame into the intermediate buffer.
    LoadFrame,
    /// Drop the planes of the transform target, if there are any, and
    /// allocate new ones for these sizes.
    AllocatePlanes { info: ImgInfo },
    /// Copy the intermediate buffer into the plane of the transform target
    /// that has the frame's size.
    LoadPlanes,
    /// Run the color conversion kernel.
    ConvertColor { dispatch: ColorDispatch },
    /// Run one pass of the transform.
    Transform { pass: Dispatch },
    /// Upload the table that the adapter holds, which has just been sampled
    /// for these parameters.
    UploadLut { csf: Csf },
    /// Run the per-bin kernel of the adapter over the spectrum.
    AdaptBins {
        work_groups: WorkGroups,
        pixels_per_visual_degree: Scalar,
        target_pixels_per_visual_degree: Scalar,
    },
    /// Run the contrast kernel of the adapter over the image, with the one
    /// factor that these parameters and densities give.
    ScaleContrast {
        work_groups: WorkGroups,
        csf: Csf,
        pixels_per_visual_degree: Scalar,
        target_pixels_per_visual_degree: Scalar,
    },
    /// Hand the buffer to the presentation sink.
    Present { source: Source },
}

/// The encoding of 1.787, the default amplitude of the model.
pub const DEFAULT_A: u32 = 0x3fe4_bc6a;

/// The encoding of 7.22, the default low-frequency rolloff of the model.
pub const DEFAULT_OMEGA: u32 = 0x40e7_0a3d;

/// The encoding of 2.2, the default high-frequency rolloff of the model.
pub const DEFAULT_SIGMA: u32 = 0x400c_cccd;

/// The encoding of 0.71, the default notch depth of the model.
pub const DEFAULT_K: u32 = 0x3f35_c28f;

/// The default parameters of the model.
pub open spec fn spec_default_csf() -> Csf {
    Csf {
        a: Scalar { bits: DEFAULT_A },
        omega: Scalar { bits: DEFAULT_OMEGA },
        sigma: Scalar { bits: DEFAULT_SIGMA },
        k: Scalar { bits: DEFAULT_K },
    }
}

/// The stage numbers of the transform passes in a list of commands, in the
/// order of the list.
pub open spec fn spec_stages(commands: Seq<Command>) -> Seq<u32>
    decreases commands.len(),
{
    if commands.len() == 0 {
        Seq::empty()
    } else {
        let rest = spec_stages(commands.drop_last());
        match commands.last() {
            Command::Transform { pass } => rest.push(pass.stage),
            _ => rest,
        }
    }
}

/// Whether a command allocates a buffer.
pub open spec fn spec_allocates(command: Command) -> bool {
    command is AllocateIntermediate || command is AllocatePlanes
}

/// Whether a command runs a kernel of the adapter, which changes the content
/// of the frame.
pub open spec fn spec_adapts(command: Command) -> bool {
    command is AdaptBins || command is ScaleContrast
}

/// The state of the pipeline between frames.
pub struct System {
    /// The dimensions that the intermediate buffer was allocated for.
    pub intermediate: Option<Plane>,
    /// The parameters of the sensitivity model.
    pub csf: Csf,
    /// The adapter, with its cache of the sampled table.
    pub adapter: PerceptionAdapter,
    /// Whether frames are adapted at all.
    pub adapt: bool,
    /// Which variant of the adapter is used.
    pub strategy: Strategy,
    /// The transform engine.
    pub fft: Fft,
    /// The color-space converter.
    pub color_space: ColorSpace,
    /// The format that the device reports for the intermediate buffer, from
    /// which the transform takes the number of channels.
    pub format: InternalFormat,
}

impl System {
    /// The transform engine and the adapter are well formed.
    pub open spec fn wf(&self) -> bool {
        self.fft.wf() && self.adapter.wf()
    }

    /// Whether the model and the densities are fit for a frame: either
    /// frames are not adapted, or the parameters can be evaluated and both
    /// densities are finite and not zero.
    pub open spec fn spec_ready(
        &self,
        pixels_per_vd: Scalar,
        target_pixels_per_vd: Scalar,
    ) -> bool {
        self.adapt ==> {
            &&& self.csf.is_valid()
            &&& spec_valid_density(pixels_per_vd)
            &&& spec_valid_density(target_pixels_per_vd)
        }
    }

    /// Whether a frame of these dimensions can be drawn: it is not adapted,
    /// or the planes of the last frame fit it, or planes can be allocated
    /// for it.
    pub open spec fn spec_can_draw(&self, frame: Plane) -> bool {
        ||| !self.adapt
        ||| self.fft.fits(frame)
        ||| (frame.width <= MAX_DIMENSION && frame.height <= MAX_DIMENSION)
    }

    /// Bringing the frame into the intermediate buffer.
    pub open spec fn spec_load(&self, frame: Plane) -> Seq<Command> {
        if self.intermediate == Some(frame) {
            seq![Command::LoadFrame]
        } else {
            seq![Command::AllocateIntermediate { plane: frame }, Command::LoadFrame]
        }
    }

    /// The sizes of the transform target that the frame is worked on in.
    pub open spec fn spec_target_info(&self, frame: Plane) -> ImgInfo {
        if self.fft.fits(frame) {
            self.fft.spec_texture()->0.spec_img_info()
        } else {
            ImgInfo::spec_new(frame.width, frame.height, self.format)
        }
    }

    /// Bringing the frame into the transform target.
    pub open spec fn spec_planes(&self, frame: Plane) -> Seq<Command> {
        if self.fft.fits(frame) {
            seq![Command::LoadPlanes]
        } else {
            seq![
                Command::AllocatePlanes { info: self.spec_target_info(frame) },
                Command::LoadPlanes,
            ]
        }
    }

    /// The upload of the table, if the adapter's request for it finds it
    /// out of date.
    pub open spec fn spec_upload(&self) -> Seq<Command> {
        if self.adapter.csf_upload.spec_stale(self.csf) {
            seq![Command::UploadLut { csf: self.csf }]
        } else {
            Seq::empty()
        }
    }

    /// The dispatch of the per-bin kernel, unless the densities are equal.
    pub open spec fn spec_bins(
        &self,
        frame: Plane,
        pixels_per_vd: Scalar,
        target_pixels_per_vd: Scalar,
    ) -> Seq<Command> {
        if pixels_per_vd.same_value(target_pixels_per_vd) {
            Seq::empty()
        } else {
            seq![
                Command::AdaptBins {
                    work_groups: self.spec_target_info(frame).output().spec_work_groups(),
                    pixels_per_visual_degree: pixels_per_vd,
                    target_pixels_per_visual_degree: target_pixels_per_vd,
                },
            ]
        }
    }

    /// The adapter's part in the frequency domain: the table is asked for
    /// on every frame, and uploaded when it has been sampled again; the
    /// kernel runs unless the densities are equal.
    pub open spec fn spec_adapt_bins(
        &self,
        frame: Plane,
        pixels_per_vd: Scalar,
        target_pixels_per_vd: Scalar,
    ) -> Seq<Command> {
        self.spec_upload() + self.spec_bins(frame, pixels_per_vd, target_pixels_per_vd)
    }

    /// The adapter's part in the spatial domain.
    pub open spec fn spec_scale_contrast(
        &self,
        frame: Plane,
        pixels_per_vd: Scalar,
        target_pixels_per_vd: Scalar,
    ) -> Seq<Command> {
        if pixels_per_vd.same_value(target_pixels_per_vd) {
            Seq::empty()
        } else {
            seq![
                Command::ScaleContrast {
                    work_groups: frame.spec_work_groups(),
                    csf: self.csf,
                    pixels_per_visual_degree: pixels_per_vd,
                    target_pixels_per_visual_degree: target_pixels_per_vd,
                },
            ]
        }
    }

    /// What happens between the split and the merge of the color space.
    pub open spec fn spec_between(
        &self,
        frame: Plane,
        pixels_per_vd: Scalar,
        target_pixels_per_vd: Scalar,
    ) -> Seq<Command> {
        let info = self.spec_target_info(frame);
        match self.strategy {
            Strategy::FrequencyDomain => seq![
                Command::Transform { pass: spec_forward_passes(info).0 },
                Command::Transform { pass: spec_forward_passes(info).1 },
            ] + self.spec_adapt_bins(frame, pixels_per_vd, target_pixels_per_vd) + seq![
                Command::Transform { pass: spec_inverse_passes(info).0 },
                Command::Transform { pass: spec_inverse_passes(info).1 },
            ],
            Strategy::SpatialScale => self.spec_scale_contrast(
                frame,
                pixels_per_vd,
                target_pixels_per_vd,
            ),
        }
    }

    /// The whole work on an adapted frame after it has reached the
    /// intermediate buffer.
    pub open spec fn spec_adaptation(
        &self,
        frame: Plane,
        pixels_per_vd: Scalar,
        target_pixels_per_vd: Scalar,
    ) -> Seq<Command> {
        self.spec_planes(frame) + seq![
            Command::ConvertColor {
                dispatch: ColorDispatch {
                    mode: MODE_RGB_TO_YCBCR,
                    work_groups: frame.spec_work_groups(),
                },
            },
        ] + self.spec_between(frame, pixels_per_vd, target_pixels_per_vd) + seq![
            Command::ConvertColor {
                dispatch: ColorDispatch {
                    mode: MODE_YCBCR_TO_RGB,
                    work_groups: frame.spec_work_groups(),
                },
            },
            Command::Present { source: Source::Original },
        ]
    }

    /// The commands for one frame.
    pub open spec fn spec_draw(
        &self,
        frame: Plane,
        pixels_per_vd: Scalar,
        target_pixels_per_vd: Scalar,
    ) -> Seq<Command> {
        if self.adapt {
            self.spec_load(frame) + self.spec_adaptation(frame, pixels_per_vd, target_pixels_per_vd)
        } else {
            self.spec_load(frame) + seq![Command::Present { source: Source::Intermediate }]
        }
    }

    /// How the state `after` a frame follows from the state before it.
    pub open spec fn spec_drawn<F: Fn(Csf, Scalar, Scalar, usize, usize) -> (Scalar, Scalar)>(
        &self,
        after: System,
        frame: Plane,
        pixels_per_vd: Scalar,
        target_pixels_per_vd: Scalar,
        sample: F,
    ) -> bool {
        &&& after.wf()
        &&& after.intermediate == Some(frame)
        &&& after.csf == self.csf
        &&& after.adapt == self.adapt
        &&& after.strategy == self.strategy
        &&& after.color_space == self.color_space
        &&& after.format == self.format
        &&& !self.adapt ==> after.fft == self.fft && after.adapter == self.adapter
        &&& self.adapt ==> {
            &&& after.fft.fits(frame)
            &&& after.fft.spec_texture()->0.spec_img_info() == self.spec_target_info(frame)
            &&& after.fft.spec_texture()->0.spec_domain() == Domain::Spatial
            &&& match self.strategy {
                Strategy::FrequencyDomain => self.adapter.spec_drew(
                    after.adapter,
                    self.csf,
                    sample,
                ),
                Strategy::SpatialScale => after.adapter == self.adapter,
            }
        }
    }

    /// The pipeline before its first frame: no buffer is allocated, no
    /// table is sampled, frames have four channels and are adapted in the
    /// frequency domain, and the model has its default parameters.
    pub fn new() -> (system: System)
        ensures
            system.wf(),
            system.intermediate is None,
            system.fft.spec_texture() is None,
            system.adapt,
            system.strategy == Strategy::FrequencyDomain,
            system.format == InternalFormat::FourComponents,
            system.csf == spec_default_csf(),
            system.csf.is_valid(),
            system.adapter.csf_upload.is_new(),
    {
        System {
            intermediate: None,
            csf: Csf {
                a: Scalar { bits: DEFAULT_A },
                omega: Scalar { bits: DEFAULT_OMEGA },
                sigma: Scalar { bits: DEFAULT_SIGMA },
                k: Scalar { bits: DEFAULT_K },
            },
            adapter: PerceptionAdapter::new(),
            adapt: true,
            strategy: Strategy::FrequencyDomain,
            fft: Fft::new(),
            color_space: ColorSpace::new(),
            format: InternalFormat::FourComponents,
        }
    }

    /// Brings the frame into the intermediate buffer, which is replaced
    /// first unless it has the frame's dimensions.
    fn load(&mut self, frame: &Plane, commands: &mut Vec<Command>)
        ensures
            final(commands)@ == old(commands)@ + old(self).spec_load(*frame),
            *final(self) == (System { intermediate: Some(*frame), ..*old(self) }),
    {
        if stale(&self.intermediate, frame) {
            self.intermediate = Some(*frame);
            commands.push(Command::AllocateIntermediate { plane: *frame });
        }
        commands.push(Command::LoadFrame);
        assert(commands@ =~= old(commands)@ + old(self).spec_load(*frame));
    }

    /// Brings the frame into the transform target, which is replaced first
    /// unless it was made for the frame's dimensions.
    fn ready_planes(&mut self, frame: &Plane, commands: &mut Vec<Command>) -> (r: Result<
        (),
        PipelineError,
    >)
        requires
            old(self).wf(),
            old(self).fft.fits(*frame) || (frame.width <= MAX_DIMENSION && frame.height
                <= MAX_DIMENSION),
        ensures
            r is Ok,
            final(commands)@ == old(commands)@ + old(self).spec_planes(*frame),
            *final(self) == (System { fft: final(self).fft, ..*old(self) }),
            final(self).wf(),
            final(self).fft.fits(*frame),
            final(self).fft.spec_texture()->0.spec_img_info() == old(self).spec_target_info(*frame),
            final(self).fft.spec_texture()->0.spec_domain() == Domain::Spatial,
    {
        let format = self.format;
        let action = self.fft.process_texture(frame, &format)?;
        match action {
            PlaneAction::Reallocate { info } => {
                commands.push(Command::AllocatePlanes { info });
            },
            PlaneAction::Recopy => {},
        }
        commands.push(Command::LoadPlanes);
        assert(commands@ =~= old(commands)@ + old(self).spec_planes(*frame));
        Ok(())
    }

    /// The adapter's part in the frequency domain: the table is asked for
    /// and uploaded if it was out of date, and the kernel runs over the
    /// spectrum unless the densities are equal.
    fn adapt_bins<F: Fn(Csf, Scalar, Scalar, usize, usize) -> (Scalar, Scalar)>(
        &mut self,
        frame: &Plane,
        pixels_per_vd: Scalar,
        target_pixels_per_vd: Scalar,
        sample: F,
        commands: &mut Vec<Command>,
    ) -> (r: Result<(), PipelineError>)
        requires
            old(self).wf(),
            old(self).fft.fits(*frame),
            old(self).csf.is_valid(),
            spec_valid_density(pixels_per_vd),
            spec_valid_density(target_pixels_per_vd),
            spec_can_sample(old(self).csf, sample),
        ensures
            r is Ok,
            final(commands)@ == old(commands)@ + old(self).spec_adapt_bins(
                *frame,
                pixels_per_vd,
                target_pixels_per_vd,
            ),
            *final(self) == (System { adapter: final(self).adapter, ..*old(self) }),
            final(self).wf(),
            old(self).adapter.spec_drew(final(self).adapter, old(self).csf, sample),
    {
        let texture = match self.fft.texture() {
            Some(texture) => texture,
            None => {
                return Err(PipelineError::StateError);
            },
        };
        let csf = self.csf;
        let adaptation = self.adapter.draw(
            texture.real_plane(),
            texture.imag(),
            pixels_per_vd,
            &csf,
            target_pixels_per_vd,
            sample,
        )?;
        match adaptation {
            Adaptation::Identity { rebuild_lut } => {
                if rebuild_lut {
                    commands.push(Command::UploadLut { csf });
                }
            },
            Adaptation::PerBin { rebuild_lut, work_groups } => {
                if rebuild_lut {
                    commands.push(Command::UploadLut { csf });
                }
                commands.push(
                    Command::AdaptBins {
                        work_groups,
                        pixels_per_visual_degree: pixels_per_vd,
                        target_pixels_per_visual_degree: target_pixels_per_vd,
                    },
                );
            },
            Adaptation::Uniform { .. } => {},
        }
        assert(commands@ =~= old(commands)@ + old(self).spec_adapt_bins(
            *frame,
            pixels_per_vd,
            target_pixels_per_vd,
        ));
        Ok(())
    }

    /// The adapter's part in the spatial domain: the kernel runs over the
    /// image.
    fn scale_contrast(
        &self,
        frame: &Plane,
        pixels_per_vd: Scalar,
        target_pixels_per_vd: Scalar,
        commands: &mut Vec<Command>,
    )
        requires
            self.csf.is_valid(),
            spec_valid_density(pixels_per_vd),
            spec_valid_density(target_pixels_per_vd),
        ensures
            final(commands)@ == old(commands)@ + self.spec_scale_contrast(
                *frame,
                pixels_per_vd,
                target_pixels_per_vd,
            ),
    {
        match self.adapter.scale(frame, pixels_per_vd, &self.csf, target_pixels_per_vd) {
            Adaptation::Uniform { work_groups } => {
                commands.push(
                    Command::ScaleContrast {
                        work_groups,
                        csf: self.csf,
                        pixels_per_visual_degree: pixels_per_vd,
                        target_pixels_per_visual_degree: target_pixels_per_vd,
                    },
                );
            },
            _ => {},
        }
        assert(commands@ =~= old(commands)@ + self.spec_scale_contrast(
            *frame,
            pixels_per_vd,
            target_pixels_per_vd,
        ));
    }

    /// What happens between the split and the merge of the color space: in
    /// the frequency domain the forward passes, the adapter and the inverse
    /// passes, in the spatial domain the adapter alone.
    fn between<F: Fn(Csf, Scalar, Scalar, usize, usize) -> (Scalar, Scalar)>(
        &mut self,
        frame: &Plane,
        pixels_per_vd: Scalar,
        target_pixels_per_vd: Scalar,
        sample: F,
        commands: &mut Vec<Command>,
    ) -> (r: Result<(), PipelineError>)
        requires
            old(self).wf(),
            old(self).fft.fits(*frame),
            old(self).fft.spec_texture()->0.spec_domain() == Domain::Spatial,
            old(self).csf.is_valid(),
            spec_valid_density(pixels_per_vd),
            spec_valid_density(target_pixels_per_vd),
            spec_can_sample(old(self).csf, sample),
        ensures
            r is Ok,
            final(commands)@ == old(commands)@ + old(self).spec_between(
                *frame,
                pixels_per_vd,
                target_pixels_per_vd,
            ),
            *final(self) == (System {
                fft: final(self).fft,
                adapter: final(self).adapter,
                ..*old(self)
            }),
            final(self).wf(),
            final(self).fft.fits(*frame),
            final(self).fft.spec_texture()->0.spec_img_info() == old(
                self,
            ).fft.spec_texture()->0.spec_img_info(),
            final(self).fft.spec_texture()->0.spec_domain() == Domain::Spatial,
            match old(self).strategy {
                Strategy::FrequencyDomain => old(self).adapter.spec_drew(
                    final(self).adapter,
                    old(self).csf,
                    sample,
                ),
                Strategy::SpatialScale => final(self).adapter == old(self).adapter,
            },
    {
        match self.strategy {
            Strategy::FrequencyDomain => {
                let (first, second) = self.fft.forward()?;
                commands.push(Command::Transform { pass: first });
                commands.push(Command::Transform { pass: second });
                let ghost forward = commands@;
                self.adapt_bins(frame, pixels_per_vd, target_pixels_per_vd, sample, commands)?;
                let ghost adapted = commands@;
                let (third, fourth) = self.fft.inverse()?;
                commands.push(Command::Transform { pass: third });
                commands.push(Command::Transform { pass: fourth });
                proof {
                    let info = old(self).spec_target_info(*frame);
                    assert(forward =~= old(commands)@ + seq![
                        Command::Transform { pass: spec_forward_passes(info).0 },
                        Command::Transform { pass: spec_forward_passes(info).1 },
                    ]);
                    assert(commands@ =~= adapted + seq![
                        Command::Transform { pass: spec_inverse_passes(info).0 },
                        Command::Transform { pass: spec_inverse_passes(info).1 },
                    ]);
                    assert(commands@ =~= old(commands)@ + old(self).spec_between(
                        *frame,
                        pixels_per_vd,
                        target_pixels_per_vd,
                    ));
                }
            },
            Strategy::SpatialScale => {
                self.scale_contrast(frame, pixels_per_vd, target_pixels_per_vd, commands);
            },
        }
        Ok(())
    }

    /// Whether the model and the densities are fit for a frame.
    pub fn ready(&self, pixels_per_vd: &Scalar, target_pixels_per_vd: &Scalar) -> (r: bool)
        ensures
            r == self.spec_ready(*pixels_per_vd, *target_pixels_per_vd),
    {
        !self.adapt || (self.csf.valid() && valid_density(pixels_per_vd) && valid_density(
            target_pixels_per_vd,
        ))
    }

    /// Plans the work on one frame as `draw` does, if the model and the
    /// densities are fit for it. If they are not, nothing is planned and
    /// nothing changes.
    pub fn try_draw<F: Fn(Csf, Scalar, Scalar, usize, usize) -> (Scalar, Scalar)>(
        &mut self,
        frame: &Plane,
        pixels_per_vd: Scalar,
        target_pixels_per_vd: Scalar,
        sample: F,
    ) -> (r: Option<Result<Vec<Command>, PipelineError>>)
        requires
            old(self).wf(),
            old(self).adapt ==> spec_can_sample(old(self).csf, sample),
        ensures
            r is Some <==> old(self).spec_ready(pixels_per_vd, target_pixels_per_vd),
            r is None ==> *final(self) == *old(self),
            r matches Some(drawn) ==> {
                &&& drawn is Ok <==> old(self).spec_can_draw(*frame)
                &&& drawn matches Ok(commands) ==> {
                    &&& commands@ == old(self).spec_draw(
                        *frame,
                        pixels_per_vd,
                        target_pixels_per_vd,
                    )
                    &&& old(self).spec_drawn(
                        *final(self),
                        *frame,
                        pixels_per_vd,
                        target_pixels_per_vd,
                        sample,
                    )
                }
                &&& drawn matches Err(e) ==> e == PipelineError::ResourceError && *final(self)
                    == *old(self)
            },
            final(self).wf(),
    {
        if self.ready(&pixels_per_vd, &target_pixels_per_vd) {
            Some(self.draw(frame, pixels_per_vd, target_pixels_per_vd, sample))
        } else {
            None
        }
    }

    /// Plans the work on one frame of the dimensions of `frame`, seen at
    /// `pixels_per_vd` pixels per degree of visual angle and to be adapted
    /// to `target_pixels_per_vd`. The commands are to be run in the order
    /// of the list. If the table of the model is out of date it is sampled
    /// again, with `sample` to evaluate the model, and the list asks for its
    /// upload. A frame that is to be adapted and is too large for planes to
    /// be allocated is refused, and nothing changes.
    pub fn draw<F: Fn(Csf, Scalar, Scalar, usize, usize) -> (Scalar, Scalar)>(
        &mut self,
        frame: &Plane,
        pixels_per_vd: Scalar,
        target_pixels_per_vd: Scalar,
        sample: F,
    ) -> (r: Result<Vec<Command>, PipelineError>)
        requires
            old(self).wf(),
            old(self).adapt ==> {
                &&& old(self).csf.is_valid()
                &&& spec_valid_density(pixels_per_vd)
                &&& spec_valid_density(target_pixels_per_vd)
                &&& spec_can_sample(old(self).csf, sample)
            },
        ensures
            r is Ok <==> old(self).spec_can_draw(*frame),
            r matches Ok(commands) ==> {
                &&& commands@ == old(self).spec_draw(*frame, pixels_per_vd, target_pixels_per_vd)
                &&& old(self).spec_drawn(
                    *final(self),
                    *frame,
                    pixels_per_vd,
                    target_pixels_per_vd,
                    sample,
                )
            },
            r matches Err(e) ==> e == PipelineError::ResourceError && *final(self) == *old(self),
            final(self).wf(),
    {
        if self.adapt && !self.fft.holds(frame) && (frame.width > MAX_DIMENSION || frame.height
            > MAX_DIMENSION) {
            return Err(PipelineError::ResourceError);
        }
        let mut commands: Vec<Command> = Vec::new();
        self.load(frame, &mut commands);
        if !self.adapt {
            commands.push(Command::Present { source: Source::Intermediate });
            return Ok(commands);
        }
        let ghost loaded = commands@;
        self.ready_planes(frame, &mut commands)?;
        commands.push(Command::ConvertColor { dispatch: self.color_space.rgb_to_ycbcr(frame) });
        let ghost split = commands@;
        self.between(frame, pixels_per_vd, target_pixels_per_vd, sample, &mut commands)?;
        let ghost merged = commands@;
        commands.push(Command::ConvertColor { dispatch: self.color_space.ycbcr_to_rgb(frame) });
        commands.push(Command::Present { source: Source::Original });
        proof {
            assert(split =~= loaded + old(self).spec_planes(*frame) + seq![
                Command::ConvertColor {
                    dispatch: ColorDispatch {
                        mode: MODE_RGB_TO_YCBCR,
                        work_groups: frame.spec_work_groups(),
                    },
                },
            ]);
            assert(merged =~= split + old(self).spec_between(
                *frame,
                pixels_per_vd,
                target_pixels_per_vd,
            ));
            assert(commands@ =~= old(self).spec_draw(*frame, pixels_per_vd, target_pixels_per_vd));
        }
        Ok(commands)
    }
}

/// The stages of a list made of two parts are those of the first part
/// followed by those of the second.
pub proof fn lemma_stages_of_parts(first: Seq<Command>, second: Seq<Command>)
    ensures
        spec_stages(first + second) == spec_stages(first) + spec_stages(second),
    decreases second.len(),
{
    if second.len() == 0 {
        assert(first + second =~= first);
        assert(spec_stages(first) + spec_stages(second) =~= spec_stages(first));
    } else {
        assert((first + second).drop_last() =~= first + second.drop_last());
        lemma_stages_of_parts(first, second.drop_last());
        assert((first + second).last() == second.last());
        match second.last() {
            Command::Transform { pass } => {
                assert(spec_stages(first + second) =~= spec_stages(first) + spec_stages(second));
            },
            _ => {},
        }
    }
}

/// A list of one command has the stage of that command, if it is a pass of
/// the transform, and none otherwise.
proof fn lemma_stages_of_one(command: Command)
    ensures
        spec_stages(seq![command]) == match command {
            Command::Transform { pass } => seq![pass.stage],
            _ => Seq::<u32>::empty(),
        },
{
    let one = seq![command];
    assert(one.drop_last() =~= Seq::<Command>::empty());
    assert(spec_stages(one.drop_last()) =~= Seq::<u32>::empty());
    assert(one.last() == command);
    match command {
        Command::Transform { pass } => {
            assert(spec_stages(one) =~= seq![pass.stage]);
        },
        _ => {},
    }
}

/// A list of two commands has their stages in their order.
proof fn lemma_stages_of_two(a: Command, b: Command)
    ensures
        spec_stages(seq![a, b]) == spec_stages(seq![a]) + spec_stages(seq![b]),
{
    assert(seq![a, b] =~= seq![a] + seq![b]);
    lemma_stages_of_parts(seq![a], seq![b]);
}

/// The passes of the transform run in the order of their stages. A frame
/// that is adapted in the frequency domain gets the four stages once each,
/// forward along the width, forward along the height, inverse along the
/// height, inverse along the width. Any other frame gets none.
pub proof fn lemma_stages_in_order(
    system: System,
    frame: Plane,
    pixels_per_vd: Scalar,
    target_pixels_per_vd: Scalar,
)
    ensures
        spec_stages(system.spec_draw(frame, pixels_per_vd, target_pixels_per_vd)) == if system.adapt
            && system.strategy == Strategy::FrequencyDomain {
            seq![0u32, 1u32, 2u32, 3u32]
        } else {
            Seq::<u32>::empty()
        },
{
    let info = system.spec_target_info(frame);
    let load = system.spec_load(frame);
    let planes = system.spec_planes(frame);
    let bins = system.spec_adapt_bins(frame, pixels_per_vd, target_pixels_per_vd);
    let scale = system.spec_scale_contrast(frame, pixels_per_vd, target_pixels_per_vd);
    let between = system.spec_between(frame, pixels_per_vd, target_pixels_per_vd);
    let split = Command::ConvertColor {
        dispatch: ColorDispatch { mode: MODE_RGB_TO_YCBCR, work_groups: frame.spec_work_groups() },
    };
    let merge = Command::ConvertColor {
        dispatch: ColorDispatch { mode: MODE_YCBCR_TO_RGB, work_groups: frame.spec_work_groups() },
    };
    let original = Command::Present { source: Source::Original };
    let intermediate = Command::Present { source: Source::Intermediate };
    let none = Seq::<u32>::empty();

    // The parts that hold no pass.
    lemma_stages_of_one(Command::LoadFrame);
    lemma_stages_of_one(Command::AllocateIntermediate { plane: frame });
    lemma_stages_of_two(Command::AllocateIntermediate { plane: frame }, Command::LoadFrame);
    assert(spec_stages(load) =~= none);
    lemma_stages_of_one(Command::LoadPlanes);
    lemma_stages_of_one(Command::AllocatePlanes { info });
    lemma_stages_of_two(Command::AllocatePlanes { info }, Command::LoadPlanes);
    assert(spec_stages(planes) =~= none);
    lemma_stages_of_one(split);
    lemma_stages_of_one(merge);
    lemma_stages_of_one(original);
    lemma_stages_of_one(intermediate);
    lemma_stages_of_two(merge, original);
    assert(spec_stages(seq![merge, original]) =~= none);
    let adapt_bins = Command::AdaptBins {
        work_groups: info.output().spec_work_groups(),
        pixels_per_visual_degree: pixels_per_vd,
        target_pixels_per_visual_degree: target_pixels_per_vd,
    };
    let upload = Command::UploadLut { csf: system.csf };
    lemma_stages_of_one(adapt_bins);
    lemma_stages_of_one(upload);
    assert(spec_stages(system.spec_upload()) =~= none);
    assert(spec_stages(system.spec_bins(frame, pixels_per_vd, target_pixels_per_vd)) =~= none);
    lemma_stages_of_parts(
        system.spec_upload(),
        system.spec_bins(frame, pixels_per_vd, target_pixels_per_vd),
    );
    assert(spec_stages(bins) =~= none);
    let scale_contrast = Command::ScaleContrast {
        work_groups: frame.spec_work_groups(),
        csf: system.csf,
        pixels_per_visual_degree: pixels_per_vd,
        target_pixels_per_visual_degree: target_pixels_per_vd,
    };
    lemma_stages_of_one(scale_contrast);
    assert(spec_stages(scale) =~= none);

    // The passes.
    let forward = seq![
        Command::Transform { pass: spec_forward_passes(info).0 },
        Command::Transform { pass: spec_forward_passes(info).1 },
    ];
    let inverse = seq![
        Command::Transform { pass: spec_inverse_passes(info).0 },
        Command::Transform { pass: spec_inverse_passes(info).1 },
    ];
    lemma_stages_of_one(forward[0]);
    lemma_stages_of_one(forward[1]);
    lemma_stages_of_two(forward[0], forward[1]);
    assert(spec_stages(forward) =~= seq![0u32, 1u32]);
    lemma_stages_of_one(inverse[0]);
    lemma_stages_of_one(inverse[1]);
    lemma_stages_of_two(inverse[0], inverse[1]);
    assert(spec_stages(inverse) =~= seq![2u32, 3u32]);

    if system.adapt {
        match system.strategy {
            Strategy::FrequencyDomain => {
                lemma_stages_of_parts(forward, bins);
                lemma_stages_of_parts(forward + bins, inverse);
                assert(spec_stages(between) =~= seq![0u32, 1u32, 2u32, 3u32]);
            },
            Strategy::SpatialScale => {},
        }
        let adaptation = system.spec_adaptation(frame, pixels_per_vd, target_pixels_per_vd);
        lemma_stages_of_parts(planes, seq![split]);
        lemma_stages_of_parts(planes + seq![split], between);
        lemma_stages_of_parts(planes + seq![split] + between, seq![merge, original]);
        assert(spec_stages(adaptation) =~= spec_stages(between));
        lemma_stages_of_parts(load, adaptation);
        assert(spec_stages(load + adaptation) =~= spec_stages(between));
    } else {
        lemma_stages_of_parts(load, seq![intermediate]);
        assert(spec_stages(load + seq![intermediate]) =~= none);
    }
}

/// Buffers are kept while the frames keep their dimensions: the frame
/// after a frame of the same dimensions allocates nothing.
pub proof fn lemma_same_dimensions_allocate_nothing<
    F: Fn(Csf, Scalar, Scalar, usize, usize) -> (Scalar, Scalar),
>(
    before: System,
    after: System,
    frame: Plane,
    pixels_per_vd: Scalar,
    target_pixels_per_vd: Scalar,
    sample: F,
    next_pixels_per_vd: Scalar,
    next_target_pixels_per_vd: Scalar,
)
    requires
        before.spec_drawn(after, frame, pixels_per_vd, target_pixels_per_vd, sample),
    ensures
        forall|i: int|
            0 <= i < after.spec_draw(frame, next_pixels_per_vd, next_target_pixels_per_vd).len()
                ==> !spec_allocates(
                #[trigger] after.spec_draw(frame, next_pixels_per_vd, next_target_pixels_per_vd)[i],
            ),
{
    assert(after.spec_load(frame) =~= seq![Command::LoadFrame]);
    if after.adapt {
        assert(after.spec_planes(frame) =~= seq![Command::LoadPlanes]);
    }
}

/// With equal densities the frame is not adapted: no kernel of the adapter
/// runs, so nothing touches the spectrum between the forward and the
/// inverse transform, nor the image in the spatial variant.
pub proof fn lemma_equal_densities_adapt_nothing(system: System, frame: Plane, density: Scalar)
    requires
        spec_valid_density(density),
    ensures
        forall|i: int|
            0 <= i < system.spec_draw(frame, density, density).len() ==> !spec_adapts(
                #[trigger] system.spec_draw(frame, density, density)[i],
            ),
{
    assert(system.spec_bins(frame, density, density) =~= Seq::<Command>::empty());
    assert(system.spec_adapt_bins(frame, density, density) =~= system.spec_upload());
    assert(system.spec_scale_contrast(frame, density, density) =~= Seq::<Command>::empty());
}

/// The table is sampled and uploaded once for each change of the
/// parameters: a frame that is adapted in the frequency domain leaves the
/// table up to date, whatever its densities were, so the next frame with
/// the same parameters uploads nothing, and neither does any frame after
/// that.
pub proof fn lemma_repeated_draw_uploads_nothing<
    F: Fn(Csf, Scalar, Scalar, usize, usize) -> (Scalar, Scalar),
>(
    before: System,
    after: System,
    frame: Plane,
    pixels_per_vd: Scalar,
    target_pixels_per_vd: Scalar,
    sample: F,
    next_frame: Plane,
    next_pixels_per_vd: Scalar,
    next_target_pixels_per_vd: Scalar,
)
    requires
        before.adapt,
        before.strategy == Strategy::FrequencyDomain,
        before.csf.is_valid(),
        before.spec_drawn(after, frame, pixels_per_vd, target_pixels_per_vd, sample),
    ensures
        after.spec_upload() == Seq::<Command>::empty(),
        forall|i: int|
            0 <= i < after.spec_draw(
                next_frame,
                next_pixels_per_vd,
                next_target_pixels_per_vd,
            ).len() ==> !(#[trigger] after.spec_draw(
                next_frame,
                next_pixels_per_vd,
                next_target_pixels_per_vd,
            )[i] is UploadLut),
{
    assert(after.spec_upload() =~= Seq::<Command>::empty());
    assert(after.spec_adapt_bins(next_frame, next_pixels_per_vd, next_target_pixels_per_vd)
        =~= after.spec_bins(next_frame, next_pixels_per_vd, next_target_pixels_per_vd));
}

/// Every frame ends by being presented, and nothing follows: an adapted
/// frame from the plane that the transform wrote back to, any other frame
/// from the intermediate buffer. A frame that is not adapted is loaded and
/// presented, and nothing else.
pub proof fn lemma_draw_ends_in_present(
    system: System,
    frame: Plane,
    pixels_per_vd: Scalar,
    target_pixels_per_vd: Scalar,
)
    ensures
        system.spec_draw(frame, pixels_per_vd, target_pixels_per_vd).len() >= 2,
        system.spec_draw(frame, pixels_per_vd, target_pixels_per_vd).last() == (Command::Present {
            source: if system.adapt {
                Source::Original
            } else {
                Source::Intermediate
            },
        }),
        !system.adapt ==> system.spec_draw(frame, pixels_per_vd, target_pixels_per_vd)
            == system.spec_load(frame).push(Command::Present { source: Source::Intermediate }),
{
    let plan = system.spec_draw(frame, pixels_per_vd, target_pixels_per_vd);
    if !system.adapt {
        assert(plan =~= system.spec_load(frame).push(
            Command::Present { source: Source::Intermediate },
        ));
    }
}

} // verus!
