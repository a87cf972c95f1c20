//! The perceptual adapter: the table sampled from the sensitivity model,
//! the cache that holds it with the parameters that it was sampled from,
//! and the choice of what to run on the planes.
//!
//! The adapter rescales a spectrum so that an image seen at one pixel
//! density looks as it would at another. In the frequency domain every bin
//! is scaled by the ratio of the model's sensitivity at the bin's frequency
//! under the target density to that under the current density. The coarse
//! alternative scales the contrast of the image by one such ratio.

use vstd::prelude::*;
use crate::csf::Csf;
use crate::error::PipelineError;
use crate::plane::{Plane, WorkGroups};
use crate::scalar::Scalar;

verus! {

/// The number of samples in a table.
pub const LUT_SIZE: usize = 4096;

/// The encoding of 0.0, the lowest frequency of a table in cycles per degree.
pub const LUT_LOWER_LIMIT: u32 = 0;

/// The encoding of 50.0, the highest frequency of a table in cycles per
/// degree.
pub const LUT_UPPER_LIMIT: u32 = 0x4248_0000;

/// What an evaluator of the model can return: the relation between the
/// parameters, the two bounds, the index of a sample and the number of
/// samples on one side, and a pair of frequency and sensitivity on the
/// other.
pub type Sampling = spec_fn(Csf, Scalar, Scalar, usize, usize, (Scalar, Scalar)) -> bool;

/// The relation that allows nothing: that of a cache which has not sampled.
pub open spec fn spec_no_sampling() -> Sampling {
    |csf: Csf, min: Scalar, max: Scalar, i: usize, points: usize, pair: (Scalar, Scalar)| false
}

/// The relation of the evaluator `sample`.
pub open spec fn spec_sampling<F: Fn(Csf, Scalar, Scalar, usize, usize) -> (Scalar, Scalar)>(
    sample: F,
) -> Sampling {
    |csf: Csf, min: Scalar, max: Scalar, i: usize, points: usize, pair: (Scalar, Scalar)|
        call_ensures(sample, (csf, min, max, i, points), pair)
}

/// A table sampled from the sensitivity model, with the bounds of the
/// frequencies that it covers. Sample `i` of `LUT_SIZE` belongs to the
/// frequency `i / (LUT_SIZE - 1)` of the way from the lower to the upper
/// limit.
#[derive(Debug)]
pub struct CsfLut {
    pub lut_lower_limit: Scalar,
    pub lut_upper_limit: Scalar,
    /// The samples in the order of their frequencies, each a frequency and
    /// the sensitivity at it.
    pub lut_points: Vec<(Scalar, Scalar)>,
}

impl CsfLut {
    /// The table has `LUT_SIZE` samples and covers 0 to 50 cycles per
    /// degree.
    pub open spec fn wf(&self) -> bool {
        &&& self.lut_points@.len() == LUT_SIZE
        &&& self.lut_lower_limit.bits == LUT_LOWER_LIMIT
        &&& self.lut_upper_limit.bits == LUT_UPPER_LIMIT
    }

    /// The table is well formed, and each of its samples is what the
    /// relation `sampling` allows for the parameters `csf`, the table's
    /// bounds, the sample's index and the table's size.
    pub open spec fn sampled_under(&self, csf: Csf, sampling: Sampling) -> bool {
        &&& self.wf()
        &&& forall|i: int|
            0 <= i < LUT_SIZE ==> sampling(
                csf,
                self.lut_lower_limit,
                self.lut_upper_limit,
                i as usize,
                LUT_SIZE,
                #[trigger] self.lut_points@[i],
            )
    }

    /// The table is well formed, and each of its samples is what `sample`
    /// can return for the parameters `csf`, the table's bounds, the sample's
    /// index and the table's size.
    pub open spec fn sampled_from<F: Fn(Csf, Scalar, Scalar, usize, usize) -> (Scalar, Scalar)>(
        &self,
        csf: Csf,
        sample: F,
    ) -> bool {
        self.sampled_under(csf, spec_sampling(sample))
    }

    /// Samples a table from the model with parameters `csf`: `LUT_SIZE`
    /// evenly spaced frequencies from the lower to the upper limit. The
    /// model is evaluated by `sample` as in `Csf::plot_points`.
    pub fn from_csf<F: Fn(Csf, Scalar, Scalar, usize, usize) -> (Scalar, Scalar)>(
        csf: &Csf,
        sample: F,
    ) -> (lut: CsfLut)
        requires
            csf.is_valid(),
            spec_can_sample(*csf, sample),
        ensures
            lut.sampled_from(*csf, sample),
    {
        let lut_lower_limit = Scalar { bits: LUT_LOWER_LIMIT };
        let lut_upper_limit = Scalar { bits: LUT_UPPER_LIMIT };
        let lut_points = csf.plot_points(lut_lower_limit, lut_upper_limit, LUT_SIZE, sample);
        CsfLut { lut_lower_limit, lut_upper_limit, lut_points }
    }

    /// The sensitivities of the samples in their order: the array that the
    /// kernel reads.
    pub fn lut_array(&self) -> (sensitivities: Vec<Scalar>)
        ensures
            sensitivities@.len() == self.lut_points@.len(),
            forall|i: int|
                0 <= i < self.lut_points@.len() ==> #[trigger] sensitivities@[i]
                    == self.lut_points@[i].1,
    {
        let mut sensitivities: Vec<Scalar> = Vec::new();
        let mut i: usize = 0;
        while i < self.lut_points.len()
            invariant
                i <= self.lut_points@.len(),
                sensitivities@.len() == i,
                forall|j: int| 0 <= j < i ==> #[trigger] sensitivities@[j] == self.lut_points@[j].1,
            decreases self.lut_points@.len() - i,
        {
            sensitivities.push(self.lut_points[i].1);
            i = i + 1;
        }
        sensitivities
    }
}

/// Whether `sample` can be called for every sample of a table for `csf`.
pub open spec fn spec_can_sample<F: Fn(Csf, Scalar, Scalar, usize, usize) -> (Scalar, Scalar)>(
    csf: Csf,
    sample: F,
) -> bool {
    forall|i: usize|
        i < LUT_SIZE ==> call_requires(
            sample,
            (csf, Scalar { bits: LUT_LOWER_LIMIT }, Scalar { bits: LUT_UPPER_LIMIT }, i, LUT_SIZE),
        )
}

/// The cache of the table: the parameters that a table was last sampled
/// from, and that table. A table is sampled again only when the parameters
/// asked for differ by value from those that are held.
pub struct CsfUpload {
    ubuffer: Option<CsfLut>,
    cached_csf: Csf,
    /// The relation of the evaluator that sampled the table.
    sampling: Ghost<Sampling>,
}

impl CsfUpload {
    /// The parameters that are held.
    pub closed spec fn spec_cached_csf(&self) -> Csf {
        self.cached_csf
    }

    /// The table that is held, if one has been sampled.
    pub closed spec fn spec_lut(&self) -> Option<CsfLut> {
        self.ubuffer
    }

    /// The relation of the evaluator that sampled the table that is held.
    pub closed spec fn spec_sampling(&self) -> Sampling {
        self.sampling@
    }

    /// If the parameters that are held can be evaluated, a table is held
    /// too, and it was sampled from them: each of its samples is what the
    /// evaluator of that time could return for the parameters that are
    /// held.
    pub open spec fn wf(&self) -> bool {
        self.spec_cached_csf().is_valid() ==> (self.spec_lut() matches Some(lut)
            && lut.sampled_under(self.spec_cached_csf(), self.spec_sampling()))
    }

    /// The cache before any request: all four parameters are zero, and no
    /// table is held.
    pub open spec fn is_new(&self) -> bool {
        &&& self.spec_cached_csf().a.bits == 0
        &&& self.spec_cached_csf().omega.bits == 0
        &&& self.spec_cached_csf().sigma.bits == 0
        &&& self.spec_cached_csf().k.bits == 0
        &&& self.spec_lut() is None
        &&& self.spec_sampling() == spec_no_sampling()
    }

    /// Whether a request for `csf` finds the table out of date.
    pub open spec fn spec_stale(&self, csf: Csf) -> bool {
        !self.spec_cached_csf().same_value(csf)
    }

    /// How the cache `after` a request for `csf` follows from the cache
    /// before it: a table that is out of date is replaced by one sampled
    /// from `csf`, and `csf` is held beside it; otherwise nothing changes.
    pub open spec fn spec_requested<F: Fn(Csf, Scalar, Scalar, usize, usize) -> (Scalar, Scalar)>(
        &self,
        after: CsfUpload,
        csf: Csf,
        sample: F,
    ) -> bool {
        if self.spec_stale(csf) {
            &&& after.spec_cached_csf() == csf
            &&& after.spec_sampling() == spec_sampling(sample)
            &&& after.spec_lut() matches Some(lut) && lut.sampled_from(csf, sample)
        } else {
            after == *self
        }
    }

    /// The cache before any request. Its parameters are all zero, which no
    /// set that can be evaluated equals.
    pub fn new() -> (upload: CsfUpload)
        ensures
            upload.is_new(),
            upload.wf(),
    {
        CsfUpload {
            ubuffer: None,
            cached_csf: Csf {
                a: Scalar { bits: 0 },
                omega: Scalar { bits: 0 },
                sigma: Scalar { bits: 0 },
                k: Scalar { bits: 0 },
            },
            sampling: Ghost(spec_no_sampling()),
        }
    }

    /// Asks for the table of `csf`. If the parameters that are held equal
    /// `csf` by value, the table is kept and the model is not evaluated.
    /// Otherwise a table is sampled from `csf`, and both replace what was
    /// held. Returns whether it was sampled, in which case the copy on the
    /// device is out of date. Afterwards the table is there to be read, and
    /// it is one that was sampled from parameters equal to `csf` by value.
    pub fn ubuffer<F: Fn(Csf, Scalar, Scalar, usize, usize) -> (Scalar, Scalar)>(
        &mut self,
        csf: &Csf,
        sample: F,
    ) -> (rebuild: bool)
        requires
            old(self).wf(),
            csf.is_valid(),
            spec_can_sample(*csf, sample),
        ensures
            rebuild == old(self).spec_stale(*csf),
            old(self).spec_requested(*final(self), *csf, sample),
            final(self).wf(),
            final(self).spec_cached_csf().same_value(*csf),
            final(self).spec_lut() matches Some(lut) && lut.sampled_under(
                final(self).spec_cached_csf(),
                final(self).spec_sampling(),
            ),
    {
        if self.cached_csf != *csf {
            self.cached_csf = *csf;
            self.sampling = Ghost(spec_sampling(sample));
            self.ubuffer = Some(CsfLut::from_csf(csf, sample));
            true
        } else {
            false
        }
    }

    /// The parameters that are held.
    pub fn cached_csf(&self) -> (csf: Csf)
        ensures
            csf == self.spec_cached_csf(),
    {
        self.cached_csf
    }

    /// The table that is held, if one has been sampled.
    pub fn lut(&self) -> (lut: Option<&CsfLut>)
        ensures
            lut matches Some(table) ==> self.spec_lut() == Some(*table),
            lut is None <==> self.spec_lut() is None,
    {
        self.ubuffer.as_ref()
    }
}

/// The first request for a set that can be evaluated always samples a table.
pub proof fn lemma_first_request_rebuilds(upload: CsfUpload, csf: Csf)
    requires
        upload.is_new(),
        csf.is_valid(),
    ensures
        upload.spec_stale(csf),
{
}

/// A request for the set that the last request asked for finds the table up
/// to date and changes nothing, whatever evaluator it brings, provided the
/// set is one that can be evaluated.
pub proof fn lemma_repeated_request_reuses<
    F: Fn(Csf, Scalar, Scalar, usize, usize) -> (Scalar, Scalar),
    G: Fn(Csf, Scalar, Scalar, usize, usize) -> (Scalar, Scalar),
>(before: CsfUpload, after: CsfUpload, next: CsfUpload, csf: Csf, first: F, second: G)
    requires
        csf.is_valid(),
        before.spec_requested(after, csf, first),
        after.spec_requested(next, csf, second),
    ensures
        !after.spec_stale(csf),
        next == after,
{
}

/// After a request for one set, a request for a set that differs from it by
/// value in any field samples the table again, from the new set. The
/// request after that, for the same set, does not.
pub proof fn lemma_changed_request_rebuilds_once<
    F: Fn(Csf, Scalar, Scalar, usize, usize) -> (Scalar, Scalar),
    G: Fn(Csf, Scalar, Scalar, usize, usize) -> (Scalar, Scalar),
>(
    start: CsfUpload,
    held: CsfUpload,
    replaced: CsfUpload,
    before: Csf,
    after: Csf,
    first: F,
    second: G,
)
    requires
        before.is_valid(),
        after.is_valid(),
        !before.a.same_value(after.a) || !before.omega.same_value(after.omega)
            || !before.sigma.same_value(after.sigma) || !before.k.same_value(after.k),
        start.spec_requested(held, before, first),
        held.spec_requested(replaced, after, second),
    ensures
        held.spec_stale(after),
        replaced.spec_cached_csf() == after,
        replaced.spec_lut() matches Some(lut) && lut.sampled_from(after, second),
        !replaced.spec_stale(after),
{
}

/// Whatever requests a cache has seen, the table that it holds after a
/// request was sampled from the parameters that it holds, and these equal
/// the parameters asked for by value.
pub proof fn lemma_held_table_is_of_held_parameters<
    F: Fn(Csf, Scalar, Scalar, usize, usize) -> (Scalar, Scalar),
>(before: CsfUpload, after: CsfUpload, csf: Csf, sample: F)
    requires
        before.wf(),
        csf.is_valid(),
        before.spec_requested(after, csf, sample),
    ensures
        after.wf(),
        after.spec_cached_csf().same_value(csf),
        after.spec_cached_csf().is_valid(),
        after.spec_lut() matches Some(lut) && lut.sampled_under(
            after.spec_cached_csf(),
            after.spec_sampling(),
        ),
        before.spec_stale(csf) ==> after.spec_sampling() == spec_sampling(sample),
        !before.spec_stale(csf) ==> after.spec_sampling() == before.spec_sampling(),
{
}

/// A pixel density that the adapter can work with: finite and not zero.
pub open spec fn spec_valid_density(density: Scalar) -> bool {
    density.is_finite() && !density.is_zero()
}

/// Whether the adapter can work with a pixel density.
pub fn valid_density(density: &Scalar) -> (r: bool)
    ensures
        r == spec_valid_density(*density),
{
    density.finite() && !density.zero()
}

/// How the image is adapted.
#[derive(Clone, Copy, Debug, PartialEq, Eq, Structural)]
pub enum Strategy {
    /// Every bin of the spectrum is scaled on its own.
    FrequencyDomain,
    /// The contrast of the image is scaled by one factor.
    SpatialScale,
}

/// What the adapter asks of the device.
#[derive(Clone, Copy, Debug, PartialEq, Eq, Structural)]
pub enum Adaptation {
    /// No dispatch: the current and the target density are equal, so every
    /// ratio is one and the planes stay as they are. If `rebuild_lut` is
    /// set the table has been sampled again and is to be uploaded.
    Identity { rebuild_lut: bool },
    /// One dispatch of the per-bin kernel over the real and the imaginary
    /// plane, after the table has been uploaded if `rebuild_lut` is set,
    /// which says that it has been sampled again.
    PerBin { rebuild_lut: bool, work_groups: WorkGroups },
    /// One dispatch of the contrast kernel over the image, with a single
    /// factor.
    Uniform { work_groups: WorkGroups },
}

/// The perceptual adapter.
pub struct PerceptionAdapter {
    pub csf_upload: CsfUpload,
}

impl PerceptionAdapter {
    /// The cache of the table is well formed.
    pub open spec fn wf(&self) -> bool {
        self.csf_upload.wf()
    }

    /// What `draw` asks of the device for planes of the size of
    /// `real_texture`.
    pub open spec fn spec_draw(
        &self,
        real_texture: Plane,
        pixels_per_visual_degree: Scalar,
        csf: Csf,
        target_pixels_per_visual_degree: Scalar,
    ) -> Adaptation {
        if pixels_per_visual_degree.same_value(target_pixels_per_visual_degree) {
            Adaptation::Identity { rebuild_lut: self.csf_upload.spec_stale(csf) }
        } else {
            Adaptation::PerBin {
                rebuild_lut: self.csf_upload.spec_stale(csf),
                work_groups: real_texture.spec_work_groups(),
            }
        }
    }

    /// How the adapter `after` `draw` follows from the adapter before it:
    /// the table has been asked for, whatever the densities are.
    pub open spec fn spec_drew<F: Fn(Csf, Scalar, Scalar, usize, usize) -> (Scalar, Scalar)>(
        &self,
        after: PerceptionAdapter,
        csf: Csf,
        sample: F,
    ) -> bool {
        self.csf_upload.spec_requested(after.csf_upload, csf, sample)
    }

    /// What `scale` asks of the device for an image of the size of
    /// `texture`.
    pub open spec fn spec_scale(
        texture: Plane,
        pixels_per_visual_degree: Scalar,
        target_pixels_per_visual_degree: Scalar,
    ) -> Adaptation {
        if pixels_per_visual_degree.same_value(target_pixels_per_visual_degree) {
            Adaptation::Identity { rebuild_lut: false }
        } else {
            Adaptation::Uniform { work_groups: texture.spec_work_groups() }
        }
    }

    /// An adapter that has not sampled a table yet.
    pub fn new() -> (adapter: PerceptionAdapter)
        ensures
            adapter.csf_upload.is_new(),
            adapter.wf(),
    {
        PerceptionAdapter { csf_upload: CsfUpload::new() }
    }

    /// Adapts a spectrum from the current to the target pixel density. The
    /// two planes must have the same dimensions. The table for `csf` is
    /// asked for, with `sample` to evaluate the model if it has to be
    /// sampled. Then, unless the densities are equal, the kernel is run
    /// once over the planes; for equal densities there is no dispatch.
    pub fn draw<F: Fn(Csf, Scalar, Scalar, usize, usize) -> (Scalar, Scalar)>(
        &mut self,
        real_texture: &Plane,
        imag_texture: &Plane,
        pixels_per_visual_degree: Scalar,
        csf: &Csf,
        target_pixels_per_visual_degree: Scalar,
        sample: F,
    ) -> (r: Result<Adaptation, PipelineError>)
        requires
            old(self).wf(),
            csf.is_valid(),
            spec_valid_density(pixels_per_visual_degree),
            spec_valid_density(target_pixels_per_visual_degree),
            spec_can_sample(*csf, sample),
        ensures
            final(self).wf(),
            r is Ok <==> *real_texture == *imag_texture,
            r matches Ok(adaptation) ==> {
                &&& adaptation == old(self).spec_draw(
                    *real_texture,
                    pixels_per_visual_degree,
                    *csf,
                    target_pixels_per_visual_degree,
                )
                &&& old(self).spec_drew(*final(self), *csf, sample)
            },
            r matches Err(e) ==> e == PipelineError::DimensionMismatch && *final(self) == *old(
                self,
            ),
    {
        if real_texture.width != imag_texture.width || real_texture.height != imag_texture.height {
            return Err(PipelineError::DimensionMismatch);
        }
        let rebuild_lut = self.csf_upload.ubuffer(csf, sample);
        if pixels_per_visual_degree == target_pixels_per_visual_degree {
            Ok(Adaptation::Identity { rebuild_lut })
        } else {
            Ok(Adaptation::PerBin { rebuild_lut, work_groups: real_texture.work_groups() })
        }
    }

    /// Adapts an image in the spatial domain from the current to the target
    /// pixel density, by one factor for the whole image. If the densities
    /// are equal there is nothing to do. The table is not read, so it is
    /// not asked for.
    pub fn scale(
        &self,
        texture: &Plane,
        pixels_per_visual_degree: Scalar,
        csf: &Csf,
        target_pixels_per_visual_degree: Scalar,
    ) -> (adaptation: Adaptation)
        requires
            csf.is_valid(),
            spec_valid_density(pixels_per_visual_degree),
            spec_valid_density(target_pixels_per_visual_degree),
        ensures
            adaptation == Self::spec_scale(
                *texture,
                pixels_per_visual_degree,
                target_pixels_per_visual_degree,
            ),
    {
        if pixels_per_visual_degree == target_pixels_per_visual_degree {
            Adaptation::Identity { rebuild_lut: false }
        } else {
            Adaptation::Uniform { work_groups: texture.work_groups() }
        }
    }
}

/// With equal densities neither variant asks for a dispatch, whatever the
/// parameters, the planes and the evaluator are: the planes stay as they
/// are. In the frequency domain the table is asked for all the same, so
/// that a later draw with the same parameters finds it up to date.
pub proof fn lemma_equal_densities_are_identity<
    F: Fn(Csf, Scalar, Scalar, usize, usize) -> (Scalar, Scalar),
    G: Fn(Csf, Scalar, Scalar, usize, usize) -> (Scalar, Scalar),
>(
    before: PerceptionAdapter,
    after: PerceptionAdapter,
    texture: Plane,
    density: Scalar,
    other_density: Scalar,
    csf: Csf,
    sample: F,
    later: G,
)
    requires
        spec_valid_density(density),
        csf.is_valid(),
        before.spec_drew(after, csf, sample),
    ensures
        before.spec_draw(texture, density, csf, density) == (Adaptation::Identity {
            rebuild_lut: before.csf_upload.spec_stale(csf),
        }),
        PerceptionAdapter::spec_scale(texture, density, density) == (Adaptation::Identity {
            rebuild_lut: false,
        }),
        !after.csf_upload.spec_stale(csf),
        after.spec_draw(texture, density, csf, other_density) == (if density.same_value(
            other_density,
        ) {
            Adaptation::Identity { rebuild_lut: false }
        } else {
            Adaptation::PerBin { rebuild_lut: false, work_groups: texture.spec_work_groups() }
        }),
        forall|next: PerceptionAdapter| #[trigger]
            after.spec_drew(next, csf, later) ==> next.csf_upload == after.csf_upload,
{
}

} // verus!
