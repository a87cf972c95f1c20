//! The host side of a perceptual frequency retargeting pipeline.
//!
//! The pipeline rewrites the spatial frequencies of a video frame so that,
//! seen from a new distance, the frame shows the contrast that an observer
//! would perceive at a reference distance. The numeric work is done by
//! kernels on a device: a color-space split, a two-dimensional transform on
//! planes padded to powers of two, a rescaling of the spectrum by the ratio
//! of two values of a contrast sensitivity model, and the way back.
//!
//! This crate is what the host decides: the sizes of the planes
//! ([`bits`], [`fft`]), the buffers that are kept from frame to frame and
//! the order of the passes ([`fft`]), the extents of the dispatches
//! ([`plane`], [`color_space`]), when the table sampled from the model is
//! out of date ([`csf`], [`perception_adapter`]), and the list of commands
//! for one frame ([`system`]). Real-valued parameters pass through as their
//! bit patterns ([`scalar`]). The caller brings the function that evaluates
//! the model, and runs the commands.

pub mod bits;
pub mod color_space;
pub mod csf;
pub mod error;
pub mod fft;
pub mod perception_adapter;
pub mod plane;
pub mod scalar;
pub mod system;
