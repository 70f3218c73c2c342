//! Choice of the upscaling filter: what the post shader is told, and what the GPU
//! sampler of the render target is set to.

use vstd::prelude::*;

verus! {

/// How the internal render target is enlarged onto the window.
#[derive(Clone, Copy, PartialEq, Eq, Debug, Structural)]
pub enum UpscaleFilter {
    /// Nearest neighbour, done by the GPU sampler.
    Point,
    /// Bilinear, done by the GPU hardware filter.
    Linear,
    /// Bilinear from a manual 2x2 sample in the post shader.
    Bilinear,
    /// Catmull-Rom from a 4x4 sample in the post shader.
    Cubic,
}

/// The sampler filter of the render target's colour attachment.
#[derive(Clone, Copy, PartialEq, Eq, Debug, Structural)]
pub enum TextureSampling {
    /// Nearest-neighbour sampling.
    Point,
    /// The GPU's built-in bilinear sampling.
    Bilinear,
}

/// The number by which the post shader's `u_filterMode` uniform names a filter.
pub open spec fn shader_mode_value(filter: UpscaleFilter) -> nat {
    match filter {
        UpscaleFilter::Point => 0,
        UpscaleFilter::Linear => 1,
        UpscaleFilter::Bilinear => 2,
        UpscaleFilter::Cubic => 3,
    }
}

/// The filter the post shader applies: integer scaling always samples by point.
pub open spec fn shader_filter_for(upscale: UpscaleFilter, integer_scale: bool) -> UpscaleFilter {
    if integer_scale {
        UpscaleFilter::Point
    } else {
        upscale
    }
}

/// The GPU sampler setting: the hardware filter is used for `Linear` alone, and never
/// under integer scaling; the shader-side filters read unfiltered texels.
pub open spec fn gpu_sampling_for(filter: UpscaleFilter, integer_scale: bool) -> TextureSampling {
    if !integer_scale && filter == UpscaleFilter::Linear {
        TextureSampling::Bilinear
    } else {
        TextureSampling::Point
    }
}

impl UpscaleFilter {
    /// The value sent to the post shader as `u_filterMode` (the shader reads it as a float).
    pub fn shader_mode(self) -> (mode: u32)
        ensures
            mode == shader_mode_value(self),
    {
        match self {
            UpscaleFilter::Point => 0,
            UpscaleFilter::Linear => 1,
            UpscaleFilter::Bilinear => 2,
            UpscaleFilter::Cubic => 3,
        }
    }
}

/// The filter the post shader is told to use for the configured upscale filter.
pub fn post_shader_filter(upscale: UpscaleFilter, integer_scale: bool) -> (filter: UpscaleFilter)
    ensures
        filter == shader_filter_for(upscale, integer_scale),
{
    if integer_scale {
        UpscaleFilter::Point
    } else {
        upscale
    }
}

/// The sampler filter to set on the render target for the configured upscale filter.
pub fn rt_texture_filter(filter: UpscaleFilter, integer_scale: bool) -> (sampling: TextureSampling)
    ensures
        sampling == gpu_sampling_for(filter, integer_scale),
{
    if integer_scale || filter == UpscaleFilter::Point || filter == UpscaleFilter::Bilinear
        || filter == UpscaleFilter::Cubic {
        TextureSampling::Point
    } else {
        TextureSampling::Bilinear
    }
}

/// Distinct filters are sent to the post shader as distinct numbers, each below four.
pub proof fn lemma_shader_modes_distinct(a: UpscaleFilter, b: UpscaleFilter)
    ensures
        shader_mode_value(a) < 4,
        shader_mode_value(a) == shader_mode_value(b) <==> a == b,
{
}

/// Integer scaling forces point sampling everywhere, whatever the upscale filter.
pub proof fn lemma_integer_scale_forces_point(filter: UpscaleFilter)
    ensures
        gpu_sampling_for(filter, true) == TextureSampling::Point,
        shader_filter_for(filter, true) == UpscaleFilter::Point,
        shader_mode_value(shader_filter_for(filter, true)) == 0,
{
}

/// No image is filtered twice: the GPU filters bilinearly exactly when the post shader
/// is told to leave filtering to the hardware, and the shader-side filters always read
/// point-sampled texels.
pub proof fn lemma_no_double_filtering(filter: UpscaleFilter, integer_scale: bool)
    ensures
        (gpu_sampling_for(filter, integer_scale) == TextureSampling::Bilinear) <==> (
        shader_filter_for(filter, integer_scale) == UpscaleFilter::Linear),
        (gpu_sampling_for(filter, integer_scale) == TextureSampling::Bilinear) <==> (
        shader_mode_value(shader_filter_for(filter, integer_scale)) == 1),
        shader_mode_value(shader_filter_for(filter, integer_scale)) >= 2 ==> gpu_sampling_for(
            filter,
            integer_scale,
        ) == TextureSampling::Point,
{
}

/// Without integer scaling the configured filter is used as it is: the post shader is
/// told that filter, and the GPU filters bilinearly exactly for `Linear`.
pub proof fn lemma_configured_filter_used(filter: UpscaleFilter)
    ensures
        shader_filter_for(filter, false) == filter,
        gpu_sampling_for(filter, false) == TextureSampling::Bilinear <==> filter
            == UpscaleFilter::Linear,
{
}

} // verus!
