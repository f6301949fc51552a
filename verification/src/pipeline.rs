//! Pipeline assembly.
//!
//! A pipeline compiles the shader source into vertex and fragment stages at
//! fixed entry-point names, declares the mesh vertex layout when vertex
//! data was supplied, attaches one color target with replace-blend
//! semantics, and links either the camera-only bind-group layout set or the
//! texture-and-camera set, depending on whether a texture was supplied.
//! The pipeline is immutable once built; the driver compiles the real GPU
//! pipeline object from this description.

use vstd::prelude::*;
use crate::format::ColorFormat;

verus! {

/// Which bind-group layouts the pipeline links, in slot order.
#[derive(Clone, Copy, Debug, PartialEq, Eq, Structural)]
pub enum PipelineLayoutKind {
    /// One layout: the camera uniform at slot 0.
    CameraOnly,
    /// Two layouts: texture and sampler at slot 0, the camera at slot 1.
    TextureAndCamera,
}

/// The immutable description of a built graphics pipeline.
#[derive(Clone, Debug)]
pub struct RenderPipeline {
    /// The shader text both stages are compiled from.
    pub shader_source: String,
    pub layout: PipelineLayoutKind,
    /// The format of the single color target.
    pub color_target_format: ColorFormat,
    /// Whether the mesh vertex buffer layout is declared.
    pub has_vertex_layout: bool,
}

/// The fixed name of the vertex stage entry point.
pub fn vertex_entry_point() -> (s: &'static str)
    ensures
        s@ == "vs_main"@,
{
    "vs_main"
}

/// The fixed name of the fragment stage entry point.
pub fn fragment_entry_point() -> (s: &'static str)
    ensures
        s@ == "fs_main"@,
{
    "fs_main"
}

/// Assemble the pipeline description from the shader source and the
/// supplied resources: the dual texture-and-camera layout set exactly when
/// a texture is present, the vertex layout exactly when vertices are.
pub fn build_pipeline(
    shader_source: String,
    color_target_format: ColorFormat,
    has_vertices: bool,
    has_texture: bool,
) -> (r: RenderPipeline)
    ensures
        r.shader_source@ == shader_source@,
        r.layout == (if has_texture {
            PipelineLayoutKind::TextureAndCamera
        } else {
            PipelineLayoutKind::CameraOnly
        }),
        r.color_target_format == color_target_format,
        r.has_vertex_layout == has_vertices,
{
    let layout = if has_texture {
        PipelineLayoutKind::TextureAndCamera
    } else {
        PipelineLayoutKind::CameraOnly
    };
    RenderPipeline { shader_source, layout, color_target_format, has_vertex_layout: has_vertices }
}

} // verus!
