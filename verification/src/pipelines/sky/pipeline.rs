//! The pipelines and bind group layouts that the stages draw with.

use vstd::prelude::*;
use crate::factories::bind_group::{
    BindGroupFactory, BindGroupLayoutEntry, BindingType, SamplerBindingType, ShaderStages,
};
use crate::factories::render_pipeline::{
    pack_attributes, packed_attributes, BlendConfig, DepthConfig, Face, PrimitiveTopology,
    RenderPipelineDescriptor, RenderPipelineFactory, VertexFormat, VertexStepMode,
};
use crate::factories::texture::{TextureFormat, TextureViewDimension};
use crate::pipelines::MAT4_BYTES;

verus! {

/// Bytes from one vertex of the unit cube to the next.
pub const CUBE_VERTEX_STRIDE: u64 = 48;

/// Formats of the attributes of a vertex of the unit cube: position,
/// texture coordinate, colour and padding.
pub open spec fn cube_vertex_formats() -> Seq<VertexFormat> {
    seq![
        VertexFormat::Float32x3,
        VertexFormat::Float32x2,
        VertexFormat::Float32x4,
        VertexFormat::Float32x3,
    ]
}

/// A uniform buffer with a dynamic offset of which one matrix is bound.
pub open spec fn matrix_uniform() -> BindingType {
    BindingType::Buffer { has_dynamic_offset: true, min_binding_size: Some(MAT4_BYTES) }
}

/// Layout of the uniforms of a convolution: the parameters of the pass at
/// binding 0, seen by `parameter_stage`, and the face's view matrix at
/// binding 1, seen by the vertex stage.
pub open spec fn spec_uniform_layout(parameter_stage: ShaderStages) -> Seq<BindGroupLayoutEntry> {
    seq![
        BindGroupLayoutEntry { binding: 0, visibility: parameter_stage, ty: matrix_uniform() },
        BindGroupLayoutEntry {
            binding: 1,
            visibility: ShaderStages { vertex: true, fragment: false, compute: false },
            ty: matrix_uniform(),
        },
    ]
}

/// Layout through which a convolution reads the base cubemap: the cube
/// view at binding 0 and its sampler at binding 1, texel by texel.
pub open spec fn spec_cubemap_layout() -> Seq<BindGroupLayoutEntry> {
    seq![
        BindGroupLayoutEntry {
            binding: 0,
            visibility: ShaderStages { vertex: true, fragment: true, compute: false },
            ty: BindingType::Texture {
                view_dimension: TextureViewDimension::Cube,
                filterable: false,
            },
        },
        BindGroupLayoutEntry {
            binding: 1,
            visibility: ShaderStages { vertex: true, fragment: true, compute: false },
            ty: BindingType::Sampler(SamplerBindingType::NonFiltering),
        },
    ]
}

/// Layout of the uniforms of the irradiance stage.
pub fn irradiance_uniform_layout() -> (layout: Vec<BindGroupLayoutEntry>)
    ensures
        layout@ == spec_uniform_layout(
            ShaderStages { vertex: true, fragment: false, compute: false },
        ),
{
    let mut bind_factory = BindGroupFactory::new();
    bind_factory.add_uniform(ShaderStages::vertex(), Some(MAT4_BYTES));
    bind_factory.add_uniform(ShaderStages::vertex(), Some(MAT4_BYTES));
    bind_factory.build()
}

/// Layout of the uniforms of the specular stage, whose fragment shader
/// reads the roughness.
pub fn specular_uniform_layout() -> (layout: Vec<BindGroupLayoutEntry>)
    ensures
        layout@ == spec_uniform_layout(
            ShaderStages { vertex: false, fragment: true, compute: false },
        ),
{
    let mut bind_factory = BindGroupFactory::new();
    bind_factory.add_uniform(ShaderStages::fragment(), Some(MAT4_BYTES));
    bind_factory.add_uniform(ShaderStages::vertex(), Some(MAT4_BYTES));
    bind_factory.build()
}

/// Layout through which a convolution reads the base cubemap.
pub fn cubemap_layout() -> (layout: Vec<BindGroupLayoutEntry>)
    ensures
        layout@ == spec_cubemap_layout(),
{
    let mut texture_bind_group_factory = BindGroupFactory::new();
    texture_bind_group_factory.add_texture_sky_sampler(ShaderStages::vertex_fragment());
    texture_bind_group_factory.build()
}

/// The pipeline of a convolution: it draws the triangles of the unit cube
/// into one 32-bit float target, one sample per texel, without blending,
/// depth test or culling.
pub fn convolution_pipeline(label: &'static str) -> (descriptor: RenderPipelineDescriptor<'static>)
    ensures
        descriptor.label == Some(label),
        descriptor.vertex_entry is Some && descriptor.vertex_entry->0@ == "vs_main"@,
        descriptor.fragment_entry is Some && descriptor.fragment_entry->0@ == "fs_main"@,
        descriptor.buffers@.len() == 1,
        descriptor.buffers@[0].array_stride == CUBE_VERTEX_STRIDE,
        descriptor.buffers@[0].step_mode == VertexStepMode::Vertex,
        descriptor.buffers@[0].attributes@ == packed_attributes(cube_vertex_formats()),
        descriptor.color_format == TextureFormat::Rgba32Float,
        descriptor.blend is None,
        descriptor.depth_stencil is None,
        descriptor.sample_count == 1,
        descriptor.topology == PrimitiveTopology::TriangleList,
        descriptor.cull_mode is None,
{
    let formats = [
        VertexFormat::Float32x3,
        VertexFormat::Float32x2,
        VertexFormat::Float32x4,
        VertexFormat::Float32x3,
    ];
    assert(formats@ == cube_vertex_formats());
    let attribs = pack_attributes(formats.as_slice());
    let mut pipeline_factory = RenderPipelineFactory::new();
    pipeline_factory.set_label(label);
    pipeline_factory.add_vertex_attributes(attribs, CUBE_VERTEX_STRIDE);
    pipeline_factory.set_sample_count(Some(1));
    pipeline_factory.set_blend_config(BlendConfig::Disabled);
    pipeline_factory.set_color_target_format(Some(TextureFormat::Rgba32Float));
    pipeline_factory.set_topology(PrimitiveTopology::TriangleList);
    pipeline_factory.create_render_pipeline(1, TextureFormat::Rgba32Float)
}

/// The pipeline that paints the background: one triangle over the whole
/// screen, behind everything that was drawn, on the surface's own format
/// and sample count.
pub fn background_pipeline(surface_sample_count: u32, surface_format: TextureFormat) -> (descriptor:
    RenderPipelineDescriptor<'static>)
    ensures
        descriptor.buffers@.len() == 0,
        descriptor.color_format == surface_format,
        descriptor.sample_count == surface_sample_count,
        descriptor.blend == BlendConfig::Default.spec_get(),
        descriptor.depth_stencil == DepthConfig::DefaultDontWrite.spec_get(),
        descriptor.topology == PrimitiveTopology::TriangleList,
        descriptor.cull_mode == Some(Face::Back),
        descriptor.vertex_entry is Some && descriptor.vertex_entry->0@ == "vs_main"@,
        descriptor.fragment_entry is Some && descriptor.fragment_entry->0@ == "fs_main"@,
{
    let mut sky_render_pipeline = RenderPipelineFactory::new();
    sky_render_pipeline.add_depth_stencil(DepthConfig::DefaultDontWrite);
    sky_render_pipeline.set_cull_mode(Some(Face::Back));
    sky_render_pipeline.create_render_pipeline(surface_sample_count, surface_format)
}

/// Layout through which the background reads the environment: the cube
/// view at binding 0, its sampler at binding 1 and the camera at binding
/// 2, all seen by the fragment stage.
pub open spec fn spec_environment_layout() -> Seq<BindGroupLayoutEntry> {
    seq![
        BindGroupLayoutEntry {
            binding: 0,
            visibility: ShaderStages { vertex: false, fragment: true, compute: false },
            ty: BindingType::Texture {
                view_dimension: TextureViewDimension::Cube,
                filterable: false,
            },
        },
        BindGroupLayoutEntry {
            binding: 1,
            visibility: ShaderStages { vertex: false, fragment: true, compute: false },
            ty: BindingType::Sampler(SamplerBindingType::NonFiltering),
        },
        BindGroupLayoutEntry {
            binding: 2,
            visibility: ShaderStages { vertex: false, fragment: true, compute: false },
            ty: BindingType::Buffer { has_dynamic_offset: false, min_binding_size: None },
        },
    ]
}

/// Layout through which the background reads the environment.
pub fn environment_layout() -> (layout: Vec<BindGroupLayoutEntry>)
    ensures
        layout@ == spec_environment_layout(),
{
    let mut layout: Vec<BindGroupLayoutEntry> = Vec::new();
    layout.push(
        BindGroupLayoutEntry {
            binding: 0,
            visibility: ShaderStages::fragment(),
            ty: BindingType::Texture {
                view_dimension: TextureViewDimension::Cube,
                filterable: false,
            },
        },
    );
    layout.push(
        BindGroupLayoutEntry {
            binding: 1,
            visibility: ShaderStages::fragment(),
            ty: BindingType::Sampler(SamplerBindingType::NonFiltering),
        },
    );
    layout.push(
        BindGroupLayoutEntry {
            binding: 2,
            visibility: ShaderStages::fragment(),
            ty: BindingType::Buffer { has_dynamic_offset: false, min_binding_size: None },
        },
    );
    layout
}

} // verus!
