use pira_wgpu::factories::bind_group::{
    BindGroupEntry, BindGroupFactory, BindGroupLayoutEntry, BindingResource, BindingType,
    SamplerBindingType, ShaderStages,
};
use pira_wgpu::factories::render_pass::{ColorAttachment, RenderPassFactory};
use pira_wgpu::factories::render_pipeline::{
    pack_attributes, BlendComponent, BlendConfig, BlendFactor, BlendOperation, BlendState,
    CompareFunction, DepthConfig, DepthStencilState, Face, PrimitiveTopology,
    RenderPipelineFactory, VertexAttribute, VertexFormat, VertexStepMode,
};
use pira_wgpu::factories::texture::{
    AddressMode, Extent3d, FilterMode, SamplerDescriptor, SamplerOptions, Texture2dFactory,
    Texture2dOptions, TextureFormat, TextureUsages, TextureViewDescriptor, TextureViewDimension,
};
use pira_wgpu::pipelines::sky::pipeline::{
    background_pipeline, convolution_pipeline, cubemap_layout, environment_layout,
    irradiance_uniform_layout, specular_uniform_layout, CUBE_VERTEX_STRIDE,
};
use pira_wgpu::state::{Size, State};

#[test]
fn texture_formats_have_texel_sizes() {
    assert_eq!(TextureFormat::Rgba8UnormSrgb.bytes_per_texel(), Some(4));
    assert_eq!(TextureFormat::Bgra8UnormSrgb.bytes_per_texel(), Some(4));
    assert_eq!(TextureFormat::Rgba32Float.bytes_per_texel(), Some(16));
    assert_eq!(TextureFormat::Depth24Plus.bytes_per_texel(), None);
}

#[test]
fn texture_usages_are_the_named_sets() {
    let none = TextureUsages::none();
    assert!(!none.copy_src && !none.copy_dst && !none.texture_binding);
    assert!(!none.storage_binding && !none.render_attachment);
    assert_eq!(
        TextureUsages::sampled_copy_target(),
        TextureUsages { copy_dst: true, texture_binding: true, ..none }
    );
    assert_eq!(
        TextureUsages::storage_target(),
        TextureUsages { copy_dst: true, texture_binding: true, storage_binding: true, ..none }
    );
    assert_eq!(
        TextureUsages::render_target(),
        TextureUsages { copy_src: true, texture_binding: true, render_attachment: true, ..none }
    );
    assert_eq!(
        TextureUsages::depth_target(),
        TextureUsages { copy_dst: true, texture_binding: true, render_attachment: true, ..none }
    );
}

#[test]
fn sampler_options_default_to_linear_clamp() {
    let options = SamplerOptions::default();
    assert_eq!(options.address_mode, AddressMode::ClampToEdge);
    assert_eq!(options.filter, FilterMode::Linear);
    assert_eq!(options.mipmap_filter, FilterMode::Linear);
    let texture = Texture2dOptions::default();
    assert_eq!(texture.mip_level_count, 1);
    assert_eq!(texture.sample_count, 1);
    assert_eq!(texture.format, TextureFormat::Rgba8UnormSrgb);
    assert_eq!(texture.usage, TextureUsages::sampled_copy_target());
    assert_eq!(texture.label, None);
}

#[test]
fn texture_factory_describes_what_it_was_given() {
    let mut factory = Texture2dFactory::new(2, 3);
    assert_eq!(factory.sampler_descriptor, SamplerDescriptor::nearest());
    assert_eq!(
        factory.texture_descriptor.size,
        Extent3d { width: 2, height: 3, depth_or_array_layers: 1 }
    );
    assert_eq!(factory.texture_descriptor.format, TextureFormat::Rgba8UnormSrgb);
    let blank = factory.get_texture_and_sampler(0);
    assert!(!blank.with_data);
    assert_eq!(blank.bundle.texture, factory.texture_descriptor);
    assert_eq!(blank.bundle.view, TextureViewDescriptor::whole());
    assert!(factory.get_texture_and_sampler(24).with_data);

    let repeat =
        SamplerDescriptor::uniform(AddressMode::Repeat, FilterMode::Nearest, FilterMode::Nearest);
    factory.set_sampler_descriptor(repeat);
    assert_eq!(factory.sampler_descriptor, repeat);
    let mut descriptor = factory.texture_descriptor;
    descriptor.format = TextureFormat::Rgba32Float;
    factory.set_texture_descriptor(descriptor);
    assert_eq!(factory.texture_descriptor, descriptor);
    assert_eq!(factory.sampler_descriptor, repeat);
    assert_eq!(factory.get_texture_and_sampler(1).bundle.sampler, repeat);
}

#[test]
fn texture_factory_with_options() {
    let options = Texture2dOptions {
        mip_level_count: 3,
        sample_count: 4,
        format: TextureFormat::Bgra8UnormSrgb,
        usage: TextureUsages::render_target(),
        label: Some("surface copy"),
    };
    let sampler = SamplerOptions {
        address_mode: AddressMode::Repeat,
        filter: FilterMode::Linear,
        mipmap_filter: FilterMode::Nearest,
    };
    let upload = Texture2dFactory::new_with_options([7, 9], options, sampler, 0);
    assert!(!upload.with_data);
    assert_eq!(upload.bundle.texture.size, Extent3d { width: 7, height: 9, depth_or_array_layers: 1 });
    assert_eq!(upload.bundle.texture.mip_level_count, 3);
    assert_eq!(upload.bundle.texture.sample_count, 4);
    assert_eq!(upload.bundle.texture.format, TextureFormat::Bgra8UnormSrgb);
    assert_eq!(upload.bundle.texture.usage, TextureUsages::render_target());
    assert_eq!(upload.bundle.texture.view_format, None);
    assert_eq!(upload.bundle.sampler.address_mode_v, AddressMode::Repeat);
    assert_eq!(upload.bundle.sampler.mag_filter, FilterMode::Linear);
    assert_eq!(upload.bundle.sampler.min_filter, FilterMode::Linear);
    assert_eq!(upload.bundle.sampler.mipmap_filter, FilterMode::Nearest);
    let with_data = Texture2dFactory::new_ktx([7, 9], options, sampler, 252);
    assert!(with_data.with_data);
    assert_eq!(with_data.bundle, upload.bundle);
}

#[test]
fn views_name_layers_and_levels() {
    let whole = TextureViewDescriptor::whole();
    assert_eq!(whole.dimension, None);
    assert!(!whole.is_cube());
    let slice = TextureViewDescriptor::slice(3, 2);
    assert_eq!(slice.dimension, Some(TextureViewDimension::D2));
    assert_eq!((slice.base_array_layer, slice.array_layer_count), (3, Some(1)));
    assert_eq!((slice.base_mip_level, slice.mip_level_count), (2, Some(1)));
    let cube = TextureViewDescriptor { dimension: Some(TextureViewDimension::Cube), ..whole };
    assert!(cube.is_cube());
}

#[test]
fn bind_group_factory_numbers_bindings_in_order() {
    let mut factory = BindGroupFactory::new();
    assert!(factory.build().is_empty());
    factory.add_uniform(ShaderStages::vertex(), Some(64));
    factory.add_texture_and_sampler(ShaderStages::fragment());
    factory.add_texture_sky_sampler(ShaderStages::vertex_fragment());
    factory.add_texture_hdr_and_sampler(ShaderStages::compute());
    factory.add_uniform(ShaderStages::fragment(), None);
    assert_eq!(factory.resources.len(), 8);
    for (i, entry) in factory.resources.iter().enumerate() {
        assert_eq!(entry.binding, i as u32);
    }
    assert_eq!(
        factory.resources[0],
        BindGroupEntry { binding: 0, resource: BindingResource::Buffer { size: Some(64) } }
    );
    assert_eq!(factory.resources[1].resource, BindingResource::TextureView);
    assert_eq!(factory.resources[2].resource, BindingResource::Sampler);
    assert_eq!(factory.resources[7].resource, BindingResource::Buffer { size: None });
    let layout = factory.build();
    assert_eq!(layout.len(), 8);
    for (i, entry) in layout.iter().enumerate() {
        assert_eq!(entry.binding, i as u32);
    }
    assert_eq!(
        layout[0].ty,
        BindingType::Buffer { has_dynamic_offset: true, min_binding_size: Some(64) }
    );
    assert_eq!(layout[0].visibility, ShaderStages::vertex());
    assert_eq!(
        layout[1].ty,
        BindingType::Texture { view_dimension: TextureViewDimension::D2, filterable: true }
    );
    assert_eq!(layout[2].ty, BindingType::Sampler(SamplerBindingType::Filtering));
    assert_eq!(
        layout[3].ty,
        BindingType::Texture { view_dimension: TextureViewDimension::Cube, filterable: false }
    );
    assert_eq!(layout[4].ty, BindingType::Sampler(SamplerBindingType::NonFiltering));
    assert_eq!(layout[4].visibility, ShaderStages::vertex_fragment());
    assert_eq!(
        layout[5].ty,
        BindingType::Texture { view_dimension: TextureViewDimension::D2, filterable: false }
    );
    assert_eq!(layout[6].ty, BindingType::Sampler(SamplerBindingType::Filtering));
    assert_eq!(layout[6].visibility, ShaderStages::compute());
}

#[test]
fn depth_and_blend_configurations() {
    assert_eq!(DepthConfig::Disabled.get(), None);
    let write = DepthConfig::DefaultWrite.get().unwrap();
    assert_eq!(
        write,
        DepthStencilState {
            format: TextureFormat::Depth24Plus,
            depth_write_enabled: true,
            depth_compare: CompareFunction::Less,
        }
    );
    let read = DepthConfig::DefaultDontWrite.get().unwrap();
    assert_eq!(read, DepthStencilState { depth_write_enabled: false, ..write });
    let custom = DepthStencilState { depth_compare: CompareFunction::Always, ..write };
    assert_eq!(DepthConfig::Custom(custom).get(), Some(custom));

    assert_eq!(BlendConfig::Disabled.get(), None);
    let over = BlendComponent {
        src_factor: BlendFactor::One,
        dst_factor: BlendFactor::OneMinusSrcAlpha,
        operation: BlendOperation::Add,
    };
    let default = BlendConfig::Default.get().unwrap();
    assert_eq!(default.alpha, over);
    assert_eq!(default.color, BlendComponent { src_factor: BlendFactor::SrcAlpha, ..over });
    let custom = BlendState { color: over, alpha: over };
    assert_eq!(BlendConfig::Custom(custom).get(), Some(custom));
}

#[test]
fn attributes_are_packed_one_behind_the_other() {
    let attributes = pack_attributes(&[
        VertexFormat::Float32x3,
        VertexFormat::Float32x2,
        VertexFormat::Float32x4,
        VertexFormat::Float32x3,
    ]);
    assert_eq!(
        attributes,
        vec![
            VertexAttribute { format: VertexFormat::Float32x3, offset: 0, shader_location: 0 },
            VertexAttribute { format: VertexFormat::Float32x2, offset: 12, shader_location: 1 },
            VertexAttribute { format: VertexFormat::Float32x4, offset: 20, shader_location: 2 },
            VertexAttribute { format: VertexFormat::Float32x3, offset: 36, shader_location: 3 },
        ]
    );
    assert!(pack_attributes(&[]).is_empty());
    assert_eq!(VertexFormat::Float32x2.size(), 8);
    assert_eq!(VertexFormat::Float32x3.size(), 12);
    assert_eq!(VertexFormat::Float32x4.size(), 16);
}

#[test]
fn pipeline_factory_falls_back_on_the_surface() {
    let factory = RenderPipelineFactory::new();
    assert_eq!(factory.vert_shader_entry, Some("vs_main"));
    assert_eq!(factory.frag_shader_entry, Some("fs_main"));
    assert_eq!(factory.label, Some("Pipeline from helper"));
    let descriptor = factory.create_render_pipeline(4, TextureFormat::Bgra8UnormSrgb);
    assert_eq!(descriptor.sample_count, 4);
    assert_eq!(descriptor.color_format, TextureFormat::Bgra8UnormSrgb);
    assert_eq!(descriptor.blend, BlendConfig::Default.get());
    assert_eq!(descriptor.depth_stencil, None);
    assert_eq!(descriptor.topology, PrimitiveTopology::TriangleList);
    assert_eq!(descriptor.cull_mode, None);
    assert!(descriptor.buffers.is_empty());
    assert_eq!(descriptor.vertex_entry, Some("vs_main"));
    assert_eq!(descriptor.fragment_entry, Some("fs_main"));
}

#[test]
fn pipeline_factory_keeps_what_was_set() {
    let mut factory = RenderPipelineFactory::new();
    factory.set_label("lines");
    factory.set_cull_mode(Some(Face::Front));
    factory.add_vertex_attributes(pack_attributes(&[VertexFormat::Float32x3]), 12);
    factory.add_instance_attributes(pack_attributes(&[VertexFormat::Float32x2]), 8);
    factory.add_depth_stencil(DepthConfig::DefaultWrite);
    factory.set_blend_config(BlendConfig::Disabled);
    factory.set_sample_count(Some(1));
    factory.set_color_target_format(Some(TextureFormat::Rgba32Float));
    factory.set_vert_entry(Some("vertex"));
    factory.set_frag_entry(None);
    factory.set_topology(PrimitiveTopology::LineList);
    let descriptor = factory.create_render_pipeline(4, TextureFormat::Bgra8UnormSrgb);
    assert_eq!(descriptor.label, Some("lines"));
    assert_eq!(descriptor.cull_mode, Some(Face::Front));
    assert_eq!(descriptor.buffers.len(), 2);
    assert_eq!(descriptor.buffers[0].array_stride, 12);
    assert_eq!(descriptor.buffers[0].step_mode, VertexStepMode::Vertex);
    assert_eq!(descriptor.buffers[0].attributes.len(), 1);
    assert_eq!(descriptor.buffers[1].array_stride, 8);
    assert_eq!(descriptor.buffers[1].step_mode, VertexStepMode::Instance);
    assert_eq!(descriptor.buffers[1].attributes[0].format, VertexFormat::Float32x2);
    assert_eq!(descriptor.depth_stencil, DepthConfig::DefaultWrite.get());
    assert_eq!(descriptor.blend, None);
    assert_eq!(descriptor.sample_count, 1);
    assert_eq!(descriptor.color_format, TextureFormat::Rgba32Float);
    assert_eq!(descriptor.vertex_entry, Some("vertex"));
    assert_eq!(descriptor.fragment_entry, None);
    assert_eq!(descriptor.topology, PrimitiveTopology::LineList);
}

#[test]
fn render_pass_uses_depth_only_where_the_surface_has_it() {
    let mut factory = RenderPassFactory::new();
    factory.add_color_atachment(true);
    factory.add_color_atachment(false);
    factory.add_depth_stencil();
    assert!(factory.depth_stencil);
    let with_depth = State::new(1, Size::new(4, 4));
    let mut without_depth = with_depth;
    without_depth.depth_texture = None;
    let pass = factory.get_render_pass(&with_depth, true);
    assert_eq!(
        pass.color_attachments,
        vec![ColorAttachment { resolve: true }, ColorAttachment { resolve: false }]
    );
    assert!(pass.depth_stencil_attachment);
    assert!(!factory.get_render_pass(&with_depth, false).depth_stencil_attachment);
    assert!(!factory.get_render_pass(&without_depth, true).depth_stencil_attachment);
    assert!(!factory.get_render_pass(&without_depth, false).depth_stencil_attachment);
}

#[test]
fn convolution_layouts_and_pipelines() {
    let uniform = BindingType::Buffer { has_dynamic_offset: true, min_binding_size: Some(64) };
    assert_eq!(
        irradiance_uniform_layout(),
        vec![
            BindGroupLayoutEntry { binding: 0, visibility: ShaderStages::vertex(), ty: uniform },
            BindGroupLayoutEntry { binding: 1, visibility: ShaderStages::vertex(), ty: uniform },
        ]
    );
    assert_eq!(
        specular_uniform_layout(),
        vec![
            BindGroupLayoutEntry { binding: 0, visibility: ShaderStages::fragment(), ty: uniform },
            BindGroupLayoutEntry { binding: 1, visibility: ShaderStages::vertex(), ty: uniform },
        ]
    );
    let cube = cubemap_layout();
    assert_eq!(cube.len(), 2);
    assert_eq!(
        cube[0].ty,
        BindingType::Texture { view_dimension: TextureViewDimension::Cube, filterable: false }
    );
    assert_eq!(cube[1].ty, BindingType::Sampler(SamplerBindingType::NonFiltering));
    assert_eq!(cube[1].binding, 1);
    let environment = environment_layout();
    assert_eq!(environment.len(), 3);
    assert_eq!(environment[2].binding, 2);
    assert_eq!(
        environment[2].ty,
        BindingType::Buffer { has_dynamic_offset: false, min_binding_size: None }
    );
    assert_eq!(environment[0].visibility, ShaderStages::fragment());

    let pipeline = convolution_pipeline("Diffuse convolution pipeline");
    assert_eq!(pipeline.label, Some("Diffuse convolution pipeline"));
    assert_eq!(pipeline.buffers.len(), 1);
    assert_eq!(pipeline.buffers[0].array_stride, CUBE_VERTEX_STRIDE);
    assert_eq!(CUBE_VERTEX_STRIDE, 48);
    assert_eq!(pipeline.buffers[0].attributes.len(), 4);
    assert_eq!(pipeline.buffers[0].attributes[3].offset, 36);
    assert_eq!(pipeline.color_format, TextureFormat::Rgba32Float);
    assert_eq!(pipeline.blend, None);
    assert_eq!(pipeline.depth_stencil, None);
    assert_eq!(pipeline.sample_count, 1);
    assert_eq!(pipeline.topology, PrimitiveTopology::TriangleList);

    let background = background_pipeline(4, TextureFormat::Bgra8UnormSrgb);
    assert!(background.buffers.is_empty());
    assert_eq!(background.sample_count, 4);
    assert_eq!(background.color_format, TextureFormat::Bgra8UnormSrgb);
    assert_eq!(background.depth_stencil, DepthConfig::DefaultDontWrite.get());
    assert_eq!(background.cull_mode, Some(Face::Back));
    assert_eq!(background.blend, BlendConfig::Default.get());
}
