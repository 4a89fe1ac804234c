//! Render pipelines: the settings a pipeline is made from, and what they
//! come to once the surface's own settings fill the gaps.

use vstd::prelude::*;
use crate::factories::texture::TextureFormat;

verus! {

/// When a fragment passes the depth test.
#[derive(Copy, Clone, Debug, PartialEq, Eq, Structural)]
pub enum CompareFunction {
    Less,
    LessEqual,
    Always,
}

/// The depth test of a pipeline.
#[derive(Copy, Clone, Debug, PartialEq, Eq, Structural)]
pub struct DepthStencilState {
    pub format: TextureFormat,
    pub depth_write_enabled: bool,
    pub depth_compare: CompareFunction,
}

/// The depth test that a pipeline is asked to have.
#[derive(Copy, Clone, Debug, PartialEq, Eq, Structural)]
pub enum DepthConfig {
    Disabled,
    Custom(DepthStencilState),
    DefaultWrite,
    DefaultDontWrite,
}

/// A factor of the blend equation.
#[derive(Copy, Clone, Debug, PartialEq, Eq, Structural)]
pub enum BlendFactor {
    Zero,
    One,
    SrcAlpha,
    OneMinusSrcAlpha,
}

/// The operation of the blend equation.
#[derive(Copy, Clone, Debug, PartialEq, Eq, Structural)]
pub enum BlendOperation {
    Add,
}

/// The blend equation of the colour channels or of the alpha channel.
#[derive(Copy, Clone, Debug, PartialEq, Eq, Structural)]
pub struct BlendComponent {
    pub src_factor: BlendFactor,
    pub dst_factor: BlendFactor,
    pub operation: BlendOperation,
}

/// How a pipeline blends what it draws with what is there.
#[derive(Copy, Clone, Debug, PartialEq, Eq, Structural)]
pub struct BlendState {
    pub color: BlendComponent,
    pub alpha: BlendComponent,
}

/// The blending that a pipeline is asked to have.
#[derive(Copy, Clone, Debug, PartialEq, Eq, Structural)]
pub enum BlendConfig {
    Disabled,
    Custom(BlendState),
    Default,
}

/// How vertices are assembled.
#[derive(Copy, Clone, Debug, PartialEq, Eq, Structural)]
pub enum PrimitiveTopology {
    PointList,
    LineList,
    LineStrip,
    TriangleList,
    TriangleStrip,
}

/// A side of a triangle.
#[derive(Copy, Clone, Debug, PartialEq, Eq, Structural)]
pub enum Face {
    Front,
    Back,
}

/// Whether a vertex buffer advances with every vertex or every instance.
#[derive(Copy, Clone, Debug, PartialEq, Eq, Structural)]
pub enum VertexStepMode {
    Vertex,
    Instance,
}

/// Vectors of 32-bit floats.
#[derive(Copy, Clone, Debug, PartialEq, Eq, Structural)]
pub enum VertexFormat {
    Float32x2,
    Float32x3,
    Float32x4,
}

/// One attribute of a vertex.
#[derive(Copy, Clone, Debug, PartialEq, Eq, Structural)]
pub struct VertexAttribute {
    pub format: VertexFormat,
    pub offset: u64,
    pub shader_location: u32,
}

/// The attributes that one vertex buffer holds.
#[derive(Clone, Debug)]
pub struct VertexBufferLayout {
    pub array_stride: u64,
    pub step_mode: VertexStepMode,
    pub attributes: Vec<VertexAttribute>,
}

/// Builder of render pipelines.
#[derive(Clone, Debug)]
pub struct RenderPipelineFactory<'a> {
    pub vertex_buffer_layouts: Vec<VertexBufferLayout>,
    pub depth_config: DepthConfig,
    pub blend_config: BlendConfig,
    pub vert_shader_entry: Option<&'a str>,
    pub frag_shader_entry: Option<&'a str>,
    pub color_target_format: Option<TextureFormat>,
    pub sample_count: Option<u32>,
    pub topology: PrimitiveTopology,
    pub cull_mode: Option<Face>,
    pub label: Option<&'static str>,
}

/// A render pipeline with one colour target, every setting decided.
#[derive(Clone, Debug)]
pub struct RenderPipelineDescriptor<'a> {
    pub label: Option<&'static str>,
    pub vertex_entry: Option<&'a str>,
    pub fragment_entry: Option<&'a str>,
    pub buffers: Vec<VertexBufferLayout>,
    pub color_format: TextureFormat,
    pub blend: Option<BlendState>,
    pub depth_stencil: Option<DepthStencilState>,
    pub sample_count: u32,
    pub topology: PrimitiveTopology,
    pub cull_mode: Option<Face>,
}

impl VertexFormat {
    /// Bytes of an attribute of this format.
    pub open spec fn spec_size(self) -> nat {
        match self {
            VertexFormat::Float32x2 => 8,
            VertexFormat::Float32x3 => 12,
            VertexFormat::Float32x4 => 16,
        }
    }

    /// Bytes of an attribute of this format.
    pub fn size(self) -> (size: u64)
        ensures
            size == self.spec_size(),
    {
        match self {
            VertexFormat::Float32x2 => 8,
            VertexFormat::Float32x3 => 12,
            VertexFormat::Float32x4 => 16,
        }
    }
}

impl BlendComponent {
    /// Source over destination, for premultiplied colours.
    pub open spec fn spec_over() -> BlendComponent {
        BlendComponent {
            src_factor: BlendFactor::One,
            dst_factor: BlendFactor::OneMinusSrcAlpha,
            operation: BlendOperation::Add,
        }
    }
}

impl DepthConfig {
    /// The depth test that the configuration stands for: the default ones
    /// test against a 24-bit depth buffer and pass the nearer fragment.
    pub open spec fn spec_get(self) -> Option<DepthStencilState> {
        match self {
            DepthConfig::Disabled => None,
            DepthConfig::Custom(depth_state) => Some(depth_state),
            DepthConfig::DefaultWrite => Some(
                DepthStencilState {
                    format: TextureFormat::Depth24Plus,
                    depth_write_enabled: true,
                    depth_compare: CompareFunction::Less,
                },
            ),
            DepthConfig::DefaultDontWrite => Some(
                DepthStencilState {
                    format: TextureFormat::Depth24Plus,
                    depth_write_enabled: false,
                    depth_compare: CompareFunction::Less,
                },
            ),
        }
    }

    /// The depth test that the configuration stands for.
    pub fn get(&self) -> (state: Option<DepthStencilState>)
        ensures
            state == self.spec_get(),
    {
        match self {
            DepthConfig::Disabled => None,
            DepthConfig::Custom(depth_state) => Some(*depth_state),
            DepthConfig::DefaultWrite => Some(
                DepthStencilState {
                    format: TextureFormat::Depth24Plus,
                    depth_write_enabled: true,
                    depth_compare: CompareFunction::Less,
                },
            ),
            DepthConfig::DefaultDontWrite => Some(
                DepthStencilState {
                    format: TextureFormat::Depth24Plus,
                    depth_write_enabled: false,
                    depth_compare: CompareFunction::Less,
                },
            ),
        }
    }
}

impl BlendConfig {
    /// The blending that the configuration stands for: the default one
    /// weighs colours by the source's alpha and lays alpha over alpha.
    pub open spec fn spec_get(self) -> Option<BlendState> {
        match self {
            BlendConfig::Default => Some(
                BlendState {
                    color: BlendComponent {
                        src_factor: BlendFactor::SrcAlpha,
                        dst_factor: BlendFactor::OneMinusSrcAlpha,
                        operation: BlendOperation::Add,
                    },
                    alpha: BlendComponent::spec_over(),
                },
            ),
            BlendConfig::Custom(custom) => Some(custom),
            BlendConfig::Disabled => None,
        }
    }

    /// The blending that the configuration stands for.
    pub fn get(&self) -> (state: Option<BlendState>)
        ensures
            state == self.spec_get(),
    {
        match self {
            BlendConfig::Default => Some(
                BlendState {
                    color: BlendComponent {
                        src_factor: BlendFactor::SrcAlpha,
                        dst_factor: BlendFactor::OneMinusSrcAlpha,
                        operation: BlendOperation::Add,
                    },
                    alpha: BlendComponent {
                        src_factor: BlendFactor::One,
                        dst_factor: BlendFactor::OneMinusSrcAlpha,
                        operation: BlendOperation::Add,
                    },
                },
            ),
            BlendConfig::Custom(custom) => Some(*custom),
            BlendConfig::Disabled => None,
        }
    }
}

/// Attributes of the given formats, packed one behind the other from
/// offset zero, at shader locations zero, one, two and so on.
pub open spec fn packed_attributes(formats: Seq<VertexFormat>) -> Seq<VertexAttribute> {
    Seq::new(
        formats.len(),
        |i: int|
            VertexAttribute {
                format: formats[i],
                offset: packed_size(formats.take(i)) as u64,
                shader_location: i as u32,
            },
    )
}

/// Bytes of attributes of the given formats, packed.
pub open spec fn packed_size(formats: Seq<VertexFormat>) -> nat
    decreases formats.len(),
{
    if formats.len() == 0 {
        0
    } else {
        packed_size(formats.drop_last()) + formats.last().spec_size()
    }
}

/// Lays attributes of the given formats out one behind the other.
pub fn pack_attributes(formats: &[VertexFormat]) -> (attributes: Vec<VertexAttribute>)
    requires
        formats@.len() <= u32::MAX,
    ensures
        attributes@ == packed_attributes(formats@),
{
    let mut attributes: Vec<VertexAttribute> = Vec::new();
    let mut offset: u64 = 0;
    let mut index: usize = 0;
    while index < formats.len()
        invariant
            formats@.len() <= u32::MAX,
            index <= formats@.len(),
            offset == packed_size(formats@.take(index as int)),
            offset <= 16 * index,
            attributes@.len() == index,
            forall|i: int|
                0 <= i < index ==> (#[trigger] attributes@[i]) == packed_attributes(formats@)[i],
        decreases formats@.len() - index,
    {
        let format = formats[index];
        attributes.push(VertexAttribute { format, offset, shader_location: index as u32 });
        proof {
            let next = formats@.take(index + 1);
            assert(next.drop_last() == formats@.take(index as int));
            assert(next.last() == formats@[index as int]);
        }
        offset = offset + format.size();
        index = index + 1;
    }
    attributes
}

impl<'a> RenderPipelineFactory<'a> {
    /// The pipeline that the factory describes, on a surface with
    /// `surface_sample_count` samples per pixel and texels of
    /// `surface_format`: a sample count or a colour format that was not
    /// set is that of the surface.
    pub open spec fn spec_descriptor(
        &self,
        surface_sample_count: u32,
        surface_format: TextureFormat,
    ) -> RenderPipelineDescriptor<'a> {
        RenderPipelineDescriptor {
            label: self.label,
            vertex_entry: self.vert_shader_entry,
            fragment_entry: self.frag_shader_entry,
            buffers: self.vertex_buffer_layouts,
            color_format: match self.color_target_format {
                Some(format) => format,
                None => surface_format,
            },
            blend: self.blend_config.spec_get(),
            depth_stencil: self.depth_config.spec_get(),
            sample_count: match self.sample_count {
                Some(count) => count,
                None => surface_sample_count,
            },
            topology: self.topology,
            cull_mode: self.cull_mode,
        }
    }

    /// A factory for a pipeline that draws triangle lists with default
    /// blending, no depth test and no culling, through the entry points
    /// `vs_main` and `fs_main`.
    pub fn new() -> (factory: Self)
        ensures
            factory.vertex_buffer_layouts@.len() == 0,
            factory.depth_config == DepthConfig::Disabled,
            factory.blend_config == BlendConfig::Default,
            factory.vert_shader_entry is Some,
            factory.vert_shader_entry->0@ == "vs_main"@,
            factory.frag_shader_entry is Some,
            factory.frag_shader_entry->0@ == "fs_main"@,
            factory.color_target_format is None,
            factory.sample_count is None,
            factory.topology == PrimitiveTopology::TriangleList,
            factory.cull_mode is None,
            factory.label is Some,
            factory.label->0@ == "Pipeline from helper"@,
    {
        RenderPipelineFactory {
            vertex_buffer_layouts: Vec::new(),
            depth_config: DepthConfig::Disabled,
            blend_config: BlendConfig::Default,
            vert_shader_entry: Self::default_vert_entry_point(),
            frag_shader_entry: Self::default_frag_entry_point(),
            color_target_format: None,
            sample_count: None,
            topology: PrimitiveTopology::TriangleList,
            cull_mode: None,
            label: Some("Pipeline from helper"),
        }
    }

    /// Sets the label.
    pub fn set_label(&mut self, label: &'static str)
        ensures
            *final(self) == (RenderPipelineFactory { label: Some(label), ..*old(self) }),
    {
        self.label = Some(label);
    }

    /// Sets which side of a triangle is dropped.
    pub fn set_cull_mode(&mut self, mode: Option<Face>)
        ensures
            *final(self) == (RenderPipelineFactory { cull_mode: mode, ..*old(self) }),
    {
        self.cull_mode = mode;
    }

    /// Adds a vertex buffer that advances with every vertex.
    pub fn add_vertex_attributes(&mut self, attribs: Vec<VertexAttribute>, stride: u64)
        ensures
            final(self).vertex_buffer_layouts@ == old(self).vertex_buffer_layouts@.push(
                VertexBufferLayout {
                    array_stride: stride,
                    step_mode: VertexStepMode::Vertex,
                    attributes: attribs,
                },
            ),
            *final(self) == (RenderPipelineFactory {
                vertex_buffer_layouts: final(self).vertex_buffer_layouts,
                ..*old(self)
            }),
    {
        let vertex_layout = VertexBufferLayout {
            array_stride: stride,
            step_mode: VertexStepMode::Vertex,
            attributes: attribs,
        };
        self.vertex_buffer_layouts.push(vertex_layout);
    }

    /// Adds a vertex buffer that advances with every instance.
    pub fn add_instance_attributes(&mut self, attribs: Vec<VertexAttribute>, stride: u64)
        ensures
            final(self).vertex_buffer_layouts@ == old(self).vertex_buffer_layouts@.push(
                VertexBufferLayout {
                    array_stride: stride,
                    step_mode: VertexStepMode::Instance,
                    attributes: attribs,
                },
            ),
            *final(self) == (RenderPipelineFactory {
                vertex_buffer_layouts: final(self).vertex_buffer_layouts,
                ..*old(self)
            }),
    {
        let vertex_layout = VertexBufferLayout {
            array_stride: stride,
            attributes: attribs,
            step_mode: VertexStepMode::Instance,
        };
        self.vertex_buffer_layouts.push(vertex_layout);
    }

    /// Sets the depth test.
    pub fn add_depth_stencil(&mut self, config: DepthConfig)
        ensures
            *final(self) == (RenderPipelineFactory { depth_config: config, ..*old(self) }),
    {
        self.depth_config = config;
    }

    /// Sets the blending.
    pub fn set_blend_config(&mut self, config: BlendConfig)
        ensures
            *final(self) == (RenderPipelineFactory { blend_config: config, ..*old(self) }),
    {
        self.blend_config = config;
    }

    /// Sets the samples per pixel; `None` stands for those of the surface.
    pub fn set_sample_count(&mut self, sample_count: Option<u32>)
        ensures
            *final(self) == (RenderPipelineFactory { sample_count, ..*old(self) }),
    {
        self.sample_count = sample_count;
    }

    /// Sets the format of the colour target; `None` stands for that of the
    /// surface.
    pub fn set_color_target_format(&mut self, format: Option<TextureFormat>)
        ensures
            *final(self) == (RenderPipelineFactory { color_target_format: format, ..*old(self) }),
    {
        self.color_target_format = format;
    }

    /// Sets the entry point of the vertex shader.
    pub fn set_vert_entry(&mut self, name: Option<&'a str>)
        ensures
            *final(self) == (RenderPipelineFactory { vert_shader_entry: name, ..*old(self) }),
    {
        self.vert_shader_entry = name;
    }

    /// Sets the entry point of the fragment shader.
    pub fn set_frag_entry(&mut self, name: Option<&'a str>)
        ensures
            *final(self) == (RenderPipelineFactory { frag_shader_entry: name, ..*old(self) }),
    {
        self.frag_shader_entry = name;
    }

    /// Sets how vertices are assembled.
    pub fn set_topology(&mut self, value: PrimitiveTopology)
        ensures
            *final(self) == (RenderPipelineFactory { topology: value, ..*old(self) }),
    {
        self.topology = value;
    }

    /// The pipeline that the factory describes, on a surface with
    /// `surface_sample_count` samples per pixel and texels of
    /// `surface_format`.
    pub fn create_render_pipeline(
        &self,
        surface_sample_count: u32,
        surface_format: TextureFormat,
    ) -> (descriptor: RenderPipelineDescriptor<'a>)
        ensures
            descriptor.label == self.label,
            descriptor.vertex_entry == self.vert_shader_entry,
            descriptor.fragment_entry == self.frag_shader_entry,
            descriptor.buffers@.len() == self.vertex_buffer_layouts@.len(),
            forall|i: int|
                0 <= i < descriptor.buffers@.len() ==> (#[trigger] descriptor.buffers@[i]).array_stride
                    == self.vertex_buffer_layouts@[i].array_stride && descriptor.buffers@[i].step_mode
                    == self.vertex_buffer_layouts@[i].step_mode && descriptor.buffers@[i].attributes@
                    == self.vertex_buffer_layouts@[i].attributes@,
            descriptor.color_format == self.spec_descriptor(
                surface_sample_count,
                surface_format,
            ).color_format,
            descriptor.blend == self.blend_config.spec_get(),
            descriptor.depth_stencil == self.depth_config.spec_get(),
            descriptor.sample_count == self.spec_descriptor(
                surface_sample_count,
                surface_format,
            ).sample_count,
            descriptor.topology == self.topology,
            descriptor.cull_mode == self.cull_mode,
    {
        let depth_config = self.depth_config.get();
        let blend_config = self.blend_config.get();
        let sample_count: u32 = match &self.sample_count {
            Some(val) => *val,
            None => surface_sample_count,
        };
        let color_target_format = match self.color_target_format {
            Some(format) => format,
            None => surface_format,
        };
        let mut buffers: Vec<VertexBufferLayout> = Vec::new();
        let mut index: usize = 0;
        while index < self.vertex_buffer_layouts.len()
            invariant
                index <= self.vertex_buffer_layouts@.len(),
                buffers@.len() == index,
                forall|i: int|
                    0 <= i < index ==> {
                        &&& (#[trigger] buffers@[i]).array_stride
                            == self.vertex_buffer_layouts@[i].array_stride
                        &&& buffers@[i].step_mode == self.vertex_buffer_layouts@[i].step_mode
                        &&& buffers@[i].attributes@ == self.vertex_buffer_layouts@[i].attributes@
                    },
            decreases self.vertex_buffer_layouts@.len() - index,
        {
            let layout = &self.vertex_buffer_layouts[index];
            let mut attributes: Vec<VertexAttribute> = Vec::new();
            let mut k: usize = 0;
            while k < layout.attributes.len()
                invariant
                    k <= layout.attributes@.len(),
                    attributes@ == layout.attributes@.take(k as int),
                decreases layout.attributes@.len() - k,
            {
                attributes.push(layout.attributes[k]);
                k = k + 1;
            }
            buffers.push(
                VertexBufferLayout {
                    array_stride: layout.array_stride,
                    step_mode: layout.step_mode,
                    attributes,
                },
            );
            index = index + 1;
        }
        RenderPipelineDescriptor {
            label: self.label,
            vertex_entry: self.vert_shader_entry,
            fragment_entry: self.frag_shader_entry,
            buffers,
            color_format: color_target_format,
            blend: blend_config,
            depth_stencil: depth_config,
            sample_count,
            topology: self.topology,
            cull_mode: self.cull_mode,
        }
    }

    fn default_vert_entry_point() -> (name: Option<&'a str>)
        ensures
            name is Some,
            name->0@ == "vs_main"@,
    {
        return Some("vs_main");
    }

    fn default_frag_entry_point() -> (name: Option<&'a str>)
        ensures
            name is Some,
            name->0@ == "fs_main"@,
    {
        return Some("fs_main");
    }
}

} // verus!
