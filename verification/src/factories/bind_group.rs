//! Bind groups: which resource stands at which binding, and how a shader
//! sees it.

use vstd::prelude::*;
use crate::factories::texture::TextureViewDimension;

verus! {

/// The shader stages that see a binding.
#[derive(Copy, Clone, Debug, PartialEq, Eq, Structural)]
pub struct ShaderStages {
    pub vertex: bool,
    pub fragment: bool,
    pub compute: bool,
}

/// How a shader may sample through a sampler.
#[derive(Copy, Clone, Debug, PartialEq, Eq, Structural)]
pub enum SamplerBindingType {
    Filtering,
    NonFiltering,
}

/// How a shader sees a binding.
#[derive(Copy, Clone, Debug, PartialEq, Eq, Structural)]
pub enum BindingType {
    /// A uniform buffer.
    Buffer { has_dynamic_offset: bool, min_binding_size: Option<u64> },
    /// A texture of float texels, one sample each.
    Texture { view_dimension: TextureViewDimension, filterable: bool },
    Sampler(SamplerBindingType),
}

/// What is bound.
#[derive(Copy, Clone, Debug, PartialEq, Eq, Structural)]
pub enum BindingResource {
    /// A buffer from its start on, `size` bytes of it or all.
    Buffer { size: Option<u64> },
    TextureView,
    Sampler,
}

/// One resource of a bind group.
#[derive(Copy, Clone, Debug, PartialEq, Eq, Structural)]
pub struct BindGroupEntry {
    pub binding: u32,
    pub resource: BindingResource,
}

/// One entry of the layout of a bind group.
#[derive(Copy, Clone, Debug, PartialEq, Eq, Structural)]
pub struct BindGroupLayoutEntry {
    pub binding: u32,
    pub visibility: ShaderStages,
    pub ty: BindingType,
}

/// Builder of a bind group and of its layout: every resource added takes
/// the next free binding.
#[derive(Clone, Debug)]
pub struct BindGroupFactory {
    pub resources: Vec<BindGroupEntry>,
    pub binding_types: Vec<(ShaderStages, BindingType)>,
}

impl ShaderStages {
    /// The vertex stage alone.
    pub fn vertex() -> (stages: Self)
        ensures
            stages == (ShaderStages { vertex: true, fragment: false, compute: false }),
    {
        ShaderStages { vertex: true, fragment: false, compute: false }
    }

    /// The fragment stage alone.
    pub fn fragment() -> (stages: Self)
        ensures
            stages == (ShaderStages { vertex: false, fragment: true, compute: false }),
    {
        ShaderStages { vertex: false, fragment: true, compute: false }
    }

    /// The vertex and the fragment stage.
    pub fn vertex_fragment() -> (stages: Self)
        ensures
            stages == (ShaderStages { vertex: true, fragment: true, compute: false }),
    {
        ShaderStages { vertex: true, fragment: true, compute: false }
    }

    /// The compute stage alone.
    pub fn compute() -> (stages: Self)
        ensures
            stages == (ShaderStages { vertex: false, fragment: false, compute: true }),
    {
        ShaderStages { vertex: false, fragment: false, compute: true }
    }
}

/// The two layout entries of a texture and its sampler.
pub open spec fn texture_and_sampler_types(
    stage: ShaderStages,
    view_dimension: TextureViewDimension,
    filterable: bool,
    sampler: SamplerBindingType,
) -> Seq<(ShaderStages, BindingType)> {
    seq![
        (stage, BindingType::Texture { view_dimension, filterable }),
        (stage, BindingType::Sampler(sampler)),
    ]
}

/// The two resources of a texture and its sampler, at the bindings
/// `first` and `first + 1`.
pub open spec fn texture_and_sampler_resources(first: nat) -> Seq<BindGroupEntry> {
    seq![
        BindGroupEntry { binding: first as u32, resource: BindingResource::TextureView },
        BindGroupEntry { binding: (first + 1) as u32, resource: BindingResource::Sampler },
    ]
}

impl BindGroupFactory {
    /// Every resource has a layout entry, and stands at the binding that
    /// is its position.
    pub open spec fn wf(&self) -> bool {
        &&& self.resources@.len() == self.binding_types@.len()
        &&& self.resources@.len() <= u32::MAX
        &&& forall|i: int|
            0 <= i < self.resources@.len() ==> (#[trigger] self.resources@[i]).binding == i
    }

    /// The layout that `build` returns: entry `i` is at binding `i`, with
    /// the visibility and the type that were added `i`-th.
    pub open spec fn spec_layout(&self) -> Seq<BindGroupLayoutEntry> {
        Seq::new(
            self.binding_types@.len(),
            |i: int|
                BindGroupLayoutEntry {
                    binding: i as u32,
                    visibility: self.binding_types@[i].0,
                    ty: self.binding_types@[i].1,
                },
        )
    }

    /// A factory without resources.
    pub fn new() -> (factory: Self)
        ensures
            factory.wf(),
            factory.resources@.len() == 0,
            factory.binding_types@.len() == 0,
    {
        Self { resources: Vec::new(), binding_types: Vec::new() }
    }

    /// Adds a uniform buffer with a dynamic offset, of which
    /// `min_binding_size` bytes are bound.
    pub fn add_uniform(&mut self, stage: ShaderStages, min_binding_size: Option<u64>)
        requires
            old(self).wf(),
            old(self).resources@.len() < u32::MAX,
        ensures
            final(self).wf(),
            final(self).binding_types@ == old(self).binding_types@.push(
                (stage, BindingType::Buffer { has_dynamic_offset: true, min_binding_size }),
            ),
            final(self).resources@ == old(self).resources@.push(
                BindGroupEntry {
                    binding: old(self).resources@.len() as u32,
                    resource: BindingResource::Buffer { size: min_binding_size },
                },
            ),
    {
        let binding_type = BindingType::Buffer { has_dynamic_offset: true, min_binding_size };
        self.binding_types.push((stage, binding_type));
        let binding: u32 = self.resources.len() as u32;
        self.resources.push(
            BindGroupEntry { binding, resource: BindingResource::Buffer { size: min_binding_size } },
        );
    }

    /// Adds a texture view and, behind it, its sampler.
    fn add_texture_pair(
        &mut self,
        stage: ShaderStages,
        view_dimension: TextureViewDimension,
        filterable: bool,
        sampler: SamplerBindingType,
    )
        requires
            old(self).wf(),
            old(self).resources@.len() + 1 < u32::MAX,
        ensures
            final(self).wf(),
            final(self).binding_types@ == old(self).binding_types@ + texture_and_sampler_types(
                stage,
                view_dimension,
                filterable,
                sampler,
            ),
            final(self).resources@ == old(self).resources@ + texture_and_sampler_resources(
                old(self).resources@.len(),
            ),
    {
        let view_binding: u32 = self.resources.len() as u32;
        self.resources.push(
            BindGroupEntry { binding: view_binding, resource: BindingResource::TextureView },
        );
        let sampler_binding: u32 = self.resources.len() as u32;
        self.resources.push(
            BindGroupEntry { binding: sampler_binding, resource: BindingResource::Sampler },
        );
        self.binding_types.push((stage, BindingType::Texture { view_dimension, filterable }));
        self.binding_types.push((stage, BindingType::Sampler(sampler)));
    }

    /// Adds a two-dimensional texture that is sampled with filtering, and
    /// its sampler.
    pub fn add_texture_and_sampler(&mut self, stage: ShaderStages)
        requires
            old(self).wf(),
            old(self).resources@.len() + 1 < u32::MAX,
        ensures
            final(self).wf(),
            final(self).binding_types@ == old(self).binding_types@ + texture_and_sampler_types(
                stage,
                TextureViewDimension::D2,
                true,
                SamplerBindingType::Filtering,
            ),
            final(self).resources@ == old(self).resources@ + texture_and_sampler_resources(
                old(self).resources@.len(),
            ),
    {
        self.add_texture_pair(stage, TextureViewDimension::D2, true, SamplerBindingType::Filtering);
    }

    /// Adds a cubemap that is read texel by texel, and its sampler.
    pub fn add_texture_sky_sampler(&mut self, stage: ShaderStages)
        requires
            old(self).wf(),
            old(self).resources@.len() + 1 < u32::MAX,
        ensures
            final(self).wf(),
            final(self).binding_types@ == old(self).binding_types@ + texture_and_sampler_types(
                stage,
                TextureViewDimension::Cube,
                false,
                SamplerBindingType::NonFiltering,
            ),
            final(self).resources@ == old(self).resources@ + texture_and_sampler_resources(
                old(self).resources@.len(),
            ),
    {
        self.add_texture_pair(
            stage,
            TextureViewDimension::Cube,
            false,
            SamplerBindingType::NonFiltering,
        );
    }

    /// Adds a two-dimensional texture of unfilterable float texels, and a
    /// filtering sampler.
    pub fn add_texture_hdr_and_sampler(&mut self, stage: ShaderStages)
        requires
            old(self).wf(),
            old(self).resources@.len() + 1 < u32::MAX,
        ensures
            final(self).wf(),
            final(self).binding_types@ == old(self).binding_types@ + texture_and_sampler_types(
                stage,
                TextureViewDimension::D2,
                false,
                SamplerBindingType::Filtering,
            ),
            final(self).resources@ == old(self).resources@ + texture_and_sampler_resources(
                old(self).resources@.len(),
            ),
    {
        self.add_texture_pair(stage, TextureViewDimension::D2, false, SamplerBindingType::Filtering);
    }

    /// The layout of the bind group: one entry for every resource, in the
    /// order in which they were added, each at the binding of its
    /// resource.
    pub fn build(&self) -> (layout: Vec<BindGroupLayoutEntry>)
        requires
            self.wf(),
        ensures
            layout@ == self.spec_layout(),
            forall|i: int|
                0 <= i < layout@.len() ==> (#[trigger] layout@[i]).binding
                    == self.resources@[i].binding,
    {
        let mut layout_entries: Vec<BindGroupLayoutEntry> = Vec::new();
        let mut index: usize = 0;
        while index < self.binding_types.len()
            invariant
                self.wf(),
                index <= self.binding_types@.len(),
                layout_entries@.len() == index,
                forall|i: int|
                    0 <= i < index ==> (#[trigger] layout_entries@[i]) == self.spec_layout()[i],
            decreases self.binding_types@.len() - index,
        {
            let entry = self.binding_types[index];
            layout_entries.push(
                BindGroupLayoutEntry { binding: index as u32, visibility: entry.0, ty: entry.1 },
            );
            index = index + 1;
        }
        layout_entries
    }
}

} // verus!
