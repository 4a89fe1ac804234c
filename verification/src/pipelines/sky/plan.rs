//! The GPU work of each stage, written down as plain values: the textures
//! to create, the compute grids to dispatch and the render passes to
//! submit, in order.

use vstd::prelude::*;
use crate::factories::texture::{
    AddressMode, Extent3d, FilterMode, SamplerDescriptor, Texture2dFactory, TextureBundle,
    TextureDescriptor, TextureFormat, TextureUsages, TextureViewDescriptor, TextureViewDimension,
};
use crate::pipelines::sky::face::{CubeFace, FACE_COUNT};
use crate::pipelines::sky::mip::{
    lemma_mip_extent_in_chain, lemma_roughness_strictly_increasing, max_mip_count, mip_extent,
    mip_level_extent, Roughness,
};

verus! {

/// Side length of a compute workgroup, in texels.
pub const WORKGROUP_SIZE: u32 = 16;

/// Bytes of one texel of the source image: four 32-bit floats.
pub const SOURCE_BYTES_PER_TEXEL: u32 = 16;

/// Side length of the irradiance cubemap.
pub const IRRADIANCE_SIZE: u32 = 64;

/// Side length of the specular cubemap.
pub const SPECULAR_SIZE: u32 = 512;

/// Number of mip levels, and so of roughness values, of the specular
/// cubemap.
pub const SPECULAR_MIP_COUNT: u32 = 6;

/// Side length of the BRDF lookup table.
pub const BRDF_LUT_SIZE: u32 = 512;

/// Number of workgroups in each dimension of a compute dispatch.
#[derive(Copy, Clone, Debug, PartialEq, Eq, Structural)]
pub struct Dispatch {
    pub x: u32,
    pub y: u32,
    pub z: u32,
}

/// One render pass into one layer and one mip level of a cubemap.
#[derive(Copy, Clone, Debug, PartialEq, Eq, Structural)]
pub struct SlicePass {
    /// The face whose forward and up vectors orient the camera.
    pub face: CubeFace,
    /// The layer and level to render into.
    pub view: TextureViewDescriptor,
    /// Side length of that level, in texels.
    pub extent: u32,
    /// The roughness to filter with, where the stage has one.
    pub roughness: Option<Roughness>,
}

/// The projection of the source image onto the base cubemap.
#[derive(Copy, Clone, Debug, PartialEq, Eq, Structural)]
pub struct ProjectionPlan {
    /// The texture that receives the source image.
    pub source: TextureBundle,
    /// The base cubemap.
    pub target: TextureBundle,
    /// The view through which the compute pass writes the six layers.
    pub storage_view: TextureViewDescriptor,
    pub dispatch: Dispatch,
}

/// The convolution of the base cubemap into another cubemap, one render
/// pass for each layer and level.
#[derive(Clone, Debug)]
pub struct ConvolutionPlan {
    pub target: TextureBundle,
    pub passes: Vec<SlicePass>,
}

/// The computation of the BRDF lookup table.
#[derive(Copy, Clone, Debug, PartialEq, Eq, Structural)]
pub struct BrdfLutPlan {
    pub target: TextureBundle,
    pub dispatch: Dispatch,
}

/// Number of workgroups that cover `size` texels.
pub open spec fn workgroups(size: nat) -> nat {
    (size + WORKGROUP_SIZE - 1) as nat / (WORKGROUP_SIZE as nat)
}

/// Description of a cubemap texture of 32-bit float texels.
pub open spec fn spec_cube_texture(
    size: u32,
    mip_level_count: u32,
    usage: TextureUsages,
    view_format: Option<TextureFormat>,
) -> TextureDescriptor {
    TextureDescriptor {
        size: Extent3d { width: size, height: size, depth_or_array_layers: FACE_COUNT },
        mip_level_count,
        sample_count: 1,
        format: TextureFormat::Rgba32Float,
        usage,
        view_format,
    }
}

/// The view of six layers as a cube.
pub open spec fn spec_cube_view(mip_level_count: Option<u32>) -> TextureViewDescriptor {
    TextureViewDescriptor {
        dimension: Some(TextureViewDimension::Cube),
        base_mip_level: 0,
        mip_level_count,
        base_array_layer: 0,
        array_layer_count: Some(FACE_COUNT),
    }
}

/// The projection of a source of `width` by `height` texels onto a cubemap
/// with faces of `dst_size` by `dst_size` texels: the source is sampled
/// texel by texel and wraps around, the cubemap is written by one compute
/// dispatch with one workgroup layer for each face.
pub open spec fn spec_projection(width: u32, height: u32, dst_size: u32) -> ProjectionPlan {
    ProjectionPlan {
        source: TextureBundle {
            texture: Texture2dFactory::spec_texture(
                width,
                height,
                1,
                1,
                TextureFormat::Rgba32Float,
                TextureUsages::spec_sampled_copy_target(),
            ),
            view: TextureViewDescriptor::spec_whole(),
            sampler: SamplerDescriptor::spec_uniform(
                AddressMode::Repeat,
                FilterMode::Nearest,
                FilterMode::Nearest,
            ),
        },
        target: TextureBundle {
            texture: spec_cube_texture(dst_size, 1, TextureUsages::spec_storage_target(), None),
            view: spec_cube_view(None),
            sampler: SamplerDescriptor::spec_uniform(
                AddressMode::ClampToEdge,
                FilterMode::Nearest,
                FilterMode::Nearest,
            ),
        },
        storage_view: TextureViewDescriptor {
            dimension: Some(TextureViewDimension::D2Array),
            ..TextureViewDescriptor::spec_whole()
        },
        dispatch: Dispatch {
            x: workgroups(dst_size as nat) as u32,
            y: workgroups(dst_size as nat) as u32,
            z: FACE_COUNT,
        },
    }
}

/// The irradiance cubemap: one level, drawn into and then sampled.
pub open spec fn spec_irradiance_target(dst_size: u32) -> TextureBundle {
    TextureBundle {
        texture: spec_cube_texture(
            dst_size,
            1,
            TextureUsages::spec_render_target(),
            Some(TextureFormat::Rgba32Float),
        ),
        view: spec_cube_view(Some(1)),
        sampler: SamplerDescriptor::spec_uniform(
            AddressMode::ClampToEdge,
            FilterMode::Nearest,
            FilterMode::Nearest,
        ),
    }
}

/// The render pass that fills layer `layer` of the irradiance cubemap.
pub open spec fn spec_irradiance_pass(layer: int, dst_size: u32) -> SlicePass {
    SlicePass {
        face: CubeFace::spec_from_index(layer as nat)->0,
        view: TextureViewDescriptor {
            dimension: Some(TextureViewDimension::D2),
            base_array_layer: layer as u32,
            array_layer_count: Some(1),
            ..TextureViewDescriptor::spec_whole()
        },
        extent: dst_size,
        roughness: None,
    }
}

/// The render passes of the irradiance stage: one for each layer, in
/// layer order.
pub open spec fn spec_irradiance_passes(dst_size: u32) -> Seq<SlicePass> {
    Seq::new(FACE_COUNT as nat, |layer: int| spec_irradiance_pass(layer, dst_size))
}

/// The specular cubemap: `mip_count` levels, blended between levels when
/// sampled.
pub open spec fn spec_specular_target(dst_size: u32, mip_count: u32) -> TextureBundle {
    TextureBundle {
        texture: spec_cube_texture(
            dst_size,
            mip_count,
            TextureUsages::spec_render_target(),
            Some(TextureFormat::Rgba32Float),
        ),
        view: spec_cube_view(Some(mip_count)),
        sampler: SamplerDescriptor::spec_uniform(
            AddressMode::ClampToEdge,
            FilterMode::Nearest,
            FilterMode::Linear,
        ),
    }
}

/// The `k`-th render pass of the specular stage: level `k / 6`, layer
/// `k % 6`, with the roughness of that level.
pub open spec fn spec_specular_pass(k: int, dst_size: u32, mip_count: u32) -> SlicePass {
    let level = k / (FACE_COUNT as int);
    let layer = k % (FACE_COUNT as int);
    SlicePass {
        face: CubeFace::spec_from_index(layer as nat)->0,
        view: TextureViewDescriptor::spec_slice(layer as u32, level as u32),
        extent: mip_extent(dst_size as nat, level as nat) as u32,
        roughness: Some(Roughness::spec_for_mip(level as nat, mip_count as nat)),
    }
}

/// The render passes of the specular stage: level by level from the
/// sharpest on, the six layers of a level in layer order.
pub open spec fn spec_specular_passes(dst_size: u32, mip_count: u32) -> Seq<SlicePass> {
    Seq::new(
        (FACE_COUNT * mip_count) as nat,
        |k: int| spec_specular_pass(k, dst_size, mip_count),
    )
}

/// The lookup table: one layer of `table_size` by `table_size` texels,
/// written by one compute dispatch.
pub open spec fn spec_brdf_lut(table_size: u32) -> BrdfLutPlan {
    BrdfLutPlan {
        target: TextureBundle {
            texture: Texture2dFactory::spec_texture(
                table_size,
                table_size,
                1,
                1,
                TextureFormat::Rgba32Float,
                TextureUsages::spec_storage_target(),
            ),
            view: TextureViewDescriptor {
                dimension: Some(TextureViewDimension::D2),
                array_layer_count: Some(1),
                ..TextureViewDescriptor::spec_whole()
            },
            sampler: SamplerDescriptor::spec_uniform(
                AddressMode::ClampToEdge,
                FilterMode::Nearest,
                FilterMode::Nearest,
            ),
        },
        dispatch: Dispatch {
            x: workgroups(table_size as nat) as u32,
            y: workgroups(table_size as nat) as u32,
            z: 1,
        },
    }
}

/// Number of workgroups that cover `size` texels: the groups reach the
/// last texel, and one group fewer would not.
pub fn workgroup_count(size: u32) -> (count: u32)
    ensures
        count == workgroups(size as nat),
        count * WORKGROUP_SIZE >= size,
        size > 0 ==> (count - 1) * WORKGROUP_SIZE < size,
        size == 0 ==> count == 0,
{
    if size % WORKGROUP_SIZE == 0 {
        size / WORKGROUP_SIZE
    } else {
        size / WORKGROUP_SIZE + 1
    }
}

/// Description of a cubemap texture of 32-bit float texels.
pub fn cube_texture(
    size: u32,
    mip_level_count: u32,
    usage: TextureUsages,
    view_format: Option<TextureFormat>,
) -> (texture: TextureDescriptor)
    ensures
        texture == spec_cube_texture(size, mip_level_count, usage, view_format),
{
    TextureDescriptor {
        size: Extent3d { width: size, height: size, depth_or_array_layers: FACE_COUNT },
        mip_level_count,
        sample_count: 1,
        format: TextureFormat::Rgba32Float,
        usage,
        view_format,
    }
}

/// The view of six layers as a cube.
pub fn cube_view(mip_level_count: Option<u32>) -> (view: TextureViewDescriptor)
    ensures
        view == spec_cube_view(mip_level_count),
{
    TextureViewDescriptor {
        dimension: Some(TextureViewDimension::Cube),
        base_mip_level: 0,
        mip_level_count,
        base_array_layer: 0,
        array_layer_count: Some(FACE_COUNT),
    }
}

/// The render passes of the irradiance stage.
pub fn irradiance_passes(dst_size: u32) -> (passes: Vec<SlicePass>)
    ensures
        passes@ == spec_irradiance_passes(dst_size),
{
    let mut passes: Vec<SlicePass> = Vec::new();
    let mut layer: u32 = 0;
    while layer < FACE_COUNT
        invariant
            layer <= FACE_COUNT,
            passes@.len() == layer,
            forall|i: int| 0 <= i < layer ==> passes@[i] == spec_irradiance_pass(i, dst_size),
        decreases FACE_COUNT - layer,
    {
        match CubeFace::from_index(layer) {
            Some(face) => {
                passes.push(
                    SlicePass {
                        face,
                        view: TextureViewDescriptor {
                            dimension: Some(TextureViewDimension::D2),
                            base_mip_level: 0,
                            mip_level_count: None,
                            base_array_layer: layer,
                            array_layer_count: Some(1),
                        },
                        extent: dst_size,
                        roughness: None,
                    },
                );
            },
            None => {},
        }
        layer = layer + 1;
    }
    passes
}

/// The render passes of the specular stage.
pub fn specular_passes(dst_size: u32, mip_count: u32) -> (passes: Vec<SlicePass>)
    requires
        mip_count <= 32,
    ensures
        passes@ == spec_specular_passes(dst_size, mip_count),
{
    let mut passes: Vec<SlicePass> = Vec::new();
    let mut level: u32 = 0;
    while level < mip_count
        invariant
            level <= mip_count <= 32,
            passes@.len() == FACE_COUNT * level,
            forall|k: int|
                0 <= k < FACE_COUNT * level ==> passes@[k] == spec_specular_pass(
                    k,
                    dst_size,
                    mip_count,
                ),
        decreases mip_count - level,
    {
        let extent: u32 = mip_level_extent(dst_size, level);
        let roughness: Option<Roughness> = Roughness::for_mip(level, mip_count);
        let mut layer: u32 = 0;
        while layer < FACE_COUNT
            invariant
                layer <= FACE_COUNT,
                level < mip_count <= 32,
                extent == mip_extent(dst_size as nat, level as nat),
                roughness == Some(Roughness::spec_for_mip(level as nat, mip_count as nat)),
                passes@.len() == FACE_COUNT * level + layer,
                forall|k: int|
                    0 <= k < FACE_COUNT * level + layer ==> passes@[k] == spec_specular_pass(
                        k,
                        dst_size,
                        mip_count,
                    ),
            decreases FACE_COUNT - layer,
        {
            match CubeFace::from_index(layer) {
                Some(face) => {
                    passes.push(
                        SlicePass {
                            face,
                            view: TextureViewDescriptor::slice(layer, level),
                            extent,
                            roughness,
                        },
                    );
                },
                None => {},
            }
            layer = layer + 1;
        }
        level = level + 1;
    }
    passes
}

/// A dispatch of `workgroups(size)` groups reaches every texel, and its
/// last group still holds one: texel `x` lies in group `x / 16`, which is
/// dispatched, and the first texel of the last group exists.
pub proof fn lemma_dispatch_covers(size: nat, x: nat)
    requires
        x < size,
    ensures
        x / (WORKGROUP_SIZE as nat) < workgroups(size),
        (workgroups(size) - 1) * WORKGROUP_SIZE < size,
        workgroups(size) * WORKGROUP_SIZE >= size,
{
}

/// Every pass of the irradiance stage renders into a layer of its own, in
/// layer order, through a view that exists in the target.
pub proof fn lemma_irradiance_passes(dst_size: u32, i: int)
    requires
        0 <= i < FACE_COUNT,
    ensures
        spec_irradiance_passes(dst_size).len() == FACE_COUNT,
        spec_irradiance_passes(dst_size)[i].face.spec_index() == i,
        spec_irradiance_passes(dst_size)[i].view.base_array_layer == i,
        spec_irradiance_passes(dst_size)[i].view.fits(FACE_COUNT as nat, 1),
{
}

/// The passes of the specular stage: six for each level; pass `k` renders
/// into layer `k % 6` of level `k / 6` through a view that exists in the
/// target, onto a level that holds texels.
pub proof fn lemma_specular_passes(dst_size: u32, mip_count: u32, k: int)
    requires
        mip_count <= max_mip_count(dst_size as nat),
        0 <= k < FACE_COUNT * mip_count,
    ensures
        spec_specular_passes(dst_size, mip_count).len() == FACE_COUNT * mip_count,
        spec_specular_passes(dst_size, mip_count)[k].face.spec_index() == k % 6,
        spec_specular_passes(dst_size, mip_count)[k].view.base_array_layer == k % 6,
        spec_specular_passes(dst_size, mip_count)[k].view.base_mip_level == k / 6,
        spec_specular_passes(dst_size, mip_count)[k].view.fits(FACE_COUNT as nat, mip_count as nat),
        spec_specular_passes(dst_size, mip_count)[k].extent == dst_size as nat / vstd::arithmetic::power2::pow2((k / 6) as nat),
        spec_specular_passes(dst_size, mip_count)[k].extent >= 1,
        spec_specular_passes(dst_size, mip_count)[k].roughness is Some,
        spec_specular_passes(dst_size, mip_count)[k].roughness->0.wf(),
{
    lemma_mip_extent_in_chain(dst_size as nat, (k / 6) as nat);
    vstd::arithmetic::power2::lemma_pow2_pos((k / 6) as nat);
    vstd::arithmetic::div_mod::lemma_div_is_ordered_by_denominator(
        dst_size as int,
        1,
        vstd::arithmetic::power2::pow2((k / 6) as nat) as int,
    );
}

/// The first six passes of the specular stage filter as a mirror, and a
/// pass into a deeper level filters with a strictly larger roughness.
pub proof fn lemma_specular_roughness_increases(dst_size: u32, mip_count: u32, j: int, k: int)
    requires
        0 <= j < k < FACE_COUNT * mip_count,
    ensures
        spec_specular_passes(dst_size, mip_count)[j].roughness is Some,
        spec_specular_passes(dst_size, mip_count)[k].roughness is Some,
        j < FACE_COUNT ==> spec_specular_passes(dst_size, mip_count)[j].roughness->0.numerator == 0,
        j / 6 < k / 6 ==> spec_specular_passes(dst_size, mip_count)[j].roughness->0.below(
            spec_specular_passes(dst_size, mip_count)[k].roughness->0,
        ),
        j / 6 == k / 6 ==> spec_specular_passes(dst_size, mip_count)[j].roughness
            == spec_specular_passes(dst_size, mip_count)[k].roughness,
{
    if j / 6 < k / 6 {
        lemma_roughness_strictly_increasing((j / 6) as nat, (k / 6) as nat, mip_count as nat);
    }
}

} // verus!
