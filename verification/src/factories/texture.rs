//! Descriptions of textures, of the views onto them and of samplers.

use vstd::prelude::*;
use crate::state::Size;

verus! {

/// Texel formats that the renderer creates textures in.
#[derive(Copy, Clone, Debug, PartialEq, Eq, Structural)]
pub enum TextureFormat {
    Rgba8UnormSrgb,
    Bgra8UnormSrgb,
    Rgba32Float,
    Depth24Plus,
}

impl TextureFormat {
    /// Bytes that one texel occupies in a buffer; a depth texel has no
    /// defined layout.
    pub open spec fn spec_bytes_per_texel(self) -> Option<nat> {
        match self {
            TextureFormat::Rgba8UnormSrgb => Some(4),
            TextureFormat::Bgra8UnormSrgb => Some(4),
            TextureFormat::Rgba32Float => Some(16),
            TextureFormat::Depth24Plus => None,
        }
    }

    /// Bytes that one texel occupies in a buffer.
    pub fn bytes_per_texel(self) -> (bytes: Option<u32>)
        ensures
            bytes is Some <==> self.spec_bytes_per_texel() is Some,
            bytes is Some ==> bytes->0 == self.spec_bytes_per_texel()->0,
    {
        match self {
            TextureFormat::Rgba8UnormSrgb => Some(4),
            TextureFormat::Bgra8UnormSrgb => Some(4),
            TextureFormat::Rgba32Float => Some(16),
            TextureFormat::Depth24Plus => None,
        }
    }
}

/// What a texture may be used for.
#[derive(Copy, Clone, Debug, PartialEq, Eq, Structural)]
pub struct TextureUsages {
    pub copy_src: bool,
    pub copy_dst: bool,
    pub texture_binding: bool,
    pub storage_binding: bool,
    pub render_attachment: bool,
}

/// How a sampler treats coordinates outside the texture.
#[derive(Copy, Clone, Debug, PartialEq, Eq, Structural)]
pub enum AddressMode {
    ClampToEdge,
    Repeat,
}

/// How a sampler combines texels.
#[derive(Copy, Clone, Debug, PartialEq, Eq, Structural)]
pub enum FilterMode {
    Nearest,
    Linear,
}

/// Shape in which a view presents a texture.
#[derive(Copy, Clone, Debug, PartialEq, Eq, Structural)]
pub enum TextureViewDimension {
    D2,
    D2Array,
    Cube,
}

/// Extent of a texture.
#[derive(Copy, Clone, Debug, PartialEq, Eq, Structural)]
pub struct Extent3d {
    pub width: u32,
    pub height: u32,
    pub depth_or_array_layers: u32,
}

/// Description of a two-dimensional texture or texture array.
#[derive(Copy, Clone, Debug, PartialEq, Eq, Structural)]
pub struct TextureDescriptor {
    pub size: Extent3d,
    pub mip_level_count: u32,
    pub sample_count: u32,
    pub format: TextureFormat,
    pub usage: TextureUsages,
    /// The one other format that views of the texture may have, if any.
    pub view_format: Option<TextureFormat>,
}

/// Description of a view onto a texture. A count of `None` stands for all
/// the layers, or levels, from the base on.
#[derive(Copy, Clone, Debug, PartialEq, Eq, Structural)]
pub struct TextureViewDescriptor {
    pub dimension: Option<TextureViewDimension>,
    pub base_mip_level: u32,
    pub mip_level_count: Option<u32>,
    pub base_array_layer: u32,
    pub array_layer_count: Option<u32>,
}

/// Description of a sampler.
#[derive(Copy, Clone, Debug, PartialEq, Eq, Structural)]
pub struct SamplerDescriptor {
    pub address_mode_u: AddressMode,
    pub address_mode_v: AddressMode,
    pub address_mode_w: AddressMode,
    pub mag_filter: FilterMode,
    pub min_filter: FilterMode,
    pub mipmap_filter: FilterMode,
}

/// A texture together with the view and the sampler through which it is
/// read.
#[derive(Copy, Clone, Debug, PartialEq, Eq, Structural)]
pub struct TextureBundle {
    pub texture: TextureDescriptor,
    pub view: TextureViewDescriptor,
    pub sampler: SamplerDescriptor,
}

impl TextureUsages {
    /// No use at all.
    pub open spec fn spec_none() -> TextureUsages {
        TextureUsages {
            copy_src: false,
            copy_dst: false,
            texture_binding: false,
            storage_binding: false,
            render_attachment: false,
        }
    }

    /// The uses of a texture that is filled by a copy and then sampled.
    pub open spec fn spec_sampled_copy_target() -> TextureUsages {
        TextureUsages { copy_dst: true, texture_binding: true, ..Self::spec_none() }
    }

    /// The uses of a texture that a compute pass writes and later passes
    /// sample.
    pub open spec fn spec_storage_target() -> TextureUsages {
        TextureUsages {
            copy_dst: true,
            texture_binding: true,
            storage_binding: true,
            ..Self::spec_none()
        }
    }

    /// The uses of a texture that render passes draw into and later passes
    /// sample or copy from.
    pub open spec fn spec_render_target() -> TextureUsages {
        TextureUsages {
            copy_src: true,
            texture_binding: true,
            render_attachment: true,
            ..Self::spec_none()
        }
    }

    /// The uses of a depth buffer.
    pub open spec fn spec_depth_target() -> TextureUsages {
        TextureUsages {
            copy_dst: true,
            texture_binding: true,
            render_attachment: true,
            ..Self::spec_none()
        }
    }

    /// No use at all.
    pub fn none() -> (usage: Self)
        ensures
            usage == Self::spec_none(),
    {
        TextureUsages {
            copy_src: false,
            copy_dst: false,
            texture_binding: false,
            storage_binding: false,
            render_attachment: false,
        }
    }

    /// The uses of a texture that is filled by a copy and then sampled.
    pub fn sampled_copy_target() -> (usage: Self)
        ensures
            usage == Self::spec_sampled_copy_target(),
    {
        TextureUsages { copy_dst: true, texture_binding: true, ..Self::none() }
    }

    /// The uses of a texture that a compute pass writes and later passes
    /// sample.
    pub fn storage_target() -> (usage: Self)
        ensures
            usage == Self::spec_storage_target(),
    {
        TextureUsages { copy_dst: true, texture_binding: true, storage_binding: true, ..Self::none() }
    }

    /// The uses of a texture that render passes draw into and later passes
    /// sample or copy from.
    pub fn render_target() -> (usage: Self)
        ensures
            usage == Self::spec_render_target(),
    {
        TextureUsages {
            copy_src: true,
            texture_binding: true,
            render_attachment: true,
            ..Self::none()
        }
    }

    /// The uses of a depth buffer.
    pub fn depth_target() -> (usage: Self)
        ensures
            usage == Self::spec_depth_target(),
    {
        TextureUsages {
            copy_dst: true,
            texture_binding: true,
            render_attachment: true,
            ..Self::none()
        }
    }
}

impl TextureViewDescriptor {
    /// The view that a texture has when nothing is asked for: its own
    /// dimension, all of its levels and layers.
    pub open spec fn spec_whole() -> TextureViewDescriptor {
        TextureViewDescriptor {
            dimension: None,
            base_mip_level: 0,
            mip_level_count: None,
            base_array_layer: 0,
            array_layer_count: None,
        }
    }

    /// The two-dimensional view of one layer and one level.
    pub open spec fn spec_slice(layer: u32, level: u32) -> TextureViewDescriptor {
        TextureViewDescriptor {
            dimension: Some(TextureViewDimension::D2),
            base_mip_level: level,
            mip_level_count: Some(1),
            base_array_layer: layer,
            array_layer_count: Some(1),
        }
    }

    /// Whether the layers and levels that the view names exist in a
    /// texture of `layers` layers and `levels` levels.
    pub open spec fn fits(self, layers: nat, levels: nat) -> bool {
        &&& match self.array_layer_count {
            Some(count) => count >= 1 && self.base_array_layer + count <= layers,
            None => self.base_array_layer < layers,
        }
        &&& match self.mip_level_count {
            Some(count) => count >= 1 && self.base_mip_level + count <= levels,
            None => self.base_mip_level < levels,
        }
    }

    /// The view that a texture has when nothing is asked for.
    pub fn whole() -> (view: Self)
        ensures
            view == Self::spec_whole(),
    {
        TextureViewDescriptor {
            dimension: None,
            base_mip_level: 0,
            mip_level_count: None,
            base_array_layer: 0,
            array_layer_count: None,
        }
    }

    /// The two-dimensional view of one layer and one level.
    pub fn slice(layer: u32, level: u32) -> (view: Self)
        ensures
            view == Self::spec_slice(layer, level),
    {
        TextureViewDescriptor {
            dimension: Some(TextureViewDimension::D2),
            base_mip_level: level,
            mip_level_count: Some(1),
            base_array_layer: layer,
            array_layer_count: Some(1),
        }
    }

    /// Whether the view presents its texture as a cube.
    pub fn is_cube(&self) -> (cube: bool)
        ensures
            cube == (self.dimension == Some(TextureViewDimension::Cube)),
    {
        match self.dimension {
            Some(TextureViewDimension::Cube) => true,
            _ => false,
        }
    }
}

impl SamplerDescriptor {
    /// The sampler with one address mode on every axis, one filter for
    /// magnification and minification, and `mipmap_filter` between levels.
    pub open spec fn spec_uniform(
        address_mode: AddressMode,
        filter: FilterMode,
        mipmap_filter: FilterMode,
    ) -> SamplerDescriptor {
        SamplerDescriptor {
            address_mode_u: address_mode,
            address_mode_v: address_mode,
            address_mode_w: address_mode,
            mag_filter: filter,
            min_filter: filter,
            mipmap_filter,
        }
    }

    /// The sampler with one address mode on every axis and one filter for
    /// magnification and minification.
    pub fn uniform(address_mode: AddressMode, filter: FilterMode, mipmap_filter: FilterMode) -> (sampler: Self)
        ensures
            sampler == Self::spec_uniform(address_mode, filter, mipmap_filter),
    {
        SamplerDescriptor {
            address_mode_u: address_mode,
            address_mode_v: address_mode,
            address_mode_w: address_mode,
            mag_filter: filter,
            min_filter: filter,
            mipmap_filter,
        }
    }

    /// The sampler that clamps at the edges and picks the nearest texel.
    pub fn nearest() -> (sampler: Self)
        ensures
            sampler == Self::spec_uniform(
                AddressMode::ClampToEdge,
                FilterMode::Nearest,
                FilterMode::Nearest,
            ),
    {
        Self::uniform(AddressMode::ClampToEdge, FilterMode::Nearest, FilterMode::Nearest)
    }
}

/// How a texture made by `Texture2dFactory` is sampled.
#[derive(Copy, Clone, Debug, PartialEq, Eq, Structural)]
pub struct SamplerOptions {
    pub address_mode: AddressMode,
    pub filter: FilterMode,
    pub mipmap_filter: FilterMode,
}

impl Default for SamplerOptions {
    fn default() -> (options: Self)
        ensures
            options == (SamplerOptions {
                address_mode: AddressMode::ClampToEdge,
                filter: FilterMode::Linear,
                mipmap_filter: FilterMode::Linear,
            }),
    {
        Self {
            address_mode: AddressMode::ClampToEdge,
            filter: FilterMode::Linear,
            mipmap_filter: FilterMode::Linear,
        }
    }
}

/// What a texture made by `Texture2dFactory` holds.
#[derive(Copy, Clone, Debug)]
pub struct Texture2dOptions {
    pub mip_level_count: u32,
    pub sample_count: u32,
    pub format: TextureFormat,
    pub usage: TextureUsages,
    pub label: Option<&'static str>,
}

impl Default for Texture2dOptions {
    fn default() -> (options: Self)
        ensures
            options.mip_level_count == 1,
            options.sample_count == 1,
            options.format == TextureFormat::Rgba8UnormSrgb,
            options.usage == TextureUsages::spec_sampled_copy_target(),
            options.label is None,
    {
        Self {
            mip_level_count: 1,
            sample_count: 1,
            format: TextureFormat::Rgba8UnormSrgb,
            usage: TextureUsages::sampled_copy_target(),
            label: None,
        }
    }
}

/// A texture to create, and whether it is created with its texels or
/// left blank.
#[derive(Copy, Clone, Debug, PartialEq, Eq, Structural)]
pub struct TextureUpload {
    pub bundle: TextureBundle,
    pub with_data: bool,
}

/// Builder of single-layer textures.
#[derive(Copy, Clone, Debug, PartialEq, Eq, Structural)]
pub struct Texture2dFactory {
    pub sampler_descriptor: SamplerDescriptor,
    pub texture_descriptor: TextureDescriptor,
}

impl Texture2dFactory {
    /// Description of a single-layer texture of `width` by `height` texels.
    pub open spec fn spec_texture(
        width: u32,
        height: u32,
        mip_level_count: u32,
        sample_count: u32,
        format: TextureFormat,
        usage: TextureUsages,
    ) -> TextureDescriptor {
        TextureDescriptor {
            size: Extent3d { width, height, depth_or_array_layers: 1 },
            mip_level_count,
            sample_count,
            format,
            usage,
            view_format: None,
        }
    }

    /// The texture that `new_with_options` describes.
    pub open spec fn spec_with_options(
        size: [u32; 2],
        texture_options: Texture2dOptions,
        sampler_options: SamplerOptions,
        data_len: usize,
    ) -> TextureUpload {
        TextureUpload {
            bundle: TextureBundle {
                texture: Self::spec_texture(
                    size[0],
                    size[1],
                    texture_options.mip_level_count,
                    texture_options.sample_count,
                    texture_options.format,
                    texture_options.usage,
                ),
                view: TextureViewDescriptor::spec_whole(),
                sampler: SamplerDescriptor::spec_uniform(
                    sampler_options.address_mode,
                    sampler_options.filter,
                    sampler_options.mipmap_filter,
                ),
            },
            with_data: data_len != 0,
        }
    }

    /// A factory for an 8-bit sRGB texture of `width` by `height` texels,
    /// one level, sampled by nearest texel and clamped at the edges.
    pub fn new(width: u32, height: u32) -> (factory: Self)
        ensures
            factory.sampler_descriptor == SamplerDescriptor::spec_uniform(
                AddressMode::ClampToEdge,
                FilterMode::Nearest,
                FilterMode::Nearest,
            ),
            factory.texture_descriptor == Self::spec_texture(
                width,
                height,
                1,
                1,
                TextureFormat::Rgba8UnormSrgb,
                TextureUsages::spec_sampled_copy_target(),
            ),
    {
        Self {
            sampler_descriptor: SamplerDescriptor::nearest(),
            texture_descriptor: TextureDescriptor {
                size: Extent3d { width, height, depth_or_array_layers: 1 },
                mip_level_count: 1,
                sample_count: 1,
                format: TextureFormat::Rgba8UnormSrgb,
                usage: TextureUsages::sampled_copy_target(),
                view_format: None,
            },
        }
    }

    /// Describes a texture of `size[0]` by `size[1]` texels with the given
    /// options, to be created with its texels where `data_len` bytes of
    /// them are at hand and blank where there are none.
    pub fn new_with_options(
        size: [u32; 2],
        texture_options: Texture2dOptions,
        sampler_options: SamplerOptions,
        data_len: usize,
    ) -> (upload: TextureUpload)
        ensures
            upload == Self::spec_with_options(size, texture_options, sampler_options, data_len),
    {
        TextureUpload {
            bundle: TextureBundle {
                texture: TextureDescriptor {
                    size: Extent3d { width: size[0], height: size[1], depth_or_array_layers: 1 },
                    mip_level_count: texture_options.mip_level_count,
                    sample_count: texture_options.sample_count,
                    format: texture_options.format,
                    usage: texture_options.usage,
                    view_format: None,
                },
                view: TextureViewDescriptor::whole(),
                sampler: SamplerDescriptor::uniform(
                    sampler_options.address_mode,
                    sampler_options.filter,
                    sampler_options.mipmap_filter,
                ),
            },
            with_data: data_len != 0,
        }
    }

    /// Describes a texture whose texels come from a KTX container; the
    /// description is that of `new_with_options`.
    pub fn new_ktx(
        size: [u32; 2],
        texture_options: Texture2dOptions,
        sampler_options: SamplerOptions,
        data_len: usize,
    ) -> (upload: TextureUpload)
        ensures
            upload == Self::spec_with_options(size, texture_options, sampler_options, data_len),
    {
        Self::new_with_options(size, texture_options, sampler_options, data_len)
    }

    /// Replaces the sampler description.
    pub fn set_sampler_descriptor(&mut self, sampler: SamplerDescriptor)
        ensures
            final(self).sampler_descriptor == sampler,
            final(self).texture_descriptor == old(self).texture_descriptor,
    {
        self.sampler_descriptor = sampler;
    }

    /// Replaces the texture description.
    pub fn set_texture_descriptor(&mut self, texture_descriptor: TextureDescriptor)
        ensures
            final(self).texture_descriptor == texture_descriptor,
            final(self).sampler_descriptor == old(self).sampler_descriptor,
    {
        self.texture_descriptor = texture_descriptor;
    }

    /// The texture that the factory describes, to be created with its
    /// texels where `data_len` bytes of them are at hand and blank where
    /// there are none.
    pub fn get_texture_and_sampler(&self, data_len: usize) -> (upload: TextureUpload)
        ensures
            upload.bundle.texture == self.texture_descriptor,
            upload.bundle.view == TextureViewDescriptor::spec_whole(),
            upload.bundle.sampler == self.sampler_descriptor,
            upload.with_data == (data_len != 0),
    {
        TextureUpload {
            bundle: TextureBundle {
                texture: self.texture_descriptor,
                view: TextureViewDescriptor::whole(),
                sampler: self.sampler_descriptor,
            },
            with_data: data_len != 0,
        }
    }
}

/// Builder of depth buffers.
pub struct DepthTextureFactory {}

impl DepthTextureFactory {
    /// The depth buffer of a surface of the given size.
    pub open spec fn spec_new(size: Size, sample_count: u32) -> TextureBundle {
        TextureBundle {
            texture: TextureDescriptor {
                size: Extent3d {
                    width: size.width,
                    height: size.height,
                    depth_or_array_layers: 1,
                },
                mip_level_count: 1,
                sample_count,
                format: TextureFormat::Depth24Plus,
                usage: TextureUsages::spec_depth_target(),
                view_format: None,
            },
            view: TextureViewDescriptor::spec_whole(),
            sampler: SamplerDescriptor::spec_uniform(
                AddressMode::ClampToEdge,
                FilterMode::Linear,
                FilterMode::Nearest,
            ),
        }
    }

    /// Describes the depth buffer of a surface of the given size, with
    /// `sample_count` samples per texel.
    pub fn new(size: Size, sample_count: u32) -> (bundle: TextureBundle)
        ensures
            bundle == Self::spec_new(size, sample_count),
    {
        TextureBundle {
            texture: TextureDescriptor {
                size: Extent3d {
                    width: size.width,
                    height: size.height,
                    depth_or_array_layers: 1,
                },
                mip_level_count: 1,
                sample_count,
                format: TextureFormat::Depth24Plus,
                usage: TextureUsages::depth_target(),
                view_format: None,
            },
            view: TextureViewDescriptor::whole(),
            sampler: SamplerDescriptor::uniform(
                AddressMode::ClampToEdge,
                FilterMode::Linear,
                FilterMode::Nearest,
            ),
        }
    }
}

} // verus!
