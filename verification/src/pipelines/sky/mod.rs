//! Precomputation of environment lighting from one equirectangular image:
//! a base cubemap, a diffuse irradiance cubemap, a specular cubemap with
//! one roughness for each mip level, and a BRDF lookup table.

pub mod error;
pub mod face;
pub mod machine;
pub mod mip;
pub mod pipeline;
pub mod plan;
pub mod projection;

use vstd::prelude::*;
use crate::factories::texture::{
    AddressMode, FilterMode, SamplerDescriptor, SamplerOptions, Texture2dFactory, Texture2dOptions,
    TextureBundle, TextureFormat, TextureUsages, TextureViewDescriptor, TextureViewDimension,
};
use crate::pipelines::sky::error::{
    BuildError, InvalidInputError, PrecomputeError, Stage, StageError,
};
use crate::pipelines::sky::face::FACE_COUNT;
use crate::pipelines::sky::machine::{Action, RendererState, StageEvent};
use crate::pipelines::sky::mip::{full_mip_count, lemma_max_mip_count_step, max_mip_count};
use crate::pipelines::sky::plan::{
    cube_texture, cube_view, irradiance_passes, spec_brdf_lut, spec_irradiance_passes,
    spec_irradiance_target, spec_projection, spec_specular_passes, spec_specular_target,
    specular_passes, workgroup_count, BrdfLutPlan, ConvolutionPlan, Dispatch, ProjectionPlan,
    BRDF_LUT_SIZE, IRRADIANCE_SIZE, SOURCE_BYTES_PER_TEXEL, SPECULAR_MIP_COUNT, SPECULAR_SIZE,
};

verus! {

/// What a caller may choose about the renderer.
#[derive(Copy, Clone, Debug)]
pub struct SkyRendererOptions<'a> {
    pub label: Option<&'a str>,
    /// Side length of the base cubemap's faces.
    pub dst_size: u32,
}

impl<'a> Default for SkyRendererOptions<'a> {
    fn default() -> (options: Self)
        ensures
            options.dst_size == 512,
            options.label is Some,
            options.label->0@ == "Sky Renderer"@,
    {
        Self { label: Some("Sky Renderer"), dst_size: 512 }
    }
}

/// A decoded equirectangular image: `width` by `height` RGBA texels of
/// four 32-bit floats, row by row, as bytes.
#[derive(Clone, Debug)]
pub struct EnvironmentImage {
    pub width: u32,
    pub height: u32,
    pub data: Vec<u8>,
}

impl EnvironmentImage {
    /// What is wrong with an image of `width` by `height` texels in a
    /// buffer of `len` bytes, if anything.
    pub open spec fn spec_error(width: u32, height: u32, len: nat) -> Option<InvalidInputError> {
        if width == 0 || height == 0 {
            Some(InvalidInputError::EmptySource)
        } else if len != width * height * SOURCE_BYTES_PER_TEXEL {
            Some(InvalidInputError::SourceSizeMismatch)
        } else {
            None
        }
    }

    /// The image has texels, and its buffer holds exactly those.
    pub open spec fn wf(&self) -> bool {
        Self::spec_error(self.width, self.height, self.data@.len()) is None
    }

    /// What is wrong with an image of `width` by `height` texels in a
    /// buffer of `len` bytes, if anything.
    pub fn check(width: u32, height: u32, len: usize) -> (error: Option<InvalidInputError>)
        ensures
            error == Self::spec_error(width, height, len as nat),
    {
        if width == 0 || height == 0 {
            return Some(InvalidInputError::EmptySource);
        }
        assert(width * height * SOURCE_BYTES_PER_TEXEL <= 0xffff_ffff * 0xffff_ffff * 16)
            by (nonlinear_arith)
            requires
                width <= 0xffff_ffff,
                height <= 0xffff_ffff,
        ;
        assert(0 <= width * height <= 0xffff_ffff * 0xffff_ffff) by (nonlinear_arith)
            requires
                0 <= width <= 0xffff_ffff,
                0 <= height <= 0xffff_ffff,
        ;
        let expected: u128 = (width as u128) * (height as u128) * (SOURCE_BYTES_PER_TEXEL as u128);
        if len as u128 != expected {
            Some(InvalidInputError::SourceSizeMismatch)
        } else {
            None
        }
    }

    /// The image of `width` by `height` texels held in `data`, or what is
    /// wrong with it.
    pub fn new(width: u32, height: u32, data: Vec<u8>) -> (image: Result<Self, InvalidInputError>)
        ensures
            (match Self::spec_error(width, height, data@.len()) {
                Some(error) => image == Err::<Self, InvalidInputError>(error),
                None => image == Ok::<Self, InvalidInputError>(
                    EnvironmentImage { width, height, data },
                ),
            }),
            image is Ok ==> image->Ok_0.wf(),
    {
        match Self::check(width, height, data.len()) {
            Some(error) => Err(error),
            None => Ok(EnvironmentImage { width, height, data }),
        }
    }
}

/// The draw that paints the background: one triangle that covers the
/// screen, whose fragments look the environment up along their view rays.
#[derive(Copy, Clone, Debug, PartialEq, Eq, Structural)]
pub struct DrawCall {
    pub vertex_count: u32,
    pub instance_count: u32,
}

/// The precomputation for one environment image: the work of the four
/// stages, and how far it has come.
#[derive(Clone, Debug)]
pub struct SkyRenderer {
    pub projection: ProjectionPlan,
    pub irradiance: ConvolutionPlan,
    pub specular: ConvolutionPlan,
    pub lut: BrdfLutPlan,
    pub state: RendererState,
}

/// Whether `base` is presented as a cube of six layers.
pub open spec fn is_cubemap(base: TextureBundle) -> bool {
    base.view.dimension == Some(TextureViewDimension::Cube)
        && base.texture.size.depth_or_array_layers == FACE_COUNT
}

/// The full chain of the specular cubemap is longer than the chain that
/// the renderer fills.
pub proof fn lemma_specular_chain_fits()
    ensures
        SPECULAR_MIP_COUNT <= max_mip_count(SPECULAR_SIZE as nat),
{
    lemma_max_mip_count_step(512);
    lemma_max_mip_count_step(256);
    lemma_max_mip_count_step(128);
    lemma_max_mip_count_step(64);
    lemma_max_mip_count_step(32);
    lemma_max_mip_count_step(16);
}

impl SkyRenderer {
    /// Why the projection of `image` onto faces of `dst_size` texels
    /// cannot run, if it cannot.
    pub open spec fn spec_projection_error(
        image: &EnvironmentImage,
        dst_size: u32,
    ) -> Option<StageError> {
        match EnvironmentImage::spec_error(image.width, image.height, image.data@.len()) {
            Some(error) => Some(StageError::InvalidInput(error)),
            None => if dst_size == 0 {
                Some(StageError::InvalidInput(InvalidInputError::ZeroDestinationSize))
            } else {
                None
            },
        }
    }

    /// Why the convolution of `base` into faces of `dst_size` texels
    /// cannot run, if it cannot.
    pub open spec fn spec_convolution_error(base: TextureBundle, dst_size: u32) -> Option<
        StageError,
    > {
        if !is_cubemap(base) {
            Some(StageError::InvalidInput(InvalidInputError::NotACubemap))
        } else if dst_size == 0 {
            Some(StageError::InvalidInput(InvalidInputError::ZeroDestinationSize))
        } else {
            None
        }
    }

    /// Why the prefiltering of `base` into `mip_count` levels of faces of
    /// `dst_size` texels cannot run, if it cannot.
    pub open spec fn spec_prefilter_error(
        base: TextureBundle,
        dst_size: u32,
        mip_count: u32,
    ) -> Option<StageError> {
        if !is_cubemap(base) {
            Some(StageError::InvalidInput(InvalidInputError::NotACubemap))
        } else if dst_size == 0 {
            Some(StageError::InvalidInput(InvalidInputError::ZeroDestinationSize))
        } else if mip_count == 0 {
            Some(StageError::InvalidInput(InvalidInputError::ZeroMipCount))
        } else if mip_count > max_mip_count(dst_size as nat) {
            Some(StageError::Precompute(PrecomputeError::MipCountExceedsChain))
        } else {
            None
        }
    }

    /// Why a build from `image` with faces of `dst_size` texels fails
    /// before anything is submitted, if it does: only the projection
    /// depends on what the caller hands in.
    pub open spec fn spec_build_error(image: &EnvironmentImage, dst_size: u32) -> Option<
        BuildError,
    > {
        match Self::spec_projection_error(image, dst_size) {
            Some(error) => Some(BuildError { stage: Stage::Projection, error }),
            None => None,
        }
    }

    /// The plans are those of the four stages, for some source and some
    /// size of the base cubemap, and the state is well formed.
    pub open spec fn wf(&self) -> bool {
        &&& self.state.wf()
        &&& self.projection.target.texture.size.width > 0
        &&& self.projection == spec_projection(
            self.projection.source.texture.size.width,
            self.projection.source.texture.size.height,
            self.projection.target.texture.size.width,
        )
        &&& self.irradiance.target == spec_irradiance_target(IRRADIANCE_SIZE)
        &&& self.irradiance.passes@ == spec_irradiance_passes(IRRADIANCE_SIZE)
        &&& self.specular.target == spec_specular_target(SPECULAR_SIZE, SPECULAR_MIP_COUNT)
        &&& self.specular.passes@ == spec_specular_passes(SPECULAR_SIZE, SPECULAR_MIP_COUNT)
        &&& self.lut == spec_brdf_lut(BRDF_LUT_SIZE)
    }

    /// Plans the projection of `image` onto the base cubemap: the source
    /// texture, the cubemap of `options.dst_size` texels a side, and one
    /// compute dispatch over all its texels. Fails on an image without
    /// texels, on a buffer that does not match the image, and on a
    /// destination without texels.
    pub fn create_cube_map_textures_from_equi(
        image: &EnvironmentImage,
        options: &SkyRendererOptions,
    ) -> (plan: Result<ProjectionPlan, StageError>)
        ensures
            (match Self::spec_projection_error(image, options.dst_size) {
                Some(error) => plan == Err::<ProjectionPlan, StageError>(error),
                None => plan == Ok::<ProjectionPlan, StageError>(
                    spec_projection(image.width, image.height, options.dst_size),
                ),
            }),
    {
        let dst_size: u32 = options.dst_size;
        match EnvironmentImage::check(image.width, image.height, image.data.len()) {
            Some(error) => {
                return Err(StageError::InvalidInput(error));
            },
            None => {},
        }
        if dst_size == 0 {
            return Err(StageError::InvalidInput(InvalidInputError::ZeroDestinationSize));
        }
        let source = Texture2dFactory::new_with_options(
            [image.width, image.height],
            Texture2dOptions {
                mip_level_count: 1,
                sample_count: 1,
                format: TextureFormat::Rgba32Float,
                usage: TextureUsages::sampled_copy_target(),
                label: None,
            },
            SamplerOptions {
                filter: FilterMode::Nearest,
                address_mode: AddressMode::Repeat,
                mipmap_filter: FilterMode::Nearest,
            },
            image.data.len(),
        );
        let num_workgroups: u32 = workgroup_count(dst_size);
        Ok(
            ProjectionPlan {
                source: source.bundle,
                target: TextureBundle {
                    texture: cube_texture(dst_size, 1, TextureUsages::storage_target(), None),
                    view: cube_view(None),
                    sampler: SamplerDescriptor::nearest(),
                },
                storage_view: TextureViewDescriptor {
                    dimension: Some(TextureViewDimension::D2Array),
                    base_mip_level: 0,
                    mip_level_count: None,
                    base_array_layer: 0,
                    array_layer_count: None,
                },
                dispatch: Dispatch { x: num_workgroups, y: num_workgroups, z: FACE_COUNT },
            },
        )
    }

    /// Plans the diffuse convolution of the base cubemap `input` into a
    /// cubemap of `dst_size` texels a side: six render passes, one for
    /// each layer, in layer order. Fails where `input` is not a cubemap
    /// and where the destination has no texels.
    pub fn create_iradiance_map(input: &TextureBundle, dst_size: u32) -> (plan: Result<
        ConvolutionPlan,
        StageError,
    >)
        ensures
            plan is Err <==> Self::spec_convolution_error(*input, dst_size) is Some,
            plan is Err ==> plan->Err_0 == Self::spec_convolution_error(*input, dst_size)->0,
            plan is Ok ==> plan->Ok_0.target == spec_irradiance_target(dst_size)
                && plan->Ok_0.passes@ == spec_irradiance_passes(dst_size),
    {
        if !(input.view.is_cube() && input.texture.size.depth_or_array_layers == FACE_COUNT) {
            return Err(StageError::InvalidInput(InvalidInputError::NotACubemap));
        }
        if dst_size == 0 {
            return Err(StageError::InvalidInput(InvalidInputError::ZeroDestinationSize));
        }
        Ok(
            ConvolutionPlan {
                target: TextureBundle {
                    texture: cube_texture(
                        dst_size,
                        1,
                        TextureUsages::render_target(),
                        Some(TextureFormat::Rgba32Float),
                    ),
                    view: cube_view(Some(1)),
                    sampler: SamplerDescriptor::nearest(),
                },
                passes: irradiance_passes(dst_size),
            },
        )
    }

    /// Plans the specular prefiltering of the base cubemap
    /// `cube_map_texture` into a cubemap of `dst_size` texels a side with
    /// `mip_count` levels: six render passes for each level, from the
    /// mirror level on, each with the roughness of its level. Fails where
    /// the base is not a cubemap, where the destination has no texels or
    /// no level, and where `mip_count` exceeds the full mip chain of
    /// `dst_size`.
    pub fn create_specular_map(
        cube_map_texture: &TextureBundle,
        dst_size: u32,
        mip_count: u32,
    ) -> (plan: Result<ConvolutionPlan, StageError>)
        ensures
            plan is Err <==> Self::spec_prefilter_error(*cube_map_texture, dst_size, mip_count)
                is Some,
            plan is Err ==> plan->Err_0 == Self::spec_prefilter_error(
                *cube_map_texture,
                dst_size,
                mip_count,
            )->0,
            plan is Ok ==> plan->Ok_0.target == spec_specular_target(dst_size, mip_count)
                && plan->Ok_0.passes@ == spec_specular_passes(dst_size, mip_count),
    {
        if !(cube_map_texture.view.is_cube() && cube_map_texture.texture.size.depth_or_array_layers
            == FACE_COUNT) {
            return Err(StageError::InvalidInput(InvalidInputError::NotACubemap));
        }
        if dst_size == 0 {
            return Err(StageError::InvalidInput(InvalidInputError::ZeroDestinationSize));
        }
        if mip_count == 0 {
            return Err(StageError::InvalidInput(InvalidInputError::ZeroMipCount));
        }
        if mip_count > full_mip_count(dst_size) {
            return Err(StageError::Precompute(PrecomputeError::MipCountExceedsChain));
        }
        Ok(
            ConvolutionPlan {
                target: TextureBundle {
                    texture: cube_texture(
                        dst_size,
                        mip_count,
                        TextureUsages::render_target(),
                        Some(TextureFormat::Rgba32Float),
                    ),
                    view: cube_view(Some(mip_count)),
                    sampler: SamplerDescriptor::uniform(
                        AddressMode::ClampToEdge,
                        FilterMode::Nearest,
                        FilterMode::Linear,
                    ),
                },
                passes: specular_passes(dst_size, mip_count),
            },
        )
    }

    /// Plans the BRDF lookup table of `table_size` texels a side: one
    /// compute dispatch over the whole table. The plan depends on nothing
    /// but `table_size`. Fails on a table without texels.
    pub fn create_brdf_lut(table_size: u32) -> (plan: Result<BrdfLutPlan, StageError>)
        ensures
            table_size == 0 ==> plan == Err::<BrdfLutPlan, StageError>(
                StageError::InvalidInput(InvalidInputError::ZeroTableSize),
            ),
            table_size > 0 ==> plan == Ok::<BrdfLutPlan, StageError>(spec_brdf_lut(table_size)),
    {
        if table_size == 0 {
            return Err(StageError::InvalidInput(InvalidInputError::ZeroTableSize));
        }
        let num_workgroups: u32 = workgroup_count(table_size);
        Ok(
            BrdfLutPlan {
                target: TextureBundle {
                    texture: Texture2dFactory::new_with_options(
                        [table_size, table_size],
                        Texture2dOptions {
                            mip_level_count: 1,
                            sample_count: 1,
                            format: TextureFormat::Rgba32Float,
                            usage: TextureUsages::storage_target(),
                            label: None,
                        },
                        SamplerOptions {
                            filter: FilterMode::Nearest,
                            address_mode: AddressMode::ClampToEdge,
                            mipmap_filter: FilterMode::Nearest,
                        },
                        0,
                    ).bundle.texture,
                    view: TextureViewDescriptor {
                        dimension: Some(TextureViewDimension::D2),
                        base_mip_level: 0,
                        mip_level_count: None,
                        base_array_layer: 0,
                        array_layer_count: Some(1),
                    },
                    sampler: SamplerDescriptor::nearest(),
                },
                dispatch: Dispatch { x: num_workgroups, y: num_workgroups, z: 1 },
            },
        )
    }

    /// Plans the whole precomputation for `image`: the projection first,
    /// then the two convolutions of its result, then the lookup table. The
    /// build fails with the first stage that cannot run, and only the
    /// projection can fail to: the other stages work on sizes of the
    /// renderer's own. Nothing has been submitted when this returns.
    pub fn new(image: &EnvironmentImage, options: SkyRendererOptions) -> (renderer: Result<
        SkyRenderer,
        BuildError,
    >)
        ensures
            renderer is Err <==> Self::spec_build_error(image, options.dst_size) is Some,
            renderer is Err ==> renderer->Err_0 == Self::spec_build_error(
                image,
                options.dst_size,
            )->0,
            renderer is Ok ==> renderer->Ok_0.wf(),
            renderer is Ok ==> renderer->Ok_0.state == RendererState::Uninitialized,
            renderer is Ok ==> renderer->Ok_0.projection == spec_projection(
                image.width,
                image.height,
                options.dst_size,
            ),
    {
        let projection = match Self::create_cube_map_textures_from_equi(image, &options) {
            Ok(plan) => plan,
            Err(error) => {
                return Err(BuildError { stage: Stage::Projection, error });
            },
        };
        let irradiance = match Self::create_iradiance_map(&projection.target, IRRADIANCE_SIZE) {
            Ok(plan) => plan,
            Err(error) => {
                return Err(BuildError { stage: Stage::Irradiance, error });
            },
        };
        proof {
            lemma_specular_chain_fits();
        }
        let specular = match Self::create_specular_map(
            &projection.target,
            SPECULAR_SIZE,
            SPECULAR_MIP_COUNT,
        ) {
            Ok(plan) => plan,
            Err(error) => {
                return Err(BuildError { stage: Stage::Specular, error });
            },
        };
        let lut = match Self::create_brdf_lut(BRDF_LUT_SIZE) {
            Ok(plan) => plan,
            Err(error) => {
                return Err(BuildError { stage: Stage::BrdfLut, error });
            },
        };
        Ok(SkyRenderer { projection, irradiance, specular, lut, state: RendererState::Uninitialized })
    }

    /// Takes note of what the GPU side reports and says what to do next.
    /// The plans stay as they are.
    pub fn advance(&mut self, event: StageEvent) -> (action: Action)
        requires
            old(self).wf(),
        ensures
            final(self).wf(),
            (final(self).state, action) == old(self).state.spec_step(event),
            final(self).projection == old(self).projection,
            final(self).irradiance == old(self).irradiance,
            final(self).specular == old(self).specular,
            final(self).lut == old(self).lut,
    {
        let (state, action) = self.state.step(event);
        self.state = state;
        action
    }

    /// The base cubemap, once the renderer is ready.
    pub fn environment_cubemap(&self) -> (bundle: Option<TextureBundle>)
        ensures
            bundle == (if self.state is Ready {
                Some(self.projection.target)
            } else {
                None
            }),
    {
        match self.state {
            RendererState::Ready => Some(self.projection.target),
            _ => None,
        }
    }

    /// The irradiance cubemap, once the renderer is ready.
    pub fn irradiance_cubemap(&self) -> (bundle: Option<TextureBundle>)
        ensures
            bundle == (if self.state is Ready {
                Some(self.irradiance.target)
            } else {
                None
            }),
    {
        match self.state {
            RendererState::Ready => Some(self.irradiance.target),
            _ => None,
        }
    }

    /// The specular cubemap, once the renderer is ready.
    pub fn specular_cubemap(&self) -> (bundle: Option<TextureBundle>)
        ensures
            bundle == (if self.state is Ready {
                Some(self.specular.target)
            } else {
                None
            }),
    {
        match self.state {
            RendererState::Ready => Some(self.specular.target),
            _ => None,
        }
    }

    /// The BRDF lookup table, once the renderer is ready.
    pub fn brdf_lut(&self) -> (bundle: Option<TextureBundle>)
        ensures
            bundle == (if self.state is Ready {
                Some(self.lut.target)
            } else {
                None
            }),
    {
        match self.state {
            RendererState::Ready => Some(self.lut.target),
            _ => None,
        }
    }

    /// The draw that paints the background with the base cubemap, once
    /// the renderer is ready: three vertices, one instance.
    pub fn draw(&self) -> (call: Option<DrawCall>)
        ensures
            call == (if self.state is Ready {
                Some(DrawCall { vertex_count: 3, instance_count: 1 })
            } else {
                None
            }),
    {
        match self.state {
            RendererState::Ready => Some(DrawCall { vertex_count: 3, instance_count: 1 }),
            _ => None,
        }
    }
}

/// The lookup table, the irradiance cubemap and the specular cubemap of
/// two renderers are planned alike, whatever images and sizes the
/// renderers were built for: none of them depends on the environment.
pub proof fn lemma_products_independent_of_image(a: SkyRenderer, b: SkyRenderer)
    requires
        a.wf(),
        b.wf(),
    ensures
        a.lut == b.lut,
        a.irradiance.target == b.irradiance.target,
        a.irradiance.passes@ == b.irradiance.passes@,
        a.specular.target == b.specular.target,
        a.specular.passes@ == b.specular.passes@,
{
}

/// Every cubemap of a renderer has six layers and is read as a cube, and
/// the two convolutions accept the base cubemap as their input.
pub proof fn lemma_cubemaps_have_six_layers(renderer: SkyRenderer)
    requires
        renderer.wf(),
    ensures
        is_cubemap(renderer.projection.target),
        is_cubemap(renderer.irradiance.target),
        is_cubemap(renderer.specular.target),
        SkyRenderer::spec_convolution_error(renderer.projection.target, IRRADIANCE_SIZE) is None,
        SkyRenderer::spec_prefilter_error(
            renderer.projection.target,
            SPECULAR_SIZE,
            SPECULAR_MIP_COUNT,
        ) is None,
{
    lemma_specular_chain_fits();
}

} // verus!
