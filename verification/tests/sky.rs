use pira_wgpu::factories::texture::{
    AddressMode, Extent3d, FilterMode, TextureBundle, TextureFormat, TextureUsages,
    TextureViewDescriptor, TextureViewDimension,
};
use pira_wgpu::pipelines::sky::error::{
    BuildError, InvalidInputError, PrecomputeError, ResourceCreationError, Stage, StageError,
};
use pira_wgpu::pipelines::sky::face::CubeFace;
use pira_wgpu::pipelines::sky::machine::{Action, RendererState, StageEvent};
use pira_wgpu::pipelines::sky::mip::Roughness;
use pira_wgpu::pipelines::sky::plan::{
    workgroup_count, Dispatch, BRDF_LUT_SIZE, IRRADIANCE_SIZE, SPECULAR_MIP_COUNT, SPECULAR_SIZE,
};
use pira_wgpu::pipelines::sky::{DrawCall, EnvironmentImage, SkyRenderer, SkyRendererOptions};

fn constant_image(width: u32, height: u32, colour: [f32; 4]) -> EnvironmentImage {
    let mut data = Vec::new();
    for _ in 0..(width * height) {
        for channel in colour {
            data.extend_from_slice(&channel.to_le_bytes());
        }
    }
    EnvironmentImage::new(width, height, data).unwrap()
}

fn base_cubemap(size: u32) -> TextureBundle {
    let image = constant_image(2, 1, [0.0, 0.0, 0.0, 1.0]);
    let options = SkyRendererOptions { label: None, dst_size: size };
    SkyRenderer::create_cube_map_textures_from_equi(&image, &options).unwrap().target
}

fn run_to_ready(renderer: &mut SkyRenderer) {
    assert_eq!(renderer.advance(StageEvent::Start), Action::Run(Stage::Projection));
    assert_eq!(renderer.advance(StageEvent::Completed), Action::Run(Stage::Irradiance));
    assert_eq!(renderer.advance(StageEvent::Completed), Action::Run(Stage::Specular));
    assert_eq!(renderer.advance(StageEvent::Completed), Action::Run(Stage::BrdfLut));
    assert_eq!(renderer.advance(StageEvent::Completed), Action::Finish);
}

#[test]
fn options_default_to_512() {
    let options = SkyRendererOptions::default();
    assert_eq!(options.dst_size, 512);
    assert_eq!(options.label, Some("Sky Renderer"));
}

#[test]
fn workgroups_cover_the_texels() {
    assert_eq!(workgroup_count(0), 0);
    assert_eq!(workgroup_count(1), 1);
    assert_eq!(workgroup_count(8), 1);
    assert_eq!(workgroup_count(16), 1);
    assert_eq!(workgroup_count(17), 2);
    assert_eq!(workgroup_count(512), 32);
    assert_eq!(workgroup_count(u32::MAX), 0x1000_0000);
}

#[test]
fn environment_image_rejects_empty_and_mismatched_sources() {
    assert_eq!(
        EnvironmentImage::new(0, 8, Vec::new()).unwrap_err(),
        InvalidInputError::EmptySource
    );
    assert_eq!(
        EnvironmentImage::new(16, 0, Vec::new()).unwrap_err(),
        InvalidInputError::EmptySource
    );
    assert_eq!(
        EnvironmentImage::new(2, 1, vec![0u8; 31]).unwrap_err(),
        InvalidInputError::SourceSizeMismatch
    );
    assert_eq!(
        EnvironmentImage::new(2, 1, vec![0u8; 33]).unwrap_err(),
        InvalidInputError::SourceSizeMismatch
    );
    let image = EnvironmentImage::new(2, 1, vec![7u8; 32]).unwrap();
    assert_eq!((image.width, image.height), (2, 1));
    assert_eq!(image.data, vec![7u8; 32]);
    assert_eq!(EnvironmentImage::check(u32::MAX, u32::MAX, 0), Some(InvalidInputError::SourceSizeMismatch));
    assert_eq!(EnvironmentImage::check(16, 8, 16 * 8 * 16), None);
}

#[test]
fn projection_rejects_invalid_input() {
    let image = constant_image(16, 8, [1.0, 0.0, 0.0, 1.0]);
    let zero = SkyRendererOptions { label: None, dst_size: 0 };
    assert_eq!(
        SkyRenderer::create_cube_map_textures_from_equi(&image, &zero),
        Err(StageError::InvalidInput(InvalidInputError::ZeroDestinationSize))
    );
    let options = SkyRendererOptions::default();
    let empty = EnvironmentImage { width: 0, height: 0, data: Vec::new() };
    assert_eq!(
        SkyRenderer::create_cube_map_textures_from_equi(&empty, &options),
        Err(StageError::InvalidInput(InvalidInputError::EmptySource))
    );
    // An empty source is reported before an empty destination.
    assert_eq!(
        SkyRenderer::create_cube_map_textures_from_equi(&empty, &zero),
        Err(StageError::InvalidInput(InvalidInputError::EmptySource))
    );
    let short = EnvironmentImage { width: 16, height: 8, data: vec![0u8; 100] };
    assert_eq!(
        SkyRenderer::create_cube_map_textures_from_equi(&short, &options),
        Err(StageError::InvalidInput(InvalidInputError::SourceSizeMismatch))
    );
}

#[test]
fn projection_plan_of_the_default_size() {
    let image = constant_image(4, 2, [0.5, 0.25, 0.125, 1.0]);
    let plan =
        SkyRenderer::create_cube_map_textures_from_equi(&image, &SkyRendererOptions::default())
            .unwrap();
    assert_eq!(plan.source.texture.size, Extent3d { width: 4, height: 2, depth_or_array_layers: 1 });
    assert_eq!(plan.source.texture.format, TextureFormat::Rgba32Float);
    assert_eq!(plan.source.texture.mip_level_count, 1);
    assert_eq!(plan.source.texture.usage, TextureUsages::sampled_copy_target());
    assert_eq!(plan.source.sampler.address_mode_u, AddressMode::Repeat);
    assert_eq!(plan.source.sampler.mag_filter, FilterMode::Nearest);
    assert_eq!(plan.source.view, TextureViewDescriptor::whole());
    assert_eq!(
        plan.target.texture.size,
        Extent3d { width: 512, height: 512, depth_or_array_layers: 6 }
    );
    assert_eq!(plan.target.texture.format, TextureFormat::Rgba32Float);
    assert_eq!(plan.target.texture.mip_level_count, 1);
    assert_eq!(plan.target.texture.sample_count, 1);
    assert_eq!(plan.target.texture.usage, TextureUsages::storage_target());
    assert_eq!(plan.target.texture.view_format, None);
    assert_eq!(plan.target.view.dimension, Some(TextureViewDimension::Cube));
    assert_eq!(plan.target.view.array_layer_count, Some(6));
    assert_eq!(plan.target.sampler.address_mode_w, AddressMode::ClampToEdge);
    assert_eq!(plan.target.sampler.min_filter, FilterMode::Nearest);
    assert_eq!(plan.storage_view.dimension, Some(TextureViewDimension::D2Array));
    assert_eq!(plan.storage_view.array_layer_count, None);
    assert_eq!(plan.dispatch, Dispatch { x: 32, y: 32, z: 6 });
}

#[test]
fn irradiance_plan_has_one_pass_for_each_face() {
    let plan = SkyRenderer::create_iradiance_map(&base_cubemap(8), 64).unwrap();
    assert_eq!(plan.target.texture.size, Extent3d { width: 64, height: 64, depth_or_array_layers: 6 });
    assert_eq!(plan.target.texture.mip_level_count, 1);
    assert_eq!(plan.target.texture.usage, TextureUsages::render_target());
    assert_eq!(plan.target.texture.view_format, Some(TextureFormat::Rgba32Float));
    assert_eq!(plan.target.view.dimension, Some(TextureViewDimension::Cube));
    assert_eq!(plan.target.view.mip_level_count, Some(1));
    assert_eq!(plan.passes.len(), 6);
    for (i, pass) in plan.passes.iter().enumerate() {
        assert_eq!(pass.face.index(), i as u32);
        assert_eq!(pass.view.dimension, Some(TextureViewDimension::D2));
        assert_eq!(pass.view.base_array_layer, i as u32);
        assert_eq!(pass.view.array_layer_count, Some(1));
        assert_eq!(pass.view.base_mip_level, 0);
        assert_eq!(pass.extent, 64);
        assert_eq!(pass.roughness, None);
    }
}

#[test]
fn convolutions_reject_a_base_that_is_not_a_cubemap() {
    let mut flat = base_cubemap(8);
    flat.view.dimension = Some(TextureViewDimension::D2Array);
    let expected = Err(StageError::InvalidInput(InvalidInputError::NotACubemap));
    assert_eq!(SkyRenderer::create_iradiance_map(&flat, 64).map(|p| p.passes.len()), expected);
    assert_eq!(SkyRenderer::create_specular_map(&flat, 512, 6).map(|p| p.passes.len()), expected);
    let mut unset = base_cubemap(8);
    unset.view.dimension = None;
    assert_eq!(SkyRenderer::create_iradiance_map(&unset, 64).map(|p| p.passes.len()), expected);
    let mut five = base_cubemap(8);
    five.texture.size.depth_or_array_layers = 5;
    assert_eq!(SkyRenderer::create_specular_map(&five, 512, 6).map(|p| p.passes.len()), expected);
    // Not being a cubemap is reported before anything else.
    assert_eq!(SkyRenderer::create_specular_map(&flat, 0, 0).map(|p| p.passes.len()), expected);
}

#[test]
fn convolutions_reject_empty_destinations() {
    let base = base_cubemap(8);
    let expected = Err(StageError::InvalidInput(InvalidInputError::ZeroDestinationSize));
    assert_eq!(SkyRenderer::create_iradiance_map(&base, 0).map(|p| p.passes.len()), expected);
    assert_eq!(SkyRenderer::create_specular_map(&base, 0, 1).map(|p| p.passes.len()), expected);
    assert_eq!(
        SkyRenderer::create_specular_map(&base, 8, 0).map(|p| p.passes.len()),
        Err(StageError::InvalidInput(InvalidInputError::ZeroMipCount))
    );
}

#[test]
fn prefilter_limits_the_mip_count_by_the_resolution() {
    let base = base_cubemap(8);
    let too_many = Err(StageError::Precompute(PrecomputeError::MipCountExceedsChain));
    // floor(log2(8)) + 1 == 4
    assert_eq!(SkyRenderer::create_specular_map(&base, 8, 4).map(|p| p.passes.len()), Ok(24));
    assert_eq!(SkyRenderer::create_specular_map(&base, 8, 5).map(|p| p.passes.len()), too_many);
    assert_eq!(SkyRenderer::create_specular_map(&base, 8, 6).map(|p| p.passes.len()), too_many);
    assert_eq!(SkyRenderer::create_specular_map(&base, 1, 1).map(|p| p.passes.len()), Ok(6));
    assert_eq!(SkyRenderer::create_specular_map(&base, 1, 2).map(|p| p.passes.len()), too_many);
    assert_eq!(SkyRenderer::create_specular_map(&base, 512, 10).map(|p| p.passes.len()), Ok(60));
    assert_eq!(SkyRenderer::create_specular_map(&base, 512, 11).map(|p| p.passes.len()), too_many);
    assert_eq!(
        SkyRenderer::create_specular_map(&base, u32::MAX, 32).map(|p| p.passes.len()),
        Ok(192)
    );
    assert_eq!(
        SkyRenderer::create_specular_map(&base, u32::MAX, 33).map(|p| p.passes.len()),
        too_many
    );
}

#[test]
fn prefilter_passes_run_level_by_level_with_growing_roughness() {
    let plan = SkyRenderer::create_specular_map(&base_cubemap(8), 512, 6).unwrap();
    assert_eq!(plan.target.texture.size, Extent3d { width: 512, height: 512, depth_or_array_layers: 6 });
    assert_eq!(plan.target.texture.mip_level_count, 6);
    assert_eq!(plan.target.texture.usage, TextureUsages::render_target());
    assert_eq!(plan.target.view.dimension, Some(TextureViewDimension::Cube));
    assert_eq!(plan.target.view.mip_level_count, Some(6));
    assert_eq!(plan.target.sampler.mipmap_filter, FilterMode::Linear);
    assert_eq!(plan.target.sampler.mag_filter, FilterMode::Nearest);
    assert_eq!(plan.passes.len(), 36);
    let extents = [512u32, 256, 128, 64, 32, 16];
    for (k, pass) in plan.passes.iter().enumerate() {
        let (mip, layer) = ((k / 6) as u32, (k % 6) as u32);
        assert_eq!(pass.face, CubeFace::from_index(layer).unwrap());
        assert_eq!(pass.view, TextureViewDescriptor::slice(layer, mip));
        assert_eq!(pass.view.mip_level_count, Some(1));
        assert_eq!(pass.extent, extents[mip as usize]);
        assert_eq!(pass.roughness, Some(Roughness { numerator: mip, denominator: 5 }));
    }
    for k in 6..36 {
        let lower = plan.passes[k - 6].roughness.unwrap();
        let upper = plan.passes[k].roughness.unwrap();
        assert!(lower.is_below(upper));
    }
}

#[test]
fn brdf_lut_rejects_an_empty_table() {
    assert_eq!(
        SkyRenderer::create_brdf_lut(0),
        Err(StageError::InvalidInput(InvalidInputError::ZeroTableSize))
    );
}

#[test]
fn brdf_lut_is_a_function_of_the_table_size() {
    let plan = SkyRenderer::create_brdf_lut(512).unwrap();
    assert_eq!(plan, SkyRenderer::create_brdf_lut(512).unwrap());
    assert_eq!(plan.target.texture.size, Extent3d { width: 512, height: 512, depth_or_array_layers: 1 });
    assert_eq!(plan.target.texture.format, TextureFormat::Rgba32Float);
    assert_eq!(plan.target.texture.usage, TextureUsages::storage_target());
    assert_eq!(plan.target.view.dimension, Some(TextureViewDimension::D2));
    assert_eq!(plan.target.view.array_layer_count, Some(1));
    assert_eq!(plan.target.sampler.address_mode_u, AddressMode::ClampToEdge);
    assert_eq!(plan.dispatch, Dispatch { x: 32, y: 32, z: 1 });
    assert_eq!(SkyRenderer::create_brdf_lut(20).unwrap().dispatch, Dispatch { x: 2, y: 2, z: 1 });
    assert_ne!(SkyRenderer::create_brdf_lut(256).unwrap(), plan);
}

#[test]
fn end_to_end_constant_red_16_by_8() {
    let red = constant_image(16, 8, [1.0, 0.0, 0.0, 1.0]);
    let options = SkyRendererOptions { label: None, dst_size: 8 };
    let mut renderer = SkyRenderer::new(&red, options).unwrap();
    assert_eq!(renderer.state, RendererState::Uninitialized);
    assert_eq!(renderer.environment_cubemap(), None);

    assert_eq!(renderer.projection.source.texture.size.width, 16);
    assert_eq!(renderer.projection.source.texture.size.height, 8);
    assert_eq!(
        renderer.projection.target.texture.size,
        Extent3d { width: 8, height: 8, depth_or_array_layers: 6 }
    );
    assert_eq!(renderer.projection.dispatch, Dispatch { x: 1, y: 1, z: 6 });
    assert_eq!(renderer.irradiance.target.texture.size.width, IRRADIANCE_SIZE);
    assert_eq!(renderer.irradiance.passes.len(), 6);
    assert_eq!(renderer.specular.target.texture.size.width, SPECULAR_SIZE);
    assert_eq!(renderer.specular.target.texture.mip_level_count, SPECULAR_MIP_COUNT);
    assert_eq!(renderer.specular.passes.len(), 36);
    assert_eq!(renderer.lut.target.texture.size.width, BRDF_LUT_SIZE);

    run_to_ready(&mut renderer);
    assert_eq!(renderer.state, RendererState::Ready);
    let base = renderer.environment_cubemap().unwrap();
    assert_eq!(base.texture.size, Extent3d { width: 8, height: 8, depth_or_array_layers: 6 });
    assert_eq!(renderer.irradiance_cubemap().unwrap().texture.size.depth_or_array_layers, 6);
    assert_eq!(renderer.specular_cubemap().unwrap().texture.mip_level_count, 6);
    assert_eq!(renderer.brdf_lut(), Some(renderer.lut.target));
    assert_eq!(renderer.draw(), Some(DrawCall { vertex_count: 3, instance_count: 1 }));

    // The lookup table and the convolution targets do not depend on the image.
    let blue = constant_image(64, 32, [0.0, 0.0, 1.0, 1.0]);
    let other = SkyRenderer::new(&blue, SkyRendererOptions::default()).unwrap();
    assert_eq!(other.lut, renderer.lut);
    assert_eq!(other.lut, SkyRenderer::create_brdf_lut(BRDF_LUT_SIZE).unwrap());
    assert_eq!(other.irradiance.target, renderer.irradiance.target);
    assert_eq!(other.irradiance.passes, renderer.irradiance.passes);
    assert_eq!(other.specular.target, renderer.specular.target);
    assert_eq!(other.specular.passes, renderer.specular.passes);
    assert_ne!(other.projection, renderer.projection);
}

#[test]
fn build_names_the_failing_stage() {
    let image = constant_image(16, 8, [1.0, 0.0, 0.0, 1.0]);
    let error = SkyRenderer::new(&image, SkyRendererOptions { label: None, dst_size: 0 })
        .map(|r| r.state)
        .unwrap_err();
    assert_eq!(
        error,
        BuildError {
            stage: Stage::Projection,
            error: StageError::InvalidInput(InvalidInputError::ZeroDestinationSize),
        }
    );
    assert_eq!(
        error.message(),
        "cubemap projection: invalid input: the destination size is zero"
    );
    let empty = EnvironmentImage { width: 0, height: 4, data: Vec::new() };
    let error = SkyRenderer::new(&empty, SkyRendererOptions::default()).map(|r| r.state).unwrap_err();
    assert_eq!(error.stage, Stage::Projection);
    assert_eq!(error.error, StageError::InvalidInput(InvalidInputError::EmptySource));
}

#[test]
fn messages_name_stage_and_cause() {
    let error = BuildError {
        stage: Stage::Specular,
        error: StageError::Precompute(PrecomputeError::MipCountExceedsChain),
    };
    assert_eq!(
        error.message(),
        "specular prefilter: precompute error: the mip count exceeds the mip chain of the destination"
    );
    let error = BuildError {
        stage: Stage::BrdfLut,
        error: StageError::ResourceCreation(ResourceCreationError::Texture),
    };
    assert_eq!(error.message(), "BRDF lookup table: resource creation failed: texture");
    assert_eq!(Stage::Irradiance.name(), "irradiance convolution");
    assert_eq!(
        StageError::InvalidInput(InvalidInputError::NotACubemap).description(),
        "invalid input: the base environment is not a cubemap"
    );
}

#[test]
fn stages_are_ordered() {
    assert_eq!(Stage::Projection.ordinal(), 0);
    assert_eq!(Stage::Irradiance.ordinal(), 1);
    assert_eq!(Stage::Specular.ordinal(), 2);
    assert_eq!(Stage::BrdfLut.ordinal(), 3);
    assert_eq!(Stage::Projection.next(), Some(Stage::Irradiance));
    assert_eq!(Stage::Irradiance.next(), Some(Stage::Specular));
    assert_eq!(Stage::Specular.next(), Some(Stage::BrdfLut));
    assert_eq!(Stage::BrdfLut.next(), None);
}

#[test]
fn state_machine_runs_the_stages_in_order() {
    let mut state = RendererState::Uninitialized;
    let mut actions = Vec::new();
    for event in [
        StageEvent::Start,
        StageEvent::Completed,
        StageEvent::Completed,
        StageEvent::Completed,
        StageEvent::Completed,
    ] {
        let (next, action) = state.step(event);
        state = next;
        actions.push(action);
    }
    assert_eq!(
        actions,
        vec![
            Action::Run(Stage::Projection),
            Action::Run(Stage::Irradiance),
            Action::Run(Stage::Specular),
            Action::Run(Stage::BrdfLut),
            Action::Finish,
        ]
    );
    assert_eq!(state, RendererState::Ready);
    assert!(state.is_terminal());
    assert_eq!(state.running(), None);
}

#[test]
fn state_machine_ignores_events_that_do_not_apply() {
    let fresh = RendererState::Uninitialized;
    assert_eq!(fresh.step(StageEvent::Completed), (fresh, Action::Nothing));
    assert_eq!(
        fresh.step(StageEvent::Failed(ResourceCreationError::Device)),
        (fresh, Action::Nothing)
    );
    let projecting = RendererState::Projecting;
    assert_eq!(projecting.step(StageEvent::Start), (projecting, Action::Nothing));
    assert_eq!(projecting.running(), Some(Stage::Projection));
    let convolving = RendererState::Convolving(Stage::Specular);
    assert_eq!(convolving.step(StageEvent::Start), (convolving, Action::Nothing));
    assert_eq!(convolving.running(), Some(Stage::Specular));
    assert!(!convolving.is_terminal());
}

#[test]
fn a_failed_stage_ends_the_build() {
    let cases = [
        (RendererState::Projecting, Stage::Projection, 0u32),
        (RendererState::Convolving(Stage::Irradiance), Stage::Irradiance, 1),
        (RendererState::Convolving(Stage::Specular), Stage::Specular, 2),
        (RendererState::Convolving(Stage::BrdfLut), Stage::BrdfLut, 3),
    ];
    for (state, stage, created) in cases {
        let (next, action) = state.step(StageEvent::Failed(ResourceCreationError::Pipeline));
        let error = BuildError {
            stage,
            error: StageError::ResourceCreation(ResourceCreationError::Pipeline),
        };
        assert_eq!(next, RendererState::Failed(error));
        assert_eq!(action, Action::Release(created));
        assert!(next.is_terminal());
        for event in [
            StageEvent::Start,
            StageEvent::Completed,
            StageEvent::Failed(ResourceCreationError::Device),
        ] {
            assert_eq!(next.step(event), (next, Action::Nothing));
        }
    }
    let ready = RendererState::Ready;
    for event in [
        StageEvent::Start,
        StageEvent::Completed,
        StageEvent::Failed(ResourceCreationError::Texture),
    ] {
        assert_eq!(ready.step(event), (ready, Action::Nothing));
    }
}

#[test]
fn a_failed_renderer_exposes_nothing() {
    let image = constant_image(16, 8, [1.0, 0.0, 0.0, 1.0]);
    let mut renderer = SkyRenderer::new(&image, SkyRendererOptions::default()).unwrap();
    assert_eq!(renderer.advance(StageEvent::Start), Action::Run(Stage::Projection));
    assert_eq!(renderer.advance(StageEvent::Completed), Action::Run(Stage::Irradiance));
    assert_eq!(renderer.irradiance_cubemap(), None);
    assert_eq!(
        renderer.advance(StageEvent::Failed(ResourceCreationError::Texture)),
        Action::Release(1)
    );
    assert_eq!(renderer.advance(StageEvent::Completed), Action::Nothing);
    assert_eq!(renderer.environment_cubemap(), None);
    assert_eq!(renderer.irradiance_cubemap(), None);
    assert_eq!(renderer.specular_cubemap(), None);
    assert_eq!(renderer.brdf_lut(), None);
    assert_eq!(renderer.draw(), None);
    assert_eq!(
        renderer.state,
        RendererState::Failed(BuildError {
            stage: Stage::Irradiance,
            error: StageError::ResourceCreation(ResourceCreationError::Texture),
        })
    );
}
