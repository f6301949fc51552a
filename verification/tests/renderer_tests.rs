use irid_renderer::adapter::{
    AdapterError, AdapterProfile, AdapterRequest, DeviceType, Limits, PowerPreference,
    select_adapter,
};
use irid_renderer::camera::ControlKey;
use irid_renderer::format::{ClearColor, ColorFormat, PresentMode, negotiate_format};
use irid_renderer::instances::Instance;
use irid_renderer::pipeline::PipelineLayoutKind;
use irid_renderer::renderer::{
    DrawCommand, ImageData, LoopControl, Renderer, RendererBuilder, RendererError, SurfaceError,
};
use irid_renderer::size_class::{log2_floor, pow2_u32};
use irid_renderer::texture_metas::get_texture_image_metadatas;

fn formats_with_srgb() -> Vec<ColorFormat> {
    vec![ColorFormat::Rgba8Unorm, ColorFormat::Bgra8UnormSrgb, ColorFormat::Rgba8UnormSrgb]
}

fn rgba_image(width: u32, height: u32) -> ImageData {
    let pixels = vec![0u8; (4 * width * height) as usize];
    ImageData { width, height, pixels }
}

fn full_renderer() -> Renderer {
    RendererBuilder::new()
        .with_shader_source(String::from("@vertex fn vs_main() {} @fragment fn fs_main() {}"))
        .with_texture(rgba_image(256, 256))
        .with_vertices(vec![0u8; 96])
        .with_indices(vec![0u32, 1, 2, 2, 3, 0])
        .build(640, 480, &formats_with_srgb())
        .unwrap()
}

#[test]
fn log2_floor_exact_values() {
    assert_eq!(log2_floor(1), 0);
    assert_eq!(log2_floor(2), 1);
    assert_eq!(log2_floor(3), 1);
    assert_eq!(log2_floor(4), 2);
    assert_eq!(log2_floor(255), 7);
    assert_eq!(log2_floor(256), 8);
    assert_eq!(log2_floor(2048), 11);
    assert_eq!(log2_floor(u32::MAX), 31);
}

#[test]
fn pow2_u32_exact_values() {
    assert_eq!(pow2_u32(0), 1);
    assert_eq!(pow2_u32(1), 2);
    assert_eq!(pow2_u32(10), 1024);
    assert_eq!(pow2_u32(31), 0x8000_0000);
}

#[test]
fn texture_cache_covers_every_class_pair_once() {
    // With the conservative limit of 2048 the classes run 0..11.
    let cache = RendererBuilder::create_texture_image_metadatas(ColorFormat::Rgba8UnormSrgb, 2048);
    assert_eq!(cache.len(), 11);
    for (i, row) in cache.iter().enumerate() {
        assert_eq!(row.len(), 11);
        for (j, cell) in row.iter().enumerate() {
            assert_eq!(cell.width_class as usize, i);
            assert_eq!(cell.height_class as usize, j);
            assert_eq!(cell.width, 1u32 << i);
            assert_eq!(cell.height, 1u32 << j);
            assert_eq!(cell.format, ColorFormat::Rgba8UnormSrgb);
        }
    }
    // No two cells carry the same class pair.
    for i in 0..11usize {
        for j in 0..11usize {
            for k in 0..11usize {
                for l in 0..11usize {
                    if (i, j) != (k, l) {
                        assert_ne!(cache[i][j], cache[k][l]);
                    }
                }
            }
        }
    }
}

#[test]
fn texture_cache_lookup_is_stable() {
    let cache = RendererBuilder::create_texture_image_metadatas(ColorFormat::Rgba8Unorm, 1024);
    let first = *get_texture_image_metadatas(&cache, 8, 8);
    let second = *get_texture_image_metadatas(&cache, 8, 8);
    assert_eq!(first, second);
    assert_eq!(first.width, 256);
    assert_eq!(first.height, 256);
}

#[test]
fn bind_group_cache_mirrors_image_cache() {
    let cache = RendererBuilder::create_texture_image_metadatas(ColorFormat::Rgba8UnormSrgb, 512);
    let groups = RendererBuilder::create_texture_bind_group_metadatas(&cache);
    assert_eq!(groups.len(), cache.len());
    for (row, src_row) in groups.iter().zip(cache.iter()) {
        assert_eq!(row.len(), src_row.len());
        for (g, t) in row.iter().zip(src_row.iter()) {
            assert_eq!(g.width_class, t.width_class);
            assert_eq!(g.height_class, t.height_class);
        }
    }
}

#[test]
fn negotiation_prefers_supported_preferred_format() {
    let v = formats_with_srgb();
    assert_eq!(negotiate_format(&v, Some(ColorFormat::Rgba8Unorm)), Some(ColorFormat::Rgba8Unorm));
}

#[test]
fn negotiation_takes_first_srgb_when_preferred_missing() {
    let v = formats_with_srgb();
    assert_eq!(negotiate_format(&v, Some(ColorFormat::Rgba16Float)), Some(ColorFormat::Bgra8UnormSrgb));
    assert_eq!(negotiate_format(&v, None), Some(ColorFormat::Bgra8UnormSrgb));
}

#[test]
fn negotiation_falls_back_to_first_supported() {
    let v = vec![ColorFormat::Rgba16Float, ColorFormat::Rgba8Unorm];
    assert_eq!(negotiate_format(&v, None), Some(ColorFormat::Rgba16Float));
    assert_eq!(negotiate_format(&Vec::new(), None), None);
}

#[test]
fn adapter_selection_honors_hard_constraints() {
    let weak = AdapterProfile {
        features: 0,
        max_texture_dimension_2d: 1024,
        is_fallback: false,
        device_type: DeviceType::IntegratedGpu,
    };
    let strong = AdapterProfile {
        features: 0b111,
        max_texture_dimension_2d: 8192,
        is_fallback: false,
        device_type: DeviceType::DiscreteGpu,
    };
    let request = AdapterRequest {
        power_preference: PowerPreference::HighPerformance,
        force_fallback_adapter: false,
        required_features: 0b101,
        required_limits: Limits { max_texture_dimension_2d: 2048 },
    };
    assert_eq!(select_adapter(&vec![weak, strong], &request), Ok(1));
    assert_eq!(select_adapter(&vec![weak], &request), Err(AdapterError::NotObtained));
}

#[test]
fn adapter_selection_power_preference_is_soft() {
    let integrated = AdapterProfile {
        features: 0,
        max_texture_dimension_2d: 4096,
        is_fallback: false,
        device_type: DeviceType::IntegratedGpu,
    };
    let discrete = AdapterProfile {
        features: 0,
        max_texture_dimension_2d: 4096,
        is_fallback: false,
        device_type: DeviceType::DiscreteGpu,
    };
    let mut request = AdapterRequest {
        power_preference: PowerPreference::HighPerformance,
        force_fallback_adapter: false,
        required_features: 0,
        required_limits: Limits { max_texture_dimension_2d: 2048 },
    };
    // The preference steers toward the discrete adapter...
    assert_eq!(select_adapter(&vec![integrated, discrete], &request), Ok(1));
    request.power_preference = PowerPreference::LowPower;
    assert_eq!(select_adapter(&vec![integrated, discrete], &request), Ok(0));
    // ...but a preference nobody matches never causes failure.
    request.power_preference = PowerPreference::HighPerformance;
    assert_eq!(select_adapter(&vec![integrated], &request), Ok(0));
}

#[test]
fn builder_defaults_match_downlevel_limits() {
    let b = RendererBuilder::new();
    assert_eq!(b.limits.max_texture_dimension_2d, 2048);
    assert_eq!(b.present_mode, PresentMode::Fifo);
    assert_eq!(b.power_preference, PowerPreference::HighPerformance);
    assert!(!b.force_fallback_adapter);
    assert_eq!(b.features, 0);
    assert!(b.shader_source.is_none());
    assert!(b.clear_color.is_none());
}

#[test]
fn build_without_formats_fails_adapter_request() {
    let r = RendererBuilder::new().build(640, 480, &Vec::new());
    assert!(matches!(r, Err(RendererError::SurfaceAdapterRequest)));
}

#[test]
fn build_rejects_texture_outside_cache_range() {
    // Zero-sized images have no size class at all.
    let r = RendererBuilder::new()
        .with_texture(ImageData { width: 0, height: 4, pixels: Vec::new() })
        .build(640, 480, &formats_with_srgb());
    assert!(matches!(r, Err(RendererError::LoadTexture)));
    // 2048 itself has class 11, one past the conservative cache's range.
    let r = RendererBuilder::new()
        .with_texture(rgba_image(2048, 2))
        .build(640, 480, &formats_with_srgb());
    assert!(matches!(r, Err(RendererError::LoadTexture)));
}

#[test]
fn build_rejects_short_pixel_payload() {
    let r = RendererBuilder::new()
        .with_texture(ImageData { width: 4, height: 4, pixels: vec![0u8; 63] })
        .build(640, 480, &formats_with_srgb());
    assert!(matches!(r, Err(RendererError::WriteTexture)));
}

#[test]
fn build_assembles_full_renderer() {
    let r = full_renderer();
    assert_eq!(r.get_size(), (640, 480));
    assert_eq!(r.surface.format, ColorFormat::Bgra8UnormSrgb);
    assert!(r.surface.configured);
    assert_eq!(r.surface.generation, 1);
    assert_eq!(r.texture_class, Some((8, 8)));
    assert_eq!(r.texture_image_metadatas.len(), 11);
    assert_eq!(r.num_indices, 6);
    assert_eq!(r.instances.as_ref().unwrap().len(), 100);
    let p = r.renderer_pipeline.as_ref().unwrap();
    assert_eq!(p.layout, PipelineLayoutKind::TextureAndCamera);
    assert!(p.has_vertex_layout);
    // Default clear color is opaque white.
    assert_eq!(r.clear_color, ClearColor { r: 1_000_000, g: 1_000_000, b: 1_000_000, a: 1_000_000 });
}

#[test]
fn instance_grid_is_centred_and_complete() {
    let r = full_renderer();
    let instances = r.instances.as_ref().unwrap();
    assert_eq!(instances[0], Instance { x: -5, y: 0, z: -5 });
    assert_eq!(instances[99], Instance { x: 4, y: 0, z: 4 });
    assert_eq!(instances[57], Instance { x: 2, y: 0, z: 0 });
    // Only the instance at the origin keeps the identity rotation.
    let identities: Vec<&Instance> = instances
        .iter()
        .filter(|i| irid_renderer::instances::instance_rotation_is_identity(i))
        .collect();
    assert_eq!(identities.len(), 1);
    assert_eq!(*identities[0], Instance { x: 0, y: 0, z: 0 });
}

#[test]
fn zero_resize_leaves_gpu_resources_unchanged() {
    let mut r = full_renderer();
    let surface_before = r.surface;
    let depth_before = r.texture_depth_metadatas;
    let cache_len_before = r.texture_image_metadatas.len();
    r.resize(0, 720);
    assert_eq!(r.get_size(), (0, 720));
    assert_eq!(r.surface, surface_before);
    assert_eq!(r.texture_depth_metadatas, depth_before);
    assert_eq!(r.texture_image_metadatas.len(), cache_len_before);
    r.resize(1280, 0);
    assert_eq!(r.get_size(), (1280, 0));
    assert_eq!(r.surface, surface_before);
    assert_eq!(r.texture_depth_metadatas, depth_before);
}

#[test]
fn resize_then_redraw_produces_frame_of_new_size() {
    let mut r = full_renderer();
    r.resize(320, 240);
    assert_eq!(r.surface.width, 320);
    assert_eq!(r.surface.height, 240);
    assert_eq!(r.texture_depth_metadatas.width, 320);
    assert_eq!(r.texture_depth_metadatas.height, 240);
    let plan = r.redraw(Ok(())).unwrap();
    assert_eq!(plan.frame_width, 320);
    assert_eq!(plan.frame_height, 240);
}

#[test]
fn headless_clear_without_shader() {
    let mut r = RendererBuilder::new().build(640, 480, &formats_with_srgb()).unwrap();
    assert!(r.renderer_pipeline.is_none());
    let plan = r.redraw(Ok(())).unwrap();
    // The frame is still acquired, cleared and presented; nothing is drawn.
    assert!(plan.commands.is_empty());
    assert_eq!(plan.frame_width, 640);
    assert_eq!(plan.depth_clear, 1_000_000);
}

#[test]
fn full_plan_binds_two_groups_and_draws_hundred_instances() {
    let mut r = full_renderer();
    let plan = r.redraw(Ok(())).unwrap();
    assert_eq!(
        plan.commands,
        vec![
            DrawCommand::SetPipeline,
            DrawCommand::BindTextureGroup { slot: 0, width_class: 8, height_class: 8 },
            DrawCommand::BindCameraGroup { slot: 1 },
            DrawCommand::SetVertexBuffer { slot: 0 },
            DrawCommand::SetVertexBuffer { slot: 1 },
            DrawCommand::SetIndexBuffer,
            DrawCommand::DrawIndexed { index_count: 6, instance_count: 100 },
        ]
    );
}

#[test]
fn camera_only_plan_binds_single_group_at_slot_zero() {
    let mut r = RendererBuilder::new()
        .with_shader_source(String::from("@vertex fn vs_main() {}"))
        .build(640, 480, &formats_with_srgb())
        .unwrap();
    let plan = r.redraw(Ok(())).unwrap();
    assert_eq!(
        plan.commands,
        vec![
            DrawCommand::SetPipeline,
            DrawCommand::BindCameraGroup { slot: 0 },
            DrawCommand::Draw { vertex_count: 3, instance_count: 1 },
        ]
    );
    assert_eq!(r.renderer_pipeline.as_ref().unwrap().layout, PipelineLayoutKind::CameraOnly);
}

#[test]
fn lost_surface_reconfigures_exactly_once_and_continues() {
    let mut r = full_renderer();
    let generation_before = r.surface.generation;
    let err = r.redraw(Err(SurfaceError::Lost)).unwrap_err();
    assert_eq!(err, SurfaceError::Lost);
    assert_eq!(r.surface.generation, generation_before);
    let control = r.on_redraw_error(err);
    assert_eq!(control, LoopControl::Continue);
    assert_eq!(r.surface.generation, generation_before + 1);
}

#[test]
fn timeout_and_outdated_retry_without_touching_surface() {
    let mut r = full_renderer();
    let generation_before = r.surface.generation;
    for e in [SurfaceError::Timeout, SurfaceError::Outdated] {
        let err = r.redraw(Err(e)).unwrap_err();
        assert_eq!(r.on_redraw_error(err), LoopControl::Continue);
        assert_eq!(r.surface.generation, generation_before);
    }
}

#[test]
fn out_of_memory_terminates_the_loop() {
    let mut r = full_renderer();
    let err = r.redraw(Err(SurfaceError::OutOfMemory)).unwrap_err();
    assert_eq!(r.on_redraw_error(err), LoopControl::Exit);
}

#[test]
fn constant_forward_input_moves_camera_monotonically() {
    let mut r = full_renderer();
    assert!(r.process_camera_events(ControlKey::Forward, true));
    let mut previous = r.camera.distance;
    let initial = previous;
    for _ in 0..5 {
        r.redraw(Ok(())).unwrap();
        assert!(r.camera.distance < previous);
        previous = r.camera.distance;
    }
    // Five ticks at the default fifth-of-a-unit speed, from two units out.
    assert_eq!(r.camera.distance, initial - 5 * 200_000);
}

#[test]
fn unmapped_keys_leave_the_controller_alone() {
    let mut r = full_renderer();
    let controller_before = r.camera_controller;
    assert!(!r.process_camera_events(ControlKey::Other, true));
    assert_eq!(r.camera_controller, controller_before);
}

#[test]
fn repeated_resizes_count_configurations() {
    let mut r = full_renderer();
    let initial_generation = r.surface.generation;
    r.resize(100, 100);
    r.resize(200, 50);
    // A zero-area resize issues no configuration at all.
    r.resize(0, 7);
    assert_eq!(r.surface.generation, initial_generation + 2);
}

#[test]
fn forward_input_stops_short_of_the_target() {
    let mut r = full_renderer();
    r.process_camera_events(ControlKey::Forward, true);
    // From two units out at a fifth per tick, the eye reaches one step's
    // distance after nine ticks and then holds its ground.
    for _ in 0..20 {
        r.redraw(Ok(())).unwrap();
    }
    assert_eq!(r.camera.distance, 200_000);
    r.redraw(Ok(())).unwrap();
    assert_eq!(r.camera.distance, 200_000);
}

#[test]
fn orbit_keys_wrap_the_yaw() {
    let mut r = full_renderer();
    r.process_camera_events(ControlKey::Left, true);
    r.redraw(Ok(())).unwrap();
    // One step backwards from zero wraps to the far end of the turn.
    assert_eq!(r.camera.yaw, 800_000);
    r.process_camera_events(ControlKey::Left, false);
    r.process_camera_events(ControlKey::Right, true);
    r.redraw(Ok(())).unwrap();
    assert_eq!(r.camera.yaw, 0);
}

#[test]
fn error_descriptions_are_stable() {
    assert_eq!(
        RendererError::SurfaceAdapterRequest.describe(),
        "unable to get a Surface or Adapter"
    );
    assert_eq!(RendererError::DeviceRequest.describe(), "unable to get a Device");
    assert_eq!(RendererError::LoadTexture.describe(), "unable to load the texture");
    assert_eq!(RendererError::WriteTexture.describe(), "unable to enqueue the texture");
}
