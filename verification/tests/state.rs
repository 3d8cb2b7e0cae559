use shader_host::gpu::{
    BindGroup, BindGroupDescriptor, BindGroupLayoutEntry, BindingType, Extent3d, LoadOp,
    Operations, PresentMode, RenderCommand, RenderPass, RenderPassColorAttachment,
    ShaderModuleId, ShaderStages, SurfaceConfiguration, SurfaceError, TextureDescriptor,
    TextureDimension, TextureFormat, TextureUsages, TextureView,
};
use shader_host::state::present::PresentPipeline;
use shader_host::state::screen_space::ScreenSpacePipeline;
use shader_host::state::{
    create_rgb_framebuffer, AdapterInfo, Backend, DeviceType, HdrBackBuffer,
    MultisampleFramebuffers, Pipeline, RendererInfo, State, CAPTURE_FORMAT,
    DEFAULT_SURFACE_FORMAT, HDR_FORMAT, PIPELINE_SEC_SLOT, PIPELINE_SLOT, PRESENT_PIPELINE_SLOT,
    PRESENT_SHADER_PATH, SAMPLE_COUNT, SHADER_PATH, SHADER_SEC_PATH,
};

fn adapter(vendor: usize, device_type: DeviceType, backend: Backend) -> AdapterInfo {
    AdapterInfo { name: "Test Adapter".to_string(), vendor, device: 7, device_type, backend }
}

fn state(width: u32, height: u32, format: Option<TextureFormat>) -> State {
    State::new(
        adapter(0x10DE, DeviceType::DiscreteGpu, Backend::Vulkan),
        (width, height),
        format,
        ShaderModuleId(10),
        ShaderModuleId(11),
        ShaderModuleId(12),
    )
}

fn usages(copy_src: bool, texture_binding: bool, storage_binding: bool) -> TextureUsages {
    TextureUsages {
        copy_src,
        copy_dst: false,
        texture_binding,
        storage_binding,
        render_attachment: true,
    }
}

fn texture(width: u32, height: u32, samples: u32, format: TextureFormat, usage: TextureUsages) -> TextureDescriptor {
    TextureDescriptor {
        size: Extent3d { width, height, depth_or_array_layers: 1 },
        mip_level_count: 1,
        sample_count: samples,
        dimension: TextureDimension::D2,
        format,
        usage,
    }
}

fn config(format: TextureFormat, width: u32, height: u32) -> SurfaceConfiguration {
    SurfaceConfiguration {
        usage: usages(false, false, false),
        format,
        width,
        height,
        present_mode: PresentMode::Fifo,
    }
}

fn clear() -> Operations {
    Operations { load: LoadOp::ClearBlack, store: true }
}

fn triangle() -> RenderCommand {
    RenderCommand::Draw { first_vertex: 0, end_vertex: 3, first_instance: 0, end_instance: 1 }
}

#[test]
fn constants_of_the_renderer() {
    assert_eq!(HDR_FORMAT, TextureFormat::Rgba16Float);
    assert_eq!(CAPTURE_FORMAT, TextureFormat::Rgba8Unorm);
    assert_eq!(DEFAULT_SURFACE_FORMAT, TextureFormat::Bgra8Unorm);
    assert_eq!(SAMPLE_COUNT, 4);
    assert_eq!((PIPELINE_SLOT, PIPELINE_SEC_SLOT, PRESENT_PIPELINE_SLOT), (0, 1, 2));
    assert_eq!(SHADER_PATH, "shaders/shader.wgsl");
    assert_eq!(SHADER_SEC_PATH, "shaders/shader_sec.wgsl");
    assert_eq!(PRESENT_SHADER_PATH, "shaders/present.wgsl");
}

#[test]
fn offscreen_target_supports_every_use_it_is_put_to() {
    let buffer = HdrBackBuffer::new((800, 600));
    assert_eq!(buffer.texture, texture(800, 600, 1, TextureFormat::Rgba16Float, usages(true, true, true)));
    assert!(buffer.texture.usage.render_attachment);
    assert!(buffer.texture.usage.storage_binding);
    assert!(buffer.texture.usage.texture_binding);
    assert!(buffer.texture.usage.copy_src);
    assert_eq!(buffer.texture_view, TextureView::HdrBackBuffer);
    assert_eq!(
        buffer.render_bind_group,
        BindGroupDescriptor {
            layout: BindGroupLayoutEntry {
                binding: 0,
                visibility: ShaderStages { vertex: true, fragment: true, compute: false },
                ty: BindingType::FilterableTexture,
            },
            binding: 0,
            resource: TextureView::HdrBackBuffer,
        }
    );
    assert_eq!(
        buffer.storage_bind_group,
        BindGroupDescriptor {
            layout: BindGroupLayoutEntry {
                binding: 0,
                visibility: ShaderStages { vertex: false, fragment: false, compute: true },
                ty: BindingType::ReadWriteStorageTexture { format: TextureFormat::Rgba16Float },
            },
            binding: 0,
            resource: TextureView::HdrBackBuffer,
        }
    );
}

#[test]
fn multisampled_attachments_follow_the_surface() {
    let buffers = MultisampleFramebuffers::new(&config(TextureFormat::Bgra8UnormSrgb, 1280, 720));
    assert_eq!(buffers.bgra, texture(1280, 720, 4, TextureFormat::Bgra8UnormSrgb, usages(false, false, false)));
    assert_eq!(buffers.rgba, texture(1280, 720, 4, TextureFormat::Rgba8Unorm, usages(false, false, false)));
}

#[test]
fn capture_texture_is_single_sampled_and_copyable() {
    let rgb = create_rgb_framebuffer(&config(TextureFormat::Bgra8Unorm, 1280, 720));
    assert_eq!(rgb, texture(1280, 720, 1, TextureFormat::Rgba8Unorm, usages(true, false, false)));
}

#[test]
fn new_state_describes_every_resource() {
    let state = state(800, 600, Some(TextureFormat::Bgra8UnormSrgb));
    assert_eq!(state.width, 800);
    assert_eq!(state.height, 600);
    assert_eq!(state.surface_format, TextureFormat::Bgra8UnormSrgb);
    assert_eq!(state.surface_config, config(TextureFormat::Bgra8UnormSrgb, 800, 600));
    assert_eq!(state.multisampled_framebuffers, MultisampleFramebuffers::new(&state.surface_config));
    assert_eq!(state.rgb_texture, create_rgb_framebuffer(&state.surface_config));
    assert_eq!(state.render_backbuffer, HdrBackBuffer::new((800, 600)));
    assert_eq!(state.adapter, adapter(0x10DE, DeviceType::DiscreteGpu, Backend::Vulkan));
    assert_eq!(
        state.pipelines,
        vec![
            Pipeline::ScreenSpace(ScreenSpacePipeline::new_with_module(
                TextureFormat::Rgba16Float,
                ShaderModuleId(10)
            )),
            Pipeline::ScreenSpace(ScreenSpacePipeline::new_with_module(
                TextureFormat::Rgba16Float,
                ShaderModuleId(11)
            )),
            Pipeline::Present(PresentPipeline::new_with_module(
                TextureFormat::Bgra8UnormSrgb,
                ShaderModuleId(12)
            )),
        ]
    );
}

#[test]
fn new_state_registers_each_pipeline_under_its_shader() {
    let state = state(800, 600, None);
    let registry = &state.watcher.hash_dump;
    assert_eq!(registry.get(&"shaders/shader.wgsl".to_string()), Some(&vec![0]));
    assert_eq!(registry.get(&"shaders/shader_sec.wgsl".to_string()), Some(&vec![1]));
    assert_eq!(registry.get(&"shaders/present.wgsl".to_string()), Some(&vec![2]));
    assert_eq!(registry.get(&"shaders/other.wgsl".to_string()), None);
}

#[test]
fn surface_without_preference_gets_the_default_format() {
    let state = state(800, 600, None);
    assert_eq!(state.surface_format, TextureFormat::Bgra8Unorm);
    assert_eq!(state.surface_config.format, TextureFormat::Bgra8Unorm);
    assert_eq!(state.multisampled_framebuffers.bgra.format, TextureFormat::Bgra8Unorm);
}

#[test]
fn resize_rebuilds_only_what_depends_on_the_size() {
    let mut resized = state(800, 600, Some(TextureFormat::Rgba8UnormSrgb));
    resized.resize(1024, 768);
    let fresh = state(800, 600, Some(TextureFormat::Rgba8UnormSrgb));

    assert_eq!(resized.width, 1024);
    assert_eq!(resized.height, 768);
    assert_eq!(resized.surface_config, config(TextureFormat::Rgba8UnormSrgb, 1024, 768));
    assert_eq!(
        resized.multisampled_framebuffers,
        MultisampleFramebuffers::new(&config(TextureFormat::Rgba8UnormSrgb, 1024, 768))
    );
    assert_eq!(
        resized.rgb_texture,
        create_rgb_framebuffer(&config(TextureFormat::Rgba8UnormSrgb, 1024, 768))
    );
    assert_eq!(resized.render_backbuffer, HdrBackBuffer::new((800, 600)));
    assert_eq!(resized.pipelines, fresh.pipelines);
    assert_eq!(resized.surface_format, fresh.surface_format);
    assert_eq!(resized.adapter, fresh.adapter);
}

#[test]
fn frame_draws_both_pipelines_then_presents() {
    let state = state(800, 600, Some(TextureFormat::Bgra8UnormSrgb));
    let frame = state.render(Ok(())).unwrap();
    let uniform = RenderCommand::SetBindGroup { index: 0, group: BindGroup::GlobalUniform };
    assert_eq!(
        frame,
        vec![
            RenderPass {
                color_attachments: vec![RenderPassColorAttachment {
                    view: TextureView::HdrBackBuffer,
                    format: TextureFormat::Rgba16Float,
                    sample_count: 1,
                    resolve_target: None,
                    ops: clear(),
                }],
                commands: vec![
                    RenderCommand::SetPipeline { slot: 0 },
                    uniform,
                    triangle(),
                    RenderCommand::SetPipeline { slot: 1 },
                    uniform,
                    triangle(),
                ],
            },
            RenderPass {
                color_attachments: vec![
                    RenderPassColorAttachment {
                        view: TextureView::MultisampledBgra,
                        format: TextureFormat::Bgra8UnormSrgb,
                        sample_count: 4,
                        resolve_target: Some(TextureView::SurfaceFrame),
                        ops: clear(),
                    },
                    RenderPassColorAttachment {
                        view: TextureView::MultisampledRgba,
                        format: TextureFormat::Rgba8Unorm,
                        sample_count: 4,
                        resolve_target: Some(TextureView::RgbTexture),
                        ops: clear(),
                    },
                ],
                commands: vec![
                    RenderCommand::SetPipeline { slot: 2 },
                    uniform,
                    RenderCommand::SetBindGroup { index: 1, group: BindGroup::HdrRender },
                    triangle(),
                ],
            },
        ]
    );
}

#[test]
fn frame_targets_match_the_pipelines_that_draw_into_them() {
    let state = state(640, 480, None);
    let frame = state.render(Ok(())).unwrap();
    let descriptors: Vec<_> = state
        .pipelines
        .iter()
        .map(|slot| match slot {
            Pipeline::ScreenSpace(pipeline) => &pipeline.pipeline,
            Pipeline::Present(pipeline) => &pipeline.pipeline,
        })
        .collect();
    for pass in &frame {
        for command in &pass.commands {
            if let RenderCommand::SetPipeline { slot } = command {
                let formats: Vec<_> = pass.color_attachments.iter().map(|a| a.format).collect();
                assert_eq!(formats, descriptors[*slot].targets);
                for attachment in &pass.color_attachments {
                    assert_eq!(attachment.sample_count, descriptors[*slot].sample_count);
                }
            }
        }
    }
}

#[test]
fn failed_acquisition_draws_nothing() {
    let state = state(800, 600, None);
    for error in [
        SurfaceError::Timeout,
        SurfaceError::Outdated,
        SurfaceError::Lost,
        SurfaceError::OutOfMemory,
    ] {
        assert_eq!(state.render(Err(error)), Err(error));
    }
}

#[test]
fn shader_change_rebuilds_the_pipeline_of_that_shader() {
    let mut state = state(800, 600, None);
    let reloaded = state.register_shader_change("shaders/shader_sec.wgsl".to_string(), ShaderModuleId(40));
    assert_eq!(reloaded, vec![1]);
    assert_eq!(
        state.pipelines,
        vec![
            Pipeline::ScreenSpace(ScreenSpacePipeline::new_with_module(
                TextureFormat::Rgba16Float,
                ShaderModuleId(10)
            )),
            Pipeline::ScreenSpace(ScreenSpacePipeline::new_with_module(
                TextureFormat::Rgba16Float,
                ShaderModuleId(40)
            )),
            Pipeline::Present(PresentPipeline::new_with_module(
                TextureFormat::Bgra8Unorm,
                ShaderModuleId(12)
            )),
        ]
    );
    let reloaded = state.register_shader_change("shaders/present.wgsl".to_string(), ShaderModuleId(41));
    assert_eq!(reloaded, vec![2]);
    assert_eq!(
        state.pipelines[2],
        Pipeline::Present(PresentPipeline::new_with_module(
            TextureFormat::Bgra8Unorm,
            ShaderModuleId(41)
        ))
    );
    let reloaded = state.register_shader_change("shaders/shader.wgsl".to_string(), ShaderModuleId(42));
    assert_eq!(reloaded, vec![0]);
}

#[test]
fn shader_change_for_an_unwatched_path_is_dropped() {
    let mut changed = state(800, 600, None);
    let reloaded = changed.register_shader_change("shaders/.shader.wgsl.swp".to_string(), ShaderModuleId(40));
    assert_eq!(reloaded, Vec::<usize>::new());
    assert_eq!(changed.pipelines, state(800, 600, None).pipelines);
}

#[test]
fn reload_is_visible_in_the_next_frame_without_changing_it() {
    let mut state = state(800, 600, None);
    let before = state.render(Ok(())).unwrap();
    state.register_shader_change("shaders/shader.wgsl".to_string(), ShaderModuleId(77));
    let after = state.render(Ok(())).unwrap();
    assert_eq!(before, after);
    match &state.pipelines[0] {
        Pipeline::ScreenSpace(pipeline) => assert_eq!(pipeline.pipeline.module, ShaderModuleId(77)),
        Pipeline::Present(_) => panic!("slot 0 holds a draw pipeline"),
    }
}

#[test]
fn known_vendor_is_named() {
    let mut state = state(1, 1, None);
    state.adapter.vendor = 0x10DE;
    assert_eq!(state.get_vendor_name(), "NVIDIA Corporation");
    assert_eq!(state.get_info().vendor_name, "NVIDIA Corporation");
}

#[test]
fn unknown_vendor_is_reported_as_such() {
    let mut state = state(1, 1, None);
    for vendor in [0usize, 1, 0x1001, 0x1003, 0x10DF, 0x8087, usize::MAX] {
        state.adapter.vendor = vendor;
        assert_eq!(state.get_vendor_name(), "Unknown vendor");
    }
    assert_eq!(state.get_info().vendor_name, "Unknown vendor");
}

#[test]
fn every_vendor_of_the_table_is_named() {
    let mut state = state(1, 1, None);
    for (vendor, name) in [
        (0x1002usize, "AMD"),
        (0x1010, "ImgTec"),
        (0x10DE, "NVIDIA Corporation"),
        (0x13B5, "ARM"),
        (0x5143, "Qualcomm"),
        (0x8086, "INTEL Corporation"),
    ] {
        state.adapter.vendor = vendor;
        assert_eq!(state.get_vendor_name(), name);
    }
}

#[test]
fn every_backend_is_named() {
    let mut state = state(1, 1, None);
    for (backend, name) in [
        (Backend::Empty, "Empty"),
        (Backend::Vulkan, "Vulkan"),
        (Backend::Metal, "Metal"),
        (Backend::Dx12, "Dx12"),
        (Backend::Dx11, "Dx11"),
        (Backend::Gl, "GL"),
        (Backend::BrowserWebGpu, "Browser WGPU"),
    ] {
        state.adapter.backend = backend;
        assert_eq!(state.get_backend(), name);
    }
}

#[test]
fn every_device_type_is_named() {
    let mut state = state(1, 1, None);
    for (device_type, name) in [
        (DeviceType::Other, "Other"),
        (DeviceType::IntegratedGpu, "Integrated GPU"),
        (DeviceType::DiscreteGpu, "Discrete GPU"),
        (DeviceType::VirtualGpu, "Virtual GPU"),
        (DeviceType::Cpu, "CPU"),
    ] {
        state.adapter.device_type = device_type;
        assert_eq!(state.get_device_type(), name);
    }
}

#[test]
fn renderer_info_collects_names_and_format() {
    let state = State::new(
        adapter(0x8086, DeviceType::IntegratedGpu, Backend::Gl),
        (800, 600),
        Some(TextureFormat::Rgba8UnormSrgb),
        ShaderModuleId(0),
        ShaderModuleId(1),
        ShaderModuleId(2),
    );
    assert_eq!(
        state.get_info(),
        RendererInfo {
            device_name: "Test Adapter".to_string(),
            device_type: "Integrated GPU".to_string(),
            vendor_name: "INTEL Corporation".to_string(),
            backend: "GL".to_string(),
            screen_format: TextureFormat::Rgba8UnormSrgb,
        }
    );
}

#[test]
fn renderer_info_text_has_one_line_per_fact() {
    let info = state(800, 600, None).get_info();
    assert_eq!(
        info.to_text(),
        "Vendor name: NVIDIA Corporation\nDevice name: Test Adapter\nDevice type: Discrete GPU\nBackend: Vulkan\nScreen format: Bgra8Unorm"
    );
}
