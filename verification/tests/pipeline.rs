use shader_host::gpu::{
    BindGroup, BindGroupLayoutEntry, BindingType, LoadOp, Operations, RenderCommand, RenderPass,
    RenderPassColorAttachment, ShaderModuleId, ShaderStages, TextureFormat, TextureView,
};
use shader_host::state::present::PresentPipeline;
use shader_host::state::screen_space::ScreenSpacePipeline;
use shader_host::state::Pipeline;
use shader_host::watcher::ReloadablePipeline;

fn uniform_layout() -> BindGroupLayoutEntry {
    BindGroupLayoutEntry {
        binding: 0,
        visibility: ShaderStages { vertex: true, fragment: true, compute: true },
        ty: BindingType::UniformBuffer,
    }
}

fn texture_layout() -> BindGroupLayoutEntry {
    BindGroupLayoutEntry {
        binding: 0,
        visibility: ShaderStages { vertex: true, fragment: true, compute: false },
        ty: BindingType::FilterableTexture,
    }
}

fn attachment(view: TextureView, format: TextureFormat, sample_count: u32) -> RenderPassColorAttachment {
    RenderPassColorAttachment {
        view,
        format,
        sample_count,
        resolve_target: None,
        ops: Operations { load: LoadOp::ClearBlack, store: true },
    }
}

fn triangle() -> RenderCommand {
    RenderCommand::Draw { first_vertex: 0, end_vertex: 3, first_instance: 0, end_instance: 1 }
}

#[test]
fn screen_space_pipeline_is_built_from_its_format_and_shader() {
    let pipeline = ScreenSpacePipeline::new_with_module(TextureFormat::Rgba16Float, ShaderModuleId(4));
    assert_eq!(pipeline.surface_format, TextureFormat::Rgba16Float);
    assert_eq!(pipeline.pipeline.module, ShaderModuleId(4));
    assert_eq!(pipeline.pipeline.bind_group_layouts, vec![uniform_layout()]);
    assert_eq!(pipeline.pipeline.vertex_entry_point, "vs_main");
    assert_eq!(pipeline.pipeline.fragment_entry_point, "fs_main");
    assert_eq!(pipeline.pipeline.targets, vec![TextureFormat::Rgba16Float]);
    assert_eq!(pipeline.pipeline.sample_count, 1);
}

#[test]
fn present_pipeline_targets_surface_and_capture_formats() {
    let pipeline = PresentPipeline::new_with_module(TextureFormat::Bgra8UnormSrgb, ShaderModuleId(6));
    assert_eq!(pipeline.surface_format, TextureFormat::Bgra8UnormSrgb);
    assert_eq!(pipeline.pipeline.module, ShaderModuleId(6));
    assert_eq!(pipeline.pipeline.bind_group_layouts, vec![uniform_layout(), texture_layout()]);
    assert_eq!(pipeline.pipeline.vertex_entry_point, "vs_main");
    assert_eq!(pipeline.pipeline.fragment_entry_point, "fs_main");
    assert_eq!(
        pipeline.pipeline.targets,
        vec![TextureFormat::Bgra8UnormSrgb, TextureFormat::Rgba8Unorm]
    );
    assert_eq!(pipeline.pipeline.sample_count, 4);
}

#[test]
fn screen_space_record_appends_three_commands() {
    let pipeline = ScreenSpacePipeline::new_with_module(TextureFormat::Rgba16Float, ShaderModuleId(4));
    let attachments = vec![attachment(TextureView::HdrBackBuffer, TextureFormat::Rgba16Float, 1)];
    let mut rpass = RenderPass {
        color_attachments: attachments.clone(),
        commands: vec![RenderCommand::SetPipeline { slot: 9 }],
    };
    pipeline.record(5, &mut rpass, BindGroup::GlobalUniform);
    assert_eq!(rpass.color_attachments, attachments);
    assert_eq!(
        rpass.commands,
        vec![
            RenderCommand::SetPipeline { slot: 9 },
            RenderCommand::SetPipeline { slot: 5 },
            RenderCommand::SetBindGroup { index: 0, group: BindGroup::GlobalUniform },
            triangle(),
        ]
    );
}

#[test]
fn present_record_binds_uniform_then_offscreen_target() {
    let pipeline = PresentPipeline::new_with_module(TextureFormat::Bgra8Unorm, ShaderModuleId(4));
    let attachments = vec![
        attachment(TextureView::MultisampledBgra, TextureFormat::Bgra8Unorm, 4),
        attachment(TextureView::MultisampledRgba, TextureFormat::Rgba8Unorm, 4),
    ];
    let mut rpass = RenderPass { color_attachments: attachments.clone(), commands: Vec::new() };
    pipeline.record(2, &mut rpass, BindGroup::GlobalUniform, BindGroup::HdrRender);
    assert_eq!(rpass.color_attachments, attachments);
    assert_eq!(
        rpass.commands,
        vec![
            RenderCommand::SetPipeline { slot: 2 },
            RenderCommand::SetBindGroup { index: 0, group: BindGroup::GlobalUniform },
            RenderCommand::SetBindGroup { index: 1, group: BindGroup::HdrRender },
            triangle(),
        ]
    );
}

#[test]
fn present_reload_keeps_format_and_layouts() {
    let mut pipeline = PresentPipeline::new_with_module(TextureFormat::Rgba8Unorm, ShaderModuleId(1));
    pipeline.reload(ShaderModuleId(8));
    assert_eq!(
        pipeline,
        PresentPipeline::new_with_module(TextureFormat::Rgba8Unorm, ShaderModuleId(8))
    );
    assert_eq!(pipeline.pipeline.bind_group_layouts, vec![uniform_layout(), texture_layout()]);
}

#[test]
fn slot_reload_keeps_the_kind_of_pipeline() {
    let mut screen = Pipeline::ScreenSpace(ScreenSpacePipeline::new_with_module(
        TextureFormat::Rgba16Float,
        ShaderModuleId(1),
    ));
    let mut present = Pipeline::Present(PresentPipeline::new_with_module(
        TextureFormat::Bgra8Unorm,
        ShaderModuleId(2),
    ));
    screen.reload(ShaderModuleId(3));
    present.reload(ShaderModuleId(3));
    assert_eq!(
        screen,
        Pipeline::ScreenSpace(ScreenSpacePipeline::new_with_module(
            TextureFormat::Rgba16Float,
            ShaderModuleId(3)
        ))
    );
    assert_eq!(
        present,
        Pipeline::Present(PresentPipeline::new_with_module(
            TextureFormat::Bgra8Unorm,
            ShaderModuleId(3)
        ))
    );
}

#[test]
fn slot_record_follows_the_kind_of_pipeline() {
    let screen = Pipeline::ScreenSpace(ScreenSpacePipeline::new_with_module(
        TextureFormat::Rgba16Float,
        ShaderModuleId(1),
    ));
    let mut rpass = RenderPass {
        color_attachments: vec![attachment(TextureView::HdrBackBuffer, TextureFormat::Rgba16Float, 1)],
        commands: Vec::new(),
    };
    screen.record(0, &mut rpass, BindGroup::GlobalUniform, BindGroup::HdrRender);
    assert_eq!(
        rpass.commands,
        vec![
            RenderCommand::SetPipeline { slot: 0 },
            RenderCommand::SetBindGroup { index: 0, group: BindGroup::GlobalUniform },
            triangle(),
        ]
    );
}

#[test]
fn format_names_are_the_variant_names() {
    assert_eq!(TextureFormat::Rgba8Unorm.name(), "Rgba8Unorm");
    assert_eq!(TextureFormat::Rgba8UnormSrgb.name(), "Rgba8UnormSrgb");
    assert_eq!(TextureFormat::Bgra8Unorm.name(), "Bgra8Unorm");
    assert_eq!(TextureFormat::Bgra8UnormSrgb.name(), "Bgra8UnormSrgb");
    assert_eq!(TextureFormat::Rgba16Float.name(), "Rgba16Float");
}
