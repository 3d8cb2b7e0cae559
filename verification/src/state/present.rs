//! The present pipeline: samples the offscreen target and writes the tone
//! mapped image to the surface and to the capture texture at once.

use vstd::prelude::*;
use crate::gpu::{
    BindGroup, BindGroupLayoutEntry, BindingType, RenderCommand, RenderPass,
    RenderPipelineDescriptor, RenderPipelineDescriptorView, ShaderModuleId, ShaderStages,
    TextureFormat,
};
use crate::state::screen_space::{draw_fullscreen_triangle, global_uniform_layout};
use crate::state::{hdr_render_layout, CAPTURE_FORMAT, SAMPLE_COUNT};
use crate::watcher::ReloadablePipeline;

verus! {

/// A pipeline that draws into the multisampled pair of present targets: the
/// first in the surface's format, the second in the capture format.
#[derive(Debug, PartialEq, Eq)]
pub struct PresentPipeline {
    pub pipeline: RenderPipelineDescriptor,
    pub surface_format: TextureFormat,
}

impl PresentPipeline {
    /// The pipeline state that `surface_format` and `shader` determine: the
    /// global uniform layout and the layout that samples the offscreen
    /// target, the entry points `vs_main` and `fs_main`, and two multisampled
    /// color targets.
    pub open spec fn descriptor(
        surface_format: TextureFormat,
        shader: ShaderModuleId,
    ) -> RenderPipelineDescriptorView {
        RenderPipelineDescriptorView {
            bind_group_layouts: seq![global_uniform_layout(), hdr_render_layout()],
            module: shader,
            vertex_entry_point: "vs_main"@,
            fragment_entry_point: "fs_main"@,
            targets: seq![surface_format, CAPTURE_FORMAT],
            sample_count: SAMPLE_COUNT,
        }
    }

    /// The commands that one call of `record` appends for the pipeline in
    /// `slot`.
    pub open spec fn recorded(
        slot: usize,
        uniform_bind_group: BindGroup,
        render_bind_group: BindGroup,
    ) -> Seq<RenderCommand> {
        seq![
            RenderCommand::SetPipeline { slot },
            RenderCommand::SetBindGroup { index: 0, group: uniform_bind_group },
            RenderCommand::SetBindGroup { index: 1, group: render_bind_group },
            draw_fullscreen_triangle(),
        ]
    }

    /// Builds the pipeline for a surface of `surface_format` from `shader`.
    pub fn new_with_module(surface_format: TextureFormat, shader: ShaderModuleId) -> (created: Self)
        ensures
            created.wf(),
            created.pipeline@ == Self::descriptor(surface_format, shader),
            created.surface_format == surface_format,
    {
        let mut bind_group_layouts: Vec<BindGroupLayoutEntry> = Vec::new();
        bind_group_layouts.push(
            BindGroupLayoutEntry {
                binding: 0,
                visibility: ShaderStages { vertex: true, fragment: true, compute: true },
                ty: BindingType::UniformBuffer,
            },
        );
        bind_group_layouts.push(
            BindGroupLayoutEntry {
                binding: 0,
                visibility: ShaderStages { vertex: true, fragment: true, compute: false },
                ty: BindingType::FilterableTexture,
            },
        );
        let mut targets: Vec<TextureFormat> = Vec::new();
        targets.push(surface_format);
        targets.push(CAPTURE_FORMAT);
        let pipeline = RenderPipelineDescriptor {
            bind_group_layouts,
            module: shader,
            vertex_entry_point: "vs_main",
            fragment_entry_point: "fs_main",
            targets,
            sample_count: SAMPLE_COUNT,
        };
        assert(pipeline@ =~~= Self::descriptor(surface_format, shader));
        Self { pipeline, surface_format }
    }

    /// Records the draw of the pipeline in `slot` into the open pass `rpass`,
    /// with `uniform_bind_group` bound at index 0 and `render_bind_group`, the
    /// read-only view of the offscreen target, at index 1.  The pass must
    /// match the pipeline's targets; it keeps its attachments and the
    /// commands recorded before.
    pub fn record(
        &self,
        slot: usize,
        rpass: &mut RenderPass,
        uniform_bind_group: BindGroup,
        render_bind_group: BindGroup,
    )
        requires
            old(rpass)@.accepts(self.pipeline@),
        ensures
            final(rpass).color_attachments@ == old(rpass).color_attachments@,
            final(rpass).commands@ == old(rpass).commands@ + Self::recorded(
                slot,
                uniform_bind_group,
                render_bind_group,
            ),
    {
        rpass.commands.push(RenderCommand::SetPipeline { slot });
        rpass.commands.push(RenderCommand::SetBindGroup { index: 0, group: uniform_bind_group });
        rpass.commands.push(RenderCommand::SetBindGroup { index: 1, group: render_bind_group });
        rpass.commands.push(
            RenderCommand::Draw {
                first_vertex: 0,
                end_vertex: 3,
                first_instance: 0,
                end_instance: 1,
            },
        );
    }
}

impl ReloadablePipeline for PresentPipeline {
    open spec fn wf(&self) -> bool {
        self.pipeline@ == Self::descriptor(self.surface_format, self.pipeline.module)
    }

    open spec fn target_format(&self) -> TextureFormat {
        self.surface_format
    }

    open spec fn bind_group_layouts(&self) -> Seq<BindGroupLayoutEntry> {
        self.pipeline.bind_group_layouts@
    }

    open spec fn shader_module(&self) -> ShaderModuleId {
        self.pipeline.module
    }

    fn reload(&mut self, module: ShaderModuleId) {
        *self = Self::new_with_module(self.surface_format, module);
    }
}

} // verus!
