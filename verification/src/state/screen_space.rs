//! The screen-space draw pipeline: one triangle that covers the target,
//! shaded with the global uniform.

use vstd::prelude::*;
use crate::gpu::{
    BindGroup, BindGroupLayoutEntry, BindingType, RenderCommand, RenderPass,
    RenderPipelineDescriptor, RenderPipelineDescriptorView, ShaderModuleId, ShaderStages,
    TextureFormat,
};
use crate::watcher::ReloadablePipeline;

verus! {

/// Layout of the bind group that holds the global uniform: one uniform buffer
/// at binding 0, visible to every stage.
pub open spec fn global_uniform_layout() -> BindGroupLayoutEntry {
    BindGroupLayoutEntry {
        binding: 0,
        visibility: ShaderStages { vertex: true, fragment: true, compute: true },
        ty: BindingType::UniformBuffer,
    }
}

/// The commands that draw one target-covering triangle: three vertices, one
/// instance.
pub open spec fn draw_fullscreen_triangle() -> RenderCommand {
    RenderCommand::Draw { first_vertex: 0, end_vertex: 3, first_instance: 0, end_instance: 1 }
}

/// A pipeline that draws into a target of a fixed format with the global
/// uniform as its only binding.
#[derive(Debug, PartialEq, Eq)]
pub struct ScreenSpacePipeline {
    pub pipeline: RenderPipelineDescriptor,
    pub surface_format: TextureFormat,
}

impl ScreenSpacePipeline {
    /// The pipeline state that `surface_format` and `shader` determine: the
    /// global uniform layout, the entry points `vs_main` and `fs_main`, one
    /// single-sampled color target of the given format.
    pub open spec fn descriptor(
        surface_format: TextureFormat,
        shader: ShaderModuleId,
    ) -> RenderPipelineDescriptorView {
        RenderPipelineDescriptorView {
            bind_group_layouts: seq![global_uniform_layout()],
            module: shader,
            vertex_entry_point: "vs_main"@,
            fragment_entry_point: "fs_main"@,
            targets: seq![surface_format],
            sample_count: 1,
        }
    }

    /// The commands that one call of `record` appends for the pipeline in
    /// `slot`.
    pub open spec fn recorded(slot: usize, uniform_bind_group: BindGroup) -> Seq<RenderCommand> {
        seq![
            RenderCommand::SetPipeline { slot },
            RenderCommand::SetBindGroup { index: 0, group: uniform_bind_group },
            draw_fullscreen_triangle(),
        ]
    }

    /// Builds the pipeline for a target of `surface_format` from `shader`.
    pub fn new_with_module(surface_format: TextureFormat, shader: ShaderModuleId) -> (created: Self)
        ensures
            created.wf(),
            created.pipeline@ == Self::descriptor(surface_format, shader),
            created.surface_format == surface_format,
    {
        let global_bind_group_layout = BindGroupLayoutEntry {
            binding: 0,
            visibility: ShaderStages { vertex: true, fragment: true, compute: true },
            ty: BindingType::UniformBuffer,
        };
        let mut bind_group_layouts: Vec<BindGroupLayoutEntry> = Vec::new();
        bind_group_layouts.push(global_bind_group_layout);
        let mut targets: Vec<TextureFormat> = Vec::new();
        targets.push(surface_format);
        let pipeline = RenderPipelineDescriptor {
            bind_group_layouts,
            module: shader,
            vertex_entry_point: "vs_main",
            fragment_entry_point: "fs_main",
            targets,
            sample_count: 1,
        };
        assert(pipeline@ =~~= Self::descriptor(surface_format, shader));
        Self { pipeline, surface_format }
    }

    /// Records the draw of the pipeline in `slot` into the open pass `rpass`,
    /// with `uniform_bind_group` bound at index 0.  The pass must match the
    /// pipeline's target; it keeps its attachments and the commands recorded
    /// before.
    pub fn record(&self, slot: usize, rpass: &mut RenderPass, uniform_bind_group: BindGroup)
        requires
            old(rpass)@.accepts(self.pipeline@),
        ensures
            final(rpass).color_attachments@ == old(rpass).color_attachments@,
            final(rpass).commands@ == old(rpass).commands@ + Self::recorded(
                slot,
                uniform_bind_group,
            ),
    {
        rpass.commands.push(RenderCommand::SetPipeline { slot });
        rpass.commands.push(RenderCommand::SetBindGroup { index: 0, group: uniform_bind_group });
        rpass.commands.push(
            RenderCommand::Draw {
                first_vertex: 0,
                end_vertex: 3,
                first_instance: 0,
                end_instance: 1,
            },
        );
    }
}

impl ReloadablePipeline for ScreenSpacePipeline {
    open spec fn wf(&self) -> bool {
        self.pipeline@ == Self::descriptor(self.surface_format, self.pipeline.module)
    }

    open spec fn target_format(&self) -> TextureFormat {
        self.surface_format
    }

    open spec fn bind_group_layouts(&self) -> Seq<BindGroupLayoutEntry> {
        self.pipeline.bind_group_layouts@
    }

    open spec fn shader_module(&self) -> ShaderModuleId {
        self.pipeline.module
    }

    fn reload(&mut self, module: ShaderModuleId) {
        *self = Self::new_with_module(self.surface_format, module);
    }
}

} // verus!
