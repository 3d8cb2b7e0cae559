//! The frame renderer's state: the surface configuration, the targets that
//! follow the output size, the pipeline slots, and the plan of one frame.

pub mod present;
pub mod screen_space;

use vstd::prelude::*;
use vstd::string::StringExecFns;
use crate::gpu::{
    BindGroup, BindGroupDescriptor, BindGroupLayoutEntry, BindingType, Extent3d, LoadOp,
    Operations, PresentMode, RenderCommand, RenderPass, RenderPassColorAttachment, RenderPassView,
    RenderPipelineDescriptorView, ShaderModuleId, ShaderStages, SurfaceConfiguration, SurfaceError,
    TextureDescriptor, TextureDimension, TextureFormat, TextureUsages, TextureView,
};
use crate::state::present::PresentPipeline;
use crate::state::screen_space::{global_uniform_layout, ScreenSpacePipeline};
use crate::watcher::{lemma_live_slots_all, reloaded_from, ReloadablePipeline, Watcher};

verus! {

/// Format of the offscreen high-dynamic-range target.
pub const HDR_FORMAT: TextureFormat = TextureFormat::Rgba16Float;

/// Format of the texture that screenshots are copied from.
pub const CAPTURE_FORMAT: TextureFormat = TextureFormat::Rgba8Unorm;

/// Surface format used where the surface states no preference.
pub const DEFAULT_SURFACE_FORMAT: TextureFormat = TextureFormat::Bgra8Unorm;

/// Samples per texel of the multisampled present targets.
pub const SAMPLE_COUNT: u32 = 4;

/// Slot of the first draw pipeline.
pub const PIPELINE_SLOT: usize = 0;

/// Slot of the second draw pipeline.
pub const PIPELINE_SEC_SLOT: usize = 1;

/// Slot of the present pipeline.
pub const PRESENT_PIPELINE_SLOT: usize = 2;

/// Path of the shader behind the first draw pipeline.
pub const SHADER_PATH: &'static str = "shaders/shader.wgsl";

/// Path of the shader behind the second draw pipeline.
pub const SHADER_SEC_PATH: &'static str = "shaders/shader_sec.wgsl";

/// Path of the shader behind the present pipeline.
pub const PRESENT_SHADER_PATH: &'static str = "shaders/present.wgsl";

/// Layout of the bind group that samples the offscreen target: one
/// filterable texture at binding 0, visible to the vertex and fragment
/// stages.
pub open spec fn hdr_render_layout() -> BindGroupLayoutEntry {
    BindGroupLayoutEntry {
        binding: 0,
        visibility: ShaderStages { vertex: true, fragment: true, compute: false },
        ty: BindingType::FilterableTexture,
    }
}

/// Layout of the bind group that opens the offscreen target for storage
/// access: one read-write storage texture at binding 0, visible to the
/// compute stage.
pub open spec fn hdr_storage_layout() -> BindGroupLayoutEntry {
    BindGroupLayoutEntry {
        binding: 0,
        visibility: ShaderStages { vertex: false, fragment: false, compute: true },
        ty: BindingType::ReadWriteStorageTexture { format: HDR_FORMAT },
    }
}

/// The offscreen high-dynamic-range target: one texture and two bind groups
/// over the same view of it, one for sampling and one for storage access.
#[derive(Debug, Clone, Copy, PartialEq, Eq, Structural)]
pub struct HdrBackBuffer {
    pub texture: TextureDescriptor,
    pub texture_view: TextureView,
    pub render_bind_group: BindGroupDescriptor,
    pub storage_bind_group: BindGroupDescriptor,
}

impl HdrBackBuffer {
    /// The target of the given size.
    pub open spec fn spec_new(width: u32, height: u32) -> HdrBackBuffer {
        HdrBackBuffer {
            texture: TextureDescriptor {
                size: Extent3d { width, height, depth_or_array_layers: 1 },
                mip_level_count: 1,
                sample_count: 1,
                dimension: TextureDimension::D2,
                format: HDR_FORMAT,
                usage: TextureUsages {
                    copy_src: true,
                    copy_dst: false,
                    texture_binding: true,
                    storage_binding: true,
                    render_attachment: true,
                },
            },
            texture_view: TextureView::HdrBackBuffer,
            render_bind_group: BindGroupDescriptor {
                layout: hdr_render_layout(),
                binding: 0,
                resource: TextureView::HdrBackBuffer,
            },
            storage_bind_group: BindGroupDescriptor {
                layout: hdr_storage_layout(),
                binding: 0,
                resource: TextureView::HdrBackBuffer,
            },
        }
    }

    /// The target is the one that its own size determines.
    pub open spec fn wf(&self) -> bool {
        *self == Self::spec_new(self.texture.size.width, self.texture.size.height)
    }

    /// Describes the offscreen target of the given size.
    ///
    /// The texture can be drawn into, bound for storage, sampled and copied
    /// from, since draw passes write it and the present pass samples it; both
    /// bind groups hold the one view of it.
    pub fn new(size: (u32, u32)) -> (buffer: Self)
        ensures
            buffer == Self::spec_new(size.0, size.1),
            buffer.wf(),
            buffer.texture.usage.render_attachment,
            buffer.texture.usage.storage_binding,
            buffer.texture.usage.texture_binding,
            buffer.texture.usage.copy_src,
            buffer.render_bind_group.resource == buffer.texture_view,
            buffer.storage_bind_group.resource == buffer.texture_view,
    {
        let (width, height) = size;
        let size = Extent3d { width, height, depth_or_array_layers: 1 };
        let texture = TextureDescriptor {
            size,
            mip_level_count: 1,
            sample_count: 1,
            dimension: TextureDimension::D2,
            format: HDR_FORMAT,
            usage: TextureUsages {
                copy_src: true,
                copy_dst: false,
                texture_binding: true,
                storage_binding: true,
                render_attachment: true,
            },
        };
        let texture_view = TextureView::HdrBackBuffer;
        let render_bind_group_layout = BindGroupLayoutEntry {
            binding: 0,
            visibility: ShaderStages { vertex: true, fragment: true, compute: false },
            ty: BindingType::FilterableTexture,
        };
        let render_bind_group = BindGroupDescriptor {
            layout: render_bind_group_layout,
            binding: 0,
            resource: texture_view,
        };
        let storage_bind_group_layout = BindGroupLayoutEntry {
            binding: 0,
            visibility: ShaderStages { vertex: false, fragment: false, compute: true },
            ty: BindingType::ReadWriteStorageTexture { format: HDR_FORMAT },
        };
        let storage_bind_group = BindGroupDescriptor {
            layout: storage_bind_group_layout,
            binding: 0,
            resource: texture_view,
        };
        Self { texture, texture_view, render_bind_group, storage_bind_group }
    }
}

/// The multisampled attachments of the present pass, one per output format.
#[derive(Debug, Clone, Copy, PartialEq, Eq, Structural)]
pub struct MultisampleFramebuffers {
    pub bgra: TextureDescriptor,
    pub rgba: TextureDescriptor,
}

impl MultisampleFramebuffers {
    /// The multisampled attachment of the given format for a surface
    /// configured as `config`.
    pub open spec fn attachment(
        config: SurfaceConfiguration,
        format: TextureFormat,
    ) -> TextureDescriptor {
        TextureDescriptor {
            size: Extent3d { width: config.width, height: config.height, depth_or_array_layers: 1 },
            mip_level_count: 1,
            sample_count: SAMPLE_COUNT,
            dimension: TextureDimension::D2,
            format,
            usage: TextureUsages {
                copy_src: false,
                copy_dst: false,
                texture_binding: false,
                storage_binding: false,
                render_attachment: true,
            },
        }
    }

    /// The attachments for a surface configured as `config`.
    pub open spec fn spec_new(config: SurfaceConfiguration) -> MultisampleFramebuffers {
        MultisampleFramebuffers {
            bgra: Self::attachment(config, config.format),
            rgba: Self::attachment(config, CAPTURE_FORMAT),
        }
    }

    /// Describes the multisampled attachments for a surface configured as
    /// `config`: both of the surface's size, the first in the surface's
    /// format, the second in the capture format.
    pub fn new(config: &SurfaceConfiguration) -> (buffers: Self)
        ensures
            buffers == Self::spec_new(*config),
    {
        let size = Extent3d {
            width: config.width,
            height: config.height,
            depth_or_array_layers: 1,
        };
        let mut multisampled_frame_descriptor = TextureDescriptor {
            size,
            mip_level_count: 1,
            sample_count: SAMPLE_COUNT,
            dimension: TextureDimension::D2,
            format: config.format,
            usage: TextureUsages {
                copy_src: false,
                copy_dst: false,
                texture_binding: false,
                storage_binding: false,
                render_attachment: true,
            },
        };
        let bgra = multisampled_frame_descriptor;
        multisampled_frame_descriptor.format = CAPTURE_FORMAT;
        let rgba = multisampled_frame_descriptor;
        Self { bgra, rgba }
    }
}

/// The single-sampled capture texture for a surface configured as `config`:
/// of the surface's size, drawn into by resolve and copied from by
/// screenshots.
pub open spec fn rgb_framebuffer(config: SurfaceConfiguration) -> TextureDescriptor {
    TextureDescriptor {
        size: Extent3d { width: config.width, height: config.height, depth_or_array_layers: 1 },
        mip_level_count: 1,
        sample_count: 1,
        dimension: TextureDimension::D2,
        format: CAPTURE_FORMAT,
        usage: TextureUsages {
            copy_src: true,
            copy_dst: false,
            texture_binding: false,
            storage_binding: false,
            render_attachment: true,
        },
    }
}

/// Describes the capture texture for a surface configured as `config`.
pub fn create_rgb_framebuffer(config: &SurfaceConfiguration) -> (texture: TextureDescriptor)
    ensures
        texture == rgb_framebuffer(*config),
{
    let size = Extent3d { width: config.width, height: config.height, depth_or_array_layers: 1 };
    TextureDescriptor {
        size,
        mip_level_count: 1,
        sample_count: 1,
        dimension: TextureDimension::D2,
        format: CAPTURE_FORMAT,
        usage: TextureUsages {
            copy_src: true,
            copy_dst: false,
            texture_binding: false,
            storage_binding: false,
            render_attachment: true,
        },
    }
}

/// The configuration of a surface of the given format and size: a render
/// attachment presented in first-in, first-out order.
pub open spec fn surface_configuration(
    format: TextureFormat,
    width: u32,
    height: u32,
) -> SurfaceConfiguration {
    SurfaceConfiguration {
        usage: TextureUsages {
            copy_src: false,
            copy_dst: false,
            texture_binding: false,
            storage_binding: false,
            render_attachment: true,
        },
        format,
        width,
        height,
        present_mode: PresentMode::Fifo,
    }
}

/// A pipeline slot: one of the pipeline kinds that the renderer draws with.
#[derive(Debug, PartialEq, Eq)]
pub enum Pipeline {
    ScreenSpace(ScreenSpacePipeline),
    Present(PresentPipeline),
}

impl Pipeline {
    /// The pipeline state held in the slot.
    pub open spec fn descriptor(&self) -> RenderPipelineDescriptorView {
        match self {
            Pipeline::ScreenSpace(pipeline) => pipeline.pipeline@,
            Pipeline::Present(pipeline) => pipeline.pipeline@,
        }
    }

    /// The commands that one call of `record` appends.
    pub open spec fn recorded(
        &self,
        slot: usize,
        uniform_bind_group: BindGroup,
        render_bind_group: BindGroup,
    ) -> Seq<RenderCommand> {
        match self {
            Pipeline::ScreenSpace(_) => ScreenSpacePipeline::recorded(slot, uniform_bind_group),
            Pipeline::Present(_) => PresentPipeline::recorded(
                slot,
                uniform_bind_group,
                render_bind_group,
            ),
        }
    }

    /// Records the draw of the pipeline held in `slot` into the open pass
    /// `rpass`.  A present pipeline binds `render_bind_group` besides the
    /// uniform; a screen-space pipeline has no use for it.
    pub fn record(
        &self,
        slot: usize,
        rpass: &mut RenderPass,
        uniform_bind_group: BindGroup,
        render_bind_group: BindGroup,
    )
        requires
            old(rpass)@.accepts(self.descriptor()),
        ensures
            final(rpass).color_attachments@ == old(rpass).color_attachments@,
            final(rpass).commands@ == old(rpass).commands@ + self.recorded(
                slot,
                uniform_bind_group,
                render_bind_group,
            ),
    {
        match self {
            Pipeline::ScreenSpace(pipeline) => pipeline.record(slot, rpass, uniform_bind_group),
            Pipeline::Present(pipeline) => pipeline.record(
                slot,
                rpass,
                uniform_bind_group,
                render_bind_group,
            ),
        }
    }
}

impl ReloadablePipeline for Pipeline {
    open spec fn wf(&self) -> bool {
        match self {
            Pipeline::ScreenSpace(pipeline) => pipeline.wf(),
            Pipeline::Present(pipeline) => pipeline.wf(),
        }
    }

    open spec fn target_format(&self) -> TextureFormat {
        match self {
            Pipeline::ScreenSpace(pipeline) => pipeline.target_format(),
            Pipeline::Present(pipeline) => pipeline.target_format(),
        }
    }

    open spec fn bind_group_layouts(&self) -> Seq<BindGroupLayoutEntry> {
        match self {
            Pipeline::ScreenSpace(pipeline) => pipeline.bind_group_layouts(),
            Pipeline::Present(pipeline) => pipeline.bind_group_layouts(),
        }
    }

    open spec fn shader_module(&self) -> ShaderModuleId {
        match self {
            Pipeline::ScreenSpace(pipeline) => pipeline.shader_module(),
            Pipeline::Present(pipeline) => pipeline.shader_module(),
        }
    }

    fn reload(&mut self, module: ShaderModuleId) {
        match self {
            Pipeline::ScreenSpace(pipeline) => pipeline.reload(module),
            Pipeline::Present(pipeline) => pipeline.reload(module),
        }
    }
}

/// Graphics backends that an adapter can run on.
#[derive(Debug, Clone, Copy, PartialEq, Eq, Structural)]
pub enum Backend {
    Empty,
    Vulkan,
    Metal,
    Dx12,
    Dx11,
    Gl,
    BrowserWebGpu,
}

/// Categories of physical devices.
#[derive(Debug, Clone, Copy, PartialEq, Eq, Structural)]
pub enum DeviceType {
    Other,
    IntegratedGpu,
    DiscreteGpu,
    VirtualGpu,
    Cpu,
}

/// What an adapter reports about itself.
#[derive(Debug, PartialEq, Eq)]
pub struct AdapterInfo {
    pub name: String,
    pub vendor: usize,
    pub device: usize,
    pub device_type: DeviceType,
    pub backend: Backend,
}

/// The vendor's name for a vendor identifier; identifiers outside the table
/// of known vendors name an unknown vendor.
pub open spec fn vendor_name(vendor: usize) -> Seq<char> {
    if vendor == 0x1002 {
        "AMD"@
    } else if vendor == 0x1010 {
        "ImgTec"@
    } else if vendor == 0x10DE {
        "NVIDIA Corporation"@
    } else if vendor == 0x13B5 {
        "ARM"@
    } else if vendor == 0x5143 {
        "Qualcomm"@
    } else if vendor == 0x8086 {
        "INTEL Corporation"@
    } else {
        "Unknown vendor"@
    }
}

/// The name a backend is shown under.
pub open spec fn backend_name(backend: Backend) -> Seq<char> {
    match backend {
        Backend::Empty => "Empty"@,
        Backend::Vulkan => "Vulkan"@,
        Backend::Metal => "Metal"@,
        Backend::Dx12 => "Dx12"@,
        Backend::Dx11 => "Dx11"@,
        Backend::Gl => "GL"@,
        Backend::BrowserWebGpu => "Browser WGPU"@,
    }
}

/// The name a device category is shown under.
pub open spec fn device_type_name(device_type: DeviceType) -> Seq<char> {
    match device_type {
        DeviceType::Other => "Other"@,
        DeviceType::IntegratedGpu => "Integrated GPU"@,
        DeviceType::DiscreteGpu => "Discrete GPU"@,
        DeviceType::VirtualGpu => "Virtual GPU"@,
        DeviceType::Cpu => "CPU"@,
    }
}

/// What the renderer runs on, for display.
#[derive(Debug, PartialEq, Eq)]
pub struct RendererInfo {
    pub device_name: String,
    pub device_type: String,
    pub vendor_name: String,
    pub backend: String,
    pub screen_format: TextureFormat,
}

impl RendererInfo {
    /// The report as text: one line for each of vendor, device, device type
    /// and backend, then the screen format without a line end.
    pub open spec fn spec_text(&self) -> Seq<char> {
        "Vendor name: "@ + self.vendor_name@ + "\n"@ + "Device name: "@ + self.device_name@ + "\n"@
            + "Device type: "@ + self.device_type@ + "\n"@ + "Backend: "@ + self.backend@ + "\n"@
            + "Screen format: "@ + self.screen_format.spec_name()
    }

    /// Writes the report out as text.
    pub fn to_text(&self) -> (text: String)
        ensures
            text@ == self.spec_text(),
    {
        let mut text = "Vendor name: ".to_owned();
        text.append(self.vendor_name.as_str());
        text.append("\n");
        text.append("Device name: ");
        text.append(self.device_name.as_str());
        text.append("\n");
        text.append("Device type: ");
        text.append(self.device_type.as_str());
        text.append("\n");
        text.append("Backend: ");
        text.append(self.backend.as_str());
        text.append("\n");
        text.append("Screen format: ");
        text.append(self.screen_format.name());
        text
    }
}

/// The frame renderer.  It holds the surface configuration, the descriptions
/// of the targets it draws into, the pipeline slots and the registry of the
/// shader files behind them.
#[derive(Debug)]
pub struct State {
    pub watcher: Watcher,
    pub adapter: AdapterInfo,
    pub surface_config: SurfaceConfiguration,
    pub surface_format: TextureFormat,
    pub multisampled_framebuffers: MultisampleFramebuffers,
    pub render_backbuffer: HdrBackBuffer,
    pub rgb_texture: TextureDescriptor,
    pub width: u32,
    pub height: u32,
    pub pipelines: Vec<Pipeline>,
}

impl State {
    /// Every slot registered in the watch registry exists.
    pub open spec fn slots_exist(&self) -> bool {
        forall|path: Seq<char>, k: int|
            0 <= k < self.watcher.slots(path).len() ==> (#[trigger] self.watcher.slots(path)[k])
                < self.pipelines.len()
    }

    /// The renderer's invariant: the two draw pipelines target the offscreen
    /// format and the present pipeline the surface format; the surface
    /// configuration, the multisampled attachments and the capture texture
    /// follow the current format and size; the registry names existing slots
    /// only.
    pub open spec fn wf(&self) -> bool {
        &&& self.watcher.wf()
        &&& self.slots_exist()
        &&& self.pipelines.len() == 3
        &&& self.pipelines[0] is ScreenSpace
        &&& self.pipelines[1] is ScreenSpace
        &&& self.pipelines[2] is Present
        &&& forall|i: int| 0 <= i < self.pipelines.len() ==> (#[trigger] self.pipelines[i]).wf()
        &&& self.pipelines[0].target_format() == HDR_FORMAT
        &&& self.pipelines[1].target_format() == HDR_FORMAT
        &&& self.pipelines[2].target_format() == self.surface_format
        &&& self.surface_config == surface_configuration(
            self.surface_format,
            self.width,
            self.height,
        )
        &&& self.multisampled_framebuffers == MultisampleFramebuffers::spec_new(self.surface_config)
        &&& self.rgb_texture == rgb_framebuffer(self.surface_config)
        &&& self.render_backbuffer.wf()
    }

    /// The attachment operations of every pass: clear to black, keep the
    /// result.
    pub open spec fn clear_and_store() -> Operations {
        Operations { load: LoadOp::ClearBlack, store: true }
    }

    /// The draw pass: the offscreen target cleared to black, then the first
    /// and the second draw pipeline, each with the global uniform.
    pub open spec fn draw_pass(&self) -> RenderPassView {
        RenderPassView {
            color_attachments: seq![
                RenderPassColorAttachment {
                    view: self.render_backbuffer.texture_view,
                    format: self.render_backbuffer.texture.format,
                    sample_count: self.render_backbuffer.texture.sample_count,
                    resolve_target: None,
                    ops: Self::clear_and_store(),
                },
            ],
            commands: ScreenSpacePipeline::recorded(PIPELINE_SLOT, BindGroup::GlobalUniform)
                + ScreenSpacePipeline::recorded(PIPELINE_SEC_SLOT, BindGroup::GlobalUniform),
        }
    }

    /// The present pass: the multisampled attachment in the surface's format
    /// resolved into the acquired surface image, and the one in the capture
    /// format resolved into the capture texture, both cleared to black; then
    /// the present pipeline, which samples the offscreen target.
    pub open spec fn present_pass(&self) -> RenderPassView {
        RenderPassView {
            color_attachments: seq![
                RenderPassColorAttachment {
                    view: TextureView::MultisampledBgra,
                    format: self.multisampled_framebuffers.bgra.format,
                    sample_count: self.multisampled_framebuffers.bgra.sample_count,
                    resolve_target: Some(TextureView::SurfaceFrame),
                    ops: Self::clear_and_store(),
                },
                RenderPassColorAttachment {
                    view: TextureView::MultisampledRgba,
                    format: self.multisampled_framebuffers.rgba.format,
                    sample_count: self.multisampled_framebuffers.rgba.sample_count,
                    resolve_target: Some(TextureView::RgbTexture),
                    ops: Self::clear_and_store(),
                },
            ],
            commands: PresentPipeline::recorded(
                PRESENT_PIPELINE_SLOT,
                BindGroup::GlobalUniform,
                BindGroup::HdrRender,
            ),
        }
    }

    /// Sets the renderer up for an output of the given size.
    ///
    /// The surface takes `preferred_format`, or the default format where it
    /// states none.  The offscreen target takes the output's size.  The two
    /// draw pipelines are built for the offscreen format from `shader` and
    /// `shader_sec`, the present pipeline for the surface format from
    /// `present_shader`; each is registered under the path of its shader
    /// file.
    pub fn new(
        adapter: AdapterInfo,
        size: (u32, u32),
        preferred_format: Option<TextureFormat>,
        shader: ShaderModuleId,
        shader_sec: ShaderModuleId,
        present_shader: ShaderModuleId,
    ) -> (state: Self)
        ensures
            state.wf(),
            state.adapter == adapter,
            state.width == size.0,
            state.height == size.1,
            state.surface_format == match preferred_format {
                Some(format) => format,
                None => DEFAULT_SURFACE_FORMAT,
            },
            state.render_backbuffer == HdrBackBuffer::spec_new(size.0, size.1),
            state.pipelines[0].shader_module() == shader,
            state.pipelines[1].shader_module() == shader_sec,
            state.pipelines[2].shader_module() == present_shader,
            state.watcher.slots(SHADER_PATH@) == seq![PIPELINE_SLOT],
            state.watcher.slots(SHADER_SEC_PATH@) == seq![PIPELINE_SEC_SLOT],
            state.watcher.slots(PRESENT_SHADER_PATH@) == seq![PRESENT_PIPELINE_SLOT],
            forall|path: Seq<char>|
                path != SHADER_PATH@ && path != SHADER_SEC_PATH@ && path != PRESENT_SHADER_PATH@
                    ==> state.watcher.slots(path) == Seq::<usize>::empty(),
    {
        let surface_format = match preferred_format {
            Some(format) => format,
            None => DEFAULT_SURFACE_FORMAT,
        };
        let (width, height) = size;
        let surface_config = SurfaceConfiguration {
            usage: TextureUsages {
                copy_src: false,
                copy_dst: false,
                texture_binding: false,
                storage_binding: false,
                render_attachment: true,
            },
            format: surface_format,
            width,
            height,
            present_mode: PresentMode::Fifo,
        };
        let multisampled_framebuffers = MultisampleFramebuffers::new(&surface_config);

        let mut watcher = Watcher::new();
        let mut pipelines: Vec<Pipeline> = Vec::new();
        proof {
            reveal_strlit("shaders/shader.wgsl");
            reveal_strlit("shaders/shader_sec.wgsl");
            reveal_strlit("shaders/present.wgsl");
        }

        let pipeline = ScreenSpacePipeline::new_with_module(HDR_FORMAT, shader);
        pipelines.push(Pipeline::ScreenSpace(pipeline));
        watcher.register(SHADER_PATH.to_owned(), PIPELINE_SLOT);

        let pipeline_sec = ScreenSpacePipeline::new_with_module(HDR_FORMAT, shader_sec);
        pipelines.push(Pipeline::ScreenSpace(pipeline_sec));
        watcher.register(SHADER_SEC_PATH.to_owned(), PIPELINE_SEC_SLOT);

        let present_pipeline = PresentPipeline::new_with_module(surface_format, present_shader);
        pipelines.push(Pipeline::Present(present_pipeline));
        watcher.register(PRESENT_SHADER_PATH.to_owned(), PRESENT_PIPELINE_SLOT);

        let render_backbuffer = HdrBackBuffer::new((width, height));
        let rgb_texture = create_rgb_framebuffer(&surface_config);

        proof {
            assert(SHADER_PATH@.len() == 19);
            assert(SHADER_SEC_PATH@.len() == 23);
            assert(PRESENT_SHADER_PATH@.len() == 20);
            assert(watcher.slots(SHADER_PATH@) =~= seq![PIPELINE_SLOT]);
            assert(watcher.slots(SHADER_SEC_PATH@) =~= seq![PIPELINE_SEC_SLOT]);
            assert(watcher.slots(PRESENT_SHADER_PATH@) =~= seq![PRESENT_PIPELINE_SLOT]);
        }
        Self {
            watcher,
            adapter,
            surface_config,
            surface_format,
            multisampled_framebuffers,
            render_backbuffer,
            rgb_texture,
            width,
            height,
            pipelines,
        }
    }

    /// The renderer after its output took a new size: the surface
    /// configuration, the multisampled attachments and the capture texture
    /// are those of the new size; the offscreen target, the pipelines and
    /// the registry are as before.
    pub open spec fn resized(self, width: u32, height: u32) -> State {
        let surface_config = surface_configuration(self.surface_format, width, height);
        State {
            width,
            height,
            surface_config,
            multisampled_framebuffers: MultisampleFramebuffers::spec_new(surface_config),
            rgb_texture: rgb_framebuffer(surface_config),
            ..self
        }
    }

    /// `after` is `before` with every pipeline registered under `path`
    /// rebuilt from `shader`, and nothing else changed.
    pub open spec fn shader_changed(
        before: State,
        after: State,
        path: Seq<char>,
        shader: ShaderModuleId,
    ) -> bool {
        &&& after.pipelines.len() == before.pipelines.len()
        &&& forall|i: int|
            0 <= i < before.pipelines.len() ==> if before.watcher.slots(path).contains(i as usize) {
                reloaded_from(before.pipelines[i], #[trigger] after.pipelines[i], shader)
            } else {
                after.pipelines[i] == before.pipelines[i]
            }
        &&& after.watcher == before.watcher
        &&& after.adapter == before.adapter
        &&& after.surface_config == before.surface_config
        &&& after.surface_format == before.surface_format
        &&& after.multisampled_framebuffers == before.multisampled_framebuffers
        &&& after.render_backbuffer == before.render_backbuffer
        &&& after.rgb_texture == before.rgb_texture
        &&& after.width == before.width
        &&& after.height == before.height
    }

    /// Follows the output to a new size: the surface configuration, the
    /// multisampled attachments and the capture texture take the new size.
    /// The offscreen target, the pipelines and the registry stay as they
    /// are.
    pub fn resize(&mut self, width: u32, height: u32)
        requires
            old(self).wf(),
        ensures
            final(self).wf(),
            *final(self) == old(self).resized(width, height),
    {
        self.width = width;
        self.height = height;
        self.surface_config.height = height;
        self.surface_config.width = width;
        self.multisampled_framebuffers = MultisampleFramebuffers::new(&self.surface_config);
        self.rgb_texture = create_rgb_framebuffer(&self.surface_config);
    }

    /// Plans one frame from the outcome of acquiring the next surface image.
    ///
    /// Where the surface handed out no image, the error is passed on and
    /// nothing is drawn.  Otherwise the frame is the draw pass followed by
    /// the present pass; the host encodes both, submits them and presents
    /// the image.
    pub fn render(&self, acquired: Result<(), SurfaceError>) -> (frame: Result<
        Vec<RenderPass>,
        SurfaceError,
    >)
        requires
            self.wf(),
        ensures
            match acquired {
                Ok(_) => frame matches Ok(passes) && passes.len() == 2 && passes[0]@
                    == self.draw_pass() && passes[1]@ == self.present_pass(),
                Err(error) => frame == Err::<Vec<RenderPass>, SurfaceError>(error),
            },
    {
        match acquired {
            Err(error) => {
                return Err(error);
            },
            Ok(_) => {},
        }
        let clear = Operations { load: LoadOp::ClearBlack, store: true };

        let mut color_attachments: Vec<RenderPassColorAttachment> = Vec::new();
        color_attachments.push(
            RenderPassColorAttachment {
                view: self.render_backbuffer.texture_view,
                format: self.render_backbuffer.texture.format,
                sample_count: self.render_backbuffer.texture.sample_count,
                resolve_target: None,
                ops: clear,
            },
        );
        let mut drawing = RenderPass { color_attachments, commands: Vec::new() };
        self.pipelines[PIPELINE_SLOT].record(
            PIPELINE_SLOT,
            &mut drawing,
            BindGroup::GlobalUniform,
            BindGroup::HdrRender,
        );
        self.pipelines[PIPELINE_SEC_SLOT].record(
            PIPELINE_SEC_SLOT,
            &mut drawing,
            BindGroup::GlobalUniform,
            BindGroup::HdrRender,
        );

        let mut color_attachments: Vec<RenderPassColorAttachment> = Vec::new();
        color_attachments.push(
            RenderPassColorAttachment {
                view: TextureView::MultisampledBgra,
                format: self.multisampled_framebuffers.bgra.format,
                sample_count: self.multisampled_framebuffers.bgra.sample_count,
                resolve_target: Some(TextureView::SurfaceFrame),
                ops: clear,
            },
        );
        color_attachments.push(
            RenderPassColorAttachment {
                view: TextureView::MultisampledRgba,
                format: self.multisampled_framebuffers.rgba.format,
                sample_count: self.multisampled_framebuffers.rgba.sample_count,
                resolve_target: Some(TextureView::RgbTexture),
                ops: clear,
            },
        );
        let mut presenting = RenderPass { color_attachments, commands: Vec::new() };
        self.pipelines[PRESENT_PIPELINE_SLOT].record(
            PRESENT_PIPELINE_SLOT,
            &mut presenting,
            BindGroup::GlobalUniform,
            BindGroup::HdrRender,
        );

        assert(drawing@ =~~= self.draw_pass());
        assert(presenting@ =~~= self.present_pass());
        let mut passes: Vec<RenderPass> = Vec::new();
        passes.push(drawing);
        passes.push(presenting);
        Ok(passes)
    }

    /// Applies a reload notification: every pipeline registered under `path`
    /// is rebuilt from `shader`, in registration order, and the slots that
    /// were rebuilt are returned for the host to rebuild their GPU state.
    /// A path that backs no pipeline changes nothing.
    pub fn register_shader_change(&mut self, path: String, shader: ShaderModuleId) -> (reloaded:
        Vec<usize>)
        requires
            old(self).wf(),
        ensures
            final(self).wf(),
            reloaded@ == old(self).watcher.slots(path@),
            Self::shader_changed(*old(self), *final(self), path@, shader),
    {
        let reloaded = self.watcher.notify(&path, shader, &mut self.pipelines);
        proof {
            lemma_live_slots_all(self.watcher.slots(path@), self.pipelines.len() as nat);
            assert forall|i: int| 0 <= i < 3 implies (#[trigger] self.pipelines[i]).wf()
                && self.pipelines[i].bind_group_layouts()
                == old(self).pipelines[i].bind_group_layouts()
                && self.pipelines[i].target_format()
                == old(self).pipelines[i].target_format() by {
                assert(old(self).pipelines[i].wf());
            }
            assert(self.pipelines[0].bind_group_layouts().len() == 1);
            assert(self.pipelines[1].bind_group_layouts().len() == 1);
            assert(self.pipelines[2].bind_group_layouts().len() == 2);
        }
        reloaded
    }

    /// Reports what the renderer runs on.
    pub fn get_info(&self) -> (info: RendererInfo)
        ensures
            info.device_name@ == self.adapter.name@,
            info.device_type@ == device_type_name(self.adapter.device_type),
            info.vendor_name@ == vendor_name(self.adapter.vendor),
            info.backend@ == backend_name(self.adapter.backend),
            info.screen_format == self.surface_config.format,
    {
        RendererInfo {
            device_name: self.adapter.name.clone(),
            device_type: self.get_device_type().to_owned(),
            vendor_name: self.get_vendor_name().to_owned(),
            backend: self.get_backend().to_owned(),
            screen_format: self.surface_config.format,
        }
    }

    /// The name of the adapter's vendor.
    pub fn get_vendor_name(&self) -> (name: &'static str)
        ensures
            name@ == vendor_name(self.adapter.vendor),
    {
        let vendor: usize = self.adapter.vendor;
        if vendor == 0x1002 {
            "AMD"
        } else if vendor == 0x1010 {
            "ImgTec"
        } else if vendor == 0x10DE {
            "NVIDIA Corporation"
        } else if vendor == 0x13B5 {
            "ARM"
        } else if vendor == 0x5143 {
            "Qualcomm"
        } else if vendor == 0x8086 {
            "INTEL Corporation"
        } else {
            "Unknown vendor"
        }
    }

    /// The name of the backend the adapter runs on.
    pub fn get_backend(&self) -> (name: &'static str)
        ensures
            name@ == backend_name(self.adapter.backend),
    {
        match self.adapter.backend {
            Backend::Empty => "Empty",
            Backend::Vulkan => "Vulkan",
            Backend::Metal => "Metal",
            Backend::Dx12 => "Dx12",
            Backend::Dx11 => "Dx11",
            Backend::Gl => "GL",
            Backend::BrowserWebGpu => "Browser WGPU",
        }
    }

    /// The name of the adapter's device category.
    pub fn get_device_type(&self) -> (name: &'static str)
        ensures
            name@ == device_type_name(self.adapter.device_type),
    {
        match self.adapter.device_type {
            DeviceType::Other => "Other",
            DeviceType::IntegratedGpu => "Integrated GPU",
            DeviceType::DiscreteGpu => "Discrete GPU",
            DeviceType::VirtualGpu => "Virtual GPU",
            DeviceType::Cpu => "CPU",
        }
    }

    /// A well-formed renderer plans frames that the GPU accepts: each pass
    /// has the target formats and the sample count of the pipelines recorded
    /// into it, each pipeline finds at every bind group index the layout of
    /// the group that is bound there, and each resolve target is a
    /// single-sampled texture of the format and size of the attachment
    /// resolved into it.
    pub proof fn lemma_frame_is_consistent(self)
        requires
            self.wf(),
        ensures
            self.draw_pass().accepts(self.pipelines[PIPELINE_SLOT as int].descriptor()),
            self.draw_pass().accepts(self.pipelines[PIPELINE_SEC_SLOT as int].descriptor()),
            self.present_pass().accepts(self.pipelines[PRESENT_PIPELINE_SLOT as int].descriptor()),
            self.pipelines[PIPELINE_SLOT as int].bind_group_layouts() == seq![
                global_uniform_layout(),
            ],
            self.pipelines[PIPELINE_SEC_SLOT as int].bind_group_layouts() == seq![
                global_uniform_layout(),
            ],
            self.pipelines[PRESENT_PIPELINE_SLOT as int].bind_group_layouts() == seq![
                global_uniform_layout(),
                self.render_backbuffer.render_bind_group.layout,
            ],
            self.multisampled_framebuffers.bgra.format == self.surface_config.format,
            self.multisampled_framebuffers.bgra.size.width == self.surface_config.width,
            self.multisampled_framebuffers.bgra.size.height == self.surface_config.height,
            self.multisampled_framebuffers.rgba.format == self.rgb_texture.format,
            self.multisampled_framebuffers.rgba.size == self.rgb_texture.size,
            self.rgb_texture.sample_count == 1,
            self.rgb_texture.usage.copy_src,
    {
        assert(self.pipelines[0].wf());
        assert(self.pipelines[1].wf());
        assert(self.pipelines[2].wf());
    }

    /// A reload takes effect with the next frame and changes nothing else
    /// about it: once the pipelines under `path` are rebuilt from `shader`,
    /// every slot registered under `path` holds the new program with its old
    /// target format, and the renderer plans the same passes as before.
    pub proof fn lemma_reload_precedes_next_frame(
        before: State,
        after: State,
        path: Seq<char>,
        shader: ShaderModuleId,
        slot: usize,
    )
        requires
            before.wf(),
            Self::shader_changed(before, after, path, shader),
            before.watcher.slots(path).contains(slot),
        ensures
            after.pipelines[slot as int].shader_module() == shader,
            after.pipelines[slot as int].target_format()
                == before.pipelines[slot as int].target_format(),
            after.draw_pass() == before.draw_pass(),
            after.present_pass() == before.present_pass(),
    {
        let k = choose|k: int|
            0 <= k < before.watcher.slots(path).len() && before.watcher.slots(path)[k] == slot;
        assert(before.watcher.slots(path)[k] < before.pipelines.len());
    }
}

} // verus!
