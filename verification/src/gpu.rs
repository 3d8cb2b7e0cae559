//! Plain-value descriptions of GPU resources and recorded commands.
//!
//! Nothing here touches a device.  Every type states, as ordinary data, what
//! the host has to create, bind or draw; the host turns these values into the
//! graphics API's own descriptors.

use vstd::prelude::*;

verus! {

/// Handle of a compiled shader program.  The host owns the program itself and
/// hands the renderer a handle that stands for it.
#[derive(Debug, Clone, Copy, PartialEq, Eq, Structural)]
pub struct ShaderModuleId(pub u64);

/// Texel formats that the renderer creates or presents to.
#[derive(Debug, Clone, Copy, PartialEq, Eq, Structural)]
pub enum TextureFormat {
    Rgba8Unorm,
    Rgba8UnormSrgb,
    Bgra8Unorm,
    Bgra8UnormSrgb,
    Rgba16Float,
}

impl TextureFormat {
    /// The format's name as diagnostics print it.
    pub open spec fn spec_name(self) -> Seq<char> {
        match self {
            TextureFormat::Rgba8Unorm => "Rgba8Unorm"@,
            TextureFormat::Rgba8UnormSrgb => "Rgba8UnormSrgb"@,
            TextureFormat::Bgra8Unorm => "Bgra8Unorm"@,
            TextureFormat::Bgra8UnormSrgb => "Bgra8UnormSrgb"@,
            TextureFormat::Rgba16Float => "Rgba16Float"@,
        }
    }

    /// The format's name as diagnostics print it.
    pub fn name(self) -> (name: &'static str)
        ensures
            name@ == self.spec_name(),
    {
        match self {
            TextureFormat::Rgba8Unorm => "Rgba8Unorm",
            TextureFormat::Rgba8UnormSrgb => "Rgba8UnormSrgb",
            TextureFormat::Bgra8Unorm => "Bgra8Unorm",
            TextureFormat::Bgra8UnormSrgb => "Bgra8UnormSrgb",
            TextureFormat::Rgba16Float => "Rgba16Float",
        }
    }
}

/// Extent of a texture or of a copy, in texels.
#[derive(Debug, Clone, Copy, PartialEq, Eq, Structural)]
pub struct Extent3d {
    pub width: u32,
    pub height: u32,
    pub depth_or_array_layers: u32,
}

/// Dimensionality of a texture.
#[derive(Debug, Clone, Copy, PartialEq, Eq, Structural)]
pub enum TextureDimension {
    D1,
    D2,
    D3,
}

/// The ways a texture may be used, one flag each.
#[derive(Debug, Clone, Copy, PartialEq, Eq, Structural)]
pub struct TextureUsages {
    pub copy_src: bool,
    pub copy_dst: bool,
    pub texture_binding: bool,
    pub storage_binding: bool,
    pub render_attachment: bool,
}

/// What the host needs to create a texture.
#[derive(Debug, Clone, Copy, PartialEq, Eq, Structural)]
pub struct TextureDescriptor {
    pub size: Extent3d,
    pub mip_level_count: u32,
    pub sample_count: u32,
    pub dimension: TextureDimension,
    pub format: TextureFormat,
    pub usage: TextureUsages,
}

/// The ways a buffer may be used, one flag each.
#[derive(Debug, Clone, Copy, PartialEq, Eq, Structural)]
pub struct BufferUsages {
    pub map_read: bool,
    pub map_write: bool,
    pub copy_src: bool,
    pub copy_dst: bool,
}

/// What the host needs to create a buffer.
#[derive(Debug, Clone, Copy, PartialEq, Eq, Structural)]
pub struct BufferDescriptor {
    pub size: u64,
    pub usage: BufferUsages,
    pub mapped_at_creation: bool,
}

/// How presented frames are paced against the display.
#[derive(Debug, Clone, Copy, PartialEq, Eq, Structural)]
pub enum PresentMode {
    Immediate,
    Mailbox,
    Fifo,
}

/// Configuration of the presentation surface.
#[derive(Debug, Clone, Copy, PartialEq, Eq, Structural)]
pub struct SurfaceConfiguration {
    pub usage: TextureUsages,
    pub format: TextureFormat,
    pub width: u32,
    pub height: u32,
    pub present_mode: PresentMode,
}

/// Why the surface handed out no image for the next frame.
#[derive(Debug, Clone, Copy, PartialEq, Eq, Structural)]
pub enum SurfaceError {
    Timeout,
    Outdated,
    Lost,
    OutOfMemory,
}

/// Shader stages that can see a binding, one flag each.
#[derive(Debug, Clone, Copy, PartialEq, Eq, Structural)]
pub struct ShaderStages {
    pub vertex: bool,
    pub fragment: bool,
    pub compute: bool,
}

/// Kind of resource behind a binding.
#[derive(Debug, Clone, Copy, PartialEq, Eq, Structural)]
pub enum BindingType {
    /// A uniform buffer bound without a dynamic offset.
    UniformBuffer,
    /// A two-dimensional, single-sampled texture read as filterable floats.
    FilterableTexture,
    /// A two-dimensional storage texture of the given format, open for
    /// reading and writing.
    ReadWriteStorageTexture { format: TextureFormat },
}

/// One binding of a bind group layout.
#[derive(Debug, Clone, Copy, PartialEq, Eq, Structural)]
pub struct BindGroupLayoutEntry {
    pub binding: u32,
    pub visibility: ShaderStages,
    pub ty: BindingType,
}

/// The textures that render passes attach, resolve into or sample.
#[derive(Debug, Clone, Copy, PartialEq, Eq, Structural)]
pub enum TextureView {
    /// The offscreen high-dynamic-range target.
    HdrBackBuffer,
    /// The multisampled attachment in the surface's format.
    MultisampledBgra,
    /// The multisampled attachment in the capture format.
    MultisampledRgba,
    /// The single-sampled texture that screenshots are copied from.
    RgbTexture,
    /// The surface image acquired for the current frame.
    SurfaceFrame,
}

/// A bind group that holds one texture view at one binding.
#[derive(Debug, Clone, Copy, PartialEq, Eq, Structural)]
pub struct BindGroupDescriptor {
    pub layout: BindGroupLayoutEntry,
    pub binding: u32,
    pub resource: TextureView,
}

/// The bind groups that draw commands refer to.
#[derive(Debug, Clone, Copy, PartialEq, Eq, Structural)]
pub enum BindGroup {
    /// The per-frame global uniform.
    GlobalUniform,
    /// The offscreen target, for sampling.
    HdrRender,
    /// The offscreen target, for storage access.
    HdrStorage,
}

/// What happens to an attachment's contents when a pass begins.
#[derive(Debug, Clone, Copy, PartialEq, Eq, Structural)]
pub enum LoadOp {
    /// Clear to opaque black.
    ClearBlack,
    /// Keep what the attachment holds.
    Load,
}

/// Load and store behaviour of one attachment.
#[derive(Debug, Clone, Copy, PartialEq, Eq, Structural)]
pub struct Operations {
    pub load: LoadOp,
    pub store: bool,
}

/// One color attachment of a render pass: the view that is drawn into, with
/// the format and sample count of its texture, and the view that the samples
/// are resolved into, if any.
#[derive(Debug, Clone, Copy, PartialEq, Eq, Structural)]
pub struct RenderPassColorAttachment {
    pub view: TextureView,
    pub format: TextureFormat,
    pub sample_count: u32,
    pub resolve_target: Option<TextureView>,
    pub ops: Operations,
}

/// A command recorded into an open render pass.
#[derive(Debug, Clone, Copy, PartialEq, Eq, Structural)]
pub enum RenderCommand {
    /// Bind the pipeline that lives in the given slot.
    SetPipeline { slot: usize },
    /// Bind a bind group at an index of the pipeline layout.
    SetBindGroup { index: u32, group: BindGroup },
    /// Draw the vertices `first_vertex..end_vertex` for the instances
    /// `first_instance..end_instance`.
    Draw { first_vertex: u32, end_vertex: u32, first_instance: u32, end_instance: u32 },
}

/// A render pass: its color attachments and the commands recorded into it.
#[derive(Debug, PartialEq, Eq)]
pub struct RenderPass {
    pub color_attachments: Vec<RenderPassColorAttachment>,
    pub commands: Vec<RenderCommand>,
}

/// What the host needs to create a render pipeline.
#[derive(Debug, PartialEq, Eq)]
pub struct RenderPipelineDescriptor {
    /// One layout entry per bind group, in bind group order.
    pub bind_group_layouts: Vec<BindGroupLayoutEntry>,
    pub module: ShaderModuleId,
    pub vertex_entry_point: &'static str,
    pub fragment_entry_point: &'static str,
    /// One format per color target, in attachment order.
    pub targets: Vec<TextureFormat>,
    pub sample_count: u32,
}

/// A render pipeline descriptor as a mathematical value.
#[verifier::ext_equal]
pub struct RenderPipelineDescriptorView {
    pub bind_group_layouts: Seq<BindGroupLayoutEntry>,
    pub module: ShaderModuleId,
    pub vertex_entry_point: Seq<char>,
    pub fragment_entry_point: Seq<char>,
    pub targets: Seq<TextureFormat>,
    pub sample_count: u32,
}

impl View for RenderPipelineDescriptor {
    type V = RenderPipelineDescriptorView;

    open spec fn view(&self) -> RenderPipelineDescriptorView {
        RenderPipelineDescriptorView {
            bind_group_layouts: self.bind_group_layouts@,
            module: self.module,
            vertex_entry_point: self.vertex_entry_point@,
            fragment_entry_point: self.fragment_entry_point@,
            targets: self.targets@,
            sample_count: self.sample_count,
        }
    }
}

/// A render pass as a mathematical value.
#[verifier::ext_equal]
pub struct RenderPassView {
    pub color_attachments: Seq<RenderPassColorAttachment>,
    pub commands: Seq<RenderCommand>,
}

impl RenderPassView {
    /// The pass can run `pipeline`: the pipeline has one color target per
    /// attachment, of the attachment's format, and the sample counts agree.
    pub open spec fn accepts(self, pipeline: RenderPipelineDescriptorView) -> bool {
        &&& self.color_attachments.len() == pipeline.targets.len()
        &&& forall|i: int|
            0 <= i < self.color_attachments.len() ==> {
                &&& (#[trigger] self.color_attachments[i]).format == pipeline.targets[i]
                &&& self.color_attachments[i].sample_count == pipeline.sample_count
            }
    }
}

impl View for RenderPass {
    type V = RenderPassView;

    open spec fn view(&self) -> RenderPassView {
        RenderPassView { color_attachments: self.color_attachments@, commands: self.commands@ }
    }
}

/// Layout of image rows inside a buffer.
#[derive(Debug, Clone, Copy, PartialEq, Eq, Structural)]
pub struct ImageDataLayout {
    pub offset: u64,
    pub bytes_per_row: u32,
    pub rows_per_image: u32,
}

} // verus!
