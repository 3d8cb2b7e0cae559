//! Screenshot capture: the staging buffer's size policy and the layout of the
//! texture-to-buffer copy.

use vstd::prelude::*;
use crate::gpu::{BufferDescriptor, BufferUsages, Extent3d, ImageDataLayout, TextureView};
use crate::utils::{
    lemma_padded_stride_is_padded, linear_size, padded_stride, stride_fits, unpadded_stride,
    ImageDimentions,
};

verus! {

/// Row alignment, in bytes, that the graphics API demands of buffers in
/// texture copies.
pub open spec fn row_alignment() -> nat {
    256
}

/// Reads `wgpu::COPY_BYTES_PER_ROW_ALIGNMENT`, the row alignment that wgpu
/// demands of the buffer side of a texture copy.  Trusted: the constant is
/// 256.
#[verifier::external_body]
fn copy_bytes_per_row_alignment() -> (align: u32)
    ensures
        align == row_alignment(),
{
    wgpu::COPY_BYTES_PER_ROW_ALIGNMENT
}

/// The staging buffer of `size` bytes: readable by the host once mapped, and
/// a destination of copies.
pub open spec fn host_buffer(size: u64) -> BufferDescriptor {
    BufferDescriptor {
        size,
        usage: BufferUsages { map_read: true, map_write: false, copy_src: false, copy_dst: true },
        mapped_at_creation: false,
    }
}

/// Describes the staging buffer that holds exactly one image laid out as
/// `image_dimentions`.
pub fn create_host_buffer(image_dimentions: &ImageDimentions) -> (buffer: BufferDescriptor)
    ensures
        buffer == host_buffer(image_dimentions.spec_linear_size() as u64),
        buffer.size == image_dimentions.spec_linear_size(),
{
    BufferDescriptor {
        size: image_dimentions.linear_size(),
        usage: BufferUsages { map_read: true, map_write: false, copy_src: false, copy_dst: true },
        mapped_at_creation: false,
    }
}

/// The copy of one frame from a texture into the staging buffer, and the
/// range of the buffer that the host maps and reads afterwards.
#[derive(Debug, Clone, Copy, PartialEq, Eq, Structural)]
pub struct FrameCopy {
    pub source: TextureView,
    pub copy_size: Extent3d,
    pub layout: ImageDataLayout,
    pub mapped_start: u64,
    pub mapped_end: u64,
}

/// The capture context: the layout of the current output and the staging
/// buffer that frames are read back through.
#[derive(Debug, Clone, Copy, PartialEq, Eq, Structural)]
pub struct ScreenshotCtx {
    pub image_dimentions: ImageDimentions,
    pub data: BufferDescriptor,
}

impl ScreenshotCtx {
    /// The layout is row-aligned as copies demand, and the staging buffer
    /// holds at least one image of that layout.
    pub open spec fn wf(&self) -> bool {
        &&& self.image_dimentions.wf(row_alignment())
        &&& self.data == host_buffer(self.data.size)
        &&& self.data.size >= self.image_dimentions.spec_linear_size()
    }

    /// Bytes that the staging buffer can hold.
    pub open spec fn capacity(&self) -> nat {
        self.data.size as nat
    }

    /// Tells whether a layout exists for an output `width` texels wide, that
    /// is, whether `new` and `resize` accept the width.
    pub fn fits(width: u32) -> (fits: bool)
        ensures
            fits == (padded_stride(width as nat, row_alignment()) <= u32::MAX),
    {
        stride_fits(width, copy_bytes_per_row_alignment())
    }

    /// Sets capture up for an output of `width` by `height`, with a staging
    /// buffer of exactly the size of one image.
    pub fn new(width: u32, height: u32) -> (ctx: Self)
        requires
            padded_stride(width as nat, row_alignment()) <= u32::MAX,
        ensures
            ctx.wf(),
            ctx.image_dimentions.width == width,
            ctx.image_dimentions.height == height,
            ctx.capacity() == linear_size(width as nat, height as nat, row_alignment()),
    {
        let image_dimentions = ImageDimentions::new(width, height, copy_bytes_per_row_alignment());
        let data = create_host_buffer(&image_dimentions);
        Self { image_dimentions, data }
    }

    /// Follows the output to a new size.
    ///
    /// The layout is recomputed.  Where one image of the new layout does not
    /// fit the staging buffer, the buffer is replaced by one of exactly the
    /// new image's size, and its description is returned for the host to
    /// allocate.  Otherwise the buffer is kept and nothing is returned.
    pub fn resize(&mut self, width: u32, height: u32) -> (reallocated: Option<BufferDescriptor>)
        requires
            old(self).wf(),
            padded_stride(width as nat, row_alignment()) <= u32::MAX,
        ensures
            final(self).wf(),
            final(self).image_dimentions.width == width,
            final(self).image_dimentions.height == height,
            linear_size(width as nat, height as nat, row_alignment()) > old(self).capacity() ==> {
                &&& final(self).capacity() == linear_size(
                    width as nat,
                    height as nat,
                    row_alignment(),
                )
                &&& reallocated == Some(final(self).data)
            },
            linear_size(width as nat, height as nat, row_alignment()) <= old(self).capacity() ==> {
                &&& final(self).data == old(self).data
                &&& reallocated.is_none()
            },
    {
        let new_dims = ImageDimentions::new(width, height, copy_bytes_per_row_alignment());
        let mut reallocated: Option<BufferDescriptor> = None;
        if new_dims.linear_size() > self.data.size {
            self.data = create_host_buffer(&new_dims);
            reallocated = Some(self.data);
        }
        self.image_dimentions = new_dims;
        reallocated
    }

    /// Plans the capture of one frame from `src_texture`.
    ///
    /// The copy takes exactly `width` by `height` texels and lays them out
    /// with the padded row stride; the host then maps and reads the first
    /// `linear_size` bytes of the staging buffer.  The row stride is a
    /// non-zero multiple of the row alignment, and both the copied rows and
    /// the mapped range lie inside the staging buffer.
    pub fn capture_frame(&self, src_texture: TextureView) -> (capture: (FrameCopy, ImageDimentions))
        requires
            self.wf(),
            self.image_dimentions.width > 0,
            self.image_dimentions.height > 0,
        ensures
            capture.1 == self.image_dimentions,
            capture.0.source == src_texture,
            capture.0.copy_size == (Extent3d {
                width: self.image_dimentions.width,
                height: self.image_dimentions.height,
                depth_or_array_layers: 1,
            }),
            capture.0.layout == (ImageDataLayout {
                offset: 0,
                bytes_per_row: self.image_dimentions.padded_bytes_per_row,
                rows_per_image: self.image_dimentions.height,
            }),
            capture.0.mapped_start == 0,
            capture.0.mapped_end == self.image_dimentions.spec_linear_size(),
            capture.0.layout.bytes_per_row > 0,
            capture.0.layout.bytes_per_row as nat % row_alignment() == 0,
            capture.0.layout.bytes_per_row * (self.image_dimentions.height - 1) + unpadded_stride(
                self.image_dimentions.width as nat,
            ) <= self.capacity(),
            capture.0.mapped_end <= self.capacity(),
    {
        proof {
            lemma_padded_stride_is_padded(self.image_dimentions.width as nat, row_alignment());
            let stride = self.image_dimentions.padded_bytes_per_row as int;
            let height = self.image_dimentions.height as int;
            assert(stride * (height - 1) + stride == stride * height) by (nonlinear_arith);
        }
        let copy_size = Extent3d {
            width: self.image_dimentions.width,
            height: self.image_dimentions.height,
            depth_or_array_layers: 1,
        };
        let layout = ImageDataLayout {
            offset: 0,
            bytes_per_row: self.image_dimentions.padded_bytes_per_row,
            rows_per_image: self.image_dimentions.height,
        };
        let copy = FrameCopy {
            source: src_texture,
            copy_size,
            layout,
            mapped_start: 0,
            mapped_end: self.image_dimentions.linear_size(),
        };
        (copy, self.image_dimentions)
    }
}

} // verus!
