use shader_host::context::screenshot::{create_host_buffer, FrameCopy, ScreenshotCtx};
use shader_host::gpu::{BufferDescriptor, BufferUsages, Extent3d, ImageDataLayout, TextureView};
use shader_host::utils::ImageDimentions;

fn staging(size: u64) -> BufferDescriptor {
    BufferDescriptor {
        size,
        usage: BufferUsages { map_read: true, map_write: false, copy_src: false, copy_dst: true },
        mapped_at_creation: false,
    }
}

#[test]
fn capture_starts_with_a_buffer_of_one_image() {
    let ctx = ScreenshotCtx::new(5, 2);
    assert_eq!(ctx.image_dimentions, ImageDimentions::new(5, 2, 256));
    assert_eq!(ctx.image_dimentions.padded_bytes_per_row, 256);
    assert_eq!(ctx.data, staging(512));
}

#[test]
fn host_buffer_is_mappable_copy_destination() {
    let dims = ImageDimentions::new(1920, 1080, 256);
    assert_eq!(create_host_buffer(&dims), staging(7680 * 1080));
}

#[test]
fn resize_within_capacity_keeps_the_buffer() {
    let mut ctx = ScreenshotCtx::new(640, 480);
    let before = ctx.data;
    assert_eq!(ctx.resize(640, 480), None);
    assert_eq!(ctx.resize(320, 240), None);
    assert_eq!(ctx.resize(64, 480), None);
    assert_eq!(ctx.data, before);
    assert_eq!(ctx.image_dimentions, ImageDimentions::new(64, 480, 256));
}

#[test]
fn resize_beyond_capacity_reallocates_once() {
    let mut ctx = ScreenshotCtx::new(640, 480);
    let reallocated = ctx.resize(1920, 1080);
    assert_eq!(reallocated, Some(staging(7680 * 1080)));
    assert_eq!(ctx.data, staging(7680 * 1080));
    assert_eq!(ctx.image_dimentions, ImageDimentions::new(1920, 1080, 256));
    assert_eq!(ctx.resize(1920, 1080), None);
}

#[test]
fn growing_back_after_a_shrink_reuses_the_buffer() {
    let mut ctx = ScreenshotCtx::new(1024, 768);
    let mut allocations = 0;
    for (width, height) in [(512, 384), (1024, 768), (800, 600), (1024, 768)] {
        if ctx.resize(width, height).is_some() {
            allocations += 1;
        }
    }
    assert_eq!(allocations, 0);
    assert_eq!(ctx.data, staging(4096 * 768));
    for (width, height) in [(1025, 768), (1025, 768), (1025, 769), (1, 1)] {
        if ctx.resize(width, height).is_some() {
            allocations += 1;
        }
    }
    assert_eq!(allocations, 2);
    assert_eq!(ctx.data, staging(4352 * 769));
}

#[test]
fn one_byte_over_capacity_counts_as_growth() {
    let mut ctx = ScreenshotCtx::new(64, 4);
    assert_eq!(ctx.data.size, 1024);
    assert_eq!(ctx.resize(128, 2), None);
    assert_eq!(ctx.resize(65, 2), None);
    assert_eq!(ctx.resize(65, 3), Some(staging(1536)));
}

#[test]
fn capture_copies_the_whole_image_with_padded_rows() {
    let ctx = ScreenshotCtx::new(5, 2);
    let (copy, dims) = ctx.capture_frame(TextureView::RgbTexture);
    assert_eq!(dims, ImageDimentions::new(5, 2, 256));
    assert_eq!(
        copy,
        FrameCopy {
            source: TextureView::RgbTexture,
            copy_size: Extent3d { width: 5, height: 2, depth_or_array_layers: 1 },
            layout: ImageDataLayout { offset: 0, bytes_per_row: 256, rows_per_image: 2 },
            mapped_start: 0,
            mapped_end: 512,
        }
    );
}

#[test]
fn capture_after_a_shrink_stays_inside_the_buffer() {
    let mut ctx = ScreenshotCtx::new(1920, 1080);
    ctx.resize(100, 50);
    let (copy, dims) = ctx.capture_frame(TextureView::RgbTexture);
    assert_eq!(dims.padded_bytes_per_row, 512);
    assert_eq!(copy.layout, ImageDataLayout { offset: 0, bytes_per_row: 512, rows_per_image: 50 });
    assert_eq!(copy.mapped_end, 512 * 50);
    assert!(copy.mapped_end <= ctx.data.size);
    assert_eq!(copy.layout.bytes_per_row % 256, 0);
}

#[test]
fn capture_width_limit() {
    assert!(ScreenshotCtx::fits(0));
    assert!(ScreenshotCtx::fits(8192));
    assert!(ScreenshotCtx::fits(1_073_741_760));
    assert!(!ScreenshotCtx::fits(1_073_741_761));
    assert!(!ScreenshotCtx::fits(u32::MAX));
}
