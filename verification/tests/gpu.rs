use raytrace_gl::gpu::{Image2D, UniformBuffer};

const RGBA32F: u32 = 0x8814;

#[test]
fn image_records_its_storage() {
    let img = Image2D::new(7, 800, 600, RGBA32F);
    assert_eq!((img.id(), img.width(), img.height(), img.format()), (7, 800, 600, RGBA32F));
}

#[test]
fn image_resize_same_size_keeps_storage() {
    let img = Image2D::new(7, 800, 600, RGBA32F);
    assert_eq!(img.resize(800, 600), None);
}

#[test]
fn image_resize_new_size_keeps_format() {
    let img = Image2D::new(7, 800, 600, RGBA32F);
    assert_eq!(img.resize(1024, 600), Some((1024, 600, RGBA32F)));
    assert_eq!(img.resize(800, 601), Some((800, 601, RGBA32F)));
    let (w, h, f) = img.resize(640, 480).unwrap();
    let replaced = Image2D::new(8, w, h, f);
    assert_eq!(replaced.resize(640, 480), None);
}

#[test]
fn uniform_buffer_fits() {
    let ubo = UniformBuffer::new(3, 64);
    assert_eq!((ubo.id(), ubo.size()), (3, 64));
    assert!(ubo.fits(0));
    assert!(ubo.fits(64));
    assert!(!ubo.fits(65));
}
