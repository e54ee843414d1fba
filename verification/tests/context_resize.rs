use clearframe::config::{SurfaceCaps, TextureFormat};
use clearframe::context::{GraphicsContext, PhysicalSize};

fn caps_with_srgb() -> SurfaceCaps {
    SurfaceCaps {
        formats: vec![
            TextureFormat { code: 0, srgb: false },
            TextureFormat { code: 1, srgb: true },
        ],
        present_modes: vec![0, 1],
        alpha_modes: vec![0],
    }
}

fn context_800_600() -> GraphicsContext {
    GraphicsContext::create(caps_with_srgb(), PhysicalSize { width: 800, height: 600 })
}

#[test]
fn create_stores_window_size() {
    let ctx = context_800_600();
    assert_eq!(ctx.size, PhysicalSize { width: 800, height: 600 });
    assert_eq!(ctx.config.width, 800);
    assert_eq!(ctx.config.height, 600);
    assert_eq!(ctx.queue.submissions, 0);
    assert_eq!(ctx.queue.presents, 0);
}

#[test]
fn create_selects_srgb_format() {
    let ctx = context_800_600();
    assert!(ctx.config.format.srgb);
    assert_eq!(ctx.config.format.code, 1);
}

#[test]
fn resize_updates_configuration_dimensions() {
    let mut ctx = context_800_600();
    let reconfigure = ctx.resize(PhysicalSize { width: 1024, height: 768 });
    assert!(reconfigure);
    assert_eq!(ctx.config.width, 1024);
    assert_eq!(ctx.config.height, 768);
    assert_eq!(ctx.size, PhysicalSize { width: 1024, height: 768 });
}

#[test]
fn resize_keeps_negotiated_fields() {
    let mut ctx = context_800_600();
    let before = ctx.config;
    ctx.resize(PhysicalSize { width: 1024, height: 768 });
    assert_eq!(ctx.config.format, before.format);
    assert_eq!(ctx.config.usage, before.usage);
    assert_eq!(ctx.config.present_mode, before.present_mode);
    assert_eq!(ctx.config.alpha_mode, before.alpha_mode);
    assert_eq!(ctx.config.desired_maximum_frame_latency, before.desired_maximum_frame_latency);
}

#[test]
fn resize_to_zero_width_is_a_no_op() {
    let mut ctx = context_800_600();
    let reconfigure = ctx.resize(PhysicalSize { width: 0, height: 600 });
    assert!(!reconfigure);
    assert_eq!(ctx.config.width, 800);
    assert_eq!(ctx.config.height, 600);
    assert_eq!(ctx.size, PhysicalSize { width: 800, height: 600 });
}

#[test]
fn resize_to_zero_height_is_a_no_op() {
    let mut ctx = context_800_600();
    let reconfigure = ctx.resize(PhysicalSize { width: 800, height: 0 });
    assert!(!reconfigure);
    assert_eq!(ctx.config.height, 600);
}

#[test]
fn resize_to_zero_both_is_a_no_op() {
    let mut ctx = context_800_600();
    let reconfigure = ctx.resize(PhysicalSize { width: 0, height: 0 });
    assert!(!reconfigure);
    assert_eq!(ctx.size, PhysicalSize { width: 800, height: 600 });
}
