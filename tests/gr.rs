use skia::{AlphaType, ColorProfile, ColorType, Context, FlushFlags, GlInterface, GrCall, ISize, Image, ImageInfo, SurfaceCall, TextureFormat};

#[test]
fn gl_interface_none_when_resolution_fails() {
    assert!(GlInterface::new_native(0).is_none());
    assert_eq!(GlInterface::new_native(3).unwrap().handle(), 3);
}

#[test]
fn context_consumes_interface() {
    let iface = GlInterface::new_native(3).unwrap();
    let (ctx, call) = Context::new_gl(iface, 11);
    assert_eq!(call, GrCall::ReleaseInterface { iface: 3 });
    let mut ctx = ctx.unwrap();
    assert_eq!(ctx.flush(true), GrCall::Flush { context: 11, flags: FlushFlags::Discard });
    assert_eq!(ctx.flush(false), GrCall::Flush { context: 11, flags: FlushFlags::Plain });
    let info = ImageInfo::new(ISize::new(16, 8), ColorType::Rgba8888, AlphaType::Opaque, ColorProfile::SRgb);
    assert_eq!(
        ctx.create_budgeted_offscreen_surface(info),
        GrCall::NewBudgetedSurface { context: 11, info }
    );
    assert!(ctx.offscreen_surface_from_native(0).is_none());
    assert_eq!(ctx.live_surfaces(), 0);
    let surface = ctx.offscreen_surface_from_native(21).unwrap();
    assert_eq!(surface.handle(), 21);
    assert_eq!(ctx.live_surfaces(), 1);
    assert_eq!(ctx.release_surface(surface), SurfaceCall::Unref { surface: 21 });
    assert_eq!(ctx.live_surfaces(), 0);
    assert_eq!(ctx.release(), GrCall::ReleaseContext { context: 11 });
    let (none, _) = Context::new_gl(GlInterface::new_native(4).unwrap(), 0);
    assert!(none.is_none());
}

#[test]
fn backing_texture_needs_gpu_and_native_format() {
    let img = Image::from_native(8).unwrap();
    let mut info = ImageInfo::default();
    info.size = ISize::new(640, 480);
    assert!(img.get_backing_texture_handle(0, info).is_none());
    let v = img.get_backing_texture_handle(31, info).unwrap();
    assert_eq!((v.id, v.width, v.height, v.format), (31, 640, 480, TextureFormat::U8U8U8U8));
    info.color_type = ColorType::Rgba8888;
    assert!(img.get_backing_texture_handle(31, info).is_none());
    assert_eq!(img.release(), 8);
}
