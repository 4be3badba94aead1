use skia::{AlphaType, BasicSurface, ColorProfile, ColorType, Error, HandleTable, ISize, ImageInfo, Paint, Path, PixelBuffer, RasterizedSurface, SurfaceCall};

fn info(w: i32, h: i32, ct: ColorType) -> ImageInfo {
    ImageInfo::new(ISize::new(w, h), ct, AlphaType::Premul, ColorProfile::Linear)
}

#[test]
fn raster_native_format_gives_zeroed_buffer() {
    let b = PixelBuffer::for_info(info(3, 2, ColorType::default())).unwrap();
    assert_eq!(b.row_bytes(), 12);
    let q = b.request();
    assert_eq!((q.info, q.row_bytes, q.pixel_count), (info(3, 2, ColorType::default()), 12, 6));
    let s = RasterizedSurface::new(b, 0x1000).unwrap();
    let (calls, pixels) = s.unwrap();
    assert_eq!(pixels.len(), 6);
    assert!(pixels.iter().all(|p| *p == (0, 0, 0, 0)));
    assert_eq!(calls.len(), 2);
}

#[test]
fn raster_other_format_is_color_type_error() {
    assert!(matches!(PixelBuffer::for_info(info(3, 2, ColorType::Rgb565)), Err(Error::ColorType)));
    assert!(matches!(PixelBuffer::for_info(info(3, 2, ColorType::Alpha8)), Err(Error::ColorType)));
    assert!(matches!(PixelBuffer::for_info(info(-3, 2, ColorType::Gray8)), Err(Error::ColorType)));
}

#[test]
fn raster_null_surface_is_unknown_error() {
    let b = PixelBuffer::for_info(info(1, 1, ColorType::native())).unwrap();
    assert!(matches!(RasterizedSurface::new(b, 0), Err(Error::Unknown)));
}

#[test]
fn raster_unwrap_flushes_before_release() {
    let mut b = PixelBuffer::for_info(info(2, 2, ColorType::native())).unwrap();
    b.pixels_mut()[3] = (1, 2, 3, 4);
    let s = RasterizedSurface::new(b, 77).unwrap();
    assert_eq!(s.basic_surface().handle(), 77);
    assert_eq!(s.info(), info(2, 2, ColorType::native()));
    let (calls, pixels) = s.unwrap();
    assert_eq!(calls, vec![SurfaceCall::Flush { surface: 77 }, SurfaceCall::Unref { surface: 77 }]);
    assert_eq!(pixels[3], (1, 2, 3, 4));
}

#[test]
fn empty_raster_is_allowed() {
    let d = ImageInfo::default();
    assert_eq!(d.size, ISize::new(0, 0));
    let b = PixelBuffer::for_info(d).unwrap();
    assert_eq!(b.row_bytes(), 0);
    assert_eq!(b.info(), d);
}

#[test]
fn draw_calls_name_their_handles() {
    let mut t = HandleTable::new();
    let paint = Paint::adopt(&mut t, 2).unwrap();
    let path = Path::adopt(&mut t, 3).unwrap();
    let s = BasicSurface::from_native(1).unwrap();
    assert_eq!(s.draw_paint(&paint), SurfaceCall::DrawPaint { surface: 1, paint: 2 });
    assert_eq!(s.draw_path(&paint, &path), SurfaceCall::DrawPath { surface: 1, paint: 2, path: 3 });
    assert_eq!(s.discard(), SurfaceCall::Discard { surface: 1 });
    assert_eq!(s.release(), SurfaceCall::Unref { surface: 1 });
}

#[test]
fn draw_text_sets_utf8_encoding_first() {
    let mut t = HandleTable::new();
    let paint = Paint::adopt(&mut t, 4).unwrap();
    let s = BasicSurface::from_native(6).unwrap();
    let (first, second) = s.draw_text(&paint, "héllo".as_bytes());
    assert_eq!(first, SurfaceCall::SetTextEncodingUtf8 { paint: 4 });
    assert_eq!(second, SurfaceCall::DrawText { surface: 6, paint: 4, len: 6 });
}
