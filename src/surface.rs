use vstd::prelude::*;
use crate::info::{native_color_type, Error, ImageInfo};
use crate::resources::{Paint, Path};

verus! {

/// One pixel of a raster buffer in the native four-byte format.
pub type Pixel = (u8, u8, u8, u8);

/// A call that the layer asks the backend to make on a surface.
#[derive(Clone, Copy, PartialEq, Eq, Structural, Debug)]
pub enum SurfaceCall {
    /// Push the drawing state.
    Save { surface: u64 },
    /// Push the drawing state with an offscreen layer tinted by `alpha`,
    /// clipped to the given bounds when `bounded`, else to the whole surface.
    SaveLayerAlpha { surface: u64, alpha: u8, bounded: bool },
    /// Pop the drawing state.
    Restore { surface: u64 },
    /// Make every pending draw visible in the surface's pixels.
    Flush { surface: u64 },
    /// Drop the surface's contents before they are overwritten.
    Discard { surface: u64 },
    /// Fill the clip with a paint.
    DrawPaint { surface: u64, paint: u64 },
    /// Draw a path with a paint.
    DrawPath { surface: u64, paint: u64, path: u64 },
    /// Set the paint's text encoding to UTF-8.
    SetTextEncodingUtf8 { paint: u64 },
    /// Draw `len` bytes of UTF-8 text with a paint.
    DrawText { surface: u64, paint: u64, len: usize },
    /// Give the surface handle back to the backend.
    Unref { surface: u64 },
}

/// A drawable target, raster or GPU backed, owning one native handle.
/// A surface made by a GPU context records that context's handle; any
/// other surface records zero.
pub struct BasicSurface {
    handle: u64,
    context: u64,
}

impl BasicSurface {
    #[verifier::type_invariant]
    spec fn non_null(self) -> bool {
        self.handle != 0
    }

    pub closed spec fn spec_handle(&self) -> u64 {
        self.handle
    }

    /// The handle of the GPU context that made this surface, zero for none.
    pub closed spec fn spec_context(&self) -> u64 {
        self.context
    }

    /// Takes ownership of a handle that a surface factory returned; a null
    /// handle means the factory failed.
    pub fn from_native(h: u64) -> (r: Result<BasicSurface, Error>)
        ensures
            h == 0 ==> r == Err::<BasicSurface, Error>(Error::Unknown),
            h != 0 ==> r.is_ok(),
            r matches Ok(s) ==> s.spec_handle() == h && s.spec_context() == 0,
    {
        if h == 0 {
            Err(Error::Unknown)
        } else {
            Ok(BasicSurface { handle: h, context: 0 })
        }
    }

    /// Takes ownership of a handle that the GPU context `context` made.
    pub(crate) fn from_context(h: u64, context: u64) -> (r: Option<BasicSurface>)
        ensures
            h == 0 <==> r.is_none(),
            r matches Some(s) ==> s.spec_handle() == h && s.spec_context() == context,
    {
        if h == 0 {
            None
        } else {
            Some(BasicSurface { handle: h, context })
        }
    }

    /// The native handle, never null.
    #[verifier::when_used_as_spec(spec_handle)]
    pub fn handle(&self) -> (h: u64)
        ensures
            h == self.spec_handle(),
            h != 0,
    {
        proof { use_type_invariant(self); }
        self.handle
    }

    pub fn flush(&self) -> (c: SurfaceCall)
        ensures
            c == (SurfaceCall::Flush { surface: self.spec_handle() }),
    {
        SurfaceCall::Flush { surface: self.handle }
    }

    pub fn discard(&self) -> (c: SurfaceCall)
        ensures
            c == (SurfaceCall::Discard { surface: self.spec_handle() }),
    {
        SurfaceCall::Discard { surface: self.handle }
    }

    /// The call that fills the clip with `paint`. A draw never fails: one
    /// that is clipped away does nothing.
    pub fn draw_paint(&self, paint: &Paint) -> (c: SurfaceCall)
        ensures
            c == (SurfaceCall::DrawPaint { surface: self.spec_handle(), paint: paint.spec_handle() }),
    {
        SurfaceCall::DrawPaint { surface: self.handle, paint: paint.handle() }
    }

    /// The call that draws `path` with `paint`.
    pub fn draw_path(&self, paint: &Paint, path: &Path) -> (c: SurfaceCall)
        ensures
            c == (SurfaceCall::DrawPath {
                surface: self.spec_handle(),
                paint: paint.spec_handle(),
                path: path.spec_handle(),
            }),
    {
        SurfaceCall::DrawPath { surface: self.handle, paint: paint.handle(), path: path.handle() }
    }

    /// The calls that draw `text` with `paint`, in order. Drawing text sets
    /// the paint's text encoding to UTF-8 first; that change stays on the
    /// paint, so it is a call of its own rather than a hidden side effect.
    /// The position is added when the draw is made.
    pub fn draw_text(&self, paint: &Paint, text: &[u8]) -> (c: (SurfaceCall, SurfaceCall))
        ensures
            c == (
                SurfaceCall::SetTextEncodingUtf8 { paint: paint.spec_handle() },
                SurfaceCall::DrawText {
                    surface: self.spec_handle(),
                    paint: paint.spec_handle(),
                    len: text@.len() as usize,
                },
            ),
    {
        (
            SurfaceCall::SetTextEncodingUtf8 { paint: paint.handle() },
            SurfaceCall::DrawText { surface: self.handle, paint: paint.handle(), len: text.len() },
        )
    }

    /// Gives up the surface: the one call that releases its handle.
    pub fn release(self) -> (c: SurfaceCall)
        ensures
            c == (SurfaceCall::Unref { surface: self.spec_handle() }),
    {
        SurfaceCall::Unref { surface: self.handle }
    }
}

/// Whether a size can back a raster buffer: both sides non-negative and the
/// pixel count within `i32`, and the length of a row in bytes within `usize`.
pub open spec fn raster_size_ok(info: ImageInfo) -> bool {
    &&& info.size.width >= 0
    &&& info.size.height >= 0
    &&& info.size.width * info.size.height <= i32::MAX
    &&& info.size.width * 4 <= usize::MAX
}

/// The number of pixels of a raster buffer for `info`.
pub open spec fn pixel_count(info: ImageInfo) -> int {
    info.size.width * info.size.height
}

/// What the backend is asked for to build a raster surface over a buffer:
/// the buffer's description, the length of one of its rows in bytes, and how
/// many pixels it holds.
#[derive(Clone, Copy, PartialEq, Eq, Structural, Debug)]
pub struct RasterRequest {
    pub info: ImageInfo,
    pub row_bytes: usize,
    pub pixel_count: usize,
}

/// A zero-initialised pixel buffer sized for an image, ready for the backend
/// to draw into directly. Rows are packed: each is `width * 4` bytes.
pub struct PixelBuffer {
    info: ImageInfo,
    dest: Vec<Pixel>,
    row_bytes: usize,
}

impl PixelBuffer {
    pub closed spec fn spec_info(&self) -> ImageInfo {
        self.info
    }

    pub closed spec fn spec_pixels(&self) -> Seq<Pixel> {
        self.dest@
    }

    pub closed spec fn spec_row_bytes(&self) -> usize {
        self.row_bytes
    }

    /// Allocates the buffer for `info`. Only the native format can be drawn
    /// into directly: any other color type is refused before anything is
    /// allocated.
    pub fn for_info(info: ImageInfo) -> (r: Result<PixelBuffer, Error>)
        requires
            info.color_type == native_color_type() ==> raster_size_ok(info),
        ensures
            info.color_type != native_color_type() ==> r == Err::<PixelBuffer, Error>(Error::ColorType),
            info.color_type == native_color_type() ==> r.is_ok(),
            r matches Ok(b) ==> {
                &&& b.spec_info() == info
                &&& b.spec_pixels().len() == pixel_count(info)
                &&& forall|i: int| 0 <= i < b.spec_pixels().len() ==> #[trigger] b.spec_pixels()[i] == (0u8, 0u8, 0u8, 0u8)
                &&& b.spec_row_bytes() == info.size.width * 4
            },
    {
        if !info.color_type.is_native() {
            return Err(Error::ColorType);
        }
        let w = info.size.width;
        let h = info.size.height;
        proof {
            assert(0 <= w * h <= i32::MAX) by (nonlinear_arith)
                requires raster_size_ok(info), w == info.size.width, h == info.size.height;
        }
        let n: usize = (w * h) as usize;
        let mut dest: Vec<Pixel> = Vec::with_capacity(n);
        let mut i: usize = 0;
        while i < n
            invariant
                i <= n,
                dest@.len() == i,
                forall|j: int| 0 <= j < i ==> #[trigger] dest@[j] == (0u8, 0u8, 0u8, 0u8),
            decreases n - i,
        {
            dest.push((0u8, 0u8, 0u8, 0u8));
            i = i + 1;
        }
        let row_bytes: usize = (w as usize) * 4;
        Ok(PixelBuffer { info, dest, row_bytes })
    }

    /// The description the buffer was sized for.
    pub fn info(&self) -> (i: ImageInfo)
        ensures
            i == self.spec_info(),
    {
        self.info
    }

    /// The length in bytes of one row.
    pub fn row_bytes(&self) -> (n: usize)
        ensures
            n == self.spec_row_bytes(),
    {
        self.row_bytes
    }

    /// The pixels, for the backend to draw into. They are handed out as a
    /// slice, so the buffer can be written but never resized or moved.
    pub fn pixels_mut(&mut self) -> (p: &mut [Pixel])
        ensures
            p@ == old(self).spec_pixels(),
            final(self).spec_pixels() == final(p)@,
            final(self).spec_info() == old(self).spec_info(),
            final(self).spec_row_bytes() == old(self).spec_row_bytes(),
    {
        self.dest.as_mut_slice()
    }

    /// The request for a raster surface drawing straight into this buffer:
    /// its description, its row length in bytes and its number of pixels.
    pub fn request(&self) -> (q: RasterRequest)
        ensures
            q == (RasterRequest {
                info: self.spec_info(),
                row_bytes: self.spec_row_bytes(),
                pixel_count: self.spec_pixels().len() as usize,
            }),
    {
        RasterRequest { info: self.info, row_bytes: self.row_bytes, pixel_count: self.dest.len() }
    }
}

/// A CPU-backed surface together with the pixel buffer it draws into.
pub struct RasterizedSurface {
    surface: BasicSurface,
    info: ImageInfo,
    dest: Vec<Pixel>,
}

impl RasterizedSurface {
    pub closed spec fn spec_handle(&self) -> u64 {
        self.surface.handle
    }

    pub closed spec fn spec_pixels(&self) -> Seq<Pixel> {
        self.dest@
    }

    pub closed spec fn spec_info(&self) -> ImageInfo {
        self.info
    }

    /// Joins a buffer with the handle of the surface the backend made over it.
    /// A null handle means the backend failed; the buffer is then dropped.
    pub fn new(buffer: PixelBuffer, h: u64) -> (r: Result<RasterizedSurface, Error>)
        ensures
            h == 0 ==> r == Err::<RasterizedSurface, Error>(Error::Unknown),
            h != 0 ==> r.is_ok(),
            r matches Ok(s) ==> {
                &&& s.spec_handle() == h
                &&& s.spec_pixels() == buffer.spec_pixels()
                &&& s.spec_info() == buffer.spec_info()
            },
    {
        match BasicSurface::from_native(h) {
            Ok(surface) => Ok(RasterizedSurface { surface, info: buffer.info, dest: buffer.dest }),
            Err(e) => Err(e),
        }
    }

    /// The description of the pixels drawn into.
    pub fn info(&self) -> (i: ImageInfo)
        ensures
            i == self.spec_info(),
    {
        self.info
    }

    /// The surface drawn into.
    pub fn basic_surface(&self) -> (s: &BasicSurface)
        ensures
            s.spec_handle() == self.spec_handle(),
    {
        &self.surface
    }

    /// Gives up the surface and hands back its pixels. The calls returned are
    /// to be made in order before the pixels are read: a flush, so that every
    /// pending draw is in the buffer, then the one release of the handle.
    pub fn unwrap(self) -> (r: (Vec<SurfaceCall>, Vec<Pixel>))
        ensures
            r.0@ == seq![
                SurfaceCall::Flush { surface: self.spec_handle() },
                SurfaceCall::Unref { surface: self.spec_handle() },
            ],
            r.1@ == self.spec_pixels(),
    {
        let RasterizedSurface { surface, info: _, dest } = self;
        let mut calls: Vec<SurfaceCall> = Vec::new();
        calls.push(surface.flush());
        calls.push(surface.release());
        (calls, dest)
    }
}

} // verus!
