use vstd::prelude::*;

verus! {

/// The pixel formats of the backend.
#[derive(Clone, Copy, PartialEq, Eq, Structural, Debug)]
pub enum ColorType {
    Unknown,
    Alpha8,
    Rgb565,
    Argb4444,
    Rgba8888,
    Bgra8888,
    Index8,
    Gray8,
}

/// The backend's native 32-bit raster format, four bytes per pixel. The
/// backend picks it per platform from its byte order; this layer targets the
/// little-endian builds, where it is blue, green, red, alpha in memory.
pub open spec fn native_color_type() -> ColorType {
    ColorType::Bgra8888
}

impl ColorType {
    /// The backend's native 32-bit raster format.
    pub fn native() -> (c: ColorType)
        ensures
            c == native_color_type(),
    {
        ColorType::Bgra8888
    }

    /// Whether this is the backend's native raster format.
    pub fn is_native(&self) -> (b: bool)
        ensures
            b == (*self == native_color_type()),
    {
        match self {
            ColorType::Bgra8888 => true,
            _ => false,
        }
    }
}

impl Default for ColorType {
    fn default() -> (c: ColorType)
        ensures
            c == native_color_type(),
    {
        ColorType::native()
    }
}

/// How the alpha channel of a pixel is to be read.
#[derive(Clone, Copy, PartialEq, Eq, Structural, Debug)]
pub enum AlphaType {
    Unknown,
    Opaque,
    Premul,
    Unpremul,
}

impl Default for AlphaType {
    fn default() -> (a: AlphaType)
        ensures
            a == AlphaType::Premul,
    {
        AlphaType::Premul
    }
}

/// The color space that pixel values are in.
#[derive(Clone, Copy, PartialEq, Eq, Structural, Debug)]
pub enum ColorProfile {
    Linear,
    SRgb,
}

impl Default for ColorProfile {
    fn default() -> (p: ColorProfile)
        ensures
            p == ColorProfile::Linear,
    {
        ColorProfile::Linear
    }
}

/// A width and a height in pixels.
#[derive(Clone, Copy, PartialEq, Eq, Structural, Debug)]
pub struct ISize {
    pub width: i32,
    pub height: i32,
}

impl ISize {
    pub fn new(width: i32, height: i32) -> (s: ISize)
        ensures
            s.width == width,
            s.height == height,
    {
        ISize { width, height }
    }
}

/// The description of a pixel buffer: its size and pixel format.
#[derive(Clone, Copy, PartialEq, Eq, Structural, Debug)]
pub struct ImageInfo {
    pub size: ISize,
    pub color_type: ColorType,
    pub alpha_type: AlphaType,
    pub color_profile: ColorProfile,
}

impl ImageInfo {
    pub fn new(size: ISize, color_type: ColorType, alpha_type: AlphaType, color_profile: ColorProfile) -> (i: ImageInfo)
        ensures
            i == (ImageInfo { size, color_type, alpha_type, color_profile }),
    {
        ImageInfo { size, color_type, alpha_type, color_profile }
    }
}

impl Default for ImageInfo {
    /// An empty image in the native format.
    fn default() -> (i: ImageInfo)
        ensures
            i.size == (ISize { width: 0, height: 0 }),
            i.color_type == native_color_type(),
            i.alpha_type == AlphaType::Premul,
            i.color_profile == ColorProfile::Linear,
    {
        ImageInfo {
            size: ISize { width: 0, height: 0 },
            color_type: ColorType::native(),
            alpha_type: AlphaType::Premul,
            color_profile: ColorProfile::Linear,
        }
    }
}

/// Why a wrapper could not be constructed.
#[derive(Clone, Copy, PartialEq, Eq, Structural, Debug)]
pub enum Error {
    /// The backend handed back no handle.
    Unknown,
    /// The pixel format is not one this construction path accepts.
    ColorType,
}

} // verus!
