//! A verified ownership layer for a native 2D rendering backend: plain-value
//! models of colors, image descriptions and fill rules, the bookkeeping that
//! guarantees every native handle is released exactly once, the save/restore
//! discipline of a canvas, and the decisions around raster and GPU surfaces.
pub mod color;
pub mod fill;
pub mod gr;
pub mod handles;
pub mod image;
pub mod info;
pub mod resources;
pub mod save;
pub mod surface;

pub use color::Color;
pub use fill::PathFillType;
pub use gr::{Context, FlushFlags, GlInterface, GrCall};
pub use handles::HandleTable;
pub use image::{Image, TextureFormat, TextureView};
pub use info::{AlphaType, ColorProfile, ColorType, Error, ISize, ImageInfo};
pub use resources::{Paint, Path, Typeface};
pub use save::{SaveLevel, SaveStack};
pub use surface::{BasicSurface, Pixel, PixelBuffer, RasterizedSurface, SurfaceCall};
