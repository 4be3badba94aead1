use vstd::prelude::*;
use crate::info::{native_color_type, ColorType, Error, ImageInfo};

verus! {

/// The texture formats an external consumer can bind.
#[derive(Clone, Copy, PartialEq, Eq, Structural, Debug)]
pub enum TextureFormat {
    /// Four unsigned bytes per texel.
    U8U8U8U8,
}

/// A non-owning view of the GPU texture that backs an image. It is valid only
/// while that image lives.
#[derive(Clone, Copy, PartialEq, Eq, Structural, Debug)]
pub struct TextureView {
    pub id: u32,
    pub format: TextureFormat,
    pub width: u32,
    pub height: u32,
}

/// The texture format matching a color type, if there is one.
pub open spec fn texture_format_of(ct: ColorType) -> Option<TextureFormat> {
    if ct == native_color_type() {
        Some(TextureFormat::U8U8U8U8)
    } else {
        None
    }
}

fn color_type_to_gl(ct: ColorType) -> (f: Option<TextureFormat>)
    ensures
        f == texture_format_of(ct),
{
    if ct.is_native() {
        Some(TextureFormat::U8U8U8U8)
    } else {
        None
    }
}

fn image_info_dim_to_gl(info: &ImageInfo) -> (d: (u32, u32))
    ensures
        d == (info.size.width as u32, info.size.height as u32),
{
    (#[verifier::truncate] (info.size.width as u32), #[verifier::truncate] (info.size.height as u32))
}

/// An immutable pixel snapshot, possibly resident on the GPU.
pub struct Image {
    handle: u64,
}

impl Image {
    #[verifier::type_invariant]
    spec fn non_null(self) -> bool {
        self.handle != 0
    }

    pub closed spec fn spec_handle(&self) -> u64 {
        self.handle
    }

    /// Takes ownership of a handle that a snapshot returned; a null handle
    /// means the snapshot failed.
    pub fn from_native(h: u64) -> (r: Result<Image, Error>)
        ensures
            h == 0 ==> r == Err::<Image, Error>(Error::Unknown),
            h != 0 ==> r.is_ok(),
            r matches Ok(i) ==> i.spec_handle() == h,
    {
        if h == 0 {
            Err(Error::Unknown)
        } else {
            Ok(Image { handle: h })
        }
    }

    /// The native handle, never null.
    pub fn handle(&self) -> (h: u64)
        ensures
            h == self.spec_handle(),
            h != 0,
    {
        proof { use_type_invariant(self); }
        self.handle
    }

    /// The view of the texture backing this image, given the backing handle
    /// that the backend reported (zero when the image is not on the GPU) and
    /// the image's description. There is none when the image is not on the
    /// GPU or its color type has no texture format.
    pub fn get_backing_texture_handle(&self, backing: u64, info: ImageInfo) -> (r: Option<TextureView>)
        ensures
            r.is_none() <==> backing == 0 || texture_format_of(info.color_type).is_none(),
            r matches Some(v) ==> {
                &&& Some(v.format) == texture_format_of(info.color_type)
                &&& v.id == backing as u32
                &&& v.width == info.size.width as u32
                &&& v.height == info.size.height as u32
            },
    {
        if backing == 0 {
            return None;
        }
        let (width, height) = image_info_dim_to_gl(&info);
        match color_type_to_gl(info.color_type) {
            Some(format) => Some(TextureView { id: #[verifier::truncate] (backing as u32), format, width, height }),
            None => None,
        }
    }

    /// Gives up the image, returning the handle whose single release is due.
    pub fn release(self) -> (h: u64)
        ensures
            h == self.spec_handle(),
    {
        self.handle
    }
}

} // verus!
