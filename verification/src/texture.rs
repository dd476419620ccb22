//! 2D texture handles and their pixel formats.

use vstd::prelude::*;

verus! {

/// Pixel data format of a texture or a render buffer (memory layout of each pixel), with the
/// variants of `fna3d::SurfaceFormat`.
#[derive(Clone, Copy, Debug, PartialEq, Eq, Structural, Hash)]
pub enum SurfaceFormat {
    Color,
    Bgr565,
    Bgra5551,
    Bgra4444,
    Dxt1,
    Dxt3,
    Dxt5,
    NormalizedByte2,
    NormalizedByte4,
    Rgba1010102,
    Rg32,
    Rgba64,
    Alpha8,
    Single,
    Vector2,
    Vector4,
    HalfSingle,
    HalfVector2,
    HalfVector4,
    HdrBlendable,
    ColorBgraExt,
}

/// The formats that a render target supports (OpenGL 3.0, section 3.9.1, "Required Texture
/// Formats").
pub open spec fn is_render_target_format(fmt: SurfaceFormat) -> bool {
    match fmt {
        SurfaceFormat::Color | SurfaceFormat::Rgba1010102 | SurfaceFormat::Rg32
        | SurfaceFormat::Rgba64 | SurfaceFormat::Single | SurfaceFormat::Vector2
        | SurfaceFormat::Vector4 | SurfaceFormat::HalfSingle | SurfaceFormat::HalfVector2
        | SurfaceFormat::HalfVector4 | SurfaceFormat::HdrBlendable => true,
        _ => false,
    }
}

/// Whether `fmt` is one of the render target formats.
pub fn supports_render_target(fmt: SurfaceFormat) -> (b: bool)
    ensures
        b == is_render_target_format(fmt),
{
    match fmt {
        SurfaceFormat::Color | SurfaceFormat::Rgba1010102 | SurfaceFormat::Rg32
        | SurfaceFormat::Rgba64 | SurfaceFormat::Single | SurfaceFormat::Vector2
        | SurfaceFormat::Vector4 | SurfaceFormat::HalfSingle | SurfaceFormat::HalfVector2
        | SurfaceFormat::HalfVector4 | SurfaceFormat::HdrBlendable => true,
        _ => false,
    }
}

/// The render-target formats are exactly the eleven formats OpenGL 3.0 requires for
/// renderbuffers: a render target is created with any one of them as asked, and with
/// `Color` for every other format; a plain texture is always `Color`.
pub proof fn lemma_render_target_formats(fmt: SurfaceFormat)
    ensures
        is_render_target_format(fmt) <==> {
            ||| fmt == SurfaceFormat::Color
            ||| fmt == SurfaceFormat::Rgba1010102
            ||| fmt == SurfaceFormat::Rg32
            ||| fmt == SurfaceFormat::Rgba64
            ||| fmt == SurfaceFormat::Single
            ||| fmt == SurfaceFormat::Vector2
            ||| fmt == SurfaceFormat::Vector4
            ||| fmt == SurfaceFormat::HalfSingle
            ||| fmt == SurfaceFormat::HalfVector2
            ||| fmt == SurfaceFormat::HalfVector4
            ||| fmt == SurfaceFormat::HdrBlendable
        },
        !is_render_target_format(fmt) <==> {
            ||| fmt == SurfaceFormat::Bgr565
            ||| fmt == SurfaceFormat::Bgra5551
            ||| fmt == SurfaceFormat::Bgra4444
            ||| fmt == SurfaceFormat::Dxt1
            ||| fmt == SurfaceFormat::Dxt3
            ||| fmt == SurfaceFormat::Dxt5
            ||| fmt == SurfaceFormat::NormalizedByte2
            ||| fmt == SurfaceFormat::NormalizedByte4
            ||| fmt == SurfaceFormat::Alpha8
            ||| fmt == SurfaceFormat::ColorBgraExt
        },
{
}

#[derive(Clone, Copy, Debug, PartialEq, Eq, Structural)]
pub enum TextureKind {
    Texture,
    RenderTarget,
}

/// The format a texture is created with: a render target keeps a format it supports;
/// anything else is created as `Color`.
pub fn get_init_format(fmt: SurfaceFormat, kind: TextureKind) -> (r: SurfaceFormat)
    ensures
        r == (if kind == TextureKind::RenderTarget && is_render_target_format(fmt) {
            fmt
        } else {
            SurfaceFormat::Color
        }),
{
    let is_render_target = kind == TextureKind::RenderTarget;
    if !is_render_target || !supports_render_target(fmt) {
        SurfaceFormat::Color
    } else {
        fmt
    }
}

/// A 2D texture handle with some metadata (mipmaps are not handled). `raw` is the address of
/// the device's texture, zero for none; two handles are equal when all four fields are.
#[derive(Clone, Copy, Debug, PartialEq, Eq, Structural)]
pub struct Texture2D {
    pub raw: usize,
    pub w: u32,
    pub h: u32,
    pub fmt: SurfaceFormat,
}

impl Texture2D {
    /// The address of the device texture.
    pub fn raw(&self) -> (r: usize)
        ensures
            r == self.raw,
    {
        self.raw
    }

    /// The handle to no texture.
    pub open spec fn empty_spec() -> Texture2D {
        Texture2D { raw: 0, w: 0, h: 0, fmt: SurfaceFormat::Color }
    }

    /// A handle to no texture, of size zero.
    pub fn empty() -> (t: Texture2D)
        ensures
            t == Texture2D::empty_spec(),
    {
        Texture2D { raw: 0, w: 0, h: 0, fmt: SurfaceFormat::Color }
    }

    /// The format and the render-target flag that a new texture is created with: the format
    /// is chosen as for a plain texture, whatever `kind` is.
    pub fn creation_format(fmt: SurfaceFormat, kind: TextureKind) -> (r: (SurfaceFormat, bool))
        ensures
            r.0 == SurfaceFormat::Color,
            r.1 == (kind == TextureKind::RenderTarget),
    {
        (get_init_format(fmt, TextureKind::Texture), kind == TextureKind::RenderTarget)
    }

    /// The region `(x, y, w, h)` that `set_data` writes at mipmap `level`: the given `rect`,
    /// or else the whole level, whose sides are the texture's halved `level` times (at least
    /// one pixel).
    pub fn data_rect(&self, level: u32, rect: Option<[u32; 4]>) -> (r: (u32, u32, u32, u32))
        requires
            rect is None ==> level < 32,
        ensures
            rect matches Some(xs) ==> r == (xs[0], xs[1], xs[2], xs[3]),
            rect is None ==> r == (
                0u32,
                0u32,
                if (self.w >> level) > 1 { self.w >> level } else { 1u32 },
                if (self.h >> level) > 1 { self.h >> level } else { 1u32 },
            ),
    {
        if let Some(xs) = rect {
            (xs[0], xs[1], xs[2], xs[3])
        } else {
            let w = self.w >> level;
            let h = self.h >> level;
            (0, 0, if w > 1 { w } else { 1 }, if h > 1 { h } else { 1 })
        }
    }
}

} // verus!
