//! The font book: the texture that mirrors a font atlas.
//!
//! The atlas itself (glyph packing and rasterising) lives in the font stash, which calls back
//! when it makes, resizes or fills its texture. The book decides what follows each call: the
//! texture's size always follows the atlas's, and the pixels are uploaded once after each
//! change.

use vstd::prelude::*;

verus! {

/// The RGBA pixels of the font texture for the alpha-only atlas `pixels` of `w` by `h`:
/// each pixel white, with the atlas's alpha.
pub fn font_texture_data(pixels: &[u8], w: u32, h: u32) -> (data: Vec<u8>)
    requires
        w * h <= u32::MAX,
        w * h <= pixels@.len(),
    ensures
        data@.len() == 4 * (w * h),
        forall|i: int|
            0 <= i < w * h ==> {
                &&& #[trigger] data@[4 * i] == 255
                &&& data@[4 * i + 1] == 255
                &&& data@[4 * i + 2] == 255
                &&& data@[4 * i + 3] == pixels@[i]
            },
{
    let area = (w * h) as usize;
    // four channels (RGBA)
    let mut data: Vec<u8> = Vec::new();
    let mut i: usize = 0;
    while i < area
        invariant
            area == w * h,
            area <= pixels@.len(),
            i <= area,
            data@.len() == 4 * i,
            forall|j: int|
                0 <= j < i ==> {
                    &&& #[trigger] data@[4 * j] == 255
                    &&& data@[4 * j + 1] == 255
                    &&& data@[4 * j + 2] == 255
                    &&& data@[4 * j + 3] == pixels@[j]
                },
        decreases area - i,
    {
        let ghost before = data@;
        data.push(255);
        data.push(255);
        data.push(255);
        data.push(pixels[i]);
        proof {
            assert forall|j: int| 0 <= j < i + 1 implies {
                &&& #[trigger] data@[4 * j] == 255
                &&& data@[4 * j + 1] == 255
                &&& data@[4 * j + 2] == 255
                &&& data@[4 * j + 3] == pixels@[j]
            } by {
                if j < i {
                    assert(data@[4 * j] == before[4 * j]);
                    assert(data@[4 * j + 1] == before[4 * j + 1]);
                    assert(data@[4 * j + 2] == before[4 * j + 2]);
                    assert(data@[4 * j + 3] == before[4 * j + 3]);
                }
            }
        }
        i = i + 1;
    }
    data
}

/// What a font book keeps of its atlas texture. Its view is `(width, height, pixels to be
/// uploaded)`.
#[derive(Clone, Copy, Debug)]
pub struct FontBookState {
    w: u32,
    h: u32,
    is_dirty: bool,
}

impl View for FontBookState {
    type V = (nat, nat, bool);

    closed spec fn view(&self) -> (nat, nat, bool) {
        (self.w as nat, self.h as nat, self.is_dirty)
    }
}

impl FontBookState {
    /// A book for an atlas of `w` by `h`, whose pixels are yet to be uploaded.
    pub fn new(w: u32, h: u32) -> (s: FontBookState)
        ensures
            s@ == (w as nat, h as nat, true),
    {
        FontBookState { w, h, is_dirty: true }
    }

    /// The texture's width.
    pub fn w(&self) -> (w: u32)
        ensures
            w == self@.0,
    {
        self.w
    }

    /// The texture's height.
    pub fn h(&self) -> (h: u32)
        ensures
            h == self@.1,
    {
        self.h
    }

    /// Whether the pixels are to be uploaded.
    pub fn is_dirty(&self) -> (b: bool)
        ensures
            b == self@.2,
    {
        self.is_dirty
    }

    /// The atlas made or resized its texture to `width` by `height`: the texture is made
    /// anew with that size, and its pixels are to be uploaded.
    pub fn on_create(&mut self, width: u32, height: u32)
        ensures
            final(self)@ == (width as nat, height as nat, true),
    {
        self.w = width;
        self.h = height;
        self.is_dirty = true;
    }

    /// The atlas is full: the size to expand it to, twice as wide and twice as high.
    pub fn expand_size(&self) -> (r: (u32, u32))
        requires
            2 * self@.0 <= u32::MAX,
            2 * self@.1 <= u32::MAX,
        ensures
            r.0 == 2 * self@.0,
            r.1 == 2 * self@.1,
    {
        (self.w * 2, self.h * 2)
    }

    /// The atlas changed its pixels: they are to be uploaded.
    pub fn on_update(&mut self)
        ensures
            final(self)@ == (old(self)@.0, old(self)@.1, true),
    {
        self.is_dirty = true;
    }

    /// Whether the pixels must be uploaded now; once told, they are not due again until the
    /// atlas changes.
    pub fn take_dirty(&mut self) -> (b: bool)
        ensures
            b == old(self)@.2,
            final(self)@ == (old(self)@.0, old(self)@.1, false),
    {
        let b = self.is_dirty;
        self.is_dirty = false;
        b
    }
}

} // verus!
