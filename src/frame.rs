//! Frame buffers: one RGBA snapshot of one display, and cropping.
use crate::region::{
    clamp_selection, clamp_spec, lemma_inside_selection_kept, selection_inside, window_inside,
    CropWindow, SelectionCoords,
};
use image::GenericImageView;
use vstd::arithmetic::div_mod::lemma_fundamental_div_mod;
use vstd::prelude::*;

verus! {

/// The pixels of the window `w` of a raster `width` pixels wide, row by row,
/// four bytes per pixel.
pub open spec fn crop_pixels(src: Seq<u8>, width: nat, w: CropWindow) -> Seq<u8> {
    Seq::new(
        (4 * w.width * w.height) as nat,
        |i: int|
            {
                let p = i / 4;
                let row = p / (w.width as int);
                let col = p % (w.width as int);
                src[4 * ((w.y + row) * width + w.x + col) + i % 4]
            },
    )
}

/// One captured raster: `width` by `height` pixels, four bytes each, row by row.
pub struct FrameBuffer {
    width: u32,
    height: u32,
    pixels: Vec<u8>,
}

impl FrameBuffer {
    #[verifier::type_invariant]
    spec fn inv(&self) -> bool {
        self.pixels@.len() == 4 * self.width * self.height
    }

    pub closed spec fn spec_width(&self) -> u32 {
        self.width
    }

    pub closed spec fn spec_height(&self) -> u32 {
        self.height
    }

    pub closed spec fn spec_pixels(&self) -> Seq<u8> {
        self.pixels@
    }

    /// Whether the frame holds exactly four bytes per pixel; every frame does.
    pub open spec fn valid(&self) -> bool {
        self.spec_pixels().len() == 4 * self.spec_width() * self.spec_height()
    }

    /// Holds of every frame.
    pub fn check_valid(&self)
        ensures
            self.valid(),
    {
        proof {
            use_type_invariant(self);
        }
    }

    /// Builds a frame from raw RGBA bytes; `None` when their number is not four
    /// per pixel.
    pub fn new(width: u32, height: u32, pixels: Vec<u8>) -> (r: Option<FrameBuffer>)
        ensures
            r is Some <==> pixels@.len() == 4 * width * height,
            r matches Some(f) ==> f.spec_width() == width && f.spec_height() == height
                && f.spec_pixels() == pixels@,
    {
        let w: u128 = width as u128;
        let h: u128 = height as u128;
        assert(w * h <= 0xffff_ffff_ffff_ffff) by (nonlinear_arith)
            requires
                w <= 0xffff_ffff,
                h <= 0xffff_ffff,
        ;
        let needed: u128 = 4 * (w * h);
        assert(needed == 4 * width * height) by (nonlinear_arith)
            requires
                needed == 4 * (w * h),
                w == width,
                h == height,
        ;
        if pixels.len() as u128 == needed {
            Some(FrameBuffer { width, height, pixels })
        } else {
            None
        }
    }

    pub fn width(&self) -> (r: u32)
        ensures
            r == self.spec_width(),
            self.valid(),
    {
        proof {
            use_type_invariant(self);
        }
        self.width
    }

    pub fn height(&self) -> (r: u32)
        ensures
            r == self.spec_height(),
    {
        self.height
    }

    pub fn pixels(&self) -> (r: &Vec<u8>)
        ensures
            r@ == self.spec_pixels(),
    {
        &self.pixels
    }

    pub fn into_pixels(self) -> (r: Vec<u8>)
        ensures
            r@ == self.spec_pixels(),
    {
        self.pixels
    }
}

/// Relies on image's `ImageBuffer::from_raw`, `GenericImageView::view` and
/// `SubImage::to_image`: the view of an in-bounds window, copied out, holds that
/// window's pixels row by row in a buffer of exactly its size.
#[verifier::external_body]
fn crop_rgba(pixels: &Vec<u8>, width: u32, height: u32, w: CropWindow) -> (r: Vec<u8>)
    requires
        pixels@.len() == 4 * width * height,
        window_inside(w, width, height),
    ensures
        r@ == crop_pixels(pixels@, width as nat, w),
{
    match image::RgbaImage::from_raw(width, height, pixels.clone()) {
        Some(img) => img.view(w.x, w.y, w.width, w.height).to_image().into_raw(),
        None => Vec::new(),
    }
}

/// The frame that extracting `c` from `f` yields: `f` cut to the clamped window.
pub open spec fn extracted(f: FrameBuffer, c: SelectionCoords) -> (u32, u32, Seq<u8>) {
    let w = clamp_spec(c, f.spec_width(), f.spec_height());
    (w.width, w.height, crop_pixels(f.spec_pixels(), f.spec_width() as nat, w))
}

/// Cuts the selection out of a frame, after clamping it to the frame's bounds.
pub fn extract_region(frame: &FrameBuffer, coords: &SelectionCoords) -> (r: FrameBuffer)
    ensures
        (r.spec_width(), r.spec_height(), r.spec_pixels()) == extracted(*frame, *coords),
        frame.valid(),
{
    proof {
        use_type_invariant(frame);
    }
    let w = clamp_selection(coords, frame.width, frame.height);
    let pixels = crop_rgba(&frame.pixels, frame.width, frame.height, w);
    FrameBuffer { width: w.width, height: w.height, pixels }
}

/// A selection that lies inside the frame yields a region of exactly its size.
pub proof fn lemma_inside_selection_dimensions(f: FrameBuffer, c: SelectionCoords)
    requires
        selection_inside(c, f.spec_width(), f.spec_height()),
        c.width > 0,
        c.height > 0,
    ensures
        extracted(f, c).0 == c.width,
        extracted(f, c).1 == c.height,
{
    lemma_inside_selection_kept(c, f.spec_width(), f.spec_height());
}

/// Selecting the whole frame yields the frame itself, pixel for pixel.
pub proof fn lemma_full_selection_is_whole_frame(f: FrameBuffer)
    requires
        f.valid(),
        f.spec_width() > 0,
        f.spec_height() > 0,
    ensures
        extracted(f, SelectionCoords { x: 0, y: 0, width: f.spec_width(), height: f.spec_height() })
            == (f.spec_width(), f.spec_height(), f.spec_pixels()),
{
    let c = SelectionCoords { x: 0, y: 0, width: f.spec_width(), height: f.spec_height() };
    let w = clamp_spec(c, f.spec_width(), f.spec_height());
    let width = f.spec_width() as int;
    let src = f.spec_pixels();
    assert(w == CropWindow { x: 0, y: 0, width: f.spec_width(), height: f.spec_height() });
    let out = crop_pixels(src, width as nat, w);
    assert forall|i: int| 0 <= i < out.len() implies out[i] == src[i] by {
        let p = i / 4;
        lemma_fundamental_div_mod(i, 4);
        lemma_fundamental_div_mod(p, width);
        assert(4 * ((0 + p / width) * width + 0 + p % width) + i % 4 == i) by (nonlinear_arith)
            requires
                p == width * (p / width) + p % width,
                i == 4 * p + i % 4,
        ;
    }
    assert(out =~= src);
}

} // verus!
