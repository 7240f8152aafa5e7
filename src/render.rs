//! Turning a luminance grid into rows of glyphs.
use vstd::prelude::*;

use crate::ramp::{glyph_index, lemma_invert_twice, Ramp};

verus! {

/// A grid of 8-bit luminance samples, stored row by row.
#[derive(Debug)]
pub struct LumaImage {
    pub width: u32,
    pub height: u32,
    pub pixels: Vec<u8>,
}

impl LumaImage {
    /// The pixel buffer holds exactly one sample per grid cell.
    pub open spec fn wf(&self) -> bool {
        self.pixels@.len() == self.width as int * self.height as int
    }

    /// A grid of the given size over `pixels`, or `None` when the buffer does not hold
    /// exactly `width * height` samples.
    pub fn from_pixels(width: u32, height: u32, pixels: Vec<u8>) -> (r: Option<LumaImage>)
        ensures
            r is Some <==> pixels@.len() == width as int * height as int,
            r matches Some(img) ==> img.wf() && img.width == width && img.height == height
                && img.pixels@ == pixels@,
    {
        assert((width as u128) * (height as u128) <= 0xffff_ffff_ffff_ffffu128) by (nonlinear_arith)
            requires
                width <= 0xffff_ffffu32,
                height <= 0xffff_ffffu32,
        ;
        let area: u128 = (width as u128) * (height as u128);
        if pixels.len() as u128 == area {
            Some(LumaImage { width, height, pixels })
        } else {
            None
        }
    }
}

/// The glyph that luminance `v` maps to in `ramp`.
pub open spec fn glyph_of(v: u8, ramp: Seq<char>) -> char {
    ramp[glyph_index(v as int, ramp.len() as int)]
}

/// Row `y` of a grid `width` samples wide: one glyph per sample, then a newline.
pub open spec fn row_text(pixels: Seq<u8>, width: nat, y: int, ramp: Seq<char>) -> Seq<char> {
    Seq::new(width, |x: int| glyph_of(pixels[y * width + x], ramp)).push('\n')
}

/// The first `rows` rows of a grid `width` samples wide, top to bottom.
pub open spec fn rendered(pixels: Seq<u8>, width: nat, rows: nat, ramp: Seq<char>) -> Seq<char>
    decreases rows,
{
    if rows == 0 {
        Seq::empty()
    } else {
        rendered(pixels, width, (rows - 1) as nat, ramp) + row_text(
            pixels,
            width,
            rows - 1,
            ramp,
        )
    }
}

/// Relies on `String::push`: it appends one character to the end of the string.
#[verifier::external_body]
fn push_char(s: &mut String, c: char)
    ensures
        final(s)@ == old(s)@.push(c),
{
    s.push(c);
}

/// The text picture of `img`: one row per pixel row, top to bottom; in each row one
/// glyph per pixel, left to right, then a newline (after the last row too).
pub fn render(img: &LumaImage, ramp: &Ramp) -> (r: String)
    requires
        img.wf(),
    ensures
        r@ == rendered(img.pixels@, img.width as nat, img.height as nat, ramp@),
{
    let w: usize = img.width as usize;
    let h: usize = img.height as usize;
    let n: usize = img.pixels.len();
    let mut out: String = String::new();
    let mut y: usize = 0;
    while y < h
        invariant
            img.wf(),
            w == img.width,
            h == img.height,
            n == w * h,
            y <= h,
            out@ == rendered(img.pixels@, w as nat, y as nat, ramp@),
        decreases h - y,
    {
        let ghost before = out@;
        let mut x: usize = 0;
        while x < w
            invariant
                img.wf(),
                w == img.width,
                h == img.height,
                n == w * h,
                y < h,
                x <= w,
                out@ == before + Seq::new(
                    x as nat,
                    |k: int| glyph_of(img.pixels@[y * w + k], ramp@),
                ),
            decreases w - x,
        {
            assert(y * w <= y * w + x < w * h) by (nonlinear_arith)
                requires
                    y < h,
                    x < w,
            ;
            let at: usize = y * w + x;
            push_char(&mut out, ramp.glyph_for(img.pixels[at]));
            assert(out@ =~= before + Seq::new(
                (x + 1) as nat,
                |k: int| glyph_of(img.pixels@[y * w + k], ramp@),
            ));
            x = x + 1;
        }
        push_char(&mut out, '\n');
        assert(out@ =~= rendered(img.pixels@, w as nat, (y + 1) as nat, ramp@));
        y = y + 1;
    }
    out
}

/// The picture of a `width` x `rows` grid has `rows` lines of `width` glyphs, each ended
/// by a newline: the glyph of pixel `(x, y)` stands at `y * (width + 1) + x`, and the
/// newline that ends row `y` at `y * (width + 1) + width`.
pub proof fn lemma_layout(pixels: Seq<u8>, width: nat, rows: nat, ramp: Seq<char>)
    requires
        pixels.len() == width * rows,
    ensures
        rendered(pixels, width, rows, ramp).len() == rows * (width + 1),
        forall|y: int, x: int|
            0 <= y < rows && 0 <= x < width ==> #[trigger] rendered(pixels, width, rows, ramp)[y
                * (width + 1) + x] == glyph_of(pixels[y * width + x], ramp),
        forall|y: int|
            0 <= y < rows ==> #[trigger] rendered(pixels, width, rows, ramp)[y * (width + 1)
                + width] == '\n',
{
    lemma_layout_rows(pixels, width, rows, ramp);
}

/// Any number of rows is laid out as `lemma_layout` states, whatever the buffer's length.
proof fn lemma_layout_rows(pixels: Seq<u8>, width: nat, rows: nat, ramp: Seq<char>)
    ensures
        rendered(pixels, width, rows, ramp).len() == rows * (width + 1),
        forall|y: int, x: int|
            0 <= y < rows && 0 <= x < width ==> #[trigger] rendered(pixels, width, rows, ramp)[y
                * (width + 1) + x] == glyph_of(pixels[y * width + x], ramp),
        forall|y: int|
            0 <= y < rows ==> #[trigger] rendered(pixels, width, rows, ramp)[y * (width + 1)
                + width] == '\n',
    decreases rows,
{
    if rows == 0 {
        assert(rows * (width + 1) == 0) by (nonlinear_arith)
            requires
                rows == 0,
        ;
    } else {
        let r = (rows - 1) as nat;
        lemma_layout_rows(pixels, width, r, ramp);
        let prev = rendered(pixels, width, r, ramp);
        let row = row_text(pixels, width, r as int, ramp);
        let all = rendered(pixels, width, rows, ramp);
        assert(all == prev + row);
        assert(row.len() == width + 1);
        assert(all.len() == prev.len() + row.len());
        assert(r * (width + 1) + (width + 1) == rows * (width + 1)) by (nonlinear_arith)
            requires
                r + 1 == rows,
        ;
        assert forall|y: int, x: int| 0 <= y < rows && 0 <= x < width implies #[trigger] all[y
            * (width + 1) + x] == glyph_of(pixels[y * width + x], ramp) by {
            if y < r {
                assert(y * (width + 1) + x < r * (width + 1)) by (nonlinear_arith)
                    requires
                        0 <= y < r,
                        0 <= x < width,
                ;
            } else {
                assert(y * (width + 1) + x == r * (width + 1) + x);
            }
        }
        assert forall|y: int| 0 <= y < rows implies #[trigger] all[y * (width + 1) + width]
            == '\n' by {
            if y < r {
                assert(y * (width + 1) + width < r * (width + 1)) by (nonlinear_arith)
                    requires
                        0 <= y < r,
                ;
            }
        }
    }
}

/// Inverting the ramp twice renders every grid exactly as the ramp itself does.
pub proof fn lemma_double_inversion_renders_same(
    pixels: Seq<u8>,
    width: nat,
    rows: nat,
    ramp: Seq<char>,
)
    ensures
        rendered(pixels, width, rows, ramp.reverse().reverse()) == rendered(
            pixels,
            width,
            rows,
            ramp,
        ),
{
    lemma_invert_twice(ramp);
}

} // verus!
