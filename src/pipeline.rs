//! The whole conversion: plan the size, resample the luminance grid, render it.
use vstd::prelude::*;

use crate::planner::{plan_dimensions, planned_height, planned_width, Dimensions, TerminalSize};
use crate::ramp::{selected_glyphs, Ramp};
use crate::render::{render, rendered, LumaImage};

verus! {

/// The samples of a `width` x `height` grid resampled to `new_width` x `new_height` with
/// a triangle (bilinear) filter.
pub uninterp spec fn resampled(
    pixels: Seq<u8>,
    width: u32,
    height: u32,
    new_width: u32,
    new_height: u32,
) -> Seq<u8>;

/// The resampling buffers fit in memory: the intermediate grid holds four `f32`
/// channels for each of `source_width * new_height` cells, the result one byte for each
/// of `new_width * new_height` cells.
pub open spec fn resize_fits(source_width: u32, new_width: u32, new_height: u32) -> bool {
    16 * (source_width as int) * (new_height as int) <= isize::MAX as int
        && (new_width as int) * (new_height as int) <= isize::MAX as int
}

/// Relies on `image::imageops::resize` with `FilterType::Triangle`, on a grid built by
/// `ImageBuffer::from_raw`: the result has exactly the requested size, one byte per cell.
#[verifier::external_body]
fn resize_triangle(source: &LumaImage, new_width: u32, new_height: u32) -> (r: LumaImage)
    requires
        source.wf(),
        resize_fits(source.width, new_width, new_height),
    ensures
        r.width == new_width,
        r.height == new_height,
        r.pixels@ == resampled(source.pixels@, source.width, source.height, new_width, new_height),
        r.pixels@.len() == new_width as int * new_height as int,
{
    let grid = image::GrayImage::from_raw(source.width, source.height, source.pixels.clone())
        .unwrap();
    let out = image::imageops::resize(
        &grid,
        new_width,
        new_height,
        image::imageops::FilterType::Triangle,
    );
    LumaImage { width: out.width(), height: out.height(), pixels: out.into_raw() }
}

/// `n`, or 1 where `n` is zero.
pub open spec fn at_least_one(n: int) -> int {
    if n == 0 {
        1
    } else {
        n
    }
}

/// Width of the grid that gets rendered: the planned width, raised to 1 if it is zero.
pub open spec fn target_width(source_width: u32, scale: u32) -> u32 {
    at_least_one(planned_width(source_width, scale)) as u32
}

/// Height of the grid that gets rendered: the planned height, raised to 1 if it is zero.
pub open spec fn target_height(source_height: u32, scale: u32) -> u32 {
    at_least_one(planned_height(source_height, scale)) as u32
}

/// A source of this size can be converted at this scale within memory limits.
pub open spec fn conversion_fits(source_width: u32, source_height: u32, scale: u32) -> bool {
    resize_fits(
        source_width,
        target_width(source_width, scale),
        target_height(source_height, scale),
    )
}

/// The planned size with each zero dimension raised to 1, so that the resized grid is
/// never empty.
pub fn nonempty_target(planned: Dimensions) -> (r: Dimensions)
    ensures
        r.width == at_least_one(planned.width as int),
        r.height == at_least_one(planned.height as int),
{
    let width = if planned.width == 0 {
        1
    } else {
        planned.width
    };
    let height = if planned.height == 0 {
        1
    } else {
        planned.height
    };
    Dimensions { width, height }
}

/// Whether a source of this size can be converted at this scale within memory limits.
pub fn fits_in_memory(source_width: u32, source_height: u32, scale: u32) -> (r: bool)
    ensures
        r == conversion_fits(source_width, source_height, scale),
{
    let planned = plan_dimensions(source_width, source_height, scale, TerminalSize::fallback());
    let target = nonempty_target(planned);
    let sw: u128 = source_width as u128;
    let tw: u128 = target.width as u128;
    let th: u128 = target.height as u128;
    assert(sw * th <= 0xffff_ffff_ffff_ffffu128 && tw * th <= 0xffff_ffff_ffff_ffffu128)
        by (nonlinear_arith)
        requires
            sw <= 0xffff_ffffu128,
            tw <= 0xffff_ffffu128,
            th <= 0xffff_ffffu128,
    ;
    assert(target.width == target_width(source_width, scale));
    assert(target.height == target_height(source_height, scale));
    assert(16 * (sw * th) == 16 * (sw as int) * (th as int)) by (nonlinear_arith);
    let limit: u128 = isize::MAX as u128;
    16 * (sw * th) <= limit && tw * th <= limit
}

/// The text picture of an already resized grid, with the ramp that `character_set` names,
/// reversed when `invert` is set.
pub fn image_to_ascii(img: &LumaImage, character_set: &str, invert: bool) -> (r: String)
    requires
        img.wf(),
    ensures
        r@ == rendered(
            img.pixels@,
            img.width as nat,
            img.height as nat,
            selected_glyphs(character_set@, invert),
        ),
{
    let ramp = Ramp::select(character_set, invert);
    render(img, &ramp)
}

/// Converts a luminance grid to its text picture at `scale` percent.
///
/// The grid is resampled to the planned size (each zero dimension raised to 1) with a
/// triangle filter, then rendered with the ramp that `character_set` names, reversed when
/// `invert` is set. The terminal geometry does not bound the size.
pub fn process_image(
    source: &LumaImage,
    scale: u32,
    character_set: &str,
    invert: bool,
    terminal: TerminalSize,
) -> (r: String)
    requires
        source.wf(),
        conversion_fits(source.width, source.height, scale),
    ensures
        r@ == rendered(
            resampled(
                source.pixels@,
                source.width,
                source.height,
                target_width(source.width, scale),
                target_height(source.height, scale),
            ),
            target_width(source.width, scale) as nat,
            target_height(source.height, scale) as nat,
            selected_glyphs(character_set@, invert),
        ),
{
    let target = nonempty_target(plan_dimensions(source.width, source.height, scale, terminal));
    let resized = resize_triangle(source, target.width, target.height);
    image_to_ascii(&resized, character_set, invert)
}

} // verus!
