//! Target size of the resized image, from the source size and a scale percentage.
use vstd::prelude::*;

verus! {

/// A terminal character cell is taken to be this many times as tall as it is wide.
/// Widths are stretched by this factor so that square regions stay square on screen.
pub const CELL_HEIGHT_PER_WIDTH: u32 = 2;

/// Terminal width assumed when the real one cannot be detected.
pub const FALLBACK_TERMINAL_WIDTH: u16 = 80;

/// Terminal height assumed when the real one cannot be detected.
pub const FALLBACK_TERMINAL_HEIGHT: u16 = 24;

/// Terminal geometry in character cells.
#[derive(Clone, Copy, Debug, PartialEq, Eq)]
pub struct TerminalSize {
    pub width: u16,
    pub height: u16,
}

impl TerminalSize {
    /// The geometry used when none could be detected.
    pub fn fallback() -> (r: TerminalSize)
        ensures
            r.width == FALLBACK_TERMINAL_WIDTH,
            r.height == FALLBACK_TERMINAL_HEIGHT,
    {
        TerminalSize { width: FALLBACK_TERMINAL_WIDTH, height: FALLBACK_TERMINAL_HEIGHT }
    }
}

/// Width and height of an image, in pixels.
#[derive(Clone, Copy, Debug, PartialEq, Eq)]
pub struct Dimensions {
    pub width: u32,
    pub height: u32,
}

/// `n / 100` rounded to the nearest integer, halves rounded up.
pub open spec fn round_percent_of(n: int) -> int {
    (n + 50) / 100
}

/// A value no larger than the largest `u32`.
pub open spec fn saturate_u32(n: int) -> int {
    if n > u32::MAX as int {
        u32::MAX as int
    } else {
        n
    }
}

/// `round(width * scale / 100 * CELL_HEIGHT_PER_WIDTH)`, saturated to `u32`.
pub open spec fn planned_width(source_width: u32, scale: u32) -> int {
    saturate_u32(
        round_percent_of(source_width as int * scale as int * CELL_HEIGHT_PER_WIDTH as int),
    )
}

/// `round(height * scale / 100)`, saturated to `u32`.
pub open spec fn planned_height(source_height: u32, scale: u32) -> int {
    saturate_u32(round_percent_of(source_height as int * scale as int))
}

/// `round(n / 100)` of an exact product, halves rounded up, saturated to `u32`.
fn round_percent(n: u128) -> (r: u32)
    requires
        n <= 2 * (u64::MAX as int),
    ensures
        r == saturate_u32(round_percent_of(n as int)),
{
    let q: u128 = (n + 50) / 100;
    if q > u32::MAX as u128 {
        u32::MAX
    } else {
        q as u32
    }
}

/// The size a source image is resized to before rendering.
///
/// The width is stretched by `CELL_HEIGHT_PER_WIDTH` to make up for tall character
/// cells. The terminal geometry is accepted but does not bound the result: the size
/// follows from the source size and the scale alone, so equal inputs give equal sizes.
/// A dimension may come out as zero; `scale` is not clamped.
pub fn plan_dimensions(
    source_width: u32,
    source_height: u32,
    scale: u32,
    terminal: TerminalSize,
) -> (r: Dimensions)
    ensures
        r.width == planned_width(source_width, scale),
        r.height == planned_height(source_height, scale),
{
    let w: u128 = source_width as u128;
    let h: u128 = source_height as u128;
    let s: u128 = scale as u128;
    assert(w * s <= 0xffff_ffff_ffff_ffffu128) by (nonlinear_arith)
        requires
            w <= 0xffff_ffffu128,
            s <= 0xffff_ffffu128,
    ;
    assert(h * s <= 0xffff_ffff_ffff_ffffu128) by (nonlinear_arith)
        requires
            h <= 0xffff_ffffu128,
            s <= 0xffff_ffffu128,
    ;
    let ws: u128 = w * s;
    let stretch: u128 = CELL_HEIGHT_PER_WIDTH as u128;
    assert(ws * stretch <= 2 * (u64::MAX as int)) by (nonlinear_arith)
        requires
            ws <= 0xffff_ffff_ffff_ffffu128,
            stretch == 2,
    ;
    let width = round_percent(ws * stretch);
    let height = round_percent(h * s);
    Dimensions { width, height }
}

} // verus!
