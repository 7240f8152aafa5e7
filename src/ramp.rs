//! Character ramps: glyphs ordered from the densest to the sparsest, and the
//! quantization of a luminance value to a position in a ramp.
use vstd::prelude::*;

verus! {

/// Fewest glyphs a ramp may hold: one glyph leaves no luminance interval to divide.
pub const MIN_RAMP_LEN: usize = 2;

/// Most glyphs a ramp may hold: the luminance interval of a longer ramp would be zero.
pub const MAX_RAMP_LEN: usize = 256;

/// A ramp of `n` glyphs can quantize luminance.
pub open spec fn valid_ramp_len(n: int) -> bool {
    MIN_RAMP_LEN as int <= n <= MAX_RAMP_LEN as int
}

/// Width of the luminance band that maps to one glyph of a ramp of `n` glyphs.
pub open spec fn band_width(n: int) -> int {
    255int / (n - 1)
}

/// Position in a ramp of `n` glyphs that luminance `v` maps to.
pub open spec fn glyph_index(v: int, n: int) -> int {
    let i = v / band_width(n);
    if i < n - 1 {
        i
    } else {
        n - 1
    }
}

/// Ten glyphs, densest first.
pub open spec fn coarse_glyphs() -> Seq<char> {
    seq!['@', '%', '#', '*', '+', '=', '-', ':', '.', ' ']
}

/// Seven glyphs of block shading, densest first.
pub open spec fn block_glyphs() -> Seq<char> {
    seq!['\u{2588}', '\u{2593}', '\u{2592}', '\u{2591}', '#', '.', ' ']
}

/// Seventy glyphs, densest first.
pub open spec fn fine_glyphs() -> Seq<char> {
    seq![
        '$', '@', 'B', '%', '8', '&', 'W', 'M', '#', '*', 'o', 'a', 'h', 'k', 'b', 'd', 'p',
        'q', 'w', 'm', 'Z', 'O', '0', 'Q', 'L', 'C', 'J', 'U', 'Y', 'X', 'z', 'c', 'v', 'u',
        'n', 'x', 'r', 'j', 'f', 't', '/', '\\', '|', '(', ')', '1', '{', '}', '[', ']', '?',
        '-', '_', '+', '~', '<', '>', 'i', '!', 'l', 'I', ';', ':', ',', '"', '^', '`', '\'',
        '.', ' ',
    ]
}

/// Name that selects the ten-glyph ramp.
pub open spec fn coarse_name() -> Seq<char> {
    seq!['s', 'e', 't', '1']
}

/// Name that selects the block-shading ramp.
pub open spec fn block_name() -> Seq<char> {
    seq!['s', 'e', 't', '2']
}

/// The name documented for the seventy-glyph ramp; any unknown name selects it too.
pub open spec fn default_name() -> Seq<char> {
    seq!['d', 'e', 'f', 'a', 'u', 'l', 't']
}

/// The glyphs that a selector names; matching is exact and case-sensitive.
pub open spec fn preset_glyphs(selector: Seq<char>) -> Seq<char> {
    if selector == coarse_name() {
        coarse_glyphs()
    } else if selector == block_name() {
        block_glyphs()
    } else {
        fine_glyphs()
    }
}

/// The glyphs in use for a selector and an invert flag.
pub open spec fn selected_glyphs(selector: Seq<char>, invert: bool) -> Seq<char> {
    if invert {
        preset_glyphs(selector).reverse()
    } else {
        preset_glyphs(selector)
    }
}

/// Relies on `==` of `str`: two strings are equal exactly when they hold the same characters.
#[verifier::external_body]
fn same_text(a: &str, b: &str) -> (r: bool)
    ensures
        r == (a@ == b@),
{
    a == b
}

/// An ordered sequence of glyphs, densest first, long enough to quantize with.
pub struct Ramp {
    glyphs: Vec<char>,
}

impl View for Ramp {
    type V = Seq<char>;

    closed spec fn view(&self) -> Seq<char> {
        self.glyphs@
    }
}

impl Ramp {
    #[verifier::type_invariant]
    spec fn inv(&self) -> bool {
        valid_ramp_len(self.glyphs@.len() as int)
    }

    /// A ramp of the given glyphs, or `None` when there are too few or too many of them.
    pub fn new(glyphs: Vec<char>) -> (r: Option<Ramp>)
        ensures
            r is Some <==> valid_ramp_len(glyphs@.len() as int),
            r matches Some(ramp) ==> ramp@ == glyphs@,
    {
        if glyphs.len() < MIN_RAMP_LEN || glyphs.len() > MAX_RAMP_LEN {
            None
        } else {
            Some(Ramp { glyphs })
        }
    }

    /// The built-in ramp that `selector` names.
    pub fn preset(selector: &str) -> (r: Ramp)
        ensures
            r@ == preset_glyphs(selector@),
    {
        proof {
            reveal_strlit("set1");
            reveal_strlit("set2");
            assert("set1"@ =~= coarse_name());
            assert("set2"@ =~= block_name());
        }
        let glyphs: Vec<char> = if same_text(selector, "set1") {
            vec!['@', '%', '#', '*', '+', '=', '-', ':', '.', ' ']
        } else if same_text(selector, "set2") {
            vec!['\u{2588}', '\u{2593}', '\u{2592}', '\u{2591}', '#', '.', ' ']
        } else {
            vec![
                '$', '@', 'B', '%', '8', '&', 'W', 'M', '#', '*', 'o', 'a', 'h', 'k', 'b', 'd',
                'p', 'q', 'w', 'm', 'Z', 'O', '0', 'Q', 'L', 'C', 'J', 'U', 'Y', 'X', 'z', 'c',
                'v', 'u', 'n', 'x', 'r', 'j', 'f', 't', '/', '\\', '|', '(', ')', '1', '{', '}',
                '[', ']', '?', '-', '_', '+', '~', '<', '>', 'i', '!', 'l', 'I', ';', ':', ',',
                '"', '^', '`', '\'', '.', ' ',
            ]
        };
        assert(glyphs@.len() >= 7);
        Ramp { glyphs }
    }

    /// The same glyphs in the opposite order.
    pub fn inverted(&self) -> (r: Ramp)
        ensures
            r@ == self@.reverse(),
    {
        proof {
            use_type_invariant(self);
        }
        let n = self.glyphs.len();
        let mut out: Vec<char> = Vec::new();
        let mut k: usize = 0;
        while k < n
            invariant
                n == self.glyphs@.len(),
                k <= n,
                out@ =~= Seq::new(k as nat, |i: int| self.glyphs@[n - 1 - i]),
            decreases n - k,
        {
            out.push(self.glyphs[n - 1 - k]);
            k = k + 1;
        }
        assert(out@ =~= self.glyphs@.reverse());
        Ramp { glyphs: out }
    }

    /// The ramp in use for a selector and an invert flag.
    pub fn select(selector: &str, invert: bool) -> (r: Ramp)
        ensures
            r@ == selected_glyphs(selector@, invert),
    {
        let ramp = Ramp::preset(selector);
        if invert {
            ramp.inverted()
        } else {
            ramp
        }
    }

    /// Number of glyphs.
    pub fn len(&self) -> (r: usize)
        ensures
            r == self@.len(),
            valid_ramp_len(r as int),
    {
        proof {
            use_type_invariant(self);
        }
        self.glyphs.len()
    }

    /// The glyph that luminance `v` maps to.
    pub fn glyph_for(&self, v: u8) -> (r: char)
        ensures
            r == self@[glyph_index(v as int, self@.len() as int)],
    {
        proof {
            use_type_invariant(self);
        }
        let i = quantize(v, self.glyphs.len());
        self.glyphs[i]
    }
}

/// Position in a ramp of `n` glyphs that luminance `v` maps to: `v` divided by the band
/// width, clamped to the last position.
pub fn quantize(v: u8, n: usize) -> (r: usize)
    requires
        valid_ramp_len(n as int),
    ensures
        r == glyph_index(v as int, n as int),
        r < n,
{
    let band: u8 = 255u8 / ((n - 1) as u8);
    assert(band as int == band_width(n as int)) by {
        assert((n - 1) as u8 as int == n - 1);
    }
    assert(band >= 1) by (nonlinear_arith)
        requires
            band == 255int / (n - 1) as int,
            1 <= n - 1 <= 255,
    ;
    let i: usize = (v / band) as usize;
    if i < n - 1 {
        i
    } else {
        n - 1
    }
}

/// Luminance 0 always maps to the first glyph and luminance 255 to the last, and no
/// luminance maps outside the ramp.
pub proof fn lemma_quantize_ends(n: int)
    requires
        valid_ramp_len(n),
    ensures
        glyph_index(0, n) == 0,
        glyph_index(255, n) == n - 1,
        forall|v: int| 0 <= v <= 255 ==> 0 <= #[trigger] glyph_index(v, n) < n,
{
    let b = band_width(n);
    assert(1 <= b && b * (n - 1) <= 255) by (nonlinear_arith)
        requires
            b == 255int / (n - 1),
            1 <= n - 1 <= 255,
    ;
    assert(255int / b >= n - 1) by (nonlinear_arith)
        requires
            1 <= b,
            b * (n - 1) <= 255,
    ;
    assert forall|v: int| 0 <= v <= 255 implies 0 <= #[trigger] glyph_index(v, n) < n by {
        assert(v / b >= 0) by (nonlinear_arith)
            requires
                0 <= v,
                1 <= b,
        ;
    }
}

/// A selector that names neither built-in short ramp gives the same glyphs as the
/// documented default name.
pub proof fn lemma_unknown_selector_is_default(selector: Seq<char>)
    requires
        selector != coarse_name(),
        selector != block_name(),
    ensures
        preset_glyphs(selector) == preset_glyphs(default_name()),
{
    assert(default_name().len() != coarse_name().len());
    assert(default_name().len() != block_name().len());
}

/// Reversing a ramp twice gives back the ramp.
pub proof fn lemma_invert_twice(glyphs: Seq<char>)
    ensures
        glyphs.reverse().reverse() == glyphs,
{
    assert(glyphs.reverse().reverse() =~= glyphs);
}

} // verus!
