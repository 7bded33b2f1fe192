//! The renderer: pixel buffer, fractal parameters, and the write loop.
//!
//! `FractalRenderer` owns a row-major RGBA byte buffer of exactly
//! `width * height * 4` bytes and the fixed palette. The host layer walks the
//! viewport, runs the escape-time iteration for each pixel, and reduces each
//! result to a `PixelOutcome`: either the point is taken to be inside the set,
//! or it escaped and carries its raw (unmasked) palette position. Given one
//! outcome per pixel, `render_outcomes` rewrites the whole buffer
//! deterministically.

use vstd::prelude::*;

use crate::palette::build_palette;
use crate::palette::lemma_palette_never_black;
use crate::palette::spec_palette;
use crate::palette::BLACK;
use crate::palette::PALETTE_SIZE;

verus! {

/// Which escape-time estimator the next render uses.
#[derive(Clone, Copy, PartialEq, Eq, Structural, Debug)]
pub enum FractalType {
    Mandelbrot,
    Julia,
    BurningShip,
}

/// What the escape-time iteration concluded for one pixel: the point is taken
/// to be in the set (rendered as opaque black), or it escaped, with the raw
/// palette position `floor(20 * count + 200)` derived from the continuous
/// escape count. The position is cyclic: lookup masks it to the table size.
#[derive(Clone, Copy, PartialEq, Eq, Structural, Debug)]
pub enum PixelOutcome {
    Inside,
    Escaped(usize),
}

/// IEEE-754 bit pattern of -0.7, the default Julia constant's real part.
pub const JULIA_DEFAULT_RE_BITS: u64 = 0xBFE6666666666666;

/// IEEE-754 bit pattern of 0.27015, the default Julia constant's imaginary
/// part.
pub const JULIA_DEFAULT_IM_BITS: u64 = 0x3FD14A2339C0EBEE;

/// The color an outcome maps to: inside the set is opaque black; an escaped
/// pixel indexes the palette cyclically.
pub open spec fn spec_color(o: PixelOutcome, pal: Seq<u32>) -> u32 {
    match o {
        PixelOutcome::Inside => BLACK,
        PixelOutcome::Escaped(j) => pal[j as int % (PALETTE_SIZE as int)],
    }
}

/// The four buffer bytes of a packed color, least significant byte first:
/// red, green, blue, alpha.
pub open spec fn spec_color_bytes(c: u32) -> Seq<u8> {
    seq![
        (c as int % 256) as u8,
        (c as int / 256 % 256) as u8,
        (c as int / 65536 % 256) as u8,
        (c as int / 16777216) as u8,
    ]
}

/// The whole buffer a render produces: the colors of the outcomes, in order,
/// each as its four bytes.
pub open spec fn spec_rendered(outcomes: Seq<PixelOutcome>, pal: Seq<u32>) -> Seq<u8>
    decreases outcomes.len(),
{
    if outcomes.len() == 0 {
        Seq::empty()
    } else {
        spec_rendered(outcomes.drop_last(), pal) + spec_color_bytes(
            spec_color(outcomes.last(), pal),
        )
    }
}

/// A buffer of `n` zero bytes.
pub open spec fn spec_zeroes(n: int) -> Seq<u8> {
    Seq::new(n as nat, |i: int| 0u8)
}

/// The escape-time renderer.
pub struct FractalRenderer {
    /// Canvas width in pixels.
    pub width: u32,
    /// Canvas height in pixels.
    pub height: u32,
    /// Row-major RGBA bytes, exactly `width * height * 4` of them.
    pub pixels: Vec<u8>,
    /// The fixed color table, built once at construction.
    pub palette: Vec<u32>,
    /// Which estimator the next render uses.
    pub fractal_type: FractalType,
    /// IEEE-754 bit pattern of the Julia constant's real part.
    pub julia_re_bits: u64,
    /// IEEE-754 bit pattern of the Julia constant's imaginary part.
    pub julia_im_bits: u64,
}

fn zero_buffer(n: usize) -> (v: Vec<u8>)
    ensures
        v@ == spec_zeroes(n as int),
{
    let mut v: Vec<u8> = Vec::new();
    let mut i: usize = 0;
    while i < n
        invariant
            i <= n,
            v@.len() == i,
            forall|j: int| 0 <= j < i ==> v@[j] == 0u8,
        decreases n - i,
    {
        v.push(0u8);
        i += 1;
    }
    proof {
        assert(v@ =~= spec_zeroes(n as int));
    }
    v
}

impl FractalRenderer {
    /// Structural invariant: the palette is the fixed table and the buffer
    /// length matches the dimensions.
    pub open spec fn wf(&self) -> bool {
        &&& self.palette@ == spec_palette()
        &&& self.pixels@.len() == self.width * self.height * 4
    }

    /// Creates a renderer with a zero-filled buffer, the fixed palette, the
    /// Mandelbrot estimator, and the default Julia constant -0.7 + 0.27015i.
    pub fn new(width: u32, height: u32) -> (r: FractalRenderer)
        requires
            width * height * 4 <= usize::MAX,
        ensures
            r.wf(),
            r.width == width,
            r.height == height,
            r.pixels@ == spec_zeroes(width * height * 4),
            r.fractal_type == FractalType::Mandelbrot,
            r.julia_re_bits == JULIA_DEFAULT_RE_BITS,
            r.julia_im_bits == JULIA_DEFAULT_IM_BITS,
    {
        let size: usize = (width as usize) * (height as usize) * 4;
        FractalRenderer {
            width,
            height,
            pixels: zero_buffer(size),
            palette: build_palette(),
            fractal_type: FractalType::Mandelbrot,
            julia_re_bits: JULIA_DEFAULT_RE_BITS,
            julia_im_bits: JULIA_DEFAULT_IM_BITS,
        }
    }

    /// Changes the dimensions and replaces the buffer with a zero-filled one
    /// of the new size; prior contents are discarded and the palette is kept.
    pub fn resize(&mut self, width: u32, height: u32)
        requires
            width * height * 4 <= usize::MAX,
        ensures
            final(self).width == width,
            final(self).height == height,
            final(self).pixels@ == spec_zeroes(width * height * 4),
            final(self).palette@ == old(self).palette@,
            final(self).fractal_type == old(self).fractal_type,
            final(self).julia_re_bits == old(self).julia_re_bits,
            final(self).julia_im_bits == old(self).julia_im_bits,
            old(self).wf() ==> final(self).wf(),
    {
        let size: usize = (width as usize) * (height as usize) * 4;
        self.width = width;
        self.height = height;
        self.pixels = zero_buffer(size);
    }

    /// Selects the estimator for the next render; nothing is recomputed.
    pub fn set_fractal_type(&mut self, f_type: FractalType)
        ensures
            final(self).fractal_type == f_type,
            final(self).width == old(self).width,
            final(self).height == old(self).height,
            final(self).pixels@ == old(self).pixels@,
            final(self).palette@ == old(self).palette@,
            final(self).julia_re_bits == old(self).julia_re_bits,
            final(self).julia_im_bits == old(self).julia_im_bits,
            old(self).wf() ==> final(self).wf(),
    {
        self.fractal_type = f_type;
    }

    /// Stores the Julia constant, given as the IEEE-754 bit patterns of its
    /// real and imaginary parts; consulted only by Julia renders.
    pub fn set_julia_constant(&mut self, re_bits: u64, im_bits: u64)
        ensures
            final(self).julia_re_bits == re_bits,
            final(self).julia_im_bits == im_bits,
            final(self).fractal_type == old(self).fractal_type,
            final(self).width == old(self).width,
            final(self).height == old(self).height,
            final(self).pixels@ == old(self).pixels@,
            final(self).palette@ == old(self).palette@,
            old(self).wf() ==> final(self).wf(),
    {
        self.julia_re_bits = re_bits;
        self.julia_im_bits = im_bits;
    }

    /// The pixel buffer, for the host to read out.
    pub fn buffer(&self) -> (b: &Vec<u8>)
        ensures
            b@ == self.pixels@,
    {
        &self.pixels
    }

    /// Byte length of the pixel buffer.
    pub fn get_buffer_len(&self) -> (n: usize)
        ensures
            n == self.pixels@.len(),
            self.wf() ==> n == self.width * self.height * 4,
    {
        self.pixels.len()
    }

    /// Maps one outcome to its packed color: opaque black for a point inside
    /// the set, a palette entry (never black) for an escaped one.
    pub fn color_of(&self, o: PixelOutcome) -> (c: u32)
        requires
            self.wf(),
        ensures
            c == spec_color(o, self.palette@),
            o == PixelOutcome::Inside ==> c == BLACK,
            !(o == PixelOutcome::Inside) ==> c != BLACK,
    {
        match o {
            PixelOutcome::Inside => BLACK,
            PixelOutcome::Escaped(j) => {
                let jw: u64 = j as u64;
                let idx: usize = (jw & 2047) as usize;
                proof {
                    assert(jw & 2047 == jw % 2048) by (bit_vector);
                    assert(jw & 2047 < 2048) by (bit_vector);
                    assert(jw % 2048 == j as int % 2048);
                    lemma_palette_never_black(idx as int);
                }
                self.palette[idx]
            },
        }
    }

    /// Rewrites the whole buffer from one outcome per pixel, row-major: pixel
    /// `k` gets the four bytes of its outcome's color. Dimensions, palette
    /// and parameters are untouched.
    pub fn render_outcomes(&mut self, outcomes: &Vec<PixelOutcome>)
        requires
            old(self).wf(),
            outcomes@.len() == old(self).width * old(self).height,
        ensures
            final(self).wf(),
            final(self).pixels@ == spec_rendered(outcomes@, old(self).palette@),
            forall|k: int|
                0 <= k < outcomes@.len() ==> final(self).pixels@.subrange(4 * k, 4 * k + 4)
                    == spec_color_bytes(spec_color(outcomes@[k], old(self).palette@)),
            final(self).width == old(self).width,
            final(self).height == old(self).height,
            final(self).palette@ == old(self).palette@,
            final(self).fractal_type == old(self).fractal_type,
            final(self).julia_re_bits == old(self).julia_re_bits,
            final(self).julia_im_bits == old(self).julia_im_bits,
    {
        let n: usize = outcomes.len();
        let mut buf: Vec<u8> = Vec::new();
        let mut k: usize = 0;
        while k < n
            invariant
                *self == *old(self),
                old(self).wf(),
                k <= n,
                n == outcomes@.len(),
                buf@ == spec_rendered(outcomes@.take(k as int), self.palette@),
                buf@.len() == 4 * k,
            decreases n - k,
        {
            let c: u32 = self.color_of(outcomes[k]);
            buf.push((c % 256) as u8);
            buf.push((c / 256 % 256) as u8);
            buf.push((c / 65536 % 256) as u8);
            buf.push((c / 16777216) as u8);
            proof {
                let taken = outcomes@.take(k as int + 1);
                assert(taken.drop_last() =~= outcomes@.take(k as int));
                assert(taken.last() == outcomes@[k as int]);
                assert(buf@ =~= spec_rendered(taken.drop_last(), self.palette@)
                    + spec_color_bytes(spec_color(taken.last(), self.palette@)));
            }
            k += 1;
        }
        proof {
            assert(outcomes@.take(n as int) =~= outcomes@);
            lemma_rendered_len(outcomes@, old(self).palette@);
            assert forall|k: int| 0 <= k < outcomes@.len() implies buf@.subrange(
                4 * k,
                4 * k + 4,
            ) == spec_color_bytes(spec_color(outcomes@[k], old(self).palette@)) by {
                lemma_rendered_pixel(outcomes@, old(self).palette@, k);
            }
        }
        self.pixels = buf;
    }
}

/// A rendered buffer holds four bytes per outcome.
pub proof fn lemma_rendered_len(outcomes: Seq<PixelOutcome>, pal: Seq<u32>)
    ensures
        spec_rendered(outcomes, pal).len() == 4 * outcomes.len(),
    decreases outcomes.len(),
{
    if outcomes.len() > 0 {
        lemma_rendered_len(outcomes.drop_last(), pal);
    }
}

/// Pixel `k` of a rendered buffer is exactly the four bytes of its outcome's
/// color: the render is pointwise.
pub proof fn lemma_rendered_pixel(outcomes: Seq<PixelOutcome>, pal: Seq<u32>, k: int)
    requires
        0 <= k < outcomes.len(),
    ensures
        spec_rendered(outcomes, pal).subrange(4 * k, 4 * k + 4) == spec_color_bytes(
            spec_color(outcomes[k], pal),
        ),
    decreases outcomes.len(),
{
    lemma_rendered_len(outcomes, pal);
    lemma_rendered_len(outcomes.drop_last(), pal);
    if k == outcomes.len() - 1 {
        assert(spec_rendered(outcomes, pal).subrange(4 * k, 4 * k + 4) =~= spec_color_bytes(
            spec_color(outcomes[k], pal),
        ));
    } else {
        lemma_rendered_pixel(outcomes.drop_last(), pal, k);
        assert(outcomes.drop_last()[k] == outcomes[k]);
        assert(spec_rendered(outcomes, pal).subrange(4 * k, 4 * k + 4) =~= spec_rendered(
            outcomes.drop_last(),
            pal,
        ).subrange(4 * k, 4 * k + 4));
    }
}

/// Rendering is deterministic: the same outcomes against the same palette
/// give byte-identical buffers, whatever either renderer held before.
pub proof fn lemma_render_deterministic(
    o1: Seq<PixelOutcome>,
    o2: Seq<PixelOutcome>,
    p1: Seq<u32>,
    p2: Seq<u32>,
)
    requires
        o1 == o2,
        p1 == p2,
    ensures
        spec_rendered(o1, p1) == spec_rendered(o2, p2),
{
}

/// The palette is the same in every well-formed renderer, and holds exactly
/// 2048 entries: two instances always agree on it.
pub proof fn lemma_palette_deterministic(a: FractalRenderer, b: FractalRenderer)
    requires
        a.wf(),
        b.wf(),
    ensures
        a.palette@ == b.palette@,
        a.palette@.len() == PALETTE_SIZE,
{
}

/// An escaped pixel never renders as the in-set color, whatever its raw
/// palette position; an in-set pixel always does.
pub proof fn lemma_color_mapper_boundary(o: PixelOutcome, r: FractalRenderer)
    requires
        r.wf(),
    ensures
        o == PixelOutcome::Inside ==> spec_color(o, r.palette@) == BLACK,
        !(o == PixelOutcome::Inside) ==> spec_color(o, r.palette@) != BLACK,
{
    if !(o == PixelOutcome::Inside) {
        let j = o->Escaped_0;
        assert(0 <= j as int % (PALETTE_SIZE as int) < PALETTE_SIZE as int);
        lemma_palette_never_black(j as int % (PALETTE_SIZE as int));
    }
}

/// When every outcome is in-set (as with an iteration cap of zero, where the
/// iteration returns the cap for every pixel), the whole rendered buffer is
/// opaque black: each pixel's bytes are 0, 0, 0, 0xFF.
pub proof fn lemma_all_inside_renders_black(outcomes: Seq<PixelOutcome>, pal: Seq<u32>, k: int)
    requires
        forall|j: int| 0 <= j < outcomes.len() ==> outcomes[j] == PixelOutcome::Inside,
        0 <= k < outcomes.len(),
    ensures
        spec_rendered(outcomes, pal).subrange(4 * k, 4 * k + 4) == spec_color_bytes(BLACK),
        spec_color_bytes(BLACK) == seq![0u8, 0u8, 0u8, 0xFFu8],
{
    lemma_rendered_pixel(outcomes, pal, k);
    assert(spec_color_bytes(BLACK) =~= seq![0u8, 0u8, 0u8, 0xFFu8]);
}

/// Every pixel a render writes is opaque: its alpha byte is 0xFF.
pub proof fn lemma_rendered_opaque(outcomes: Seq<PixelOutcome>, pal: Seq<u32>, k: int)
    requires
        pal == spec_palette(),
        0 <= k < outcomes.len(),
    ensures
        spec_rendered(outcomes, pal)[4 * k + 3] == 0xFFu8,
{
    lemma_rendered_pixel(outcomes, pal, k);
    lemma_rendered_len(outcomes, pal);
    let c = spec_color(outcomes[k], pal);
    if !(outcomes[k] == PixelOutcome::Inside) {
        let j = outcomes[k]->Escaped_0;
        lemma_palette_never_black(j as int % (PALETTE_SIZE as int));
    }
    assert(c as int / 16777216 == 0xFF);
    assert(spec_rendered(outcomes, pal)[4 * k + 3] == spec_rendered(outcomes, pal).subrange(
        4 * k,
        4 * k + 4,
    )[3]);
}

} // verus!
