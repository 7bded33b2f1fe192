//! The fixed 2048-entry cyclic color palette.
//!
//! Each entry packs three cosine-ramp channels into an opaque 32-bit color,
//! blue in the most significant color byte, then green, then red, with the
//! alpha byte fixed at 0xFF (the `0xAABBGGRR` convention). Entry `i` uses the
//! angle `frequency * i / 2048 + phase` turns per channel, with frequency and
//! phase (1.0, 0.00) for red, (0.7, 0.15) for green and (0.4, 0.20) for blue,
//! and each channel value is `128 + 127 * cos` of that angle, so no channel
//! is ever zero: no palette entry equals the in-set color `BLACK`.

use vstd::prelude::*;

use crate::trig::cos_fixed;
use crate::trig::lemma_cos_bounds;
use crate::trig::spec_cos;

verus! {

/// Number of palette entries; a power of two, so cyclic lookup can mask.
pub const PALETTE_SIZE: usize = 2048;

/// The opaque black that marks points taken to be inside the set.
pub const BLACK: u32 = 0xFF000000;

/// A channel value from an angle in `[0, TURN)`: `128 + 127 * cos`, evaluated
/// in fixed point as one floor division.
pub open spec fn spec_channel(a: int) -> int {
    (4194304 + 127 * spec_cos(a)) / 32768
}

/// Red angle of entry `i`: frequency 1.0, phase 0.00, in units of 1/2048000
/// of a turn (so `1000 * i` covers `i / 2048` turns).
pub open spec fn spec_red_angle(i: int) -> int {
    1000 * i
}

/// Green angle of entry `i`: frequency 0.7, phase 0.15.
pub open spec fn spec_green_angle(i: int) -> int {
    700 * i + 307200
}

/// Blue angle of entry `i`: frequency 0.4, phase 0.20.
pub open spec fn spec_blue_angle(i: int) -> int {
    400 * i + 409600
}

/// Palette entry `i` as an integer: alpha 0xFF, then blue, green, red bytes.
pub open spec fn spec_palette_entry(i: int) -> int {
    0xFF000000 + spec_channel(spec_blue_angle(i)) * 0x10000 + spec_channel(spec_green_angle(i))
        * 0x100 + spec_channel(spec_red_angle(i))
}

/// The whole palette: entry `i` at index `i`, for `i` in `[0, PALETTE_SIZE)`.
pub open spec fn spec_palette() -> Seq<u32> {
    Seq::new(PALETTE_SIZE as nat, |i: int| spec_palette_entry(i) as u32)
}

/// Every channel value lies in `[1, 255]`.
pub proof fn lemma_channel_bounds(a: int)
    requires
        0 <= a < 2048000,
    ensures
        1 <= spec_channel(a) <= 255,
{
    lemma_cos_bounds(a);
    assert(32768 <= 4194304 + 127 * spec_cos(a) <= 8355840);
    assert(1 <= (4194304 + 127 * spec_cos(a)) / 32768 <= 255);
}

/// The angles of every palette entry stay below one turn, so no reduction
/// modulo the circle is needed when building the table.
pub proof fn lemma_angles_in_range(i: int)
    requires
        0 <= i < PALETTE_SIZE,
    ensures
        0 <= spec_red_angle(i) < 2048000,
        0 <= spec_green_angle(i) < 2048000,
        0 <= spec_blue_angle(i) < 2048000,
{
}

/// Every palette entry is a well-formed opaque color and differs from the
/// in-set color: its alpha byte is 0xFF and its red byte is at least 1.
pub proof fn lemma_palette_entry_bounds(i: int)
    requires
        0 <= i < PALETTE_SIZE,
    ensures
        BLACK < spec_palette_entry(i) <= u32::MAX,
        spec_palette_entry(i) / 0x1000000 == 0xFF,
        spec_palette_entry(i) != BLACK,
{
    lemma_angles_in_range(i);
    lemma_channel_bounds(spec_red_angle(i));
    lemma_channel_bounds(spec_green_angle(i));
    lemma_channel_bounds(spec_blue_angle(i));
}

fn channel(a: u64) -> (v: u32)
    requires
        a < 2048000,
    ensures
        v == spec_channel(a as int),
        1 <= v <= 255,
{
    proof {
        lemma_channel_bounds(a as int);
    }
    let c: i64 = cos_fixed(a);
    let n: i64 = 4194304 + 127 * c;
    let v: i64 = n / 32768;
    v as u32
}

/// Palette entry `i` as a packed color.
pub fn palette_entry(i: usize) -> (e: u32)
    requires
        i < PALETTE_SIZE,
    ensures
        e == spec_palette_entry(i as int),
        e != BLACK,
{
    proof {
        lemma_palette_entry_bounds(i as int);
    }
    let r: u32 = channel(1000 * (i as u64));
    let g: u32 = channel(700 * (i as u64) + 307200);
    let b: u32 = channel(400 * (i as u64) + 409600);
    0xFF000000 + b * 0x10000 + g * 0x100 + r
}

/// Builds the full palette table, entry by entry.
pub fn build_palette() -> (p: Vec<u32>)
    ensures
        p@ == spec_palette(),
{
    let mut p: Vec<u32> = Vec::new();
    let mut i: usize = 0;
    while i < PALETTE_SIZE
        invariant
            i <= PALETTE_SIZE,
            p@.len() == i,
            forall|j: int| 0 <= j < i ==> p@[j] == spec_palette_entry(j) as u32,
        decreases PALETTE_SIZE - i,
    {
        let e: u32 = palette_entry(i);
        p.push(e);
        i += 1;
    }
    proof {
        assert(p@ =~= spec_palette());
    }
    p
}

/// No palette entry is the in-set color, and every entry is opaque.
pub proof fn lemma_palette_never_black(i: int)
    requires
        0 <= i < PALETTE_SIZE,
    ensures
        spec_palette()[i] != BLACK,
        spec_palette()[i] as int / 0x1000000 == 0xFF,
{
    lemma_palette_entry_bounds(i);
}

} // verus!
