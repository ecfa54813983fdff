//! The usage-bar algorithm: how many solid glyph cells a percentage
//! fills at a given width, and which sub-cell shade finishes the bar.
//!
//! Percentages are carried as hundredths of a percent, so the full scale
//! is `0 ..= 10000`.

use vstd::prelude::*;

verus! {

/// The shade that finishes a bar, chosen by the fractional cell left
/// over after the solid cells: nothing for a remainder under a quarter,
/// then three shades of increasing density up to a full cell.
#[derive(Clone, Copy, PartialEq, Eq, Structural, Debug)]
pub enum PartialGlyph {
    Empty,
    Light,
    Medium,
    Dark,
}

/// The shape of one usage bar: solid cells, then at most one shade cell.
#[derive(Clone, Copy, PartialEq, Eq, Structural, Debug)]
pub struct BarShape {
    pub full: u16,
    pub partial: PartialGlyph,
}

/// A percentage clamped to the scale.
pub open spec fn spec_clamp_pct(pct: nat) -> nat {
    if pct > 10000 {
        10000
    } else {
        pct
    }
}

/// The number of whole cells the bar fills: `width * pct / 100%`,
/// rounded down.
pub open spec fn spec_bar_full(width: nat, pct: nat) -> nat {
    width * spec_clamp_pct(pct) / 10000
}

/// The shade of the final cell, bucketing the fractional remainder into
/// quarters of a cell.
pub open spec fn spec_bar_partial(width: nat, pct: nat) -> PartialGlyph {
    let rem = width * spec_clamp_pct(pct) % 10000;
    if rem < 2500 {
        PartialGlyph::Empty
    } else if rem < 5000 {
        PartialGlyph::Light
    } else if rem < 7500 {
        PartialGlyph::Medium
    } else {
        PartialGlyph::Dark
    }
}

/// The number of glyph cells a bar shape occupies.
pub open spec fn spec_bar_cells(b: BarShape) -> nat {
    (b.full + if b.partial == PartialGlyph::Empty {
        0int
    } else {
        1int
    }) as nat
}

/// A bar never draws more cells than its width, and a full (or over
/// full) percentage draws exactly the width in solid cells with no
/// shade cell.
pub proof fn lemma_bar_within_width(width: nat, pct: nat)
    ensures
        spec_bar_full(width, pct) <= width,
        spec_bar_partial(width, pct) != PartialGlyph::Empty ==> spec_bar_full(width, pct) < width,
        pct >= 10000 ==> spec_bar_full(width, pct) == width && spec_bar_partial(width, pct)
            == PartialGlyph::Empty,
{
    let p = spec_clamp_pct(pct);
    let num = width * p;
    vstd::arithmetic::div_mod::lemma_fundamental_div_mod(num as int, 10000);
    assert(num <= width * 10000) by (nonlinear_arith)
        requires
            p <= 10000,
            num == width * p,
    ;
    vstd::arithmetic::div_mod::lemma_div_is_ordered(num as int, (width * 10000) as int, 10000);
    vstd::arithmetic::div_mod::lemma_div_multiples_vanish(width as int, 10000);
    if pct >= 10000 {
        vstd::arithmetic::div_mod::lemma_mod_multiples_basic(width as int, 10000);
    }
}

/// The whole shape of a usage bar, as one spec value.
pub open spec fn spec_bar_shape(width: nat, pct: nat) -> BarShape {
    BarShape { full: spec_bar_full(width, pct) as u16, partial: spec_bar_partial(width, pct) }
}

/// Computes the shape of a usage bar of at most `max_width` cells at
/// `pct` hundredths of a percent; percentages above the scale behave
/// like exactly one hundred percent.
pub fn bar_cells(max_width: u16, pct: u32) -> (b: BarShape)
    ensures
        b == spec_bar_shape(max_width as nat, pct as nat),
        b.full == spec_bar_full(max_width as nat, pct as nat),
        b.partial == spec_bar_partial(max_width as nat, pct as nat),
        spec_bar_cells(b) <= max_width,
        pct >= 10000 ==> b.full == max_width && b.partial == PartialGlyph::Empty,
{
    let p: u64 = if pct > 10000 {
        10000
    } else {
        pct as u64
    };
    proof {
        assert((max_width as int) * (p as int) <= 65535 * 10000) by (nonlinear_arith)
            requires
                max_width <= 65535,
                p <= 10000,
        ;
        lemma_bar_within_width(max_width as nat, pct as nat);
    }
    let num: u64 = (max_width as u64) * p;
    let full: u16 = (num / 10000) as u16;
    let rem: u64 = num % 10000;
    let partial = if rem < 2500 {
        PartialGlyph::Empty
    } else if rem < 5000 {
        PartialGlyph::Light
    } else if rem < 7500 {
        PartialGlyph::Medium
    } else {
        PartialGlyph::Dark
    };
    BarShape { full, partial }
}

} // verus!
