//! Bar graph rendering: a fixed-width run of filled characters for the
//! percentage, the rest empty.

use vstd::prelude::*;
use vstd::string::*;
use crate::text::char_repeat;

verus! {

/// A percentage clamped into `0 ..= 100`.
pub open spec fn spec_clamp_percent(p: int) -> int {
    if p < 0 {
        0
    } else if p > 100 {
        100
    } else {
        p
    }
}

/// How many of `width` cells a (clamped) percentage fills, rounded half
/// up, and never more than `width`.
pub open spec fn spec_bar_filled(p: int, width: nat) -> nat {
    let f = (spec_clamp_percent(p) * width + 50) / 100;
    if f > width {
        width
    } else {
        f as nat
    }
}

/// The bar text: the filled run, then the empty run.
pub open spec fn spec_bar(p: int, width: nat, filled_char: char, empty_char: char) -> Seq<char> {
    let f = spec_bar_filled(p, width);
    Seq::new(f, |i: int| filled_char) + Seq::new((width - f) as nat, |i: int| empty_char)
}

/// Render a bar graph: the percentage is clamped into `0 ..= 100` and
/// fills a proportional, half-up-rounded run of the width.
pub fn render_bar(percent: i64, width: usize, filled_char: char, empty_char: char) -> (r: String)
    ensures
        r@ == spec_bar(percent as int, width as nat, filled_char, empty_char),
        r@.len() == width,
{
    let p: i64 = if percent < 0 {
        0
    } else if percent > 100 {
        100
    } else {
        percent
    };
    let filled_count = bar_cells(p as u64, width);
    let empty_count = width - filled_count;
    let mut r = char_repeat(filled_char, filled_count);
    let e = char_repeat(empty_char, empty_count);
    r.append(e.as_str());
    r
}

/// The filled-cell count for a clamped percentage.
fn bar_cells(p: u64, width: usize) -> (r: usize)
    requires
        p <= 100,
    ensures
        r == spec_bar_filled(p as int, width as nat),
        r <= width,
{
    proof {
        assert((p as int) * (width as int) <= 100 * (width as int)) by (nonlinear_arith)
            requires
                0 <= width as int,
                0 <= p <= 100,
        ;
    }
    let x: u128 = (p as u128) * (width as u128) + 50;
    let q: u128 = x / 100;
    proof {
        vstd::arithmetic::div_mod::lemma_div_is_ordered(
            x as int,
            100 * (width as int) + 100,
            100,
        );
        vstd::arithmetic::div_mod::lemma_div_by_multiple(width as int + 1, 100);
    }
    if q > width as u128 {
        width
    } else {
        q as usize
    }
}

/// Render a bar graph with the Unicode block characters.
pub fn render_bar_unicode(percent: i64, width: usize) -> (r: String)
    ensures
        r@ == spec_bar(percent as int, width as nat, '█', '░'),
        r@.len() == width,
{
    render_bar(percent, width, '█', '░')
}

/// Render a bar graph with ASCII characters.
pub fn render_bar_ascii(percent: i64, width: usize) -> (r: String)
    ensures
        r@ == spec_bar(percent as int, width as nat, '#', '.'),
        r@.len() == width,
{
    render_bar(percent, width, '#', '.')
}

/// The filled-cell count for a percentage in hundredths, rounded half
/// up and never more than `width`.
pub open spec fn spec_bar_filled_h(h: nat, width: nat) -> nat {
    let f = (h * width + 5000) / 10000;
    if f > width {
        width
    } else {
        f
    }
}

/// The bar text for a percentage in hundredths.
pub open spec fn spec_bar_h(h: nat, width: nat, filled_char: char, empty_char: char) -> Seq<char> {
    let f = spec_bar_filled_h(h, width);
    Seq::new(f, |i: int| filled_char) + Seq::new((width - f) as nat, |i: int| empty_char)
}

/// Render a bar for a percentage given in hundredths (`0 ..= 10000`),
/// at the same proportional fill.
pub fn render_bar_hundredths(h: u64, width: usize, filled_char: char, empty_char: char) -> (r:
    String)
    requires
        h <= 10000,
    ensures
        r@ == spec_bar_h(h as nat, width as nat, filled_char, empty_char),
        r@.len() == width,
{
    let filled_count = bar_cells_h(h, width);
    let empty_count = width - filled_count;
    let mut r = char_repeat(filled_char, filled_count);
    let e = char_repeat(empty_char, empty_count);
    r.append(e.as_str());
    r
}

fn bar_cells_h(h: u64, width: usize) -> (r: usize)
    requires
        h <= 10000,
    ensures
        r == spec_bar_filled_h(h as nat, width as nat),
        r <= width,
{
    proof {
        assert((h as int) * (width as int) <= 10000 * (width as int)) by (nonlinear_arith)
            requires
                0 <= width as int,
                0 <= h <= 10000,
        ;
    }
    let x: u128 = (h as u128) * (width as u128) + 5000;
    let q: u128 = x / 10000;
    proof {
        vstd::arithmetic::div_mod::lemma_div_is_ordered(
            x as int,
            10000 * (width as int) + 10000,
            10000,
        );
        vstd::arithmetic::div_mod::lemma_div_by_multiple(width as int + 1, 10000);
    }
    if q > width as u128 {
        width
    } else {
        q as usize
    }
}

} // verus!
