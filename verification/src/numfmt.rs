//! Verified decimal formatting and percentage arithmetic.
//!
//! Percentages travel through the library as integer hundredths of a
//! percent (`0 ..= 10000`), so the derivation rules of the aggregator can
//! be stated and proved exactly; rendering turns them into `"dd.dd"` text.

use vstd::prelude::*;
use vstd::string::*;
use crate::text::push_char;

verus! {

/// The digit character for a value below ten.
pub open spec fn digit_char(d: nat) -> char {
    if d == 0 {
        '0'
    } else if d == 1 {
        '1'
    } else if d == 2 {
        '2'
    } else if d == 3 {
        '3'
    } else if d == 4 {
        '4'
    } else if d == 5 {
        '5'
    } else if d == 6 {
        '6'
    } else if d == 7 {
        '7'
    } else if d == 8 {
        '8'
    } else {
        '9'
    }
}

/// The decimal digit string of `n`, most significant digit first.
pub open spec fn spec_dec(n: nat) -> Seq<char>
    decreases n,
{
    if n < 10 {
        seq![digit_char(n)]
    } else {
        spec_dec(n / 10).push(digit_char(n % 10))
    }
}

fn digit_to_char(d: u64) -> (c: char)
    requires
        d < 10,
    ensures
        c == digit_char(d as nat),
{
    if d == 0 {
        '0'
    } else if d == 1 {
        '1'
    } else if d == 2 {
        '2'
    } else if d == 3 {
        '3'
    } else if d == 4 {
        '4'
    } else if d == 5 {
        '5'
    } else if d == 6 {
        '6'
    } else if d == 7 {
        '7'
    } else if d == 8 {
        '8'
    } else {
        '9'
    }
}

/// Render an unsigned integer in decimal.
pub fn u64_to_string(n: u64) -> (s: String)
    ensures
        s@ == spec_dec(n as nat),
    decreases n,
{
    if n < 10 {
        let mut s = String::new();
        push_char(&mut s, digit_to_char(n));
        proof {
            assert(Seq::<char>::empty().push(digit_char(n as nat)) =~= seq![
                digit_char(n as nat),
            ]);
        }
        s
    } else {
        let mut s = u64_to_string(n / 10);
        push_char(&mut s, digit_to_char(n % 10));
        s
    }
}

/// The text `"i.ff"` for a quantity of `h` hundredths: integer part, a
/// point, then exactly two fraction digits.
pub open spec fn spec_fixed2(h: nat) -> Seq<char> {
    spec_dec(h / 100).push('.').push(digit_char((h % 100) / 10)).push(digit_char(h % 10))
}

/// Render a quantity of hundredths as `"i.ff"`.
pub fn fixed2_string(h: u64) -> (s: String)
    ensures
        s@ == spec_fixed2(h as nat),
{
    let mut s = u64_to_string(h / 100);
    push_char(&mut s, '.');
    push_char(&mut s, digit_to_char((h % 100) / 10));
    push_char(&mut s, digit_to_char(h % 10));
    s
}

/// The text `"i.f"` for a quantity of `t` tenths: integer part, a point,
/// then one fraction digit.
pub open spec fn spec_fixed1(t: nat) -> Seq<char> {
    spec_dec(t / 10).push('.').push(digit_char(t % 10))
}

/// Render a quantity of tenths as `"i.f"`.
pub fn fixed1_string(t: u64) -> (s: String)
    ensures
        s@ == spec_fixed1(t as nat),
{
    let mut s = u64_to_string(t / 10);
    push_char(&mut s, '.');
    push_char(&mut s, digit_to_char(t % 10));
    s
}

/// The share of `used` in `total` in hundredths of a percent, clamped to
/// `0 ..= 10000`, and zero when the total is zero.
pub open spec fn spec_percent_hundredths(used: nat, total: nat) -> nat {
    if total == 0 {
        0
    } else if used * 10000 / total > 10000 {
        10000
    } else {
        used * 10000 / total
    }
}

/// Derive a percentage (in hundredths) from a used/total pair.
/// The result always lies in `0 ..= 10000`, and is `0` when `total == 0`.
pub fn percent_hundredths(used: u64, total: u64) -> (r: u64)
    ensures
        r == spec_percent_hundredths(used as nat, total as nat),
        r <= 10000,
        total == 0 ==> r == 0,
        used <= total && total > 0 ==> r == used as nat * 10000 / total as nat,
{
    if total == 0 {
        return 0;
    }
    let p = (used as u128 * 10000) / (total as u128);
    proof {
        if used <= total {
            vstd::arithmetic::div_mod::lemma_div_is_ordered(
                used as int * 10000,
                total as int * 10000,
                total as int,
            );
            vstd::arithmetic::div_mod::lemma_div_by_multiple(10000, total as int);
        }
    }
    if p > 10000 {
        10000
    } else {
        p as u64
    }
}

/// Percentages in hundredths are always in range; zero total gives zero.
/// This is the bound every derived percentage of the library obeys.
pub proof fn lemma_percent_bounds(used: nat, total: nat)
    ensures
        spec_percent_hundredths(used, total) <= 10000,
        total == 0 ==> spec_percent_hundredths(used, total) == 0,
{
}

/// `bytes` rescaled to hundredths of `unit`, rounded half up.
pub open spec fn spec_scaled100(bytes: nat, unit: nat) -> nat {
    (100 * bytes + unit / 2) / unit
}

/// Express `bytes` in hundredths of `unit` (for `"x.yz GB"` style text),
/// rounding half up.
pub fn scaled_hundredths(bytes: u64, unit: u64) -> (r: u64)
    requires
        1024 <= unit,
    ensures
        r == spec_scaled100(bytes as nat, unit as nat),
{
    let x: u128 = 100 * (bytes as u128) + (unit as u128) / 2;
    let q: u128 = x / (unit as u128);
    proof {
        vstd::arithmetic::div_mod::lemma_div_is_ordered_by_denominator(x as int, 1024, unit as int);
        vstd::arithmetic::div_mod::lemma_div_is_ordered(
            x as int,
            100 * (u64::MAX as int) + (u64::MAX as int) / 2,
            1024,
        );
    }
    q as u64
}

/// A quantity of hundredths reduced to tenths, rounded half up.
pub fn tenths_half_up(h: u64) -> (r: u64)
    ensures
        r == (h + 5) as nat / 10,
{
    let q: u128 = ((h as u128) + 5) / 10;
    proof {
        vstd::arithmetic::div_mod::lemma_div_is_ordered(
            h as int + 5,
            u64::MAX as int + 5,
            10,
        );
    }
    q as u64
}

/// A quantity of hundredths reduced to units, rounded half up.
pub fn units_half_up(h: u64) -> (r: u64)
    ensures
        r == (h + 50) as nat / 100,
{
    let q: u128 = ((h as u128) + 50) / 100;
    proof {
        vstd::arithmetic::div_mod::lemma_div_is_ordered(
            h as int + 50,
            u64::MAX as int + 50,
            100,
        );
    }
    q as u64
}

/// One kibibyte.
pub const KB: u64 = 1024;

/// One mebibyte.
pub const MB: u64 = 1024 * 1024;

/// One gibibyte.
pub const GB: u64 = 1024 * 1024 * 1024;

/// One tebibyte.
pub const TB: u64 = 1024 * 1024 * 1024 * 1024;

/// Human-readable byte count: two decimals of the largest binary unit
/// not above the value, up to terabytes.
pub open spec fn spec_format_bytes(b: nat) -> Seq<char> {
    if b >= TB {
        spec_fixed2(spec_scaled100(b, TB as nat)) + " TB"@
    } else if b >= GB {
        spec_fixed2(spec_scaled100(b, GB as nat)) + " GB"@
    } else if b >= MB {
        spec_fixed2(spec_scaled100(b, MB as nat)) + " MB"@
    } else if b >= KB {
        spec_fixed2(spec_scaled100(b, KB as nat)) + " KB"@
    } else {
        spec_dec(b) + " B"@
    }
}

/// Render a byte count as text, using units up to terabytes.
pub fn format_bytes_string(bytes: u64) -> (r: String)
    ensures
        r@ == spec_format_bytes(bytes as nat),
{
    if bytes >= TB {
        let mut s = fixed2_string(scaled_hundredths(bytes, TB));
        s.append(" TB");
        s
    } else if bytes >= GB {
        let mut s = fixed2_string(scaled_hundredths(bytes, GB));
        s.append(" GB");
        s
    } else if bytes >= MB {
        let mut s = fixed2_string(scaled_hundredths(bytes, MB));
        s.append(" MB");
        s
    } else if bytes >= KB {
        let mut s = fixed2_string(scaled_hundredths(bytes, KB));
        s.append(" KB");
        s
    } else {
        let mut s = u64_to_string(bytes);
        s.append(" B");
        s
    }
}

/// Human-readable byte count capped at gigabytes (for traffic counters).
pub open spec fn spec_format_bytes_gb(b: nat) -> Seq<char> {
    if b >= GB {
        spec_fixed2(spec_scaled100(b, GB as nat)) + " GB"@
    } else if b >= MB {
        spec_fixed2(spec_scaled100(b, MB as nat)) + " MB"@
    } else if b >= KB {
        spec_fixed2(spec_scaled100(b, KB as nat)) + " KB"@
    } else {
        spec_dec(b) + " B"@
    }
}

/// Render a byte count as text, using units up to gigabytes.
pub fn format_bytes_gb_string(bytes: u64) -> (r: String)
    ensures
        r@ == spec_format_bytes_gb(bytes as nat),
{
    if bytes >= GB {
        let mut s = fixed2_string(scaled_hundredths(bytes, GB));
        s.append(" GB");
        s
    } else if bytes >= MB {
        let mut s = fixed2_string(scaled_hundredths(bytes, MB));
        s.append(" MB");
        s
    } else if bytes >= KB {
        let mut s = fixed2_string(scaled_hundredths(bytes, KB));
        s.append(" KB");
        s
    } else {
        let mut s = u64_to_string(bytes);
        s.append(" B");
        s
    }
}

} // verus!
