//! Verified building blocks for the string work the collectors and the
//! renderer share: whitespace tokenizing, splitting, joining, searching,
//! trimming, decimal parsing and character-level string building.

use vstd::prelude::*;
use vstd::string::*;

verus! {

/// The whitespace characters the probe-output parsers care about.
pub open spec fn is_ws_char(c: char) -> bool {
    c == ' ' || c == '\t' || c == '\r' || c == '\n'
}

/// View of a vector of strings as a sequence of character sequences.
pub open spec fn views_of(v: Seq<String>) -> Seq<Seq<char>> {
    v.map_values(|t: String| t@)
}

/// View of an optional string as optional text.
pub open spec fn opt_view(o: Option<String>) -> Option<Seq<char>> {
    match o {
        Some(s) => Some(s@),
        None => None,
    }
}

/// Length of the leading run of non-whitespace characters.
pub open spec fn token_run(s: Seq<char>) -> nat
    decreases s.len(),
{
    if s.len() == 0 {
        0
    } else if is_ws_char(s[0]) {
        0
    } else {
        1 + token_run(s.skip(1))
    }
}

proof fn lemma_token_run_bound(s: Seq<char>)
    ensures
        token_run(s) <= s.len(),
    decreases s.len(),
{
    if s.len() != 0 && !is_ws_char(s[0]) {
        lemma_token_run_bound(s.skip(1));
    }
}

/// The whitespace-separated tokens of `s`, in order.
pub open spec fn spec_tokens(s: Seq<char>) -> Seq<Seq<char>>
    decreases s.len(),
    via spec_tokens_decreases
{
    if s.len() == 0 {
        seq![]
    } else if is_ws_char(s[0]) {
        spec_tokens(s.skip(1))
    } else {
        let k = token_run(s) as int;
        seq![s.take(k)] + spec_tokens(s.skip(k))
    }
}

#[via_fn]
proof fn spec_tokens_decreases(s: Seq<char>) {
    if s.len() != 0 && !is_ws_char(s[0]) {
        lemma_token_run_bound(s);
    }
}

/// A scan that saw `k` non-whitespace characters followed by the end or a
/// whitespace character has found exactly the leading token run.
proof fn lemma_token_run_eq(s: Seq<char>, k: nat)
    requires
        k <= s.len(),
        forall|m: int| 0 <= m < k ==> !is_ws_char(s[m]),
        k < s.len() ==> is_ws_char(s[k as int]),
    ensures
        token_run(s) == k,
    decreases s.len(),
{
    if k == 0 {
    } else {
        assert(!is_ws_char(s[0]));
        let t = s.skip(1);
        assert forall|m: int| 0 <= m < k - 1 implies !is_ws_char(t[m]) by {
            assert(t[m] == s[m + 1]);
        }
        if k - 1 < t.len() {
            assert(t[k - 1] == s[k as int]);
        }
        lemma_token_run_eq(t, (k - 1) as nat);
    }
}

/// Whether the character of `s` at index `j` is whitespace.
fn ws_at(s: &str, j: usize) -> (r: bool)
    requires
        j < s@.len(),
    ensures
        r == is_ws_char(s@[j as int]),
{
    let c = s.get_char(j);
    c == ' ' || c == '\t' || c == '\r' || c == '\n'
}

/// Whether the character of `s` at index `j` equals `c`.
fn char_at_is(s: &str, j: usize, c: char) -> (r: bool)
    requires
        j < s@.len(),
    ensures
        r == (s@[j as int] == c),
{
    s.get_char(j) == c
}

/// Split a string into its whitespace-separated tokens.
pub fn tokens(s: &str) -> (out: Vec<String>)
    ensures
        views_of(out@) == spec_tokens(s@),
{
    let n = s.unicode_len();
    let mut out: Vec<String> = Vec::new();
    let mut i: usize = 0;
    proof {
        assert(s@.skip(0) =~= s@);
        assert(views_of(out@) + spec_tokens(s@) =~= spec_tokens(s@));
    }
    while i < n
        invariant
            n == s@.len(),
            i <= n,
            spec_tokens(s@) == views_of(out@) + spec_tokens(s@.skip(i as int)),
        decreases n - i,
    {
        if ws_at(s, i) {
            proof {
                assert(s@.skip(i as int)[0] == s@[i as int]);
                assert(s@.skip(i as int).skip(1) =~= s@.skip(i + 1));
            }
            i = i + 1;
        } else {
            let start = i;
            let mut j = i + 1;
            while j < n && !ws_at(s, j)
                invariant
                    n == s@.len(),
                    start < j <= n,
                    forall|m: int| start <= m < j ==> !is_ws_char(s@[m]),
                decreases n - j,
            {
                j = j + 1;
            }
            proof {
                assert(s@.skip(i as int)[0] == s@[i as int]);
                let sub = s@.skip(start as int);
                assert forall|m: int| 0 <= m < j - start implies !is_ws_char(sub[m]) by {
                    assert(sub[m] == s@[start + m]);
                }
                if j < n {
                    assert(sub[(j - start) as int] == s@[j as int]);
                }
                lemma_token_run_eq(sub, (j - start) as nat);
                assert(sub.take((j - start) as int) =~= s@.subrange(start as int, j as int));
                assert(sub.skip((j - start) as int) =~= s@.skip(j as int));
            }
            let tok_str = s.substring_char(start, j);
            let tok = tok_str.to_owned();
            proof {
                assert(views_of(out@.push(tok)) =~= views_of(out@).push(tok@));
                assert(views_of(out@).push(tok@) + spec_tokens(s@.skip(j as int)) =~= views_of(
                    out@,
                ) + (seq![tok@] + spec_tokens(s@.skip(j as int))));
            }
            out.push(tok);
            i = j;
        }
    }
    proof {
        assert(s@.skip(n as int) =~= Seq::<char>::empty());
        assert(views_of(out@) + spec_tokens(s@.skip(n as int)) =~= views_of(out@));
    }
    out
}

/// Number of characters before the first occurrence of `sep` (the whole
/// length when `sep` does not occur).
pub open spec fn sep_prefix(s: Seq<char>, sep: char) -> nat
    decreases s.len(),
{
    if s.len() == 0 {
        0
    } else if s[0] == sep {
        0
    } else {
        1 + sep_prefix(s.skip(1), sep)
    }
}

/// The parts of `s` between occurrences of `sep`, separators removed.
pub open spec fn spec_split(s: Seq<char>, sep: char) -> Seq<Seq<char>>
    decreases s.len(),
{
    let k = sep_prefix(s, sep) as int;
    if k >= s.len() {
        seq![s]
    } else {
        seq![s.take(k)] + spec_split(s.skip(k + 1), sep)
    }
}

/// A split always yields at least one part.
pub proof fn lemma_split_len(s: Seq<char>, sep: char)
    ensures
        spec_split(s, sep).len() >= 1,
{
}

proof fn lemma_sep_prefix_eq(s: Seq<char>, sep: char, k: nat)
    requires
        k <= s.len(),
        forall|m: int| 0 <= m < k ==> s[m] != sep,
        k < s.len() ==> s[k as int] == sep,
    ensures
        sep_prefix(s, sep) == k,
    decreases s.len(),
{
    if k == 0 {
    } else {
        assert(s[0] != sep);
        let t = s.skip(1);
        assert forall|m: int| 0 <= m < k - 1 implies t[m] != sep by {
            assert(t[m] == s[m + 1]);
        }
        if k - 1 < t.len() {
            assert(t[k - 1] == s[k as int]);
        }
        lemma_sep_prefix_eq(t, sep, (k - 1) as nat);
    }
}

/// Split a string on a separator character; the parts carry no separator
/// and joining them with `sep` gives the input back.
pub fn split_on(s: &str, sep: char) -> (out: Vec<String>)
    ensures
        views_of(out@) == spec_split(s@, sep),
{
    let n = s.unicode_len();
    let mut out: Vec<String> = Vec::new();
    let mut i: usize = 0;
    proof {
        assert(s@.skip(0) =~= s@);
        assert(views_of(out@) + spec_split(s@, sep) =~= spec_split(s@, sep));
    }
    loop
        invariant
            n == s@.len(),
            i <= n,
            spec_split(s@, sep) == views_of(out@) + spec_split(s@.skip(i as int), sep),
        decreases n - i + 1,
    {
        let start = i;
        let mut j = i;
        while j < n && !char_at_is(s, j, sep)
            invariant
                n == s@.len(),
                start <= j <= n,
                forall|m: int| start <= m < j ==> s@[m] != sep,
            decreases n - j,
        {
            j = j + 1;
        }
        proof {
            let sub = s@.skip(start as int);
            assert forall|m: int| 0 <= m < j - start implies sub[m] != sep by {
                assert(sub[m] == s@[start + m]);
            }
            if j < n {
                assert(sub[(j - start) as int] == s@[j as int]);
            }
            lemma_sep_prefix_eq(sub, sep, (j - start) as nat);
            assert(sub.take((j - start) as int) =~= s@.subrange(start as int, j as int));
        }
        let part = s.substring_char(start, j).to_owned();
        proof {
            assert(views_of(out@.push(part)) =~= views_of(out@).push(part@));
        }
        if j >= n {
            proof {
                let sub = s@.skip(start as int);
                assert(sub =~= s@.subrange(start as int, j as int));
                assert(views_of(out@).push(part@) =~= views_of(out@) + seq![sub]);
            }
            out.push(part);
            return out;
        } else {
            proof {
                let sub = s@.skip(start as int);
                assert(sub.skip((j - start) as int + 1) =~= s@.skip(j + 1));
                assert(views_of(out@).push(part@) + spec_split(s@.skip(j + 1), sep) =~= views_of(
                    out@,
                ) + (seq![sub.take((j - start) as int)] + spec_split(
                    sub.skip((j - start) as int + 1),
                    sep,
                )));
            }
            out.push(part);
            i = j + 1;
        }
    }
}

/// The parts joined with a single separator character between them.
pub open spec fn spec_join(parts: Seq<Seq<char>>, sep: Seq<char>) -> Seq<char>
    decreases parts.len(),
{
    if parts.len() == 0 {
        seq![]
    } else if parts.len() == 1 {
        parts[0]
    } else {
        parts[0] + sep + spec_join(parts.skip(1), sep)
    }
}

proof fn lemma_join_push(parts: Seq<Seq<char>>, sep: Seq<char>, last: Seq<char>)
    ensures
        spec_join(parts.push(last), sep) == if parts.len() == 0 {
            last
        } else {
            spec_join(parts, sep) + sep + last
        },
    decreases parts.len(),
{
    let whole = parts.push(last);
    if parts.len() == 0 {
        assert(whole.len() == 1);
        assert(spec_join(whole, sep) == whole[0]);
    } else {
        assert(whole.len() >= 2);
        assert(whole[0] == parts[0]);
        assert(whole.skip(1) =~= parts.skip(1).push(last));
        lemma_join_push(parts.skip(1), sep, last);
        if parts.len() == 1 {
            assert(parts.skip(1).len() == 0);
            assert(spec_join(whole, sep) == parts[0] + sep + last);
            assert(spec_join(parts, sep) == parts[0]);
        } else {
            assert(spec_join(whole, sep) == parts[0] + sep + (spec_join(parts.skip(1), sep) + sep
                + last));
            assert(spec_join(parts, sep) == parts[0] + sep + spec_join(parts.skip(1), sep));
            assert(parts[0] + sep + (spec_join(parts.skip(1), sep) + sep + last) =~= (parts[0] + sep
                + spec_join(parts.skip(1), sep)) + sep + last);
        }
    }
}

/// Join the strings of `v` from index `from` (inclusive) to `to`
/// (exclusive) with the separator between consecutive parts.
pub fn join_range(v: &Vec<String>, from: usize, to: usize, sep: &str) -> (r: String)
    requires
        from <= to <= v@.len(),
    ensures
        r@ == spec_join(views_of(v@.subrange(from as int, to as int)), sep@),
{
    let mut r = String::new();
    let mut i = from;
    proof {
        assert(views_of(v@.subrange(from as int, from as int)) =~= Seq::<Seq<char>>::empty());
    }
    while i < to
        invariant
            from <= i <= to <= v@.len(),
            r@ == spec_join(views_of(v@.subrange(from as int, i as int)), sep@),
        decreases to - i,
    {
        proof {
            let pre = views_of(v@.subrange(from as int, i as int));
            assert(views_of(v@.subrange(from as int, i + 1)) =~= pre.push(v@[i as int]@));
            lemma_join_push(pre, sep@, v@[i as int]@);
        }
        if i > from {
            r.append(sep);
        }
        let part: &String = &v[i];
        r.append(part.as_str());
        i = i + 1;
    }
    r
}

/// True when `c` is an ASCII decimal digit.
pub open spec fn is_digit(c: char) -> bool {
    48 <= c as u32 <= 57
}

/// Numeric value of a digit character.
pub open spec fn digit_val(c: char) -> nat {
    (c as u32 - 48) as nat
}

/// True when every character of `s` is a decimal digit.
pub open spec fn all_digits(s: Seq<char>) -> bool {
    forall|i: int| 0 <= i < s.len() ==> is_digit(s[i])
}

/// The value of a digit string read in base ten.
pub open spec fn dec_val(s: Seq<char>) -> nat
    decreases s.len(),
{
    if s.len() == 0 {
        0
    } else {
        dec_val(s.drop_last()) * 10 + digit_val(s.last())
    }
}

proof fn lemma_dec_val_prefix_le(s: Seq<char>, i: int)
    requires
        0 <= i <= s.len(),
    ensures
        dec_val(s.take(i)) <= dec_val(s),
    decreases s.len() - i,
{
    if i < s.len() {
        let t = s.take(i + 1);
        assert(t.drop_last() =~= s.take(i));
        assert(dec_val(s.take(i)) <= dec_val(s.take(i)) * 10 + digit_val(t.last()));
        lemma_dec_val_prefix_le(s, i + 1);
    } else {
        assert(s.take(i) =~= s);
    }
}

/// Whether every character of the string is a decimal digit.
pub fn all_digits_exec(s: &str) -> (r: bool)
    ensures
        r == all_digits(s@),
{
    let n = s.unicode_len();
    let mut i: usize = 0;
    while i < n
        invariant
            n == s@.len(),
            i <= n,
            forall|m: int| 0 <= m < i ==> is_digit(s@[m]),
        decreases n - i,
    {
        let c = s.get_char(i);
        let code = c as u32;
        if code < 48 || code > 57 {
            proof {
                assert(!is_digit(s@[i as int]));
            }
            return false;
        }
        i = i + 1;
    }
    true
}

/// Parse an unsigned decimal integer; `None` when the string is empty,
/// holds a non-digit, or does not fit in a `u64`.
pub fn parse_u64(s: &str) -> (r: Option<u64>)
    ensures
        match r {
            Some(v) => s@.len() > 0 && all_digits(s@) && v == dec_val(s@) && dec_val(s@)
                <= u64::MAX,
            None => s@.len() == 0 || !all_digits(s@) || dec_val(s@) > u64::MAX,
        },
{
    let n = s.unicode_len();
    if n == 0 {
        return None;
    }
    let mut val: u64 = 0;
    let mut i: usize = 0;
    while i < n
        invariant
            n == s@.len(),
            i <= n,
            forall|m: int| 0 <= m < i ==> is_digit(s@[m]),
            val == dec_val(s@.take(i as int)),
        decreases n - i,
    {
        let c = s.get_char(i);
        let code = c as u32;
        if code < 48 || code > 57 {
            return None;
        }
        let d = (code - 48) as u64;
        proof {
            assert(s@.take(i + 1).drop_last() =~= s@.take(i as int));
            assert(s@.take(i + 1).last() == s@[i as int]);
        }
        if val > (u64::MAX - d) / 10 {
            proof {
                lemma_dec_val_prefix_le(s@, i + 1);
            }
            return None;
        }
        val = val * 10 + d;
        i = i + 1;
    }
    proof {
        assert(s@.take(n as int) =~= s@);
    }
    Some(val)
}

/// True when `pat` occurs in `s` starting at index `at`.
pub open spec fn matches_at(s: Seq<char>, pat: Seq<char>, at: int) -> bool {
    0 <= at && at + pat.len() <= s.len() && s.subrange(at, at + pat.len()) == pat
}

/// True when `pat` occurs somewhere in `s`.
pub open spec fn spec_contains(s: Seq<char>, pat: Seq<char>) -> bool {
    exists|at: int| matches_at(s, pat, at)
}

fn match_at(s: &str, n: usize, pat: &str, m: usize, at: usize) -> (r: bool)
    requires
        n == s@.len(),
        m == pat@.len(),
        at + m <= n,
    ensures
        r == matches_at(s@, pat@, at as int),
{
    let mut k: usize = 0;
    while k < m
        invariant
            n == s@.len(),
            m == pat@.len(),
            at + m <= n,
            k <= m,
            forall|q: int| 0 <= q < k ==> s@[at + q] == pat@[q],
        decreases m - k,
    {
        if s.get_char(at + k) != pat.get_char(k) {
            proof {
                assert(s@.subrange(at as int, at + m)[k as int] == s@[at + k]);
            }
            return false;
        }
        k = k + 1;
    }
    proof {
        assert(s@.subrange(at as int, at + m) =~= pat@);
    }
    true
}

/// Substring search: true when `pat` occurs anywhere in `s`.
pub fn contains_str(s: &str, pat: &str) -> (r: bool)
    ensures
        r == spec_contains(s@, pat@),
{
    let n = s.unicode_len();
    let m = pat.unicode_len();
    if m > n {
        proof {
            assert(forall|at: int| !matches_at(s@, pat@, at));
        }
        return false;
    }
    if m == 0 {
        proof {
            assert(s@.subrange(0, 0) =~= pat@);
            assert(matches_at(s@, pat@, 0));
        }
        return true;
    }
    let mut i: usize = 0;
    while i <= n - m
        invariant
            n == s@.len(),
            m == pat@.len(),
            0 < m <= n,
            i <= n - m + 1,
            forall|at: int| 0 <= at < i ==> !matches_at(s@, pat@, at),
        decreases n - m + 1 - i,
    {
        if match_at(s, n, pat, m, i) {
            return true;
        }
        i = i + 1;
    }
    proof {
        assert(forall|at: int| at > n - m ==> !matches_at(s@, pat@, at));
    }
    false
}

/// True when `s` begins with `pat`.
pub open spec fn spec_starts_with(s: Seq<char>, pat: Seq<char>) -> bool {
    pat.len() <= s.len() && s.take(pat.len() as int) == pat
}

/// Prefix test.
pub fn starts_with_str(s: &str, pat: &str) -> (r: bool)
    ensures
        r == spec_starts_with(s@, pat@),
{
    let n = s.unicode_len();
    let m = pat.unicode_len();
    if m > n {
        return false;
    }
    let r = match_at(s, n, pat, m, 0);
    proof {
        assert(s@.subrange(0, m as int) =~= s@.take(m as int));
    }
    r
}

/// `s` with leading and trailing whitespace removed.
pub open spec fn spec_trim(s: Seq<char>) -> Seq<char>
    decreases s.len(),
{
    if s.len() == 0 {
        seq![]
    } else if is_ws_char(s[0]) {
        spec_trim(s.skip(1))
    } else if is_ws_char(s.last()) {
        spec_trim(s.drop_last())
    } else {
        s
    }
}

proof fn lemma_trim_range(s: Seq<char>, lo: int, hi: int)
    requires
        0 <= lo <= hi <= s.len(),
        forall|m: int| 0 <= m < lo ==> is_ws_char(s[m]),
        forall|m: int| hi <= m < s.len() ==> is_ws_char(s[m]),
        lo < hi ==> !is_ws_char(s[lo]) && !is_ws_char(s[hi - 1]),
        lo == hi ==> lo == 0 || hi == s.len(),
    ensures
        spec_trim(s) == s.subrange(lo, hi),
    decreases s.len(),
{
    if s.len() == 0 {
        assert(s.subrange(lo, hi) =~= Seq::<char>::empty());
    } else if is_ws_char(s[0]) {
        let t = s.skip(1);
        if lo == hi {
            if lo == 0 {
                lemma_trim_range(t, 0, 0);
                assert(s.subrange(0, 0) =~= t.subrange(0, 0));
            } else {
                lemma_trim_range(t, (s.len() - 1) as int, (s.len() - 1) as int);
                assert(s.subrange(lo, hi) =~= t.subrange(s.len() - 1, s.len() - 1));
            }
        } else {
            assert(lo >= 1);
            lemma_trim_range(t, lo - 1, hi - 1);
            assert(s.subrange(lo, hi) =~= t.subrange(lo - 1, hi - 1));
        }
    } else if is_ws_char(s.last()) {
        let t = s.drop_last();
        assert(lo == 0);
        if lo == hi {
            lemma_trim_range(t, 0, 0);
            assert(s.subrange(0, 0) =~= t.subrange(0, 0));
        } else {
            assert(hi <= s.len() - 1);
            lemma_trim_range(t, lo, hi);
            assert(s.subrange(lo, hi) =~= t.subrange(lo, hi));
        }
    } else {
        assert(lo == 0 && hi == s.len());
        assert(s.subrange(lo, hi) =~= s);
    }
}

/// Remove leading and trailing whitespace.
pub fn trim_str(s: &str) -> (r: String)
    ensures
        r@ == spec_trim(s@),
{
    let n = s.unicode_len();
    let mut lo: usize = 0;
    while lo < n && ws_at(s, lo)
        invariant
            n == s@.len(),
            lo <= n,
            forall|m: int| 0 <= m < lo ==> is_ws_char(s@[m]),
        decreases n - lo,
    {
        lo = lo + 1;
    }
    let mut hi: usize = n;
    while hi > lo && ws_at(s, hi - 1)
        invariant
            n == s@.len(),
            lo <= hi <= n,
            forall|m: int| hi <= m < n ==> is_ws_char(s@[m]),
        decreases hi,
    {
        hi = hi - 1;
    }
    proof {
        lemma_trim_range(s@, lo as int, hi as int);
    }
    let out = s.substring_char(lo, hi);
    out.to_owned()
}

/// An upper-case ASCII letter mapped to its lower-case form; anything
/// else unchanged.
pub open spec fn lower_char(c: char) -> char {
    if 65 <= c as u32 <= 90 {
        ((c as u8) + 32) as char
    } else {
        c
    }
}

/// `s` with its ASCII letters lowered.
pub open spec fn spec_ascii_lower(s: Seq<char>) -> Seq<char> {
    s.map_values(|c: char| lower_char(c))
}

/// Lower the ASCII letters of a string.
pub fn ascii_lower(s: &str) -> (r: String)
    ensures
        r@ == spec_ascii_lower(s@),
{
    let n = s.unicode_len();
    let mut r = String::new();
    let mut i: usize = 0;
    proof {
        assert(r@ =~= spec_ascii_lower(s@).take(0));
    }
    while i < n
        invariant
            n == s@.len(),
            i <= n,
            r@ == spec_ascii_lower(s@).take(i as int),
        decreases n - i,
    {
        let c = s.get_char(i);
        let code = c as u32;
        let out_c: char = if 65 <= code && code <= 90 {
            ((c as u8) + 32) as char
        } else {
            c
        };
        proof {
            assert(spec_ascii_lower(s@)[i as int] == lower_char(s@[i as int]));
            assert(spec_ascii_lower(s@).take(i + 1) =~= spec_ascii_lower(s@).take(i as int).push(
                lower_char(s@[i as int]),
            ));
        }
        push_char(&mut r, out_c);
        i = i + 1;
    }
    proof {
        assert(spec_ascii_lower(s@).take(n as int) =~= spec_ascii_lower(s@));
    }
    r
}

/// True when `s` ends with `pat`.
pub open spec fn spec_ends_with(s: Seq<char>, pat: Seq<char>) -> bool {
    pat.len() <= s.len() && s.skip(s.len() - pat.len()) == pat
}

/// Suffix test.
pub fn ends_with_str(s: &str, pat: &str) -> (r: bool)
    ensures
        r == spec_ends_with(s@, pat@),
{
    let n = s.unicode_len();
    let m = pat.unicode_len();
    if m > n {
        return false;
    }
    let r = match_at(s, n, pat, m, n - m);
    proof {
        assert(s@.subrange(n - m, n as int) =~= s@.skip(n - m));
    }
    r
}

/// The first index where `pat` occurs in `s`, if it occurs.
pub fn find_str(s: &str, pat: &str) -> (r: Option<usize>)
    ensures
        match r {
            Some(at) => matches_at(s@, pat@, at as int) && forall|k: int|
                0 <= k < at ==> !matches_at(s@, pat@, k),
            None => !spec_contains(s@, pat@),
        },
{
    let n = s.unicode_len();
    let m = pat.unicode_len();
    if m > n {
        proof {
            assert(forall|at: int| !matches_at(s@, pat@, at));
        }
        return None;
    }
    if m == 0 {
        proof {
            assert(s@.subrange(0, 0) =~= pat@);
        }
        return Some(0);
    }
    let mut i: usize = 0;
    while i <= n - m
        invariant
            n == s@.len(),
            m == pat@.len(),
            0 < m <= n,
            i <= n - m + 1,
            forall|at: int| 0 <= at < i ==> !matches_at(s@, pat@, at),
        decreases n - m + 1 - i,
    {
        if match_at(s, n, pat, m, i) {
            return Some(i);
        }
        i = i + 1;
    }
    proof {
        assert(forall|at: int| at > n - m ==> !matches_at(s@, pat@, at));
    }
    None
}

/// The index of the first occurrence of `pat` in `s`, or a negative
/// value when it does not occur.
pub open spec fn spec_find(s: Seq<char>, pat: Seq<char>) -> int
    decreases s.len(),
{
    if spec_starts_with(s, pat) {
        0
    } else if s.len() == 0 {
        -1
    } else {
        let r = spec_find(s.skip(1), pat);
        if r < 0 {
            -1
        } else {
            1 + r
        }
    }
}

/// A first-occurrence scan pins down `spec_find`.
pub proof fn lemma_spec_find(s: Seq<char>, pat: Seq<char>, at: int)
    requires
        matches_at(s, pat, at),
        forall|k: int| 0 <= k < at ==> !matches_at(s, pat, k),
    ensures
        spec_find(s, pat) == at,
    decreases s.len(),
{
    assert(s.subrange(at, at + pat.len()) == pat);
    if at == 0 {
        assert(s.take(pat.len() as int) =~= s.subrange(0, pat.len() as int));
        assert(spec_starts_with(s, pat));
    } else {
        if spec_starts_with(s, pat) {
            assert(s.subrange(0, pat.len() as int) =~= s.take(pat.len() as int));
            assert(matches_at(s, pat, 0));
        }
        assert(!spec_starts_with(s, pat));
        let t = s.skip(1);
        assert(t.subrange(at - 1, at - 1 + pat.len()) =~= s.subrange(at, at + pat.len()));
        assert forall|k: int| 0 <= k < at - 1 implies !matches_at(t, pat, k) by {
            if matches_at(t, pat, k) {
                assert(t.subrange(k, k + pat.len()) =~= s.subrange(k + 1, k + 1 + pat.len()));
                assert(matches_at(s, pat, k + 1));
            }
        }
        lemma_spec_find(t, pat, at - 1);
    }
}

/// A full scan without a match pins `spec_find` negative.
pub proof fn lemma_spec_find_none(s: Seq<char>, pat: Seq<char>)
    requires
        !spec_contains(s, pat),
    ensures
        spec_find(s, pat) < 0,
    decreases s.len(),
{
    if spec_starts_with(s, pat) {
        assert(s.subrange(0, pat.len() as int) =~= s.take(pat.len() as int));
        assert(matches_at(s, pat, 0));
    }
    if s.len() != 0 {
        let t = s.skip(1);
        assert forall|k: int| !matches_at(t, pat, k) by {
            if matches_at(t, pat, k) {
                assert(t.subrange(k, k + pat.len()) =~= s.subrange(k + 1, k + 1 + pat.len()));
                assert(matches_at(s, pat, k + 1));
            }
        }
        lemma_spec_find_none(t, pat);
    }
}

/// The present values among the candidates, in order.
pub open spec fn collect_somes(cands: Seq<Option<Seq<char>>>) -> Seq<Seq<char>>
    decreases cands.len(),
{
    if cands.len() == 0 {
        Seq::empty()
    } else {
        collect_somes(cands.drop_last()) + match cands.last() {
            Some(x) => seq![x],
            None => Seq::empty(),
        }
    }
}

/// Relies on String::push: appends exactly the one character.
#[verifier::external_body]
pub fn push_char(s: &mut String, c: char)
    ensures
        final(s)@ == old(s)@.push(c),
{
    s.push(c);
}

/// A string of `n` copies of the character `c`.
pub fn char_repeat(c: char, n: usize) -> (r: String)
    ensures
        r@ == Seq::new(n as nat, |i: int| c),
{
    let mut r = String::new();
    let mut i: usize = 0;
    while i < n
        invariant
            i <= n,
            r@ == Seq::new(i as nat, |k: int| c),
        decreases n - i,
    {
        push_char(&mut r, c);
        proof {
            assert(Seq::new(i as nat, |k: int| c).push(c) =~= Seq::new((i + 1) as nat, |k: int| c));
        }
        i = i + 1;
    }
    r
}

/// `s` with trailing whitespace removed.
pub open spec fn spec_trim_end(s: Seq<char>) -> Seq<char>
    decreases s.len(),
{
    if s.len() == 0 {
        seq![]
    } else if is_ws_char(s.last()) {
        spec_trim_end(s.drop_last())
    } else {
        s
    }
}

/// Remove trailing whitespace.
pub fn trim_end_str(s: &str) -> (r: String)
    ensures
        r@ == spec_trim_end(s@),
{
    let n = s.unicode_len();
    let mut hi: usize = n;
    proof {
        assert(s@.take(n as int) =~= s@);
    }
    while hi > 0 && ws_at(s, hi - 1)
        invariant
            n == s@.len(),
            hi <= n,
            spec_trim_end(s@) == spec_trim_end(s@.take(hi as int)),
        decreases hi,
    {
        proof {
            assert(s@.take(hi as int).last() == s@[hi - 1]);
            assert(s@.take(hi as int).drop_last() =~= s@.take(hi - 1));
        }
        hi = hi - 1;
    }
    proof {
        if hi > 0 {
            assert(s@.take(hi as int).last() == s@[hi - 1]);
        }
        assert(spec_trim_end(s@.take(hi as int)) == s@.take(hi as int));
        assert(s@.subrange(0, hi as int) =~= s@.take(hi as int));
    }
    let out = s.substring_char(0, hi);
    out.to_owned()
}

/// The values with later duplicates dropped: first seen wins, order
/// kept.
pub open spec fn spec_dedup(values: Seq<Seq<char>>, acc: Seq<Seq<char>>) -> Seq<Seq<char>>
    decreases values.len(),
{
    if values.len() == 0 {
        acc
    } else {
        let next = if acc.contains(values[0]) {
            acc
        } else {
            acc.push(values[0])
        };
        spec_dedup(values.skip(1), next)
    }
}

/// Drop later duplicates, keeping first-seen insertion order.
pub fn dedup_keep_order(values: &Vec<String>) -> (out: Vec<String>)
    ensures
        views_of(out@) == spec_dedup(views_of(values@), Seq::<Seq<char>>::empty()),
{
    let mut out: Vec<String> = Vec::new();
    let mut i: usize = 0;
    let ghost vv = views_of(values@);
    proof {
        assert(vv.skip(0) =~= vv);
        assert(views_of(out@) =~= Seq::<Seq<char>>::empty());
    }
    while i < values.len()
        invariant
            vv == views_of(values@),
            i <= values@.len(),
            spec_dedup(vv, Seq::<Seq<char>>::empty()) == spec_dedup(
                vv.skip(i as int),
                views_of(out@),
            ),
        decreases values@.len() - i,
    {
        proof {
            assert(vv[i as int] == values@[i as int]@);
            assert(vv.skip(i as int)[0] == vv[i as int]);
            assert(vv.skip(i as int).skip(1) =~= vv.skip(i + 1));
        }
        let mut seen = false;
        let mut k: usize = 0;
        while k < out.len()
            invariant
                vv == views_of(values@),
                i < values@.len(),
                k <= out@.len(),
                seen ==> views_of(out@).contains(values@[i as int]@),
                !seen ==> forall|m: int| 0 <= m < k ==> views_of(out@)[m] != values@[i as int]@,
            decreases out@.len() - k,
        {
            proof {
                assert(views_of(out@)[k as int] == out@[k as int]@);
            }
            if str_eq(out[k].as_str(), values[i].as_str()) {
                proof {
                    assert(views_of(out@)[k as int] == values@[i as int]@);
                    assert(views_of(out@).contains(values@[i as int]@));
                }
                seen = true;
            } else {
                proof {
                    assert(views_of(out@)[k as int] != values@[i as int]@);
                }
            }
            k = k + 1;
        }
        proof {
            if !seen && views_of(out@).contains(values@[i as int]@) {
                let m = choose|m: int|
                    0 <= m < views_of(out@).len() && views_of(out@)[m] == values@[i as int]@;
                assert(views_of(out@)[m] != values@[i as int]@);
            }
        }
        if !seen {
            let pushed = values[i].clone();
            proof {
                assert(views_of(out@.push(pushed)) =~= views_of(out@).push(values@[i as int]@));
            }
            out.push(pushed);
        }
        i = i + 1;
    }
    proof {
        assert(vv.skip(values@.len() as int) =~= Seq::<Seq<char>>::empty());
    }
    out
}

/// Character-for-character equality of two string slices.
pub fn str_eq(a: &str, b: &str) -> (r: bool)
    ensures
        r == (a@ == b@),
{
    let n = a.unicode_len();
    let m = b.unicode_len();
    if n != m {
        return false;
    }
    let r = match_at(a, n, b, m, 0);
    proof {
        assert(a@.subrange(0, m as int) =~= a@);
    }
    r
}

} // verus!
