//! Shell-profile editing for Unix-like hosts: the text that installs
//! the tool into a profile, and the removal of this tool's block and of
//! the legacy generations' blocks before reinstalling.

use vstd::prelude::*;
use vstd::string::*;
use crate::install::{
    filter_delimited, filter_marker_block, spec_filter_delimited, spec_filter_marker,
    spec_squeeze_blanks, spec_trim_trailing_blanks, squeeze_blanks, trim_trailing_blanks,
    MARKER_END, MARKER_START,
};
use crate::text::{
    contains_str, join_range, spec_contains, spec_join, spec_split, spec_starts_with, spec_trim,
    spec_trim_end, split_on, starts_with_str, str_eq, trim_end_str, trim_str, views_of,
};

verus! {

/// Legacy marker of the first generation's block (an `if`...`fi` block).
pub const TR100_MARKER: &'static str =
    "# Run Machine Report only when in interactive mode";

/// Legacy markers of the second generation's blocks (each runs to the
/// next blank line).
pub const TR200_MARKER_A: &'static str = "# TR-200 Machine Report configuration";

pub const TR200_MARKER_B: &'static str = "# TR-200 Machine Report - run on login";

pub const TR200_MARKER_C: &'static str = "# TR-200 Machine Report - run on bash login";

pub const TR200_MARKER_D: &'static str = "# TR-200 Machine Report (npm) - auto-run";

/// The profile block this tool installs: an alias and an auto-run on
/// interactive shells, between the marker comments.
pub const SHELL_ADDITIONS: &'static str =
    "# TR-300 Machine Report\nalias report='tr300'\n\n# Auto-run on interactive shell\nif [[ $- == *i* ]]; then\n    tr300\nfi\n# End TR-300";

/// The lines left after removing an `if`...`fi` block introduced by a
/// marker comment, tracking nested `if` depth.
pub open spec fn spec_filter_if_fi(
    lines: Seq<Seq<char>>,
    marker: Seq<char>,
    skipping: bool,
    depth: nat,
) -> Seq<Seq<char>>
    decreases lines.len(),
{
    if lines.len() == 0 {
        Seq::empty()
    } else {
        let l = lines[0];
        let rest = lines.skip(1);
        if spec_contains(l, marker) {
            spec_filter_if_fi(rest, marker, true, depth)
        } else if skipping {
            let t = spec_trim(l);
            if spec_starts_with(t, "if "@) || spec_starts_with(t, "if["@) {
                spec_filter_if_fi(rest, marker, true, depth + 1)
            } else if t == "fi"@ || spec_starts_with(t, "fi "@) || spec_starts_with(t, "fi;"@) {
                if depth > 0 {
                    if depth == 1 {
                        spec_filter_if_fi(rest, marker, false, 0)
                    } else {
                        spec_filter_if_fi(rest, marker, true, (depth - 1) as nat)
                    }
                } else {
                    spec_filter_if_fi(rest, marker, true, depth)
                }
            } else {
                spec_filter_if_fi(rest, marker, true, depth)
            }
        } else {
            seq![l] + spec_filter_if_fi(rest, marker, false, depth)
        }
    }
}

/// Remove an `if`...`fi` block that a marker comment introduces,
/// honouring nested `if` statements.
pub fn filter_if_fi_block(lines: &Vec<String>, marker: &str) -> (out: Vec<String>)
    ensures
        views_of(out@) == spec_filter_if_fi(views_of(lines@), marker@, false, 0),
{
    let mut out: Vec<String> = Vec::new();
    let mut skipping = false;
    let mut depth: usize = 0;
    let mut i: usize = 0;
    let ghost lv = views_of(lines@);
    proof {
        assert(lv.skip(0) =~= lv);
        assert(views_of(out@) =~= Seq::<Seq<char>>::empty());
    }
    while i < lines.len()
        invariant
            lv == views_of(lines@),
            i <= lines@.len(),
            depth <= i,
            spec_filter_if_fi(lv, marker@, false, 0) == views_of(out@) + spec_filter_if_fi(
                lv.skip(i as int),
                marker@,
                skipping,
                depth as nat,
            ),
        decreases lines@.len() - i,
    {
        proof {
            assert(lv[i as int] == lines@[i as int]@);
            assert(lv.skip(i as int)[0] == lv[i as int]);
            assert(lv.skip(i as int).skip(1) =~= lv.skip(i + 1));
        }
        let line: &String = &lines[i];
        if contains_str(line.as_str(), marker) {
            skipping = true;
        } else if skipping {
            let t = trim_str(line.as_str());
            if starts_with_str(t.as_str(), "if ") || starts_with_str(t.as_str(), "if[") {
                depth = depth + 1;
            } else if str_eq(t.as_str(), "fi") || starts_with_str(t.as_str(), "fi ")
                || starts_with_str(t.as_str(), "fi;") {
                if depth > 0 {
                    if depth == 1 {
                        depth = 0;
                        skipping = false;
                    } else {
                        depth = depth - 1;
                    }
                }
            }
        } else {
            let pushed = line.clone();
            proof {
                assert(pushed@ == lines@[i as int]@);
                assert(views_of(out@.push(pushed)) =~= views_of(out@).push(
                    lines@[i as int]@,
                ));
                assert(views_of(out@).push(lines@[i as int]@) + spec_filter_if_fi(
                    lv.skip(i + 1),
                    marker@,
                    false,
                    depth as nat,
                ) =~= views_of(out@) + (seq![lv[i as int]] + spec_filter_if_fi(
                    lv.skip(i + 1),
                    marker@,
                    false,
                    depth as nat,
                )));
            }
            out.push(pushed);
        }
        i = i + 1;
    }
    proof {
        assert(lv.skip(lines@.len() as int) =~= Seq::<Seq<char>>::empty());
        assert(views_of(out@) + spec_filter_if_fi(
            lv.skip(lines@.len() as int),
            marker@,
            skipping,
            depth as nat,
        ) =~= views_of(out@));
    }
    out
}

/// The profile text with this tool's block and every legacy generation's
/// block removed, blank runs collapsed, trailing blanks dropped, and a
/// final newline kept (nothing at all when nothing is left).
pub open spec fn spec_remove_legacy_blocks(content: Seq<char>) -> Seq<char> {
    let l0 = spec_split(content, '\n');
    let l1 = spec_filter_delimited(l0, MARKER_START@, MARKER_END@, false);
    let l2 = spec_filter_marker(l1, TR200_MARKER_A@, false);
    let l3 = spec_filter_marker(l2, TR200_MARKER_B@, false);
    let l4 = spec_filter_marker(l3, TR200_MARKER_C@, false);
    let l5 = spec_filter_marker(l4, TR200_MARKER_D@, false);
    let l6 = spec_filter_if_fi(l5, TR100_MARKER@, false, 0);
    let l7 = spec_trim_trailing_blanks(spec_squeeze_blanks(l6, false));
    if l7.len() == 0 {
        Seq::empty()
    } else {
        spec_join(l7, "\n"@) + "\n"@
    }
}

/// Remove this tool's block and the legacy generations' blocks from
/// profile text.
pub fn remove_legacy_blocks(content: &str) -> (r: String)
    ensures
        r@ == spec_remove_legacy_blocks(content@),
{
    let lines = split_on(content, '\n');
    let l1 = filter_delimited(&lines, MARKER_START, MARKER_END);
    let l2 = filter_marker_block(&l1, TR200_MARKER_A);
    let l3 = filter_marker_block(&l2, TR200_MARKER_B);
    let l4 = filter_marker_block(&l3, TR200_MARKER_C);
    let l5 = filter_marker_block(&l4, TR200_MARKER_D);
    let l6 = filter_if_fi_block(&l5, TR100_MARKER);
    let l7 = trim_trailing_blanks(squeeze_blanks(&l6));
    if l7.len() == 0 {
        String::new()
    } else {
        let mut joined = join_range(&l7, 0, l7.len(), "\n");
        proof {
            assert(l7@.subrange(0, l7@.len() as int) =~= l7@);
        }
        joined.append("\n");
        joined
    }
}

/// The profile text after an install: the cleaned text (legacy blocks
/// out) with this tool's block appended; a profile that cleans down to
/// whitespace is replaced outright.
pub open spec fn spec_installed_profile(content: Seq<char>) -> Seq<char> {
    let cleaned = spec_remove_legacy_blocks(content);
    if spec_trim(cleaned).len() == 0 {
        SHELL_ADDITIONS@ + "\n"@
    } else {
        spec_trim_end(cleaned) + "\n\n"@ + SHELL_ADDITIONS@ + "\n"@
    }
}

/// The new profile text an install writes.
pub fn installed_profile(content: &str) -> (r: String)
    ensures
        r@ == spec_installed_profile(content@),
{
    let cleaned = remove_legacy_blocks(content);
    let t = trim_str(cleaned.as_str());
    if t.as_str().unicode_len() == 0 {
        let mut r = SHELL_ADDITIONS.to_owned();
        r.append("\n");
        r
    } else {
        let mut r = trim_end_str(cleaned.as_str());
        r.append("\n\n");
        r.append(SHELL_ADDITIONS);
        r.append("\n");
        r
    }
}

} // verus!
