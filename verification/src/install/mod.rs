//! Shell-profile text editing for the self-installer: removing marked
//! configuration blocks from profile text. The file reads and writes,
//! and the interactive prompts, live at the process edge; the functions
//! here are pure text transformations.

pub mod unix;
pub mod windows;

use vstd::prelude::*;
use vstd::string::*;
use crate::text::{
    contains_str, spec_contains, spec_trim, split_on, spec_split, trim_str, views_of,
};

verus! {

/// Marker comment that opens this tool's profile block.
pub const MARKER_START: &'static str = "# TR-300 Machine Report";

/// Marker comment that closes this tool's profile block.
pub const MARKER_END: &'static str = "# End TR-300";

/// Uninstall options available to the user.
#[derive(Debug, Clone, Copy, PartialEq, Eq, Structural)]
pub enum UninstallOption {
    /// Remove shell profile modifications only (keep the binary).
    ProfileOnly,
    /// Complete uninstall (profile and binary).
    Complete,
    /// Cancel the operation.
    Cancel,
}

/// The lines left after removing every block delimited by the start and
/// end markers (the marker lines go too).
pub open spec fn spec_filter_delimited(
    lines: Seq<Seq<char>>,
    start: Seq<char>,
    end: Seq<char>,
    in_block: bool,
) -> Seq<Seq<char>>
    decreases lines.len(),
{
    if lines.len() == 0 {
        Seq::empty()
    } else {
        let l = lines[0];
        let rest = lines.skip(1);
        if spec_contains(l, start) {
            spec_filter_delimited(rest, start, end, true)
        } else if spec_contains(l, end) {
            spec_filter_delimited(rest, start, end, false)
        } else if !in_block {
            seq![l] + spec_filter_delimited(rest, start, end, in_block)
        } else {
            spec_filter_delimited(rest, start, end, in_block)
        }
    }
}

/// Remove every block delimited by the start and end markers.
pub fn filter_delimited(lines: &Vec<String>, start: &str, end: &str) -> (out: Vec<String>)
    ensures
        views_of(out@) == spec_filter_delimited(views_of(lines@), start@, end@, false),
{
    let mut out: Vec<String> = Vec::new();
    let mut in_block = false;
    let mut i: usize = 0;
    let ghost lv = views_of(lines@);
    proof {
        assert(lv.skip(0) =~= lv);
        assert(views_of(out@) =~= Seq::<Seq<char>>::empty());
    }
    while i < lines.len()
        invariant
            lv == views_of(lines@),
            i <= lines@.len(),
            spec_filter_delimited(lv, start@, end@, false) == views_of(out@)
                + spec_filter_delimited(lv.skip(i as int), start@, end@, in_block),
        decreases lines@.len() - i,
    {
        proof {
            assert(lv[i as int] == lines@[i as int]@);
            assert(lv.skip(i as int)[0] == lv[i as int]);
            assert(lv.skip(i as int).skip(1) =~= lv.skip(i + 1));
        }
        let line: &String = &lines[i];
        if contains_str(line.as_str(), start) {
            in_block = true;
        } else if contains_str(line.as_str(), end) {
            in_block = false;
        } else if !in_block {
            let pushed = line.clone();
            proof {
                assert(pushed@ == lines@[i as int]@);
                assert(views_of(out@.push(pushed)) =~= views_of(out@).push(
                    lines@[i as int]@,
                ));
                assert(views_of(out@).push(lines@[i as int]@) + spec_filter_delimited(
                    lv.skip(i + 1),
                    start@,
                    end@,
                    in_block,
                ) =~= views_of(out@) + (seq![lv[i as int]] + spec_filter_delimited(
                    lv.skip(i + 1),
                    start@,
                    end@,
                    in_block,
                )));
            }
            out.push(pushed);
        }
        i = i + 1;
    }
    proof {
        assert(lv.skip(lines@.len() as int) =~= Seq::<Seq<char>>::empty());
        assert(views_of(out@) + spec_filter_delimited(
            lv.skip(lines@.len() as int),
            start@,
            end@,
            in_block,
        ) =~= views_of(out@));
    }
    out
}

/// The lines left after removing each block that starts at a marker
/// line and runs until (and including) the next blank line.
pub open spec fn spec_filter_marker(
    lines: Seq<Seq<char>>,
    marker: Seq<char>,
    skipping: bool,
) -> Seq<Seq<char>>
    decreases lines.len(),
{
    if lines.len() == 0 {
        Seq::empty()
    } else {
        let l = lines[0];
        let rest = lines.skip(1);
        if spec_contains(l, marker) {
            spec_filter_marker(rest, marker, true)
        } else if skipping {
            if spec_trim(l).len() == 0 {
                spec_filter_marker(rest, marker, false)
            } else {
                spec_filter_marker(rest, marker, true)
            }
        } else {
            seq![l] + spec_filter_marker(rest, marker, false)
        }
    }
}

/// Remove each block that starts at a marker line and ends at the next
/// blank line (the blank goes too).
pub fn filter_marker_block(lines: &Vec<String>, marker: &str) -> (out: Vec<String>)
    ensures
        views_of(out@) == spec_filter_marker(views_of(lines@), marker@, false),
{
    let mut out: Vec<String> = Vec::new();
    let mut skipping = false;
    let mut i: usize = 0;
    let ghost lv = views_of(lines@);
    proof {
        assert(lv.skip(0) =~= lv);
        assert(views_of(out@) =~= Seq::<Seq<char>>::empty());
    }
    while i < lines.len()
        invariant
            lv == views_of(lines@),
            i <= lines@.len(),
            spec_filter_marker(lv, marker@, false) == views_of(out@) + spec_filter_marker(
                lv.skip(i as int),
                marker@,
                skipping,
            ),
        decreases lines@.len() - i,
    {
        proof {
            assert(lv[i as int] == lines@[i as int]@);
            assert(lv.skip(i as int)[0] == lv[i as int]);
            assert(lv.skip(i as int).skip(1) =~= lv.skip(i + 1));
        }
        let line: &String = &lines[i];
        if contains_str(line.as_str(), marker) {
            skipping = true;
        } else if skipping {
            let t = trim_str(line.as_str());
            if t.as_str().unicode_len() == 0 {
                skipping = false;
            }
        } else {
            let pushed = line.clone();
            proof {
                assert(pushed@ == lines@[i as int]@);
                assert(views_of(out@.push(pushed)) =~= views_of(out@).push(
                    lines@[i as int]@,
                ));
                assert(views_of(out@).push(lines@[i as int]@) + spec_filter_marker(
                    lv.skip(i + 1),
                    marker@,
                    false,
                ) =~= views_of(out@) + (seq![lv[i as int]] + spec_filter_marker(
                    lv.skip(i + 1),
                    marker@,
                    false,
                )));
            }
            out.push(pushed);
        }
        i = i + 1;
    }
    proof {
        assert(lv.skip(lines@.len() as int) =~= Seq::<Seq<char>>::empty());
        assert(views_of(out@) + spec_filter_marker(
            lv.skip(lines@.len() as int),
            marker@,
            skipping,
        ) =~= views_of(out@));
    }
    out
}

/// The lines with runs of blank lines collapsed to one.
pub open spec fn spec_squeeze_blanks(lines: Seq<Seq<char>>, prev_blank: bool) -> Seq<Seq<char>>
    decreases lines.len(),
{
    if lines.len() == 0 {
        Seq::empty()
    } else {
        let l = lines[0];
        let rest = lines.skip(1);
        let blank = spec_trim(l).len() == 0;
        if blank && prev_blank {
            spec_squeeze_blanks(rest, prev_blank)
        } else {
            seq![l] + spec_squeeze_blanks(rest, blank)
        }
    }
}

/// Collapse consecutive blank lines to one.
pub fn squeeze_blanks(lines: &Vec<String>) -> (out: Vec<String>)
    ensures
        views_of(out@) == spec_squeeze_blanks(views_of(lines@), false),
{
    let mut out: Vec<String> = Vec::new();
    let mut prev_blank = false;
    let mut i: usize = 0;
    let ghost lv = views_of(lines@);
    proof {
        assert(lv.skip(0) =~= lv);
        assert(views_of(out@) =~= Seq::<Seq<char>>::empty());
    }
    while i < lines.len()
        invariant
            lv == views_of(lines@),
            i <= lines@.len(),
            spec_squeeze_blanks(lv, false) == views_of(out@) + spec_squeeze_blanks(
                lv.skip(i as int),
                prev_blank,
            ),
        decreases lines@.len() - i,
    {
        proof {
            assert(lv[i as int] == lines@[i as int]@);
            assert(lv.skip(i as int)[0] == lv[i as int]);
            assert(lv.skip(i as int).skip(1) =~= lv.skip(i + 1));
        }
        let line: &String = &lines[i];
        let t = trim_str(line.as_str());
        let blank = t.as_str().unicode_len() == 0;
        if blank && prev_blank {
        } else {
            let pushed = line.clone();
            proof {
                assert(pushed@ == lines@[i as int]@);
                assert(views_of(out@.push(pushed)) =~= views_of(out@).push(
                    lines@[i as int]@,
                ));
                assert(views_of(out@).push(lines@[i as int]@) + spec_squeeze_blanks(
                    lv.skip(i + 1),
                    blank,
                ) =~= views_of(out@) + (seq![lv[i as int]] + spec_squeeze_blanks(
                    lv.skip(i + 1),
                    blank,
                )));
            }
            out.push(pushed);
            prev_blank = blank;
        }
        i = i + 1;
    }
    proof {
        assert(lv.skip(lines@.len() as int) =~= Seq::<Seq<char>>::empty());
        assert(views_of(out@) + spec_squeeze_blanks(
            lv.skip(lines@.len() as int),
            prev_blank,
        ) =~= views_of(out@));
    }
    out
}

/// The lines with trailing blank lines removed.
pub open spec fn spec_trim_trailing_blanks(lines: Seq<Seq<char>>) -> Seq<Seq<char>>
    decreases lines.len(),
{
    if lines.len() == 0 {
        Seq::empty()
    } else if spec_trim(lines.last()).len() == 0 {
        spec_trim_trailing_blanks(lines.drop_last())
    } else {
        lines
    }
}

/// Remove trailing blank lines.
pub fn trim_trailing_blanks(lines: Vec<String>) -> (out: Vec<String>)
    ensures
        views_of(out@) == spec_trim_trailing_blanks(views_of(lines@)),
{
    let ghost orig = views_of(lines@);
    let mut out = lines;
    loop
        invariant
            spec_trim_trailing_blanks(orig) == spec_trim_trailing_blanks(views_of(out@)),
        ensures
            views_of(out@) == spec_trim_trailing_blanks(orig),
        decreases out@.len(),
    {
        let n = out.len();
        if n == 0 {
            proof {
                assert(views_of(out@) =~= Seq::<Seq<char>>::empty());
            }
            break ;
        }
        proof {
            assert(views_of(out@)[n - 1] == out@[n - 1]@);
        }
        let last: &String = &out[n - 1];
        let t = trim_str(last.as_str());
        if t.as_str().unicode_len() > 0 {
            proof {
                assert(spec_trim_trailing_blanks(views_of(out@)) == views_of(out@));
            }
            break ;
        }
        proof {
            assert(views_of(out@).drop_last() =~= views_of(out@.drop_last()));
        }
        out.pop();
    }
    out
}

/// The lines with trailing empty lines removed (empty, not merely
/// blank: this is the uninstall path's cleanup).
pub open spec fn spec_trim_trailing_empty(lines: Seq<Seq<char>>) -> Seq<Seq<char>>
    decreases lines.len(),
{
    if lines.len() == 0 {
        Seq::empty()
    } else if lines.last().len() == 0 {
        spec_trim_trailing_empty(lines.drop_last())
    } else {
        lines
    }
}

/// Remove trailing empty lines.
pub fn trim_trailing_empty(lines: Vec<String>) -> (out: Vec<String>)
    ensures
        views_of(out@) == spec_trim_trailing_empty(views_of(lines@)),
{
    let ghost orig = views_of(lines@);
    let mut out = lines;
    loop
        invariant
            spec_trim_trailing_empty(orig) == spec_trim_trailing_empty(views_of(out@)),
        ensures
            views_of(out@) == spec_trim_trailing_empty(orig),
        decreases out@.len(),
    {
        let n = out.len();
        if n == 0 {
            proof {
                assert(views_of(out@) =~= Seq::<Seq<char>>::empty());
            }
            break ;
        }
        proof {
            assert(views_of(out@)[n - 1] == out@[n - 1]@);
        }
        let last: &String = &out[n - 1];
        if last.as_str().unicode_len() > 0 {
            proof {
                assert(spec_trim_trailing_empty(views_of(out@)) == views_of(out@));
            }
            break ;
        }
        proof {
            assert(views_of(out@).drop_last() =~= views_of(out@.drop_last()));
        }
        out.pop();
    }
    out
}

/// The profile text with this tool's marked block removed: the lines
/// outside the markers, trailing empty lines dropped, joined with the
/// line ending and terminated by one; absent when no start marker
/// occurs (nothing to remove).
pub open spec fn spec_profile_without_block(content: Seq<char>, nl: Seq<char>) -> Option<
    Seq<char>,
> {
    if !spec_contains(content, MARKER_START@) {
        None
    } else {
        let kept = spec_trim_trailing_empty(
            spec_filter_delimited(spec_split(content, '\n'), MARKER_START@, MARKER_END@, false),
        );
        Some(crate::text::spec_join(kept, nl) + nl)
    }
}

/// Remove this tool's marked block from profile text, joining the kept
/// lines with the given line ending; `None` when no block is present.
pub fn profile_without_block(content: &str, nl: &str) -> (r: Option<String>)
    ensures
        match r {
            Some(s) => spec_profile_without_block(content@, nl@) == Some(s@),
            None => spec_profile_without_block(content@, nl@) is None,
        },
{
    if !contains_str(content, MARKER_START) {
        return None;
    }
    let lines = split_on(content, '\n');
    let kept = filter_delimited(&lines, MARKER_START, MARKER_END);
    let kept = trim_trailing_empty(kept);
    let mut joined = crate::text::join_range(&kept, 0, kept.len(), nl);
    proof {
        assert(kept@.subrange(0, kept@.len() as int) =~= kept@);
    }
    joined.append(nl);
    Some(joined)
}

} // verus!
