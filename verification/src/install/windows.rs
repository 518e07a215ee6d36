//! Shell-profile editing for Windows hosts: the text that installs the
//! tool into the PowerShell profile, and the removal of this tool's
//! block and of the legacy generations' blocks.

use vstd::prelude::*;
use vstd::string::*;
use crate::install::{
    filter_delimited, filter_marker_block, spec_filter_delimited, spec_filter_marker,
    spec_squeeze_blanks, spec_trim_trailing_blanks, squeeze_blanks, trim_trailing_blanks,
    MARKER_END, MARKER_START,
};
use crate::text::{
    contains_str, join_range, spec_contains, spec_join, spec_split, spec_trim, spec_trim_end,
    split_on, trim_end_str, trim_str, views_of,
};

verus! {

/// Legacy markers of the first generation's blocks (brace-delimited).
pub const TR100_MARKER_A: &'static str =
    "# Run Machine Report only when in interactive mode";

pub const TR100_MARKER_B: &'static str = "# TR-100 Machine Report";

/// Legacy delimiters of the second generation's block.
pub const TR200_START: &'static str = "# >>> TR-200 Machine Report configuration >>>";

pub const TR200_END: &'static str = "# <<< TR-200 Machine Report configuration <<<";

/// Legacy marker of the second generation's package-manager block.
pub const TR200_NPM: &'static str = "# TR-200 Machine Report (npm) - auto-run";

/// The profile block this tool installs.
pub const POWERSHELL_ADDITIONS: &'static str =
    "# TR-300 Machine Report\nSet-Alias -Name report -Value tr300\n\n# Auto-run on interactive shell\nif ($Host.Name -eq 'ConsoleHost') {\n    tr300\n}\n# End TR-300";

/// One step of the brace scan: an opening brace deepens (saturating at
/// the machine bound), a closing brace at positive depth rises, and
/// closing the last brace ends the skip.
pub open spec fn brace_step(state: (nat, bool), c: char) -> (nat, bool) {
    let depth = state.0;
    let skipping = state.1;
    if c == '{' {
        (if depth < usize::MAX {
            depth + 1
        } else {
            depth
        }, skipping)
    } else if c == '}' {
        if depth > 0 {
            ((depth - 1) as nat, if depth == 1 {
                false
            } else {
                skipping
            })
        } else {
            (depth, skipping)
        }
    } else {
        (depth, skipping)
    }
}

/// The brace-depth and skip state after scanning a whole line.
pub open spec fn spec_brace_line(l: Seq<char>, state: (nat, bool)) -> (nat, bool)
    decreases l.len(),
{
    if l.len() == 0 {
        state
    } else {
        brace_step(spec_brace_line(l.drop_last(), state), l.last())
    }
}

fn brace_line(l: &str, depth: usize, skipping: bool) -> (r: (usize, bool))
    ensures
        (r.0 as nat, r.1) == spec_brace_line(l@, (depth as nat, skipping)),
{
    let n = l.unicode_len();
    let mut d = depth;
    let mut s = skipping;
    let mut i: usize = 0;
    proof {
        assert(l@.take(0) =~= Seq::<char>::empty());
    }
    while i < n
        invariant
            n == l@.len(),
            i <= n,
            (d as nat, s) == spec_brace_line(l@.take(i as int), (depth as nat, skipping)),
        decreases n - i,
    {
        proof {
            assert(l@.take(i + 1).drop_last() =~= l@.take(i as int));
            assert(l@.take(i + 1).last() == l@[i as int]);
        }
        let c = l.get_char(i);
        if c == '{' {
            if d < usize::MAX {
                d = d + 1;
            }
        } else if c == '}' {
            if d > 0 {
                if d == 1 {
                    s = false;
                }
                d = d - 1;
            }
        }
        i = i + 1;
    }
    proof {
        assert(l@.take(n as int) =~= l@);
    }
    (d, s)
}

/// The lines left after removing a brace-delimited block that a marker
/// comment introduces: the marker line and, while skipping, every line,
/// with braces tracked until the block closes.
pub open spec fn spec_filter_if_brace(
    lines: Seq<Seq<char>>,
    marker: Seq<char>,
    skipping: bool,
    depth: nat,
) -> Seq<Seq<char>>
    decreases lines.len(),
{
    if lines.len() == 0 {
        Seq::empty()
    } else {
        let l = lines[0];
        let rest = lines.skip(1);
        if spec_contains(l, marker) {
            spec_filter_if_brace(rest, marker, true, depth)
        } else if skipping {
            let st = spec_brace_line(l, (depth, true));
            spec_filter_if_brace(rest, marker, st.1, st.0)
        } else {
            seq![l] + spec_filter_if_brace(rest, marker, false, depth)
        }
    }
}

/// Remove a brace-delimited block that a marker comment introduces.
pub fn filter_if_brace_block(lines: &Vec<String>, marker: &str) -> (out: Vec<String>)
    ensures
        views_of(out@) == spec_filter_if_brace(views_of(lines@), marker@, false, 0),
{
    let mut out: Vec<String> = Vec::new();
    let mut skipping = false;
    let mut depth: usize = 0;
    let mut i: usize = 0;
    let ghost lv = views_of(lines@);
    proof {
        assert(lv.skip(0) =~= lv);
        assert(views_of(out@) =~= Seq::<Seq<char>>::empty());
    }
    while i < lines.len()
        invariant
            lv == views_of(lines@),
            i <= lines@.len(),
            spec_filter_if_brace(lv, marker@, false, 0) == views_of(out@) + spec_filter_if_brace(
                lv.skip(i as int),
                marker@,
                skipping,
                depth as nat,
            ),
        decreases lines@.len() - i,
    {
        proof {
            assert(lv[i as int] == lines@[i as int]@);
            assert(lv.skip(i as int)[0] == lv[i as int]);
            assert(lv.skip(i as int).skip(1) =~= lv.skip(i + 1));
        }
        let line: &String = &lines[i];
        if contains_str(line.as_str(), marker) {
            skipping = true;
        } else if skipping {
            let (d2, s2) = brace_line(line.as_str(), depth, true);
            depth = d2;
            skipping = s2;
        } else {
            let pushed = line.clone();
            proof {
                assert(pushed@ == lines@[i as int]@);
                assert(views_of(out@.push(pushed)) =~= views_of(out@).push(
                    lines@[i as int]@,
                ));
                assert(views_of(out@).push(lines@[i as int]@) + spec_filter_if_brace(
                    lv.skip(i + 1),
                    marker@,
                    false,
                    depth as nat,
                ) =~= views_of(out@) + (seq![lv[i as int]] + spec_filter_if_brace(
                    lv.skip(i + 1),
                    marker@,
                    false,
                    depth as nat,
                )));
            }
            out.push(pushed);
        }
        i = i + 1;
    }
    proof {
        assert(lv.skip(lines@.len() as int) =~= Seq::<Seq<char>>::empty());
        assert(views_of(out@) + spec_filter_if_brace(
            lv.skip(lines@.len() as int),
            marker@,
            skipping,
            depth as nat,
        ) =~= views_of(out@));
    }
    out
}

/// The profile text with this tool's block and every legacy generation's
/// block removed, blank runs collapsed, trailing blanks dropped, joined
/// with the Windows line ending (nothing at all when nothing is left).
pub open spec fn spec_remove_legacy_blocks(content: Seq<char>) -> Seq<char> {
    let l0 = spec_split(content, '\n');
    let l1 = spec_filter_delimited(l0, MARKER_START@, MARKER_END@, false);
    let l2 = spec_filter_delimited(l1, TR200_START@, TR200_END@, false);
    let l3 = spec_filter_marker(l2, TR200_NPM@, false);
    let l4 = spec_filter_if_brace(l3, TR100_MARKER_A@, false, 0);
    let l5 = spec_filter_if_brace(l4, TR100_MARKER_B@, false, 0);
    let l6 = spec_trim_trailing_blanks(spec_squeeze_blanks(l5, false));
    if l6.len() == 0 {
        Seq::empty()
    } else {
        spec_join(l6, "\r\n"@) + "\r\n"@
    }
}

/// Remove this tool's block and the legacy generations' blocks from
/// PowerShell profile text.
pub fn remove_legacy_blocks(content: &str) -> (r: String)
    ensures
        r@ == spec_remove_legacy_blocks(content@),
{
    let lines = split_on(content, '\n');
    let l1 = filter_delimited(&lines, MARKER_START, MARKER_END);
    let l2 = filter_delimited(&l1, TR200_START, TR200_END);
    let l3 = filter_marker_block(&l2, TR200_NPM);
    let l4 = filter_if_brace_block(&l3, TR100_MARKER_A);
    let l5 = filter_if_brace_block(&l4, TR100_MARKER_B);
    let l6 = trim_trailing_blanks(squeeze_blanks(&l5));
    if l6.len() == 0 {
        String::new()
    } else {
        let mut joined = join_range(&l6, 0, l6.len(), "\r\n");
        proof {
            assert(l6@.subrange(0, l6@.len() as int) =~= l6@);
        }
        joined.append("\r\n");
        joined
    }
}

/// The PowerShell profile text after an install.
pub open spec fn spec_installed_profile(content: Seq<char>) -> Seq<char> {
    let cleaned = spec_remove_legacy_blocks(content);
    if spec_trim(cleaned).len() == 0 {
        POWERSHELL_ADDITIONS@
    } else {
        spec_trim_end(cleaned) + "\r\n\r\n"@ + POWERSHELL_ADDITIONS@
    }
}

/// The new PowerShell profile text an install writes.
pub fn installed_profile(content: &str) -> (r: String)
    ensures
        r@ == spec_installed_profile(content@),
{
    let cleaned = remove_legacy_blocks(content);
    let t = trim_str(cleaned.as_str());
    if t.as_str().unicode_len() == 0 {
        POWERSHELL_ADDITIONS.to_owned()
    } else {
        let mut r = trim_end_str(cleaned.as_str());
        r.append("\r\n\r\n");
        r.append(POWERSHELL_ADDITIONS);
        r
    }
}

} // verus!
